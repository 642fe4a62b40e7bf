//! Coins, tokens, and the amounts of them.
use vstd::prelude::*;

use crate::error::PaymentError;

verus! {

/// An amount of a native coin.
#[derive(Debug, PartialEq, Eq)]
pub struct Coin {
    pub denom: String,
    pub amount: u128,
}

#[verifier::ext_equal]
pub struct CoinView {
    pub denom: Seq<char>,
    pub amount: nat,
}

impl View for Coin {
    type V = CoinView;

    open spec fn view(&self) -> CoinView {
        CoinView { denom: self.denom@, amount: self.amount as nat }
    }
}

impl Clone for Coin {
    fn clone(&self) -> (copy: Coin)
        ensures
            copy@ == self@,
    {
        Coin { denom: self.denom.clone(), amount: self.amount }
    }
}

/// An amount of a token, named by the contract that keeps its ledger.
#[derive(Debug, PartialEq, Eq)]
pub struct Cw20Coin {
    pub address: String,
    pub amount: u128,
}

#[verifier::ext_equal]
pub struct Cw20CoinView {
    pub address: Seq<char>,
    pub amount: nat,
}

impl View for Cw20Coin {
    type V = Cw20CoinView;

    open spec fn view(&self) -> Cw20CoinView {
        Cw20CoinView { address: self.address@, amount: self.amount as nat }
    }
}

impl Clone for Cw20Coin {
    fn clone(&self) -> (copy: Cw20Coin)
        ensures
            copy@ == self@,
    {
        Cw20Coin { address: self.address.clone(), amount: self.amount }
    }
}

/// An amount of a native coin or of a token.
#[derive(Debug, PartialEq, Eq)]
pub enum Asset {
    Native(Coin),
    Cw20(Cw20Coin),
}

#[verifier::ext_equal]
pub enum AssetView {
    Native(CoinView),
    Cw20(Cw20CoinView),
}

impl AssetView {
    /// The name of the asset: the denom of a coin, the address of a token.
    pub open spec fn denom(self) -> Seq<char> {
        match self {
            AssetView::Native(coin) => coin.denom,
            AssetView::Cw20(coin) => coin.address,
        }
    }

    pub open spec fn amount(self) -> nat {
        match self {
            AssetView::Native(coin) => coin.amount,
            AssetView::Cw20(coin) => coin.amount,
        }
    }

    /// The same asset, in another amount.
    pub open spec fn with_amount(self, amount: nat) -> AssetView {
        match self {
            AssetView::Native(coin) => AssetView::Native(CoinView { amount, ..coin }),
            AssetView::Cw20(coin) => AssetView::Cw20(Cw20CoinView { amount, ..coin }),
        }
    }
}

impl View for Asset {
    type V = AssetView;

    open spec fn view(&self) -> AssetView {
        match self {
            Asset::Native(coin) => AssetView::Native(coin@),
            Asset::Cw20(coin) => AssetView::Cw20(coin@),
        }
    }
}

impl Clone for Asset {
    fn clone(&self) -> (copy: Asset)
        ensures
            copy@ == self@,
    {
        match self {
            Asset::Native(coin) => Asset::Native(coin.clone()),
            Asset::Cw20(coin) => Asset::Cw20(coin.clone()),
        }
    }
}

impl Asset {
    /// The name of the asset: the denom of a coin, the address of a token.
    pub fn denom(&self) -> (denom: &String)
        ensures
            denom@ == self@.denom(),
    {
        match self {
            Asset::Native(coin) => &coin.denom,
            Asset::Cw20(coin) => &coin.address,
        }
    }

    pub fn amount(&self) -> (amount: u128)
        ensures
            amount == self@.amount(),
    {
        match self {
            Asset::Native(coin) => coin.amount,
            Asset::Cw20(coin) => coin.amount,
        }
    }

    /// Adds to the amount. Where the total does not fit in 128 bits the asset
    /// stays as it is, and the result is `None`; otherwise it is the total.
    pub fn add(&mut self, amount: u128) -> (total: Option<u128>)
        ensures
            old(self)@.amount() + amount > u128::MAX ==> total is None && final(self)@
                == old(self)@,
            old(self)@.amount() + amount <= u128::MAX ==> {
                &&& total == Some((old(self)@.amount() + amount) as u128)
                &&& final(self)@ == old(self)@.with_amount(old(self)@.amount() + amount as nat)
            },
    {
        let total = self.amount().checked_add(amount);
        if let Some(sum) = total {
            match self {
                Asset::Native(coin) => {
                    coin.amount = sum;
                },
                Asset::Cw20(coin) => {
                    coin.amount = sum;
                },
            }
        }
        total
    }
}

/// The views of a list of coins, one by one.
pub open spec fn coins_view(coins: Seq<Coin>) -> Seq<CoinView> {
    Seq::new(coins.len(), |i: int| coins[i]@)
}

/// What sending `funds` comes to where one coin is wanted: that coin, if it is
/// the only one and there is some of it.
pub open spec fn sole_coin(funds: Seq<CoinView>) -> Result<CoinView, PaymentError> {
    if funds.len() > 1 {
        Err(PaymentError::MultipleDenoms)
    } else if funds.len() == 0 || funds[0].amount == 0 {
        Err(PaymentError::NoFunds)
    } else {
        Ok(funds[0])
    }
}

} // verus!
