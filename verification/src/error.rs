//! Why a request is turned down.
use vstd::prelude::*;

verus! {

/// What can be wrong with the native coins sent along with a message.
#[derive(Debug, PartialEq, Eq)]
pub enum PaymentError {
    MissingDenom(String),
    ExtraDenom(String),
    MultipleDenoms,
    NoFunds,
    NonPayable,
}

/// Why the adapter turns a request down. `E` is the error of whatever the
/// adapter is deployed on: its storage, its queries, its address format.
#[derive(Debug, PartialEq, Eq)]
pub enum ContractError<E> {
    /// A call out of the adapter failed; the error is handed on as it came.
    Outside(E),
    /// The coins sent along are not exactly one coin.
    Payment(PaymentError),
    /// An amount does not fit in 128 bits.
    Overflow,
    /// The sender may not make this request.
    Unauthorized,
    /// There is no swap operation to carry out.
    SwapOperationsEmpty,
    /// The asset offered is not what the first swap operation takes in.
    CoinInDenomMismatch,
    /// The asset asked for is not what the last swap operation gives out.
    CoinOutDenomMismatch,
    /// The adapter holds nothing of the asset it is to offer.
    NoOfferAssetAmount,
}

/// The view of what an answer holds; its error, if it is one, stands for itself.
pub open spec fn seen<T: View, E>(answer: Result<T, E>) -> Result<T::V, E> {
    match answer {
        Ok(value) => Ok(value@),
        Err(error) => Err(error),
    }
}

} // verus!
