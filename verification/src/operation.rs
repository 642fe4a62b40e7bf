//! Swap operations, the routes they form, and the hops the router is asked for.
use vstd::prelude::*;

use crate::asset::{Asset, AssetView};

verus! {

/// One swap through one pool. What else comes with it is carried along in
/// `rest`, unread.
#[derive(Debug, PartialEq, Eq)]
pub struct SwapOperation {
    pub pool: String,
    pub denom_in: String,
    pub denom_out: String,
    pub rest: Vec<u8>,
}

#[verifier::ext_equal]
pub struct SwapOperationView {
    pub pool: Seq<char>,
    pub denom_in: Seq<char>,
    pub denom_out: Seq<char>,
    pub rest: Seq<u8>,
}

impl View for SwapOperation {
    type V = SwapOperationView;

    open spec fn view(&self) -> SwapOperationView {
        SwapOperationView {
            pool: self.pool@,
            denom_in: self.denom_in@,
            denom_out: self.denom_out@,
            rest: self.rest@,
        }
    }
}

impl Clone for SwapOperation {
    fn clone(&self) -> (copy: SwapOperation)
        ensures
            copy@ == self@,
    {
        let rest = self.rest.clone();
        assert(rest@ =~= self.rest@);
        SwapOperation {
            pool: self.pool.clone(),
            denom_in: self.denom_in.clone(),
            denom_out: self.denom_out.clone(),
            rest,
        }
    }
}

impl SwapOperationView {
    /// Whether the pool is a concentrated liquidity one: its id joins several
    /// parts with hyphens.
    pub open spec fn is_v3(self) -> bool {
        self.pool.contains('-')
    }
}

impl SwapOperation {
    /// Whether the pool is a concentrated liquidity one: its id joins several
    /// parts with hyphens.
    pub fn is_v3(&self) -> (v3: bool)
        ensures
            v3 == self@.is_v3(),
            v3 <==> exists|i: int| 0 <= i < self.pool@.len() && self.pool@[i] == '-',
    {
        let mut v3: bool = false;
        for c in chars: self.pool.as_str().chars()
            invariant
                chars.seq() == self.pool@,
                v3 <==> chars.seq().take(chars.index() as int).contains('-'),
        {
            proof {
                let before = chars.seq().take(chars.index() as int);
                let now = chars.seq().take(chars.index() + 1);
                assert(now =~= before.push(c));
                if before.contains('-') {
                    let i = choose|i: int| 0 <= i < before.len() && before[i] == '-';
                    assert(now[i] == '-');
                }
                assert(now[now.len() - 1] == c);
            }
            if c == '-' {
                v3 = true;
            }
        }
        assert(self.pool@.take(self.pool@.len() as int) =~= self.pool@);
        v3
    }
}

/// The views of a list of operations, one by one.
pub open spec fn operations_view(operations: Seq<SwapOperation>) -> Seq<SwapOperationView> {
    Seq::new(operations.len(), |i: int| operations[i]@)
}

/// A copy of a list of operations.
pub fn copy_operations(operations: &Vec<SwapOperation>) -> (copy: Vec<SwapOperation>)
    ensures
        operations_view(copy@) == operations_view(operations@),
{
    let copy = operations.clone();
    assert(operations_view(copy@) =~= operations_view(operations@));
    copy
}

/// An asset to offer, and the operations to send it through.
#[derive(Debug, PartialEq, Eq)]
pub struct Route {
    pub offer_asset: Asset,
    pub operations: Vec<SwapOperation>,
}

#[verifier::ext_equal]
pub struct RouteView {
    pub offer_asset: AssetView,
    pub operations: Seq<SwapOperationView>,
}

impl View for Route {
    type V = RouteView;

    open spec fn view(&self) -> RouteView {
        RouteView {
            offer_asset: self.offer_asset@,
            operations: operations_view(self.operations@),
        }
    }
}

/// The views of a list of routes, one by one.
pub open spec fn routes_view(routes: Seq<Route>) -> Seq<RouteView> {
    Seq::new(routes.len(), |i: int| routes[i]@)
}

} // verus!
