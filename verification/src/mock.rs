//! An exchange that exists on paper only.

use crate::hedge::Hedged;
use crate::number::{integer, Expr};
use vstd::prelude::*;

verus! {

/// Makes every hedge at the same price.
#[derive(Clone, Copy, Debug, PartialEq, Eq)]
pub struct MockProvider;

impl MockProvider {
    /// Makes a hedge, whatever its amount.
    pub fn hedge(&self, _amount: &Expr) -> (hedged: Hedged)
        ensures
            hedged.hedge_price == integer(50_000),
            hedged.liquidation_price == integer(40_000),
    {
        Hedged { hedge_price: Expr::Integer(50_000), liquidation_price: Expr::Integer(40_000) }
    }

    /// The price of bitcoin.
    pub fn fetch_price(&self) -> (price: Expr)
        ensures
            price == integer(50_000),
    {
        Expr::Integer(50_000)
    }
}

} // verus!
