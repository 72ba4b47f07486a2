//! Which part of the fee the desk keeps in sats.

use crate::number::{difference, integer, number, quotient, Double, Expr};
use vstd::prelude::*;

verus! {

/// The part of the fee that is earned in sats, as a number from zero to one.
/// The rest is earned in the native currency.
#[derive(Debug, PartialEq, Eq)]
pub struct SatEarnPercentage(Expr);

impl SatEarnPercentage {
    /// The part of the fee that is earned in sats.
    pub closed spec fn ratio(self) -> Expr {
        self.0
    }

    /// `value` per cent of the fee.
    pub fn new(value: Double) -> (percentage: SatEarnPercentage)
        requires
            value.percentage(),
        ensures
            percentage.ratio() == quotient(number(value), integer(100)),
    {
        SatEarnPercentage(Expr::Number(value).over(Expr::Integer(100)))
    }

    /// The part of the fee that is not earned in sats.
    pub fn gov_shitcoin_earn_percentage(self) -> (rest: Expr)
        ensures
            rest == difference(integer(1), self.ratio()),
    {
        Expr::Integer(1).minus(self.0)
    }

    /// The part of the fee that is earned in sats.
    pub fn into_inner(self) -> (ratio: Expr)
        ensures
            ratio == self.ratio(),
    {
        self.0
    }
}

} // verus!
