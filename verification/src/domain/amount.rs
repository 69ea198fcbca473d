//! Amounts of money in minor units.
use vstd::prelude::*;

use crate::decimal::{decimal, decimal_of};
use crate::domain::enums::Currency;

verus! {

/// An amount in the currency's minor unit.
#[derive(Clone, Copy, PartialEq, Eq, Structural, Debug)]
pub struct MinorUnit(pub i64);

/// An amount in minor units, written out as the bank takes it.
#[derive(PartialEq, Eq, Debug)]
pub struct StringMinorUnit(pub String);

impl View for StringMinorUnit {
    type V = Seq<char>;

    open spec fn view(&self) -> Seq<char> {
        self.0@
    }
}

/// Writes amounts in minor units as decimal text, whatever the currency.
#[derive(Clone, Copy, PartialEq, Eq, Structural, Debug)]
pub struct StringMinorUnitForConnector;

impl StringMinorUnitForConnector {
    pub fn convert(&self, amount: MinorUnit, _currency: &Currency) -> (r: StringMinorUnit)
        ensures
            r@ == decimal(amount.0 as int),
    {
        StringMinorUnit(decimal_of(amount.0))
    }
}

} // verus!
