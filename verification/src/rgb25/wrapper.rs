//! What a contract of collectible fungible assets says of itself.

use vstd::prelude::*;
use crate::fungible::{saturated, total, Amount, Precision};
use crate::stl::specs::{ContractTerms, Details, Name};

verus! {

/// The state of a contract of collectible fungible assets, as far as the
/// interface shows it.
#[derive(Clone, Debug, PartialEq, Eq)]
pub struct Rgb25Wrapper {
    /// Name of the contract.
    pub name: Name,
    /// More about the contract.
    pub details: Option<Details>,
    /// Number of decimals of the amounts.
    pub precision: Precision,
    /// Terms of the contract.
    pub terms: ContractTerms,
    /// Every issue of the asset, with the amount issued.
    pub issued_supply: Vec<Amount>,
    /// The amounts burned, where the contract keeps them.
    pub burned_supply: Option<Vec<Amount>>,
}

impl Rgb25Wrapper {
    /// Number of decimals of the amounts.
    pub fn precision(&self) -> (r: Precision)
        ensures
            r == self.precision,
    {
        self.precision
    }

    /// Sum of the given allocations, saturating.
    pub fn balance(&self, allocations: &[Amount]) -> (r: Amount)
        ensures
            r@ == saturated(total(allocations@)),
    {
        Amount::sum(allocations)
    }

    /// Sum of all issues, saturating.
    pub fn total_issued_supply(&self) -> (r: Amount)
        ensures
            r@ == saturated(total(self.issued_supply@)),
    {
        Amount::sum(self.issued_supply.as_slice())
    }

    /// Sum of all that was burned, saturating; zero where the contract does
    /// not keep it.
    pub fn total_burned_supply(&self) -> (r: Amount)
        ensures
            r@ == (match self.burned_supply {
                Some(list) => saturated(total(list@)),
                None => 0,
            }),
    {
        match &self.burned_supply {
            Some(list) => Amount::sum(list.as_slice()),
            None => Amount::zero(),
        }
    }
}

} // verus!
