//! What a contract of fungible assets says of itself.
//!
//! The state of a contract is read elsewhere; here it stands as plain
//! values, and the questions that are asked of it are answered.

use vstd::prelude::*;
use crate::fungible::{saturated, total, Amount};
use crate::rgb20::{Inflation, Rgb20};
use crate::stl::specs::{AssetSpec, ContractTerms};
use crate::text::same_text;

verus! {

/// Whether one of `names` is `name`.
pub open spec fn names_contain(names: Seq<String>, name: Seq<char>) -> bool {
    exists|i: int| 0 <= i < names.len() && (#[trigger] names[i])@ == name
}

/// Whether one of `names` is `name`.
pub fn has_name(names: &Vec<String>, name: &str) -> (r: bool)
    ensures
        r == names_contain(names@, name@),
{
    let mut i: usize = 0;
    while i < names.len()
        invariant
            i <= names@.len(),
            forall|j: int| 0 <= j < i ==> (#[trigger] names@[j])@ != name@,
        decreases names@.len() - i,
    {
        if same_text(names[i].as_str(), name) {
            return true;
        }
        i += 1;
    }
    false
}

/// The state of a contract of fungible assets, as far as the interface
/// shows it.
#[derive(Clone, Debug, PartialEq, Eq)]
pub struct Rgb20Wrapper {
    /// Names of the state transitions of the interface of the contract.
    pub transitions: Vec<String>,
    /// Specification of the asset.
    pub spec: AssetSpec,
    /// Terms of the contract.
    pub terms: ContractTerms,
    /// Every issue of the asset, with the amount issued.
    pub issued_supply: Vec<Amount>,
    /// The greatest supply as the contract states it, where it states one.
    pub max_supply: Option<Vec<Amount>>,
    /// The amounts burned, where the contract keeps them.
    pub burned_supply: Option<Vec<Amount>>,
    /// The amounts replaced, where the contract keeps them.
    pub replaced_supply: Option<Vec<Amount>>,
}

impl Rgb20Wrapper {
    /// The kind of supply that the transitions of the interface show, if
    /// they fit together.
    pub open spec fn spec_inflation(self) -> Option<Inflation> {
        Inflation::spec_from_operations(
            names_contain(self.transitions@, "issue"@),
            names_contain(self.transitions@, "burn"@),
            names_contain(self.transitions@, "replace"@),
        )
    }

    /// The sum of a list of amounts that the contract may not keep: zero
    /// where it keeps none.
    pub open spec fn spec_total(amounts: Option<Vec<Amount>>) -> nat {
        match amounts {
            Some(list) => saturated(total(list@)),
            None => 0,
        }
    }

    /// The features of the contract: it can be renamed where its interface
    /// has the transition `rename`, and the transitions `issue`, `burn` and
    /// `replace` give the kind of supply. An interface that replaces assets
    /// must also issue and burn them.
    pub fn features(&self) -> (r: Rgb20)
        requires
            self.spec_inflation() is Some,
        ensures
            r.renaming == names_contain(self.transitions@, "rename"@),
            Some(r.inflation) == self.spec_inflation(),
    {
        let renaming = has_name(&self.transitions, "rename");
        let inflatable = has_name(&self.transitions, "issue");
        let burnable = has_name(&self.transitions, "burn");
        let replaceable = has_name(&self.transitions, "replace");
        Rgb20::from_transitions(renaming, inflatable, burnable, replaceable)
    }

    /// The features of the contract, or `None` where the transitions of its
    /// interface do not fit together.
    pub fn try_features(&self) -> (r: Option<Rgb20>)
        ensures
            match r {
                Some(features) => features.renaming == names_contain(self.transitions@, "rename"@)
                    && Some(features.inflation) == self.spec_inflation(),
                None => self.spec_inflation() is None,
            },
    {
        let renaming = has_name(&self.transitions, "rename");
        let inflatable = has_name(&self.transitions, "issue");
        let burnable = has_name(&self.transitions, "burn");
        let replaceable = has_name(&self.transitions, "replace");
        match Inflation::from_operations(inflatable, burnable, replaceable) {
            Some(inflation) => Some(Rgb20 { renaming, inflation }),
            None => None,
        }
    }

    /// Sum of the given allocations, saturating.
    pub fn balance(&self, allocations: &[Amount]) -> (r: Amount)
        ensures
            r@ == saturated(total(allocations@)),
    {
        Amount::sum(allocations)
    }

    /// Sum of all issues, saturating.
    pub fn total_issued_supply(&self) -> (r: Amount)
        ensures
            r@ == saturated(total(self.issued_supply@)),
    {
        Amount::sum(self.issued_supply.as_slice())
    }

    /// The greatest supply that the contract states or, where it states
    /// none, the supply issued.
    pub fn max_supply(&self) -> (r: Amount)
        ensures
            r@ == (match self.max_supply {
                Some(list) => saturated(total(list@)),
                None => saturated(total(self.issued_supply@)),
            }),
    {
        match &self.max_supply {
            Some(list) => Amount::sum(list.as_slice()),
            None => Amount::sum(self.issued_supply.as_slice()),
        }
    }

    /// Sum of all that was burned, saturating; zero where the contract does
    /// not keep it.
    pub fn total_burned_supply(&self) -> (r: Amount)
        ensures
            r@ == Rgb20Wrapper::spec_total(self.burned_supply),
    {
        match &self.burned_supply {
            Some(list) => Amount::sum(list.as_slice()),
            None => Amount::zero(),
        }
    }

    /// Sum of all that was replaced, saturating; zero where the contract
    /// does not keep it.
    pub fn total_replaced_supply(&self) -> (r: Amount)
        ensures
            r@ == Rgb20Wrapper::spec_total(self.replaced_supply),
    {
        match &self.replaced_supply {
            Some(list) => Amount::sum(list.as_slice()),
            None => Amount::zero(),
        }
    }

    /// What was issued less what was burned. The contract must not have
    /// burned more than it issued.
    pub fn total_supply(&self) -> (r: Amount)
        requires
            Rgb20Wrapper::spec_total(self.burned_supply) <= saturated(total(self.issued_supply@)),
        ensures
            r@ == saturated(total(self.issued_supply@)) - Rgb20Wrapper::spec_total(
                self.burned_supply,
            ),
    {
        let issued = self.total_issued_supply();
        let burned = self.total_burned_supply();
        Amount(issued.0 - burned.0)
    }

    /// What was issued less what was burned, or `None` where more was
    /// burned than issued.
    pub fn checked_total_supply(&self) -> (r: Option<Amount>)
        ensures
            match r {
                Some(supply) => supply@ == saturated(total(self.issued_supply@))
                    - Rgb20Wrapper::spec_total(self.burned_supply),
                None => Rgb20Wrapper::spec_total(self.burned_supply) > saturated(
                    total(self.issued_supply@),
                ),
            },
    {
        let issued = self.total_issued_supply();
        let burned = self.total_burned_supply();
        issued.checked_sub(burned)
    }
}

} // verus!
