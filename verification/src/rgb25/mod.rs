//! Interface for collectible fungible assets and its features.

pub mod issuer;
pub mod wrapper;

pub use issuer::{Issue, Rgb25Genesis};
pub use wrapper::Rgb25Wrapper;

use vstd::prelude::*;
use crate::features::{FeatureName, IfaceStep};

verus! {

/// Features of a contract of collectible fungible assets.
#[derive(Copy, Clone, Debug, Hash, PartialEq, Eq, Structural, PartialOrd, Ord)]
pub struct Rgb25 {
    /// Whether assets can be burned.
    pub burnable: bool,
}

impl Default for Rgb25 {
    fn default() -> (r: Rgb25)
        ensures
            r == Rgb25::spec_none(),
    {
        Rgb25 { burnable: false }
    }
}

impl Rgb25 {
    /// Name of the interface class.
    pub const IFACE_NAME: &'static str = "RGB25";

    /// The contract with no optional feature.
    pub open spec fn spec_none() -> Rgb25 {
        Rgb25 { burnable: false }
    }

    /// The contract with every optional feature.
    pub open spec fn spec_all() -> Rgb25 {
        Rgb25 { burnable: true }
    }

    /// Names of the features, in alphabetical order: `fractional` always,
    /// `burnable` where assets can be burned.
    pub open spec fn spec_to_list(self) -> Seq<FeatureName> {
        if self.burnable {
            seq![FeatureName::Burnable, FeatureName::Fractional]
        } else {
            seq![FeatureName::Fractional]
        }
    }

    /// Steps that compose the interface of the contract from the interface
    /// of named contracts: the base of the assets, then burning where asked
    /// for.
    pub open spec fn spec_iface_steps(self) -> Seq<IfaceStep> {
        if self.burnable {
            seq![IfaceStep::Rgb25Base, IfaceStep::Rgb25Burnable]
        } else {
            seq![IfaceStep::Rgb25Base]
        }
    }

    /// The contract with no optional feature.
    pub fn none() -> (r: Rgb25)
        ensures
            r == Rgb25::spec_none(),
    {
        Rgb25 { burnable: false }
    }

    /// The contract with every optional feature.
    pub fn all() -> (r: Rgb25)
        ensures
            r == Rgb25::spec_all(),
    {
        Rgb25 { burnable: true }
    }

    /// The feature sets that have a standard interface.
    pub fn enumerate() -> (r: Vec<Rgb25>)
        ensures
            r@ == seq![Rgb25::spec_none(), Rgb25::spec_all()],
    {
        let mut list = Vec::new();
        list.push(Rgb25::none());
        list.push(Rgb25::all());
        assert(list@ =~= seq![Rgb25::spec_none(), Rgb25::spec_all()]);
        list
    }

    /// Names of the features of the contract, in alphabetical order.
    pub fn to_list(&self) -> (r: Vec<FeatureName>)
        ensures
            r@ == self.spec_to_list(),
    {
        let mut list = Vec::new();
        if self.burnable {
            list.push(FeatureName::Burnable);
        }
        list.push(FeatureName::Fractional);
        assert(list@ =~= self.spec_to_list());
        list
    }

    /// Steps that compose the interface of the contract, in the order in
    /// which they are applied.
    pub fn iface_steps(&self) -> (r: Vec<IfaceStep>)
        ensures
            r@ == self.spec_iface_steps(),
    {
        let mut steps = Vec::new();
        steps.push(IfaceStep::Rgb25Base);
        if self.burnable {
            steps.push(IfaceStep::Rgb25Burnable);
        }
        assert(steps@ =~= self.spec_iface_steps());
        steps
    }
}

} // verus!
