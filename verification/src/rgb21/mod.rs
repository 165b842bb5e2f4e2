//! Interface for non-fungible tokens and its features.

pub mod issuer;
pub mod types;

pub use issuer::{IssuerError, Rgb21Genesis, Rgb21PrimaryIssue};
pub use types::{
    AllocationParseError, AttachmentName, AttachmentType, EmbeddedMedia, EngravingData, ItemsCount,
    NftAllocation, OwnedFraction, TokenData, TokenIndex, LIB_NAME_RGB21,
};

use vstd::prelude::*;
use crate::features::{FeatureName, IfaceStep};

verus! {

/// How many tokens a contract may issue.
#[derive(Copy, Clone, Debug, Hash, PartialEq, Eq, Structural, PartialOrd, Ord)]
pub enum Issues {
    /// One token, issued once.
    Unique,
    /// A fixed number of tokens, issued once.
    Limited,
    /// Tokens can be issued again and again.
    MultiIssue,
}

impl Default for Issues {
    fn default() -> (r: Issues)
        ensures
            r == Issues::Unique,
    {
        Issues::Unique
    }
}

/// Features of a contract of non-fungible tokens.
#[derive(Copy, Clone, Debug, Hash, PartialEq, Eq, Structural, PartialOrd, Ord)]
pub struct Rgb21 {
    /// Whether the asset can be renamed.
    pub renaming: bool,
    /// Whether tokens can be engraved.
    pub engraving: bool,
    /// How many tokens can be issued.
    pub issues: Issues,
}

impl Default for Rgb21 {
    fn default() -> (r: Rgb21)
        ensures
            r == Rgb21::spec_none(),
    {
        Rgb21 { renaming: false, engraving: false, issues: Issues::Unique }
    }
}

impl Rgb21 {
    /// Name of the interface class.
    pub const IFACE_NAME: &'static str = "RGB21";

    /// The contract with no optional feature.
    pub open spec fn spec_none() -> Rgb21 {
        Rgb21 { renaming: false, engraving: false, issues: Issues::Unique }
    }

    /// The contract with every optional feature.
    pub open spec fn spec_all() -> Rgb21 {
        Rgb21 { renaming: true, engraving: true, issues: Issues::MultiIssue }
    }

    /// Names of the features, in alphabetical order: `fractional` always,
    /// one name for the kind of issue, and one for each optional feature.
    pub open spec fn spec_to_list(self) -> Seq<FeatureName> {
        (if self.issues == Issues::MultiIssue {
            seq![FeatureName::Collection]
        } else {
            Seq::<FeatureName>::empty()
        }) + (if self.engraving {
            seq![FeatureName::Engravable]
        } else {
            Seq::<FeatureName>::empty()
        }) + seq![FeatureName::Fractional] + (if self.issues == Issues::Limited {
            seq![FeatureName::Limited]
        } else {
            Seq::<FeatureName>::empty()
        }) + (if self.renaming {
            seq![FeatureName::Renamable]
        } else {
            Seq::<FeatureName>::empty()
        }) + (if self.issues == Issues::Unique {
            seq![FeatureName::Unique]
        } else {
            Seq::<FeatureName>::empty()
        })
    }

    /// Steps that compose the interface of the contract from the interface
    /// of named assets: the base of the tokens, then renaming and engraving
    /// where asked for, then the kind of issue.
    pub open spec fn spec_iface_steps(self) -> Seq<IfaceStep> {
        seq![IfaceStep::Rgb21Base] + (if self.renaming {
            seq![IfaceStep::Rgb21Renameable]
        } else {
            Seq::<IfaceStep>::empty()
        }) + (if self.engraving {
            seq![IfaceStep::Rgb21Engravable]
        } else {
            Seq::<IfaceStep>::empty()
        }) + seq![
            match self.issues {
                Issues::Unique => IfaceStep::Rgb21Unique,
                Issues::Limited => IfaceStep::Rgb21Limited,
                Issues::MultiIssue => IfaceStep::Rgb21Issuable,
            },
        ]
    }

    /// The contract with no optional feature.
    pub fn none() -> (r: Rgb21)
        ensures
            r == Rgb21::spec_none(),
    {
        Rgb21 { renaming: false, engraving: false, issues: Issues::Unique }
    }

    /// The contract with every optional feature.
    pub fn all() -> (r: Rgb21)
        ensures
            r == Rgb21::spec_all(),
    {
        Rgb21 { renaming: true, engraving: true, issues: Issues::MultiIssue }
    }

    /// The feature sets that have a standard interface.
    pub fn enumerate() -> (r: Vec<Rgb21>)
        ensures
            r@ == seq![Rgb21::spec_none(), Rgb21::spec_all()],
    {
        let mut list = Vec::new();
        list.push(Rgb21::none());
        list.push(Rgb21::all());
        assert(list@ =~= seq![Rgb21::spec_none(), Rgb21::spec_all()]);
        list
    }

    /// Names of the features of the contract, in alphabetical order.
    pub fn to_list(&self) -> (r: Vec<FeatureName>)
        ensures
            r@ == self.spec_to_list(),
    {
        let mut list = Vec::new();
        if let Issues::MultiIssue = self.issues {
            list.push(FeatureName::Collection);
        }
        if self.engraving {
            list.push(FeatureName::Engravable);
        }
        list.push(FeatureName::Fractional);
        if let Issues::Limited = self.issues {
            list.push(FeatureName::Limited);
        }
        if self.renaming {
            list.push(FeatureName::Renamable);
        }
        if let Issues::Unique = self.issues {
            list.push(FeatureName::Unique);
        }
        assert(list@ =~= self.spec_to_list());
        list
    }

    /// Steps that compose the interface of the contract, in the order in
    /// which they are applied.
    pub fn iface_steps(&self) -> (r: Vec<IfaceStep>)
        ensures
            r@ == self.spec_iface_steps(),
    {
        let mut steps = Vec::new();
        steps.push(IfaceStep::Rgb21Base);
        if self.renaming {
            steps.push(IfaceStep::Rgb21Renameable);
        }
        if self.engraving {
            steps.push(IfaceStep::Rgb21Engravable);
        }
        steps.push(
            match self.issues {
                Issues::Unique => IfaceStep::Rgb21Unique,
                Issues::Limited => IfaceStep::Rgb21Limited,
                Issues::MultiIssue => IfaceStep::Rgb21Issuable,
            },
        );
        assert(steps@ =~= self.spec_iface_steps());
        steps
    }
}

} // verus!
