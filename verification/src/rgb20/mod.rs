//! Interface for fungible assets and its features.

pub mod issuer;
pub mod wrapper;

pub use issuer::{Genesis, IssueStep, IssuerError, PrimaryIssue};
pub use wrapper::Rgb20Wrapper;

use vstd::prelude::*;
use crate::features::{FeatureName, IfaceStep};

verus! {

/// Name of the library of data types of the interface.
pub const LIB_NAME_RGB20: &'static str = "RGB20";

/// How the supply of an asset may change after its issue.
#[derive(Copy, Clone, Debug, Hash, PartialEq, Eq, Structural, PartialOrd, Ord)]
pub enum Inflation {
    /// The supply never changes.
    Fixed,
    /// Assets can be burned.
    Burnable,
    /// More assets can be issued.
    Inflatable,
    /// More assets can be issued, and assets can be burned.
    InflatableBurnable,
    /// Assets can be issued, burned and replaced.
    Replaceable,
}

impl Default for Inflation {
    fn default() -> (r: Inflation)
        ensures
            r == Inflation::Fixed,
    {
        Inflation::Fixed
    }
}

impl Inflation {
    /// Whether more assets can be issued.
    pub open spec fn spec_is_inflatable(self) -> bool {
        self == Inflation::Inflatable || self == Inflation::InflatableBurnable || self
            == Inflation::Replaceable
    }

    /// Whether assets can be burned.
    pub open spec fn spec_is_burnable(self) -> bool {
        self == Inflation::Burnable || self == Inflation::Replaceable || self
            == Inflation::InflatableBurnable
    }

    /// The kind of supply of a contract that has the given operations.
    /// Replacing needs both issuing and burning: without them there is none.
    pub open spec fn spec_from_operations(
        inflatable: bool,
        burnable: bool,
        replaceable: bool,
    ) -> Option<Inflation> {
        if replaceable {
            if inflatable && burnable {
                Some(Inflation::Replaceable)
            } else {
                None
            }
        } else if inflatable && burnable {
            Some(Inflation::InflatableBurnable)
        } else if burnable {
            Some(Inflation::Burnable)
        } else if inflatable {
            Some(Inflation::Inflatable)
        } else {
            Some(Inflation::Fixed)
        }
    }

    /// The name of the kind of supply.
    pub open spec fn spec_to_string(self) -> Seq<char> {
        match self {
            Inflation::Fixed => "fixed"@,
            Inflation::Burnable => "burnable"@,
            Inflation::Inflatable => "inflatable"@,
            Inflation::InflatableBurnable => "inflatable, burnable"@,
            Inflation::Replaceable => "replaceable"@,
        }
    }

    /// Whether the supply never changes.
    pub fn is_fixed(self) -> (r: bool)
        ensures
            r == (self == Inflation::Fixed),
            r == (!self.spec_is_inflatable() && !self.spec_is_burnable()),
    {
        self == Inflation::Fixed
    }

    /// Whether more assets can be issued.
    pub fn is_inflatable(self) -> (r: bool)
        ensures
            r == self.spec_is_inflatable(),
    {
        self == Inflation::Inflatable || self == Inflation::InflatableBurnable || self
            == Inflation::Replaceable
    }

    /// Whether assets can be replaced.
    pub fn is_replaceable(self) -> (r: bool)
        ensures
            r == (self == Inflation::Replaceable),
    {
        self == Inflation::Replaceable
    }

    /// Whether assets can be burned.
    pub fn is_burnable(self) -> (r: bool)
        ensures
            r == self.spec_is_burnable(),
    {
        self == Inflation::Burnable || self == Inflation::Replaceable || self
            == Inflation::InflatableBurnable
    }

    /// The kind of supply of a contract that has the given operations;
    /// `None` where assets could be replaced but not both issued and burned.
    pub fn from_operations(inflatable: bool, burnable: bool, replaceable: bool) -> (r: Option<
        Inflation,
    >)
        ensures
            r == Inflation::spec_from_operations(inflatable, burnable, replaceable),
            r.is_some() <==> (replaceable ==> inflatable && burnable),
            r.is_some() ==> r.unwrap().spec_is_inflatable() == inflatable
                && r.unwrap().spec_is_burnable() == burnable && (r.unwrap()
                == Inflation::Replaceable) == replaceable,
    {
        match (inflatable, burnable, replaceable) {
            (true, true, true) => Some(Inflation::Replaceable),
            (true, true, false) => Some(Inflation::InflatableBurnable),
            (false, true, false) => Some(Inflation::Burnable),
            (true, false, false) => Some(Inflation::Inflatable),
            (false, false, false) => Some(Inflation::Fixed),
            (true, false, true) | (false, false, true) => None,
            (false, true, true) => None,
        }
    }

    /// The name of the kind of supply.
    pub fn to_string(&self) -> (r: String)
        ensures
            r@ == self.spec_to_string(),
    {
        match self {
            Inflation::Fixed => "fixed".to_owned(),
            Inflation::Burnable => "burnable".to_owned(),
            Inflation::Inflatable => "inflatable".to_owned(),
            Inflation::InflatableBurnable => "inflatable, burnable".to_owned(),
            Inflation::Replaceable => "replaceable".to_owned(),
        }
    }
}

/// Features of a contract of fungible assets.
#[derive(Copy, Clone, Debug, Hash, PartialEq, Eq, Structural, PartialOrd, Ord)]
pub struct Rgb20 {
    /// Whether the asset can be renamed.
    pub renaming: bool,
    /// How the supply may change.
    pub inflation: Inflation,
}

impl Default for Rgb20 {
    fn default() -> (r: Rgb20)
        ensures
            r == (Rgb20 { renaming: false, inflation: Inflation::Fixed }),
    {
        Rgb20 { renaming: false, inflation: Inflation::Fixed }
    }
}

impl Rgb20 {
    /// Name of the interface class.
    pub const IFACE_NAME: &'static str = "RGB20";

    /// The feature sets that have a standard interface: every kind of
    /// supply, first without renaming; with renaming the kinds that burn and
    /// inflate, and the replaceable one last.
    pub open spec fn spec_enumerate() -> Seq<Rgb20> {
        seq![
            Rgb20 { renaming: false, inflation: Inflation::Fixed },
            Rgb20 { renaming: true, inflation: Inflation::Fixed },
            Rgb20 { renaming: false, inflation: Inflation::Inflatable },
            Rgb20 { renaming: false, inflation: Inflation::Burnable },
            Rgb20 { renaming: false, inflation: Inflation::InflatableBurnable },
            Rgb20 { renaming: false, inflation: Inflation::Replaceable },
            Rgb20 { renaming: true, inflation: Inflation::Inflatable },
            Rgb20 { renaming: true, inflation: Inflation::Burnable },
            Rgb20 { renaming: true, inflation: Inflation::InflatableBurnable },
            Rgb20 { renaming: true, inflation: Inflation::Replaceable },
        ]
    }

    /// Names of the features, in alphabetical order.
    pub open spec fn spec_to_list(self) -> Seq<FeatureName> {
        (if self.inflation.spec_is_burnable() {
            seq![FeatureName::Burnable]
        } else {
            Seq::<FeatureName>::empty()
        }) + (if self.inflation.spec_is_inflatable() {
            seq![FeatureName::Inflatable]
        } else {
            Seq::<FeatureName>::empty()
        }) + (if self.renaming {
            seq![FeatureName::Renamable]
        } else {
            Seq::<FeatureName>::empty()
        }) + (if self.inflation == Inflation::Replaceable {
            seq![FeatureName::Replaceable]
        } else {
            Seq::<FeatureName>::empty()
        })
    }

    /// Steps that compose the interface of the contract from the interface
    /// of named assets: the fungible base, renaming where asked for, then
    /// the steps of the kind of supply.
    pub open spec fn spec_iface_steps(self) -> Seq<IfaceStep> {
        let renamable = self.renaming;
        seq![IfaceStep::Rgb20Base] + (if renamable {
            seq![IfaceStep::Rgb20Renamable]
        } else {
            Seq::<IfaceStep>::empty()
        }) + (match self.inflation {
            Inflation::Fixed => seq![IfaceStep::Rgb20Fixed { renamable }],
            Inflation::Burnable => seq![IfaceStep::Rgb20Burnable { renamable }],
            Inflation::Inflatable => seq![IfaceStep::Rgb20Inflatable { renamable }],
            Inflation::InflatableBurnable => seq![
                IfaceStep::Rgb20Inflatable { renamable },
                IfaceStep::Rgb20InflatableBurnable { renamable },
            ],
            Inflation::Replaceable => seq![
                IfaceStep::Rgb20Inflatable { renamable },
                IfaceStep::Rgb20InflatableBurnable { renamable },
                IfaceStep::Rgb20Replaceable { renamable },
            ],
        })
    }

    /// The features as a text: `renamable, ` where the asset can be renamed,
    /// then the kind of supply.
    pub open spec fn spec_to_string(self) -> Seq<char> {
        if self.renaming {
            "renamable, "@ + self.inflation.spec_to_string()
        } else {
            self.inflation.spec_to_string()
        }
    }

    /// Fixed supply, no renaming.
    pub fn fixed() -> (r: Rgb20)
        ensures
            r == (Rgb20 { renaming: false, inflation: Inflation::Fixed }),
    {
        Rgb20 { renaming: false, inflation: Inflation::Fixed }
    }

    /// Fixed supply, with renaming.
    pub fn renamable() -> (r: Rgb20)
        ensures
            r == (Rgb20 { renaming: true, inflation: Inflation::Fixed }),
    {
        Rgb20 { renaming: true, inflation: Inflation::Fixed }
    }

    /// Inflatable supply, no renaming.
    pub fn inflatable() -> (r: Rgb20)
        ensures
            r == (Rgb20 { renaming: false, inflation: Inflation::Inflatable }),
    {
        Rgb20 { renaming: false, inflation: Inflation::Inflatable }
    }

    /// Burnable supply, no renaming.
    pub fn burnable() -> (r: Rgb20)
        ensures
            r == (Rgb20 { renaming: false, inflation: Inflation::Burnable }),
    {
        Rgb20 { renaming: false, inflation: Inflation::Burnable }
    }

    /// Inflatable and burnable supply, no renaming.
    pub fn inflatable_burnable() -> (r: Rgb20)
        ensures
            r == (Rgb20 { renaming: false, inflation: Inflation::InflatableBurnable }),
    {
        Rgb20 { renaming: false, inflation: Inflation::InflatableBurnable }
    }

    /// Replaceable supply, no renaming.
    pub fn replaceable() -> (r: Rgb20)
        ensures
            r == (Rgb20 { renaming: false, inflation: Inflation::Replaceable }),
    {
        Rgb20 { renaming: false, inflation: Inflation::Replaceable }
    }

    /// Inflatable supply, with renaming.
    pub fn renamable_inflatable() -> (r: Rgb20)
        ensures
            r == (Rgb20 { renaming: true, inflation: Inflation::Inflatable }),
    {
        Rgb20 { renaming: true, inflation: Inflation::Inflatable }
    }

    /// Burnable supply, with renaming.
    pub fn renamable_burnable() -> (r: Rgb20)
        ensures
            r == (Rgb20 { renaming: true, inflation: Inflation::Burnable }),
    {
        Rgb20 { renaming: true, inflation: Inflation::Burnable }
    }

    /// Inflatable and burnable supply, with renaming.
    pub fn renamable_inflatable_burnable() -> (r: Rgb20)
        ensures
            r == (Rgb20 { renaming: true, inflation: Inflation::InflatableBurnable }),
    {
        Rgb20 { renaming: true, inflation: Inflation::InflatableBurnable }
    }

    /// Every feature: replaceable supply, with renaming.
    pub fn all() -> (r: Rgb20)
        ensures
            r == (Rgb20 { renaming: true, inflation: Inflation::Replaceable }),
    {
        Rgb20 { renaming: true, inflation: Inflation::Replaceable }
    }

    /// The feature sets that have a standard interface.
    pub fn enumerate() -> (r: Vec<Rgb20>)
        ensures
            r@ == Rgb20::spec_enumerate(),
    {
        let mut list = Vec::new();
        list.push(Rgb20::fixed());
        list.push(Rgb20::renamable());
        list.push(Rgb20::inflatable());
        list.push(Rgb20::burnable());
        list.push(Rgb20::inflatable_burnable());
        list.push(Rgb20::replaceable());
        list.push(Rgb20::renamable_inflatable());
        list.push(Rgb20::renamable_burnable());
        list.push(Rgb20::renamable_inflatable_burnable());
        list.push(Rgb20::all());
        assert(list@ =~= Rgb20::spec_enumerate());
        list
    }

    /// The features of a contract whose interface has the given state
    /// transitions: `rename`, `issue`, `burn` and `replace`. A contract that
    /// replaces assets must also issue and burn them.
    pub fn from_transitions(renaming: bool, inflatable: bool, burnable: bool, replaceable: bool) -> (r:
        Rgb20)
        requires
            replaceable ==> inflatable && burnable,
        ensures
            r.renaming == renaming,
            Some(r.inflation) == Inflation::spec_from_operations(
                inflatable,
                burnable,
                replaceable,
            ),
    {
        let inflation = match Inflation::from_operations(inflatable, burnable, replaceable) {
            Some(inflation) => inflation,
            None => Inflation::Fixed,
        };
        Rgb20 { renaming, inflation }
    }

    /// Names of the features of the contract, in alphabetical order.
    pub fn to_list(&self) -> (r: Vec<FeatureName>)
        ensures
            r@ == self.spec_to_list(),
    {
        let mut list = Vec::new();
        if self.inflation.is_burnable() {
            list.push(FeatureName::Burnable);
        }
        if self.inflation.is_inflatable() {
            list.push(FeatureName::Inflatable);
        }
        if self.renaming {
            list.push(FeatureName::Renamable);
        }
        if self.inflation.is_replaceable() {
            list.push(FeatureName::Replaceable);
        }
        assert(list@ =~= self.spec_to_list());
        list
    }

    /// Steps that compose the interface of the contract, in the order in
    /// which they are applied.
    pub fn iface_steps(&self) -> (r: Vec<IfaceStep>)
        ensures
            r@ == self.spec_iface_steps(),
    {
        let renamable = self.renaming;
        let mut steps = Vec::new();
        steps.push(IfaceStep::Rgb20Base);
        if renamable {
            steps.push(IfaceStep::Rgb20Renamable);
        }
        if self.inflation.is_fixed() {
            steps.push(IfaceStep::Rgb20Fixed { renamable });
        } else if self.inflation.is_inflatable() {
            steps.push(IfaceStep::Rgb20Inflatable { renamable });
        }
        if self.inflation.is_burnable() {
            if self.inflation.is_inflatable() {
                steps.push(IfaceStep::Rgb20InflatableBurnable { renamable });
            } else {
                steps.push(IfaceStep::Rgb20Burnable { renamable });
            }
            if self.inflation.is_replaceable() {
                steps.push(IfaceStep::Rgb20Replaceable { renamable });
            }
        }
        assert(steps@ =~= self.spec_iface_steps());
        steps
    }

    /// The features as a text.
    pub fn to_string(&self) -> (r: String)
        ensures
            r@ == self.spec_to_string(),
    {
        if self.renaming {
            let mut out = "renamable, ".to_owned();
            let kind = self.inflation.to_string();
            out.append(kind.as_str());
            out
        } else {
            self.inflation.to_string()
        }
    }
}

/// The list of features names every feature of the contract and nothing
/// else, each once.
pub proof fn lemma_rgb20_list_names_the_features(features: Rgb20)
    ensures
        features.spec_to_list().contains(FeatureName::Burnable)
            <==> features.inflation.spec_is_burnable(),
        features.spec_to_list().contains(FeatureName::Inflatable)
            <==> features.inflation.spec_is_inflatable(),
        features.spec_to_list().contains(FeatureName::Renamable) <==> features.renaming,
        features.spec_to_list().contains(FeatureName::Replaceable) <==> features.inflation
            == Inflation::Replaceable,
        features.spec_to_list().no_duplicates(),
{
    let list = features.spec_to_list();
    if features.inflation.spec_is_burnable() {
        assert(list[0] == FeatureName::Burnable);
    }
    if features.inflation.spec_is_inflatable() {
        let at = if features.inflation.spec_is_burnable() { 1int } else { 0int };
        assert(list[at] == FeatureName::Inflatable);
    }
    if features.renaming {
        let at = (if features.inflation.spec_is_burnable() { 1int } else { 0int }) + (
        if features.inflation.spec_is_inflatable() { 1int } else { 0int });
        assert(list[at] == FeatureName::Renamable);
    }
    if features.inflation == Inflation::Replaceable {
        assert(list[list.len() - 1] == FeatureName::Replaceable);
    }
}

/// Reading the features from the operations of a contract gives back the
/// features that the operations came from.
pub proof fn lemma_rgb20_features_round_trip(features: Rgb20)
    ensures
        Inflation::spec_from_operations(
            features.inflation.spec_is_inflatable(),
            features.inflation.spec_is_burnable(),
            features.inflation == Inflation::Replaceable,
        ) == Some(features.inflation),
{
}

} // verus!
