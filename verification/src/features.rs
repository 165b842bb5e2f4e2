//! Vocabulary shared by the interface classes: the names of their features
//! and the steps by which a standard interface is composed from abstract
//! ones.

use vstd::prelude::*;

verus! {

/// Name of a feature of a contract. The order of the variants is the
/// alphabetical order of the names.
#[derive(Copy, Clone, Debug, Hash, PartialEq, Eq, Structural, PartialOrd, Ord)]
pub enum FeatureName {
    Burnable,
    Collection,
    Engravable,
    Fractional,
    Inflatable,
    Limited,
    Renamable,
    Replaceable,
    Unique,
}

impl FeatureName {
    /// The name as it is written in a list of features.
    pub open spec fn spec_as_str(self) -> Seq<char> {
        match self {
            FeatureName::Burnable => "burnable"@,
            FeatureName::Collection => "collection"@,
            FeatureName::Engravable => "engravable"@,
            FeatureName::Fractional => "fractional"@,
            FeatureName::Inflatable => "inflatable"@,
            FeatureName::Limited => "limited"@,
            FeatureName::Renamable => "renamable"@,
            FeatureName::Replaceable => "replaceable"@,
            FeatureName::Unique => "unique"@,
        }
    }

    /// The name as it is written in a list of features.
    pub fn as_str(self) -> (r: &'static str)
        ensures
            r@ == self.spec_as_str(),
    {
        match self {
            FeatureName::Burnable => "burnable",
            FeatureName::Collection => "collection",
            FeatureName::Engravable => "engravable",
            FeatureName::Fractional => "fractional",
            FeatureName::Inflatable => "inflatable",
            FeatureName::Limited => "limited",
            FeatureName::Renamable => "renamable",
            FeatureName::Replaceable => "replaceable",
            FeatureName::Unique => "unique",
        }
    }
}

/// Abstract interface: one aspect of a contract, from which the standard
/// interfaces are composed.
#[derive(Copy, Clone, Debug, Hash, PartialEq, Eq, Structural, PartialOrd, Ord)]
pub enum IfacePart {
    NamedAsset,
    RenameableAsset,
    FungibleAsset,
    FixedAsset,
    InflatableAsset,
    BurnableAsset,
    ReplaceableAsset,
    NonFungibleToken,
    UniqueNft,
    LimitedNft,
    EngravableNft,
    IssuableNft,
    NamedContract,
}

impl IfacePart {
    /// Name of the abstract interface.
    pub open spec fn spec_name(self) -> Seq<char> {
        match self {
            IfacePart::NamedAsset => "NamedAsset"@,
            IfacePart::RenameableAsset => "RenameableAsset"@,
            IfacePart::FungibleAsset => "FungibleAsset"@,
            IfacePart::FixedAsset => "FixedAsset"@,
            IfacePart::InflatableAsset => "InflatableAsset"@,
            IfacePart::BurnableAsset => "BurnableAsset"@,
            IfacePart::ReplaceableAsset => "ReplaceableAsset"@,
            IfacePart::NonFungibleToken => "NonFungibleToken"@,
            IfacePart::UniqueNft => "UniqueNft"@,
            IfacePart::LimitedNft => "LimitedNft"@,
            IfacePart::EngravableNft => "EngravableNft"@,
            IfacePart::IssuableNft => "IssuableNft"@,
            IfacePart::NamedContract => "NamedContract"@,
        }
    }

    /// Name of the abstract interface.
    pub fn name(self) -> (r: &'static str)
        ensures
            r@ == self.spec_name(),
    {
        match self {
            IfacePart::NamedAsset => "NamedAsset",
            IfacePart::RenameableAsset => "RenameableAsset",
            IfacePart::FungibleAsset => "FungibleAsset",
            IfacePart::FixedAsset => "FixedAsset",
            IfacePart::InflatableAsset => "InflatableAsset",
            IfacePart::BurnableAsset => "BurnableAsset",
            IfacePart::ReplaceableAsset => "ReplaceableAsset",
            IfacePart::NonFungibleToken => "NonFungibleToken",
            IfacePart::UniqueNft => "UniqueNft",
            IfacePart::LimitedNft => "LimitedNft",
            IfacePart::EngravableNft => "EngravableNft",
            IfacePart::IssuableNft => "IssuableNft",
            IfacePart::NamedContract => "NamedContract",
        }
    }
}

/// Stem of the names of the interfaces for fungible assets: it tells
/// whether the asset can be renamed.
pub open spec fn rgb20_stem(renamable: bool) -> Seq<char> {
    if renamable {
        "RGB20Renamable"@
    } else {
        "RGB20"@
    }
}

/// One step in the composition of a standard interface: an abstract
/// interface by which the interface built so far is extended, and the name
/// that the result gets. The steps for fungible assets say whether they
/// stand on the renamable base, which shows in their names.
#[derive(Copy, Clone, Debug, Hash, PartialEq, Eq, Structural)]
pub enum IfaceStep {
    Rgb20Base,
    Rgb20Renamable,
    Rgb20Fixed { renamable: bool },
    Rgb20Inflatable { renamable: bool },
    Rgb20Burnable { renamable: bool },
    Rgb20InflatableBurnable { renamable: bool },
    Rgb20Replaceable { renamable: bool },
    Rgb21Base,
    Rgb21Renameable,
    Rgb21Engravable,
    Rgb21Unique,
    Rgb21Limited,
    Rgb21Issuable,
    Rgb25Base,
    Rgb25Burnable,
}

impl IfaceStep {
    /// The abstract interface that the step adds.
    pub open spec fn spec_part(self) -> IfacePart {
        match self {
            IfaceStep::Rgb20Base => IfacePart::FungibleAsset,
            IfaceStep::Rgb20Renamable => IfacePart::RenameableAsset,
            IfaceStep::Rgb20Fixed { .. } => IfacePart::FixedAsset,
            IfaceStep::Rgb20Inflatable { .. } => IfacePart::InflatableAsset,
            IfaceStep::Rgb20Burnable { .. } => IfacePart::BurnableAsset,
            IfaceStep::Rgb20InflatableBurnable { .. } => IfacePart::BurnableAsset,
            IfaceStep::Rgb20Replaceable { .. } => IfacePart::ReplaceableAsset,
            IfaceStep::Rgb21Base => IfacePart::NonFungibleToken,
            IfaceStep::Rgb21Renameable => IfacePart::RenameableAsset,
            IfaceStep::Rgb21Engravable => IfacePart::EngravableNft,
            IfaceStep::Rgb21Unique => IfacePart::UniqueNft,
            IfaceStep::Rgb21Limited => IfacePart::LimitedNft,
            IfaceStep::Rgb21Issuable => IfacePart::IssuableNft,
            IfaceStep::Rgb25Base => IfacePart::FungibleAsset,
            IfaceStep::Rgb25Burnable => IfacePart::BurnableAsset,
        }
    }

    /// The name of the interface that the step gives.
    pub open spec fn spec_name(self) -> Seq<char> {
        match self {
            IfaceStep::Rgb20Base => "RGB20Base"@,
            IfaceStep::Rgb20Renamable => "RGB20Renamable"@,
            IfaceStep::Rgb20Fixed { renamable } => rgb20_stem(renamable) + "Fixed"@,
            IfaceStep::Rgb20Inflatable { renamable } => rgb20_stem(renamable) + "Inflatable"@,
            IfaceStep::Rgb20Burnable { renamable } => rgb20_stem(renamable) + "Burnable"@,
            IfaceStep::Rgb20InflatableBurnable { renamable } => rgb20_stem(renamable)
                + "Inflatable"@ + "Burnable"@,
            IfaceStep::Rgb20Replaceable { renamable } => rgb20_stem(renamable) + "Replaceable"@,
            IfaceStep::Rgb21Base => "RGB21Base"@,
            IfaceStep::Rgb21Renameable => "RGB21Renameable"@,
            IfaceStep::Rgb21Engravable => "RGB21Engravable"@,
            IfaceStep::Rgb21Unique => "RGB21Unique"@,
            IfaceStep::Rgb21Limited => "RGB21Limited"@,
            IfaceStep::Rgb21Issuable => "RGB21Issuable"@,
            IfaceStep::Rgb25Base => "RGB25Base"@,
            IfaceStep::Rgb25Burnable => "RGB25Burnable"@,
        }
    }

    /// The abstract interface that the step adds.
    pub fn part(self) -> (r: IfacePart)
        ensures
            r == self.spec_part(),
    {
        match self {
            IfaceStep::Rgb20Base => IfacePart::FungibleAsset,
            IfaceStep::Rgb20Renamable => IfacePart::RenameableAsset,
            IfaceStep::Rgb20Fixed { .. } => IfacePart::FixedAsset,
            IfaceStep::Rgb20Inflatable { .. } => IfacePart::InflatableAsset,
            IfaceStep::Rgb20Burnable { .. } => IfacePart::BurnableAsset,
            IfaceStep::Rgb20InflatableBurnable { .. } => IfacePart::BurnableAsset,
            IfaceStep::Rgb20Replaceable { .. } => IfacePart::ReplaceableAsset,
            IfaceStep::Rgb21Base => IfacePart::NonFungibleToken,
            IfaceStep::Rgb21Renameable => IfacePart::RenameableAsset,
            IfaceStep::Rgb21Engravable => IfacePart::EngravableNft,
            IfaceStep::Rgb21Unique => IfacePart::UniqueNft,
            IfaceStep::Rgb21Limited => IfacePart::LimitedNft,
            IfaceStep::Rgb21Issuable => IfacePart::IssuableNft,
            IfaceStep::Rgb25Base => IfacePart::FungibleAsset,
            IfaceStep::Rgb25Burnable => IfacePart::BurnableAsset,
        }
    }

    /// The name of the interface that the step gives.
    pub fn name(self) -> (r: String)
        ensures
            r@ == self.spec_name(),
    {
        match self {
            IfaceStep::Rgb20Base => "RGB20Base".to_owned(),
            IfaceStep::Rgb20Renamable => "RGB20Renamable".to_owned(),
            IfaceStep::Rgb20Fixed { renamable } => rgb20_name(renamable, "Fixed"),
            IfaceStep::Rgb20Inflatable { renamable } => rgb20_name(renamable, "Inflatable"),
            IfaceStep::Rgb20Burnable { renamable } => rgb20_name(renamable, "Burnable"),
            IfaceStep::Rgb20InflatableBurnable { renamable } => {
                let mut name = rgb20_name(renamable, "Inflatable");
                name.append("Burnable");
                name
            },
            IfaceStep::Rgb20Replaceable { renamable } => rgb20_name(renamable, "Replaceable"),
            IfaceStep::Rgb21Base => "RGB21Base".to_owned(),
            IfaceStep::Rgb21Renameable => "RGB21Renameable".to_owned(),
            IfaceStep::Rgb21Engravable => "RGB21Engravable".to_owned(),
            IfaceStep::Rgb21Unique => "RGB21Unique".to_owned(),
            IfaceStep::Rgb21Limited => "RGB21Limited".to_owned(),
            IfaceStep::Rgb21Issuable => "RGB21Issuable".to_owned(),
            IfaceStep::Rgb25Base => "RGB25Base".to_owned(),
            IfaceStep::Rgb25Burnable => "RGB25Burnable".to_owned(),
        }
    }
}

/// The stem of the names for fungible assets followed by `suffix`.
fn rgb20_name(renamable: bool, suffix: &str) -> (r: String)
    ensures
        r@ == rgb20_stem(renamable) + suffix@,
{
    let mut name = if renamable {
        "RGB20Renamable".to_owned()
    } else {
        "RGB20".to_owned()
    };
    name.append(suffix);
    name
}

} // verus!
