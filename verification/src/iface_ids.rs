//! Identifiers of the standard interfaces.
//!
//! An identifier is the digest of the definition of an interface. The
//! identifiers of the standard interfaces are fixed, and a contract is
//! taken for one of a standard where its interface has one of them.

use vstd::prelude::*;
use crate::rgb20::{Inflation, Rgb20};
use crate::rgb21::{Issues, Rgb21};
use crate::rgb25::Rgb25;

verus! {

/// Identifier of an interface.
pub type IfaceId = [u8; 32];

/// Interface of RGB20: fixed supply.
pub const RGB20_FIXED_IFACE_ID: IfaceId = [
    0xfe, 0x25, 0x27, 0x3b, 0xd6, 0x8e, 0xd7, 0x18, 0x6a, 0x51, 0xde, 0xb5, 0x26, 0x6e, 0x52, 0xe7,
    0xec, 0x0c, 0xde, 0x78, 0x1b, 0xcb, 0x91, 0x95, 0x13, 0x29, 0x50, 0x65, 0x30, 0x0c, 0x60, 0x39,
];

/// Interface of RGB20: fixed supply, with renaming.
pub const RGB20_RENAMABLE_IFACE_ID: IfaceId = [
    0x99, 0xe1, 0xeb, 0xb5, 0x54, 0xd9, 0xeb, 0x10, 0x1d, 0x77, 0x4c, 0x2b, 0x8c, 0x3b, 0x6d, 0x2e,
    0x17, 0x2c, 0xda, 0x7e, 0xf3, 0x9e, 0xc6, 0x41, 0xcd, 0xfc, 0x33, 0x15, 0xc5, 0x3e, 0x8b, 0x6e,
];

/// Interface of RGB20: inflatable supply.
pub const RGB20_INFLATABLE_IFACE_ID: IfaceId = [
    0x60, 0xba, 0x66, 0x6e, 0x76, 0x36, 0xc9, 0x99, 0xff, 0x25, 0xd1, 0xa0, 0x86, 0x3c, 0x28, 0x08,
    0xfc, 0xe3, 0xdb, 0x5e, 0x72, 0xd3, 0xf5, 0xee, 0xc0, 0x0f, 0x74, 0xa3, 0xf0, 0x8f, 0xfe, 0x98,
];

/// Interface of RGB20: inflatable and burnable supply.
pub const RGB20_INFLATABLE_BURNABLE_IFACE_ID: IfaceId = [
    0x05, 0x6c, 0xb6, 0x1f, 0x43, 0x5d, 0xca, 0x48, 0x1a, 0x9d, 0xda, 0xe6, 0x47, 0x97, 0xf2, 0x76,
    0x25, 0x3f, 0xee, 0xd1, 0x54, 0xd9, 0x1f, 0xb3, 0xd4, 0x5f, 0x41, 0x31, 0x95, 0xb4, 0xb4, 0xaa,
];

/// Interface of RGB20: burnable supply.
pub const RGB20_BURNABLE_IFACE_ID: IfaceId = [
    0xcb, 0x14, 0x11, 0x70, 0xd2, 0x78, 0xc8, 0xc9, 0xc9, 0xd3, 0xf7, 0x20, 0x2e, 0x3c, 0x29, 0x75,
    0x2f, 0x03, 0xb8, 0x98, 0xc5, 0x9e, 0x95, 0x90, 0xe2, 0x2e, 0x42, 0x4e, 0x8d, 0x91, 0xfd, 0x4e,
];

/// Interface of RGB20: inflatable supply, with renaming.
pub const RGB20_RENAMABLE_INFLATABLE_IFACE_ID: IfaceId = [
    0x1b, 0x37, 0x77, 0x0f, 0x05, 0x72, 0x4e, 0xd1, 0x77, 0x67, 0xa5, 0x61, 0xf7, 0xcd, 0x6a, 0x8d,
    0x45, 0x95, 0xf5, 0x09, 0x9b, 0x4b, 0xf4, 0x81, 0xe5, 0x3c, 0xa0, 0xeb, 0x2e, 0x4f, 0x2c, 0xf7,
];

/// Interface of RGB20: replaceable supply.
pub const RGB20_REPLACABLE_IFACE_ID: IfaceId = [
    0xc3, 0x46, 0x75, 0x65, 0xad, 0xa3, 0x92, 0x5a, 0x5f, 0x5b, 0x24, 0xf8, 0x72, 0x83, 0x81, 0xfb,
    0xaf, 0x74, 0xa9, 0xa9, 0x16, 0xe4, 0x07, 0xe3, 0x98, 0x87, 0x3d, 0x7a, 0x36, 0x5b, 0x29, 0x95,
];

/// Interface of RGB20: burnable supply, with renaming.
pub const RGB20_RENAMABLE_BURNABLE_IFACE_ID: IfaceId = [
    0x14, 0x57, 0xcf, 0x3d, 0x60, 0xc7, 0xe3, 0xf0, 0x56, 0x06, 0x7e, 0xf7, 0x42, 0x71, 0x3c, 0x59,
    0x59, 0xc7, 0x8f, 0xdf, 0x04, 0xf0, 0x8a, 0x00, 0x21, 0x9b, 0xed, 0xe2, 0x48, 0x97, 0xed, 0x80,
];

/// Interface of RGB20: inflatable and burnable supply, with renaming.
pub const RGB20_RENAMABLE_INFLATABLE_BURNABLE_IFACE_ID: IfaceId = [
    0x32, 0x44, 0xae, 0xbe, 0xfc, 0xf6, 0x4a, 0xd1, 0xb3, 0xb9, 0x5f, 0x07, 0x7b, 0x0a, 0xb4, 0x7e,
    0x88, 0x4c, 0x8a, 0x05, 0xa6, 0xfd, 0x43, 0x31, 0x5e, 0xd7, 0x4f, 0x44, 0x29, 0xd9, 0xc9, 0xe7,
];

/// Interface of RGB20: every feature.
pub const RGB20_FULL_IFACE_ID: IfaceId = [
    0xaf, 0xaf, 0xdd, 0x2d, 0xe5, 0x72, 0x1f, 0x41, 0xd0, 0xa5, 0x4c, 0x85, 0xd9, 0x76, 0xd7, 0xd8,
    0x43, 0xf6, 0x26, 0xa6, 0xc7, 0xa7, 0x0b, 0x08, 0x48, 0x3e, 0x1f, 0xc5, 0x41, 0x1a, 0x38, 0xa4,
];

/// Interface of RGB21: a unique token with no optional feature.
pub const RGB21_UNIQUE_IFACE_ID: IfaceId = [
    0x99, 0xfe, 0x92, 0xe2, 0x27, 0xe8, 0x49, 0x6b, 0xe2, 0xc2, 0x1f, 0x8b, 0x64, 0xf3, 0xc1, 0xd7,
    0x2f, 0xb9, 0xb6, 0xc8, 0xc4, 0x1a, 0xf8, 0xbc, 0x33, 0xb3, 0x43, 0x50, 0x2c, 0xf3, 0xd3, 0xd3,
];

/// Interface of RGB21: tokens with every feature.
pub const RGB21_IFACE_ID: IfaceId = [
    0x41, 0x96, 0x3c, 0x85, 0xc5, 0xe9, 0xe0, 0x91, 0x19, 0xf3, 0xe8, 0x84, 0xe8, 0xc8, 0x09, 0x24,
    0x3a, 0x54, 0x9d, 0xc3, 0xa2, 0x64, 0x21, 0xb8, 0x52, 0x9d, 0x61, 0xb5, 0x54, 0xff, 0xc0, 0xc6,
];

/// Interface of RGB25: no optional feature.
pub const RGB25_BASE_IFACE_ID: IfaceId = [
    0x05, 0xd2, 0xa2, 0x30, 0x7b, 0x9b, 0x45, 0x94, 0xd8, 0xad, 0xb4, 0xb5, 0xdc, 0x6d, 0xf0, 0xb7,
    0xae, 0x2e, 0x21, 0xc8, 0x72, 0x3c, 0xc4, 0x05, 0xd0, 0xa9, 0xa6, 0xb1, 0x88, 0x1e, 0x32, 0x46,
];

/// Interface of RGB25: every feature.
pub const RGB25_IFACE_ID: IfaceId = [
    0x09, 0x02, 0xdc, 0xc8, 0x58, 0x1c, 0x4c, 0xc0, 0xa1, 0xc5, 0x94, 0x3a, 0xff, 0xc3, 0xb0, 0x77,
    0x31, 0xce, 0xca, 0xda, 0xe6, 0x85, 0x3f, 0x50, 0x0f, 0xcb, 0x4b, 0x78, 0x7c, 0xbc, 0x65, 0x41,
];

/// Whether two identifiers are the same.
pub fn same_id(a: &IfaceId, b: &IfaceId) -> (r: bool)
    ensures
        r == (a@ == b@),
{
    let mut i: usize = 0;
    while i < 32
        invariant
            i <= 32,
            forall|j: int| 0 <= j < i ==> a@[j] == b@[j],
        decreases 32 - i,
    {
        if a[i] != b[i] {
            return false;
        }
        i += 1;
    }
    assert(a@ =~= b@);
    true
}

impl Rgb20 {
    /// The identifier of the standard interface with these features.
    pub open spec fn spec_iface_id(self) -> IfaceId {
        match (self.renaming, self.inflation) {
            (false, Inflation::Fixed) => RGB20_FIXED_IFACE_ID,
            (true, Inflation::Fixed) => RGB20_RENAMABLE_IFACE_ID,
            (false, Inflation::Inflatable) => RGB20_INFLATABLE_IFACE_ID,
            (false, Inflation::Burnable) => RGB20_BURNABLE_IFACE_ID,
            (false, Inflation::InflatableBurnable) => RGB20_INFLATABLE_BURNABLE_IFACE_ID,
            (false, Inflation::Replaceable) => RGB20_REPLACABLE_IFACE_ID,
            (true, Inflation::Inflatable) => RGB20_RENAMABLE_INFLATABLE_IFACE_ID,
            (true, Inflation::Burnable) => RGB20_RENAMABLE_BURNABLE_IFACE_ID,
            (true, Inflation::InflatableBurnable) => RGB20_RENAMABLE_INFLATABLE_BURNABLE_IFACE_ID,
            (true, Inflation::Replaceable) => RGB20_FULL_IFACE_ID,
        }
    }

    /// The identifier of the standard interface with these features.
    pub fn iface_id(&self) -> (r: IfaceId)
        ensures
            r == self.spec_iface_id(),
    {
        match (self.renaming, self.inflation) {
            (false, Inflation::Fixed) => RGB20_FIXED_IFACE_ID,
            (true, Inflation::Fixed) => RGB20_RENAMABLE_IFACE_ID,
            (false, Inflation::Inflatable) => RGB20_INFLATABLE_IFACE_ID,
            (false, Inflation::Burnable) => RGB20_BURNABLE_IFACE_ID,
            (false, Inflation::InflatableBurnable) => RGB20_INFLATABLE_BURNABLE_IFACE_ID,
            (false, Inflation::Replaceable) => RGB20_REPLACABLE_IFACE_ID,
            (true, Inflation::Inflatable) => RGB20_RENAMABLE_INFLATABLE_IFACE_ID,
            (true, Inflation::Burnable) => RGB20_RENAMABLE_BURNABLE_IFACE_ID,
            (true, Inflation::InflatableBurnable) => RGB20_RENAMABLE_INFLATABLE_BURNABLE_IFACE_ID,
            (true, Inflation::Replaceable) => RGB20_FULL_IFACE_ID,
        }
    }

    /// The identifiers of the standard interfaces, in the order of the
    /// feature sets.
    pub fn iface_ids() -> (r: Vec<IfaceId>)
        ensures
            r@.len() == Rgb20::spec_enumerate().len(),
            forall|i: int|
                0 <= i < r@.len() ==> #[trigger] r@[i] == Rgb20::spec_enumerate()[i].spec_iface_id(),
    {
        let mut ids = Vec::new();
        ids.push(RGB20_FIXED_IFACE_ID);
        ids.push(RGB20_RENAMABLE_IFACE_ID);
        ids.push(RGB20_INFLATABLE_IFACE_ID);
        ids.push(RGB20_BURNABLE_IFACE_ID);
        ids.push(RGB20_INFLATABLE_BURNABLE_IFACE_ID);
        ids.push(RGB20_REPLACABLE_IFACE_ID);
        ids.push(RGB20_RENAMABLE_INFLATABLE_IFACE_ID);
        ids.push(RGB20_RENAMABLE_BURNABLE_IFACE_ID);
        ids.push(RGB20_RENAMABLE_INFLATABLE_BURNABLE_IFACE_ID);
        ids.push(RGB20_FULL_IFACE_ID);
        ids
    }

    /// Whether `id` identifies one of the standard interfaces for fungible
    /// assets.
    pub fn is_iface_id(id: &IfaceId) -> (r: bool)
        ensures
            r == exists|features: Rgb20| #[trigger] features.spec_iface_id()@ == id@,
    {
        let ids = Rgb20::iface_ids();
        let mut i: usize = 0;
        while i < ids.len()
            invariant
                i <= ids@.len(),
                ids@.len() == Rgb20::spec_enumerate().len(),
                forall|k: int|
                    0 <= k < ids@.len() ==> #[trigger] ids@[k]
                        == Rgb20::spec_enumerate()[k].spec_iface_id(),
                forall|k: int| 0 <= k < i ==> (#[trigger] ids@[k])@ != id@,
            decreases ids@.len() - i,
        {
            if same_id(&ids[i], id) {
                assert(Rgb20::spec_enumerate()[i as int].spec_iface_id()@ == id@);
                return true;
            }
            i += 1;
        }
        proof {
            assert forall|features: Rgb20| #[trigger] features.spec_iface_id()@ != id@ by {
                lemma_rgb20_enumerated(features);
                let k = choose|k: int|
                    0 <= k < Rgb20::spec_enumerate().len() && Rgb20::spec_enumerate()[k]
                        == features;
                assert(ids@[k]@ != id@);
            }
        }
        false
    }
}

/// Every set of features of fungible assets is one of the enumerated ones.
pub proof fn lemma_rgb20_enumerated(features: Rgb20)
    ensures
        exists|k: int|
            0 <= k < Rgb20::spec_enumerate().len() && Rgb20::spec_enumerate()[k] == features,
{
    let list = Rgb20::spec_enumerate();
    let k: int = match (features.renaming, features.inflation) {
        (false, Inflation::Fixed) => 0,
        (true, Inflation::Fixed) => 1,
        (false, Inflation::Inflatable) => 2,
        (false, Inflation::Burnable) => 3,
        (false, Inflation::InflatableBurnable) => 4,
        (false, Inflation::Replaceable) => 5,
        (true, Inflation::Inflatable) => 6,
        (true, Inflation::Burnable) => 7,
        (true, Inflation::InflatableBurnable) => 8,
        (true, Inflation::Replaceable) => 9,
    };
    assert(list[k] == features);
}

impl Rgb21 {
    /// The identifier of the standard interface with these features, for
    /// the feature sets that have one.
    pub open spec fn spec_iface_id(self) -> Option<IfaceId> {
        if self == Rgb21::spec_none() {
            Some(RGB21_UNIQUE_IFACE_ID)
        } else if self == Rgb21::spec_all() {
            Some(RGB21_IFACE_ID)
        } else {
            None
        }
    }

    /// The identifier of the standard interface with these features;
    /// `None` for a feature set that has none.
    pub fn iface_id(&self) -> (r: Option<IfaceId>)
        ensures
            r == self.spec_iface_id(),
    {
        if !self.renaming && !self.engraving && self.issues == Issues::Unique {
            Some(RGB21_UNIQUE_IFACE_ID)
        } else if self.renaming && self.engraving && self.issues == Issues::MultiIssue {
            Some(RGB21_IFACE_ID)
        } else {
            None
        }
    }

    /// Whether `id` identifies one of the standard interfaces for
    /// non-fungible tokens.
    pub fn is_iface_id(id: &IfaceId) -> (r: bool)
        ensures
            r == (id@ == RGB21_UNIQUE_IFACE_ID@ || id@ == RGB21_IFACE_ID@),
    {
        same_id(id, &RGB21_UNIQUE_IFACE_ID) || same_id(id, &RGB21_IFACE_ID)
    }
}

impl Rgb25 {
    /// The identifier of the standard interface with these features.
    pub open spec fn spec_iface_id(self) -> IfaceId {
        if self.burnable {
            RGB25_IFACE_ID
        } else {
            RGB25_BASE_IFACE_ID
        }
    }

    /// The identifier of the standard interface with these features.
    pub fn iface_id(&self) -> (r: IfaceId)
        ensures
            r == self.spec_iface_id(),
    {
        if self.burnable {
            RGB25_IFACE_ID
        } else {
            RGB25_BASE_IFACE_ID
        }
    }

    /// Whether `id` identifies one of the standard interfaces for
    /// collectible fungible assets.
    pub fn is_iface_id(id: &IfaceId) -> (r: bool)
        ensures
            r == (id@ == RGB25_BASE_IFACE_ID@ || id@ == RGB25_IFACE_ID@),
    {
        same_id(id, &RGB25_BASE_IFACE_ID) || same_id(id, &RGB25_IFACE_ID)
    }
}

} // verus!
