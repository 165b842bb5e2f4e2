//! The standards whose interfaces the library holds.

use vstd::prelude::*;
use crate::text::{same_text, to_uppercase, uppercase_of};

verus! {

/// Identity of the developer of the standard interfaces.
pub const LNPBP_IDENTITY: &'static str = "ssi:LZS1ux-gjD9nXPF-OcetUUkW-6r3uSCS6-aQhs9W5f-8JE7w";

/// A standard of contract interfaces.
#[derive(Copy, Clone, Debug, Hash, PartialEq, Eq, Structural, PartialOrd, Ord)]
pub enum IfaceStandard {
    Rgb20,
    Rgb21,
    Rgb25,
}

/// The text is the name of no standard.
#[derive(Copy, Clone, Debug, Hash, PartialEq, Eq, Structural, PartialOrd, Ord)]
pub struct UnknownStandard;

impl UnknownStandard {
    /// The message of the error.
    pub fn to_string(&self) -> (r: String)
        ensures
            r@ == "unknown RGB interface standard name"@,
    {
        "unknown RGB interface standard name".to_owned()
    }
}

impl IfaceStandard {
    /// The name of the standard, in upper case.
    pub open spec fn spec_name(self) -> Seq<char> {
        match self {
            IfaceStandard::Rgb20 => "RGB20"@,
            IfaceStandard::Rgb21 => "RGB21"@,
            IfaceStandard::Rgb25 => "RGB25"@,
        }
    }

    /// The standard with the given name, written exactly.
    pub open spec fn spec_from_name(name: Seq<char>) -> Result<IfaceStandard, UnknownStandard> {
        if name == "RGB20"@ {
            Ok(IfaceStandard::Rgb20)
        } else if name == "RGB21"@ {
            Ok(IfaceStandard::Rgb21)
        } else if name == "RGB25"@ {
            Ok(IfaceStandard::Rgb25)
        } else {
            Err(UnknownStandard)
        }
    }

    /// The name of the standard, in upper case.
    pub fn to_string(&self) -> (r: String)
        ensures
            r@ == self.spec_name(),
    {
        match self {
            IfaceStandard::Rgb20 => "RGB20".to_owned(),
            IfaceStandard::Rgb21 => "RGB21".to_owned(),
            IfaceStandard::Rgb25 => "RGB25".to_owned(),
        }
    }

    /// The standard with the given name, which must be written exactly:
    /// `RGB20`, `RGB21` or `RGB25`.
    pub fn from_name(name: &str) -> (r: Result<IfaceStandard, UnknownStandard>)
        ensures
            r == IfaceStandard::spec_from_name(name@),
    {
        if same_text(name, "RGB20") {
            Ok(IfaceStandard::Rgb20)
        } else if same_text(name, "RGB21") {
            Ok(IfaceStandard::Rgb21)
        } else if same_text(name, "RGB25") {
            Ok(IfaceStandard::Rgb25)
        } else {
            Err(UnknownStandard)
        }
    }

    /// The standard that `text` names, in whatever case it is written: the
    /// text is put in upper case and then read as a name.
    pub fn from_str(text: &str) -> (r: Result<IfaceStandard, UnknownStandard>)
        ensures
            r == IfaceStandard::spec_from_name(uppercase_of(text@)),
    {
        let upper = to_uppercase(text);
        IfaceStandard::from_name(upper.as_str())
    }
}

/// Every standard is found again under its own name, and the three names
/// differ.
pub proof fn lemma_standard_name_round_trip(standard: IfaceStandard)
    ensures
        IfaceStandard::spec_from_name(standard.spec_name()) == Ok::<
            IfaceStandard,
            UnknownStandard,
        >(standard),
{
    reveal_strlit("RGB20");
    reveal_strlit("RGB21");
    reveal_strlit("RGB25");
    assert("RGB20"@[4] == '0');
    assert("RGB21"@[4] == '1');
    assert("RGB25"@[4] == '5');
}

} // verus!
