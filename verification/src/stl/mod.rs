//! Data types of the standard library of contract types.

pub mod chain;
pub mod mime;
pub mod rstring;
pub mod specs;

pub use crate::fungible::{Amount, Precision};
pub use crate::nft::MimeChar;
pub use chain::ProofOfReserves;
pub use mime::{MediaRegName, MediaType, ParseMediaTypeError};
pub use rstring::{check_length, check_name, CharSet, InvalidName};
pub use specs::{
    Article, AssetSpec, Attachment, ContractSpec, ContractTerms, Details, Name, RicardianContract,
    Ticker,
};

use vstd::prelude::*;

verus! {

/// Name of the library of standard contract types.
pub const LIB_NAME_RGB_CONTRACT: &'static str = "RGBContract";

} // verus!
