//! Data of the standard RGB smart-contract interfaces.
//!
//! The heart of the library is the arithmetic of amounts: an [`Amount`]
//! counts the smallest units of an asset, a [`Precision`] places the decimal
//! point, and the padding blocks of [`alignments`] keep serialized fields on
//! the boundaries of 256-bit field elements. Around it stand the names and
//! texts that describe an asset, the feature sets of the three interface
//! classes, and the bookkeeping of an issue.
//!
//! Everything here works on plain values and is verified: no function
//! panics, and every contract says what comes back.

pub mod alignments;
pub mod decimal;
pub mod dumb;
pub mod encoding;
pub mod features;
pub mod fungible;
pub mod iface_ids;
pub mod nft;
pub mod rgb20;
pub mod rgb21;
pub mod rgb25;
pub mod seals;
pub mod standard;
pub mod stl;
pub mod text;

pub use fungible::{Amount, Precision};
pub use rgb20::{Inflation, Rgb20};
pub use rgb21::{Issues, Rgb21};
pub use rgb25::Rgb25;
pub use standard::{IfaceStandard, UnknownStandard, LNPBP_IDENTITY};
