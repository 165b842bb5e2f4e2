//! Seals over transaction outputs, as plain values.
//!
//! An allocation of a contract is bound to a transaction output. The library
//! decides what is allocated and records where; closing the seals is not its
//! business, so a seal here is just the data that names it.

use vstd::prelude::*;

verus! {

/// The chain on which a transaction output lies.
#[derive(Copy, Clone, Debug, Hash, PartialEq, Eq, Structural, PartialOrd, Ord)]
pub enum Layer1 {
    Bitcoin,
    Liquid,
}

/// How the seal over a transaction output will be closed.
#[derive(Copy, Clone, Debug, Hash, PartialEq, Eq, Structural, PartialOrd, Ord)]
pub enum Method {
    OpretFirst,
    TapretFirst,
}

/// A transaction output: the transaction and the number of the output.
#[derive(Copy, Clone, Debug, Hash, PartialEq, Eq)]
pub struct Outpoint {
    pub txid: [u8; 32],
    pub vout: u32,
}

/// A transaction output on one of the chains.
#[derive(Copy, Clone, Debug, Hash, PartialEq, Eq)]
pub struct XOutpoint {
    pub layer1: Layer1,
    pub txid: [u8; 32],
    pub vout: u32,
}

impl XOutpoint {
    /// The output `outpoint` on Bitcoin.
    pub open spec fn spec_bitcoin(outpoint: Outpoint) -> XOutpoint {
        XOutpoint { layer1: Layer1::Bitcoin, txid: outpoint.txid, vout: outpoint.vout }
    }

    /// The output `outpoint` on Bitcoin.
    pub fn bitcoin(outpoint: Outpoint) -> (r: XOutpoint)
        ensures
            r == XOutpoint::spec_bitcoin(outpoint),
    {
        XOutpoint { layer1: Layer1::Bitcoin, txid: outpoint.txid, vout: outpoint.vout }
    }

    /// The output `outpoint` on Liquid.
    pub fn liquid(outpoint: Outpoint) -> (r: XOutpoint)
        ensures
            r == (XOutpoint { layer1: Layer1::Liquid, txid: outpoint.txid, vout: outpoint.vout }),
    {
        XOutpoint { layer1: Layer1::Liquid, txid: outpoint.txid, vout: outpoint.vout }
    }
}

/// A seal of the genesis of a contract: an output, the way the seal will be
/// closed, and the number that blinds it.
#[derive(Copy, Clone, Debug, Hash, PartialEq, Eq)]
pub struct GenesisSeal {
    pub outpoint: XOutpoint,
    pub method: Method,
    pub blinding: u64,
}

/// The seal over `outpoint` that is closed by `method` and blinded by
/// `blinding`.
pub open spec fn spec_seal(method: Method, outpoint: XOutpoint, blinding: u64) -> GenesisSeal {
    GenesisSeal { outpoint, method, blinding }
}

impl GenesisSeal {
    /// The seal over `outpoint` with the given blinding number.
    pub fn with_blinding(method: Method, outpoint: XOutpoint, blinding: u64) -> (r: GenesisSeal)
        ensures
            r == spec_seal(method, outpoint, blinding),
    {
        GenesisSeal { outpoint, method, blinding }
    }

    /// The seal over `outpoint` with a blinding number drawn at random.
    pub fn new_random(method: Method, outpoint: XOutpoint) -> (r: GenesisSeal)
        ensures
            r == spec_seal(method, outpoint, r.blinding),
    {
        GenesisSeal { outpoint, method, blinding: random_blinding() }
    }
}

/// Draws a blinding number with `rand::random`, from the generator of the
/// thread. Nothing is promised of the number.
#[verifier::external_body]
pub(crate) fn random_blinding() -> (r: u64) {
    rand::random()
}

} // verus!
