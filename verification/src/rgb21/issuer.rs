//! Primary issue of a non-fungible token.

use vstd::prelude::*;
use vstd::string::{StrSliceExecFns, StringSliceAdditionalSpecFns};
use crate::fungible::Precision;
use crate::rgb21::types::{EmbeddedMedia, NftAllocation, TokenData, TokenIndex, EMBEDDED_MAX_LEN};
use crate::rgb21::Rgb21;
use crate::seals::{spec_seal, GenesisSeal, Layer1, Method, XOutpoint};
use crate::stl::mime::MediaType;
use crate::stl::rstring::InvalidName;
use crate::stl::specs::{AssetSpec, Attachment, ContractTerms, RicardianContract};

verus! {

/// Why a step of an issue was refused.
#[derive(Copy, Clone, Debug, Hash, PartialEq, Eq, Structural)]
pub enum IssuerError {
    /// The seal lies on Liquid, and support for Liquid was not asked for.
    NoLiquidSupport,
    /// The fractions of a token in the outputs exceed the whole.
    FractionOverflow,
    /// An attachment has a kind that the token does not allow.
    InvalidAttachmentType,
    /// An allocation names a token that the contract does not have.
    UnknownToken,
}

impl IssuerError {
    /// The message of the error.
    pub open spec fn spec_message(self) -> Seq<char> {
        match self {
            IssuerError::NoLiquidSupport => "contract genesis doesn't support allocating to liquid seals; request liquid support first."@,
            IssuerError::FractionOverflow => "the amount of token fractions in outputs exceeds 1."@,
            IssuerError::InvalidAttachmentType => "attachment has a type which is not allowed for the token"@,
            IssuerError::UnknownToken => "allocation of unknown token ID"@,
        }
    }

    /// The message of the error.
    pub fn to_string(&self) -> (r: String)
        ensures
            r@ == self.spec_message(),
    {
        match self {
            IssuerError::NoLiquidSupport => {
                "contract genesis doesn't support allocating to liquid seals; request liquid support first.".to_owned()
            },
            IssuerError::FractionOverflow => {
                "the amount of token fractions in outputs exceeds 1.".to_owned()
            },
            IssuerError::InvalidAttachmentType => {
                "attachment has a type which is not allowed for the token".to_owned()
            },
            IssuerError::UnknownToken => "allocation of unknown token ID".to_owned(),
        }
    }
}

/// What a finished issue hands to the builder of the genesis.
#[derive(Clone, Debug, PartialEq, Eq)]
pub struct Rgb21Genesis {
    /// Features of the contract.
    pub features: Rgb21,
    /// Identity of the issuer.
    pub issuer: String,
    /// Specification of the asset.
    pub spec: AssetSpec,
    /// Terms of the contract.
    pub terms: ContractTerms,
    /// Whether seals on Liquid are admitted.
    pub liquid: bool,
    /// The tag of the state of the owners, where the issue fixes it.
    pub asset_tag: Option<[u8; 32]>,
    /// The token of the contract.
    pub token: TokenData,
    /// The allocations, in the order in which they were made.
    pub allocations: Vec<(GenesisSeal, NftAllocation)>,
}

/// A primary issue in preparation.
#[derive(Clone, Debug)]
pub struct Rgb21PrimaryIssue {
    features: Rgb21,
    issuer: String,
    spec: AssetSpec,
    terms: ContractTerms,
    liquid: bool,
    asset_tag: Option<[u8; 32]>,
    allocations: Vec<(GenesisSeal, NftAllocation)>,
}

impl Rgb21PrimaryIssue {
    /// Whether seals on Liquid are admitted.
    pub closed spec fn spec_liquid(self) -> bool {
        self.liquid
    }

    /// The allocations made so far.
    pub closed spec fn spec_allocations(self) -> Seq<(GenesisSeal, NftAllocation)> {
        self.allocations@
    }

    /// The terms of the contract.
    pub closed spec fn spec_terms(self) -> ContractTerms {
        self.terms
    }

    /// The specification of the asset.
    pub closed spec fn spec_spec(self) -> AssetSpec {
        self.spec
    }

    /// The tag of the state of the owners, where the issue fixes it.
    pub closed spec fn spec_asset_tag(self) -> Option<[u8; 32]> {
        self.asset_tag
    }

    /// The features of the contract.
    pub closed spec fn spec_features(self) -> Rgb21 {
        self.features
    }

    /// The identity of the issuer.
    pub closed spec fn spec_issuer(self) -> Seq<char> {
        self.issuer@
    }

    /// Starts the issue of a token on a test network, for a contract with
    /// the given features. The ticker, the name and the details are checked
    /// in this order.
    pub fn testnet_with(
        features: Rgb21,
        by: &str,
        ticker: &str,
        name: &str,
        details: Option<&str>,
        precision: Precision,
    ) -> (r: Result<Rgb21PrimaryIssue, InvalidName>)
        ensures
            match r {
                Ok(issue) => {
                    &&& AssetSpec::spec_valid(
                        ticker@,
                        name@,
                        match details {
                            Some(text) => Some(text@),
                            None => None,
                        },
                    )
                    &&& issue.spec_features() == features
                    &&& issue.spec_issuer() == by@
                    &&& !issue.spec_liquid()
                    &&& issue.spec_allocations().len() == 0
                    &&& issue.spec_asset_tag() is None
                    &&& issue.spec_spec().ticker@ == ticker@
                    &&& issue.spec_spec().name@ == name@
                    &&& issue.spec_spec().precision == precision
                    &&& issue.spec_terms().text@.len() == 0
                    &&& issue.spec_terms().media is None
                },
                Err(fault) => AssetSpec::spec_fault(
                    ticker@,
                    name@,
                    match details {
                        Some(text) => Some(text@),
                        None => None,
                    },
                    fault,
                ),
            },
    {
        let spec = match AssetSpec::with(ticker, name, precision, details) {
            Ok(spec) => spec,
            Err(fault) => {
                return Err(fault);
            },
        };
        Ok(
            Rgb21PrimaryIssue {
                features,
                issuer: by.to_owned(),
                spec,
                terms: ContractTerms::default(),
                liquid: false,
                asset_tag: None,
                allocations: Vec::new(),
            },
        )
    }

    /// Starts the issue as `testnet_with` does, and fixes the tag of the
    /// state of the owners.
    pub fn testnet_det(
        features: Rgb21,
        by: &str,
        ticker: &str,
        name: &str,
        details: Option<&str>,
        precision: Precision,
        asset_tag: [u8; 32],
    ) -> (r: Result<Rgb21PrimaryIssue, InvalidName>)
        ensures
            match r {
                Ok(issue) => {
                    &&& AssetSpec::spec_valid(
                        ticker@,
                        name@,
                        match details {
                            Some(text) => Some(text@),
                            None => None,
                        },
                    )
                    &&& issue.spec_features() == features
                    &&& issue.spec_issuer() == by@
                    &&& !issue.spec_liquid()
                    &&& issue.spec_allocations().len() == 0
                    &&& issue.spec_asset_tag() == Some(asset_tag)
                    &&& issue.spec_spec().ticker@ == ticker@
                    &&& issue.spec_spec().name@ == name@
                    &&& issue.spec_spec().precision == precision
                },
                Err(fault) => AssetSpec::spec_fault(
                    ticker@,
                    name@,
                    match details {
                        Some(text) => Some(text@),
                        None => None,
                    },
                    fault,
                ),
            },
    {
        match Rgb21PrimaryIssue::testnet_with(features, by, ticker, name, details, precision) {
            Ok(issue) => {
                let mut me = issue;
                me.asset_tag = Some(asset_tag);
                Ok(me)
            },
            Err(fault) => Err(fault),
        }
    }

    /// Admits seals on Liquid. This can be asked for once.
    pub fn support_liquid(self) -> (r: Rgb21PrimaryIssue)
        requires
            !self.spec_liquid(),
        ensures
            r.spec_liquid(),
            r.spec_allocations() == self.spec_allocations(),
            r.spec_terms() == self.spec_terms(),
            r.spec_spec() == self.spec_spec(),
            r.spec_asset_tag() == self.spec_asset_tag(),
            r.spec_features() == self.spec_features(),
            r.spec_issuer() == self.spec_issuer(),
    {
        let mut next = self;
        next.liquid = true;
        next
    }

    /// Sets the terms of the contract. A text of more than 65535 bytes is
    /// refused.
    pub fn add_terms(self, contract: &str, media: Option<Attachment>) -> (r: Result<
        Rgb21PrimaryIssue,
        InvalidName,
    >)
        ensures
            match r {
                Ok(next) => {
                    &&& next.spec_terms().text@ == contract@
                    &&& next.spec_terms().media == media
                    &&& next.spec_allocations() == self.spec_allocations()
                    &&& next.spec_liquid() == self.spec_liquid()
                    &&& next.spec_spec() == self.spec_spec()
                    &&& next.spec_asset_tag() == self.spec_asset_tag()
                    &&& next.spec_features() == self.spec_features()
                    &&& next.spec_issuer() == self.spec_issuer()
                },
                Err(fault) => fault == InvalidName::Oversize && !RicardianContract::spec_valid(
                    contract@,
                ),
            },
    {
        let terms = match ContractTerms::with(contract, media) {
            Ok(terms) => terms,
            Err(fault) => {
                return Err(fault);
            },
        };
        let mut next = self;
        next.terms = terms;
        Ok(next)
    }

    /// Allocates a share of a token to `beneficiary`, under a seal blinded
    /// at random. A seal on Liquid needs the support for it.
    pub fn allocate(self, method: Method, beneficiary: XOutpoint, allocation: NftAllocation) -> (r:
        Result<Rgb21PrimaryIssue, IssuerError>)
        ensures
            match r {
                Ok(next) => {
                    &&& beneficiary.layer1 == Layer1::Liquid ==> self.spec_liquid()
                    &&& next.spec_liquid() == self.spec_liquid()
                    &&& next.spec_terms() == self.spec_terms()
                    &&& next.spec_spec() == self.spec_spec()
                    &&& next.spec_asset_tag() == self.spec_asset_tag()
                    &&& next.spec_features() == self.spec_features()
                    &&& next.spec_issuer() == self.spec_issuer()
                    &&& exists|blinding: u64|
                        next.spec_allocations() == self.spec_allocations().push(
                            (#[trigger] spec_seal(method, beneficiary, blinding), allocation),
                        )
                },
                Err(e) => e == IssuerError::NoLiquidSupport && beneficiary.layer1 == Layer1::Liquid
                    && !self.spec_liquid(),
            },
    {
        let seal = GenesisSeal::new_random(method, beneficiary);
        let admitted = match beneficiary.layer1 {
            Layer1::Bitcoin => true,
            Layer1::Liquid => self.liquid,
        };
        if !admitted {
            return Err(IssuerError::NoLiquidSupport);
        }
        let mut next = self;
        next.allocations.push((seal, allocation));
        Ok(next)
    }

    /// Allocates each share of the list to its beneficiary, in order, and
    /// stops at the first that is refused.
    pub fn allocate_all(
        self,
        method: Method,
        allocations: &Vec<(XOutpoint, NftAllocation)>,
    ) -> (r: Result<Rgb21PrimaryIssue, IssuerError>)
        ensures
            match r {
                Ok(next) => {
                    &&& forall|i: int|
                        0 <= i < allocations@.len() ==> (#[trigger] allocations@[i]).0.layer1
                            == Layer1::Liquid ==> self.spec_liquid()
                    &&& next.spec_liquid() == self.spec_liquid()
                    &&& next.spec_terms() == self.spec_terms()
                    &&& next.spec_spec() == self.spec_spec()
                    &&& next.spec_asset_tag() == self.spec_asset_tag()
                    &&& next.spec_features() == self.spec_features()
                    &&& next.spec_issuer() == self.spec_issuer()
                    &&& next.spec_allocations().len() == self.spec_allocations().len()
                        + allocations@.len()
                    &&& forall|i: int|
                        0 <= i < allocations@.len() ==> (#[trigger] next.spec_allocations()[
                            self.spec_allocations().len() + i
                        ]).1 == allocations@[i].1 && next.spec_allocations()[self.spec_allocations().len()
                            + i].0.outpoint == allocations@[i].0
                },
                Err(e) => e == IssuerError::NoLiquidSupport && !self.spec_liquid() && exists|k: int|
                    0 <= k < allocations@.len() && (#[trigger] allocations@[k]).0.layer1
                        == Layer1::Liquid,
            },
    {
        let ghost start = self;
        let mut issue = self;
        let mut i: usize = 0;
        while i < allocations.len()
            invariant
                i <= allocations@.len(),
                start == self,
                issue.spec_liquid() == start.spec_liquid(),
                issue.spec_terms() == start.spec_terms(),
                issue.spec_spec() == start.spec_spec(),
                issue.spec_asset_tag() == start.spec_asset_tag(),
                issue.spec_features() == start.spec_features(),
                issue.spec_issuer() == start.spec_issuer(),
                issue.spec_allocations().len() == start.spec_allocations().len() + i,
                forall|j: int|
                    0 <= j < i ==> (#[trigger] allocations@[j]).0.layer1 == Layer1::Liquid
                        ==> start.spec_liquid(),
                forall|j: int|
                    0 <= j < i ==> (#[trigger] issue.spec_allocations()[
                        start.spec_allocations().len() + j
                    ]).1 == allocations@[j].1 && issue.spec_allocations()[start.spec_allocations().len()
                        + j].0.outpoint == allocations@[j].0,
            decreases allocations@.len() - i,
        {
            let (beneficiary, allocation) = allocations[i];
            let ghost before = issue;
            issue = match issue.allocate(method, beneficiary, allocation) {
                Ok(next) => next,
                Err(e) => {
                    proof {
                        assert(allocations@[i as int].0 == beneficiary);
                    }
                    return Err(e);
                },
            };
            proof {
                assert forall|j: int| 0 <= j < i + 1 implies (#[trigger] issue.spec_allocations()[
                    start.spec_allocations().len() + j
                ]).1 == allocations@[j].1 && issue.spec_allocations()[start.spec_allocations().len()
                    + j].0.outpoint == allocations@[j].0 by {
                    if j < i {
                        assert(issue.spec_allocations()[start.spec_allocations().len() + j]
                            == before.spec_allocations()[start.spec_allocations().len() + j]);
                    }
                }
            }
            i += 1;
        }
        Ok(issue)
    }

    /// Closes the issue of the token `token_index`, whose preview is the
    /// text `image_url`, held as an image of unstated kind. The text must
    /// have at most 65535 bytes.
    pub fn pre_issue_contract(self, token_index: u32, image_url: &str) -> (r: Rgb21Genesis)
        requires
            image_url.spec_bytes().len() <= EMBEDDED_MAX_LEN,
        ensures
            r.token.spec_wf(),
            r.token.index@ == token_index,
            r.token.preview is Some,
            r.token.preview->0.data@ == image_url.spec_bytes(),
            r.token.preview->0.ty.ty@ == "image"@,
            r.token.preview->0.ty.subtype is None,
            r.token.ticker is None,
            r.token.name is None,
            r.token.details is None,
            r.token.media is None,
            r.token.attachments@.len() == 0,
            r.token.reserves is None,
            r.allocations@ == self.spec_allocations(),
            r.terms == self.spec_terms(),
            r.spec == self.spec_spec(),
            r.liquid == self.spec_liquid(),
            r.asset_tag == self.spec_asset_tag(),
            r.features == self.spec_features(),
            r.issuer@ == self.spec_issuer(),
    {
        let index = TokenIndex::from_inner(token_index);
        let preview = EmbeddedMedia { ty: MediaType::image_any(), data: image_url.as_bytes_vec() };
        let mut token = TokenData::default();
        token.index = index;
        token.preview = Some(preview);
        Rgb21Genesis {
            features: self.features,
            issuer: self.issuer,
            spec: self.spec,
            terms: self.terms,
            liquid: self.liquid,
            asset_tag: self.asset_tag,
            token,
            allocations: self.allocations,
        }
    }
}

} // verus!
