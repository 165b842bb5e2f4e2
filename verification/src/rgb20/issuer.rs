//! Primary issue of a fungible asset.
//!
//! The issue is prepared step by step: every allocation adds to the issued
//! supply, every inflation allowance to the supply that may be issued later,
//! and neither may ever exceed what 64 bits hold. What is prepared here is a
//! record in plain values, from which the genesis of the contract is built.

use vstd::prelude::*;
use crate::fungible::Amount;
use crate::rgb20::Rgb20;
use crate::seals::{spec_seal, GenesisSeal, Layer1, Method, XOutpoint};
use crate::fungible::Precision;
use crate::stl::rstring::InvalidName;
use crate::stl::specs::{AssetSpec, Attachment, ContractTerms, RicardianContract};

verus! {

/// Why a step of an issue was refused.
#[derive(Copy, Clone, Debug, Hash, PartialEq, Eq, Structural)]
pub enum IssuerError {
    /// The seal lies on Liquid, and support for Liquid was not asked for.
    NoLiquidSupport,
    /// The total amount would exceed what 64 bits hold.
    AmountOverflow,
}

impl IssuerError {
    /// The message of the error.
    pub open spec fn spec_message(self) -> Seq<char> {
        match self {
            IssuerError::NoLiquidSupport => "contract genesis doesn't support allocating to liquid seals; request liquid support first."@,
            IssuerError::AmountOverflow => "overflow in the amount of the issued assets: the total amount must not exceed 2^64."@,
        }
    }

    /// The message of the error.
    pub fn to_string(&self) -> (r: String)
        ensures
            r@ == self.spec_message(),
    {
        match self {
            IssuerError::NoLiquidSupport => {
                "contract genesis doesn't support allocating to liquid seals; request liquid support first.".to_owned()
            },
            IssuerError::AmountOverflow => {
                "overflow in the amount of the issued assets: the total amount must not exceed 2^64.".to_owned()
            },
        }
    }
}

/// One thing that the genesis of the contract will hold.
#[derive(Copy, Clone, Debug, PartialEq, Eq)]
pub enum IssueStep {
    /// Assets owned by a seal.
    Allocate { seal: GenesisSeal, amount: Amount },
    /// The right to issue up to `supply` more, owned by a seal.
    AllowInflation { seal: GenesisSeal, supply: Amount },
    /// The right to burn, owned by a seal.
    AllowBurn { seal: GenesisSeal },
    /// The right to replace, owned by a seal.
    AllowReplace { seal: GenesisSeal },
    /// The inflation that the contract allows, as metadata.
    InflationMetadata { amount: Amount },
}

/// What a finished issue hands to the builder of the genesis.
#[derive(Clone, Debug, PartialEq, Eq)]
pub struct Genesis {
    /// Features of the contract.
    pub features: Rgb20,
    /// Identity of the issuer.
    pub issuer: String,
    /// Specification of the asset.
    pub spec: AssetSpec,
    /// Terms of the contract.
    pub terms: ContractTerms,
    /// Whether seals on Liquid are admitted.
    pub liquid: bool,
    /// Sum of all allocations.
    pub issued_supply: Amount,
    /// Issued supply plus all inflation allowances, where there are any.
    pub max_supply: Option<Amount>,
    /// The steps, in the order in which they were taken.
    pub steps: Vec<IssueStep>,
}

/// A primary issue in preparation.
#[derive(Clone, Debug)]
pub struct PrimaryIssue {
    features: Rgb20,
    issuer: String,
    spec: AssetSpec,
    terms: ContractTerms,
    liquid: bool,
    issued: Amount,
    inflation: Option<Amount>,
    steps: Vec<IssueStep>,
}

impl PrimaryIssue {
    /// Sum of the allocations made so far.
    pub closed spec fn spec_issued(self) -> Amount {
        self.issued
    }

    /// Sum of the inflation allowances made so far, if there are any.
    pub closed spec fn spec_inflation(self) -> Option<Amount> {
        self.inflation
    }

    /// Whether seals on Liquid are admitted.
    pub closed spec fn spec_liquid(self) -> bool {
        self.liquid
    }

    /// The steps taken so far.
    pub closed spec fn spec_steps(self) -> Seq<IssueStep> {
        self.steps@
    }

    /// The terms of the contract.
    pub closed spec fn spec_terms(self) -> ContractTerms {
        self.terms
    }

    /// The specification of the asset.
    pub closed spec fn spec_spec(self) -> AssetSpec {
        self.spec
    }

    /// The features of the contract.
    pub closed spec fn spec_features(self) -> Rgb20 {
        self.features
    }

    /// The identity of the issuer.
    pub closed spec fn spec_issuer(self) -> Seq<char> {
        self.issuer@
    }

    /// Whether a seal may be used: one on Liquid needs the support for it.
    pub open spec fn spec_admits(self, seal: GenesisSeal) -> bool {
        seal.outpoint.layer1 == Layer1::Liquid ==> self.spec_liquid()
    }

    /// Whether `next` is this issue with one more step and, apart from what
    /// the step counts up, nothing else changed.
    pub open spec fn spec_stepped(self, next: PrimaryIssue, step: IssueStep) -> bool {
        &&& next.spec_steps() == self.spec_steps().push(step)
        &&& next.spec_liquid() == self.spec_liquid()
        &&& next.spec_terms() == self.spec_terms()
        &&& next.spec_spec() == self.spec_spec()
        &&& next.spec_features() == self.spec_features()
        &&& next.spec_issuer() == self.spec_issuer()
    }

    /// Starts the issue of an asset on a test network, for a contract with
    /// the given features. The ticker, the name and the details are checked
    /// in this order.
    pub fn testnet_with(
        features: Rgb20,
        by: &str,
        ticker: &str,
        name: &str,
        details: Option<&str>,
        precision: Precision,
    ) -> (r: Result<PrimaryIssue, InvalidName>)
        ensures
            match r {
                Ok(issue) => {
                    &&& issue.spec_features() == features
                    &&& issue.spec_issuer() == by@
                    &&& issue.spec_issued()@ == 0
                    &&& issue.spec_inflation() is None
                    &&& !issue.spec_liquid()
                    &&& issue.spec_steps().len() == 0
                    &&& issue.spec_spec().ticker@ == ticker@
                    &&& issue.spec_spec().name@ == name@
                    &&& issue.spec_spec().precision == precision
                    &&& issue.spec_terms().text@.len() == 0
                    &&& issue.spec_terms().media is None
                    &&& AssetSpec::spec_valid(
                        ticker@,
                        name@,
                        match details {
                            Some(text) => Some(text@),
                            None => None,
                        },
                    )
                },
                Err(fault) => AssetSpec::spec_fault(
                    ticker@,
                    name@,
                    match details {
                        Some(text) => Some(text@),
                        None => None,
                    },
                    fault,
                ),
            },
    {
        let spec = match AssetSpec::with(ticker, name, precision, details) {
            Ok(spec) => spec,
            Err(fault) => {
                return Err(fault);
            },
        };
        Ok(
            PrimaryIssue {
                features,
                issuer: by.to_owned(),
                spec,
                terms: ContractTerms::default(),
                liquid: false,
                issued: Amount::zero(),
                inflation: None,
                steps: Vec::new(),
            },
        )
    }

    /// Admits seals on Liquid. This can be asked for once.
    pub fn support_liquid(self) -> (r: PrimaryIssue)
        requires
            !self.spec_liquid(),
        ensures
            r.spec_liquid(),
            r.spec_issued() == self.spec_issued(),
            r.spec_inflation() == self.spec_inflation(),
            r.spec_steps() == self.spec_steps(),
            r.spec_terms() == self.spec_terms(),
            r.spec_spec() == self.spec_spec(),
            r.spec_features() == self.spec_features(),
            r.spec_issuer() == self.spec_issuer(),
    {
        let mut next = self;
        next.liquid = true;
        next
    }

    /// Sets the terms of the contract. A text of more than 65535 bytes is
    /// refused.
    pub fn add_terms(self, contract: &str, media: Option<Attachment>) -> (r: Result<
        PrimaryIssue,
        InvalidName,
    >)
        ensures
            match r {
                Ok(next) => {
                    &&& next.spec_terms().text@ == contract@
                    &&& next.spec_terms().media == media
                    &&& next.spec_issued() == self.spec_issued()
                    &&& next.spec_inflation() == self.spec_inflation()
                    &&& next.spec_steps() == self.spec_steps()
                    &&& next.spec_liquid() == self.spec_liquid()
                    &&& next.spec_spec() == self.spec_spec()
                    &&& next.spec_features() == self.spec_features()
                    &&& next.spec_issuer() == self.spec_issuer()
                    &&& RicardianContract::spec_valid(contract@)
                },
                Err(fault) => fault == InvalidName::Oversize && !RicardianContract::spec_valid(
                    contract@,
                ),
            },
    {
        let terms = match ContractTerms::with(contract, media) {
            Ok(terms) => terms,
            Err(fault) => {
                return Err(fault);
            },
        };
        let mut next = self;
        next.terms = terms;
        Ok(next)
    }

    /// Records the inflation that the contract allows as metadata.
    pub fn add_inflation_metadata(self, amount: Amount) -> (r: Result<PrimaryIssue, IssuerError>)
        ensures
            r is Ok,
            self.spec_stepped(r->Ok_0, IssueStep::InflationMetadata { amount }),
            r->Ok_0.spec_issued() == self.spec_issued(),
            r->Ok_0.spec_inflation() == self.spec_inflation(),
    {
        let mut next = self;
        next.steps.push(IssueStep::InflationMetadata { amount });
        Ok(next)
    }

    /// Allocates `amount` to `beneficiary` under a seal blinded at random.
    /// The outcome is that of `allocate_det` with the number drawn.
    pub fn allocate(self, method: Method, beneficiary: XOutpoint, amount: Amount) -> (r: Result<
        PrimaryIssue,
        IssuerError,
    >)
        ensures
            match r {
                Ok(next) => {
                    &&& self.spec_issued()@ + amount@ <= u64::MAX
                    &&& beneficiary.layer1 == Layer1::Liquid ==> self.spec_liquid()
                    &&& next.spec_issued()@ == self.spec_issued()@ + amount@
                    &&& next.spec_inflation() == self.spec_inflation()
                    &&& exists|blinding: u64|
                        self.spec_stepped(
                            next,
                            IssueStep::Allocate {
                                seal: #[trigger] spec_seal(method, beneficiary, blinding),
                                amount,
                            },
                        )
                },
                Err(IssuerError::AmountOverflow) => self.spec_issued()@ + amount@ > u64::MAX,
                Err(IssuerError::NoLiquidSupport) => self.spec_issued()@ + amount@ <= u64::MAX
                    && beneficiary.layer1 == Layer1::Liquid && !self.spec_liquid(),
            },
    {
        let seal = GenesisSeal::new_random(method, beneficiary);
        self.allocate_seal(seal, amount)
    }

    /// Allocates each amount of the list to its beneficiary, in order, and
    /// stops at the first that is refused.
    pub fn allocate_all(self, method: Method, allocations: &Vec<(XOutpoint, Amount)>) -> (r: Result<
        PrimaryIssue,
        IssuerError,
    >)
        ensures
            match r {
                Ok(next) => {
                    &&& spec_allocate_all(
                        self.spec_issued()@,
                        self.spec_liquid(),
                        allocations@,
                    ) == Ok::<nat, IssuerError>(next.spec_issued()@)
                    &&& next.spec_issued()@ == self.spec_issued()@ + sum_of(allocations@)
                    &&& next.spec_inflation() == self.spec_inflation()
                    &&& next.spec_liquid() == self.spec_liquid()
                    &&& next.spec_steps().len() == self.spec_steps().len() + allocations@.len()
                },
                Err(e) => spec_allocate_all(
                    self.spec_issued()@,
                    self.spec_liquid(),
                    allocations@,
                ) == Err::<nat, IssuerError>(e),
            },
    {
        let ghost start = self;
        let mut issue = self;
        let mut i: usize = 0;
        while i < allocations.len()
            invariant
                i <= allocations@.len(),
                start == self,
                spec_allocate_all(
                    start.spec_issued()@,
                    start.spec_liquid(),
                    allocations@.take(i as int),
                ) == Ok::<nat, IssuerError>(issue.spec_issued()@),
                issue.spec_issued()@ == start.spec_issued()@ + sum_of(allocations@.take(i as int)),
                issue.spec_inflation() == start.spec_inflation(),
                issue.spec_liquid() == start.spec_liquid(),
                issue.spec_steps().len() == start.spec_steps().len() + i,
            decreases allocations@.len() - i,
        {
            let (beneficiary, amount) = allocations[i];
            proof {
                let longer = allocations@.take(i + 1);
                assert(longer.drop_last() =~= allocations@.take(i as int));
                assert(longer.last() == allocations@[i as int]);
            }
            issue = match issue.allocate(method, beneficiary, amount) {
                Ok(next) => next,
                Err(e) => {
                    proof {
                        lemma_refusal_stays(
                            start.spec_issued()@,
                            start.spec_liquid(),
                            allocations@,
                            i + 1,
                        );
                    }
                    return Err(e);
                },
            };
            i += 1;
        }
        proof {
            assert(allocations@.take(i as int) =~= allocations@);
        }
        Ok(issue)
    }

    /// Allocates `amount` to `beneficiary` under a seal with the given
    /// blinding number. The amount is counted first: where the issued supply
    /// would overflow, that is the error, whatever the seal.
    pub fn allocate_det(
        self,
        method: Method,
        beneficiary: XOutpoint,
        seal_blinding: u64,
        amount: Amount,
    ) -> (r: Result<PrimaryIssue, IssuerError>)
        ensures
            match r {
                Ok(next) => {
                    &&& self.spec_issued()@ + amount@ <= u64::MAX
                    &&& beneficiary.layer1 == Layer1::Liquid ==> self.spec_liquid()
                    &&& next.spec_issued()@ == self.spec_issued()@ + amount@
                    &&& next.spec_inflation() == self.spec_inflation()
                    &&& self.spec_stepped(
                        next,
                        IssueStep::Allocate {
                            seal: GenesisSeal {
                                outpoint: beneficiary,
                                method,
                                blinding: seal_blinding,
                            },
                            amount,
                        },
                    )
                },
                Err(IssuerError::AmountOverflow) => self.spec_issued()@ + amount@ > u64::MAX,
                Err(IssuerError::NoLiquidSupport) => self.spec_issued()@ + amount@ <= u64::MAX
                    && beneficiary.layer1 == Layer1::Liquid && !self.spec_liquid(),
            },
    {
        let seal = GenesisSeal::with_blinding(method, beneficiary, seal_blinding);
        self.allocate_seal(seal, amount)
    }

    /// Allocates `amount` under `seal`.
    fn allocate_seal(self, seal: GenesisSeal, amount: Amount) -> (r: Result<
        PrimaryIssue,
        IssuerError,
    >)
        ensures
            match r {
                Ok(next) => {
                    &&& self.spec_issued()@ + amount@ <= u64::MAX
                    &&& self.spec_admits(seal)
                    &&& next.spec_issued()@ == self.spec_issued()@ + amount@
                    &&& next.spec_inflation() == self.spec_inflation()
                    &&& self.spec_stepped(next, IssueStep::Allocate { seal, amount })
                },
                Err(IssuerError::AmountOverflow) => self.spec_issued()@ + amount@ > u64::MAX,
                Err(IssuerError::NoLiquidSupport) => self.spec_issued()@ + amount@ <= u64::MAX
                    && !self.spec_admits(seal),
            },
    {
        let mut next = self;
        match next.issued.checked_add_assign(amount) {
            Some(_) => {},
            None => {
                return Err(IssuerError::AmountOverflow);
            },
        }
        if !next.admits(&seal) {
            return Err(IssuerError::NoLiquidSupport);
        }
        next.steps.push(IssueStep::Allocate { seal, amount });
        Ok(next)
    }

    /// Whether a seal may be used: one on Liquid needs the support for it.
    fn admits(&self, seal: &GenesisSeal) -> (r: bool)
        ensures
            r == self.spec_admits(*seal),
    {
        match seal.outpoint.layer1 {
            Layer1::Bitcoin => true,
            Layer1::Liquid => self.liquid,
        }
    }

    /// Gives `controller` the right to issue up to `supply` more, under a
    /// seal blinded at random. The outcome is that of `allow_inflation_det`
    /// with the number drawn.
    pub fn allow_inflation(self, method: Method, controller: XOutpoint, supply: Amount) -> (r:
        Result<PrimaryIssue, IssuerError>)
        ensures
            match r {
                Ok(next) => {
                    &&& spec_grown(self.spec_inflation(), supply) is Some
                    &&& controller.layer1 == Layer1::Liquid ==> self.spec_liquid()
                    &&& next.spec_inflation() == spec_grown(self.spec_inflation(), supply)
                    &&& next.spec_issued() == self.spec_issued()
                    &&& exists|blinding: u64|
                        self.spec_stepped(
                            next,
                            IssueStep::AllowInflation {
                                seal: #[trigger] spec_seal(method, controller, blinding),
                                supply,
                            },
                        )
                },
                Err(IssuerError::AmountOverflow) => spec_grown(self.spec_inflation(), supply)
                    is None,
                Err(IssuerError::NoLiquidSupport) => spec_grown(self.spec_inflation(), supply)
                    is Some && controller.layer1 == Layer1::Liquid && !self.spec_liquid(),
            },
    {
        let seal = GenesisSeal::new_random(method, controller);
        self.allow_inflation_seal(seal, supply)
    }

    /// Gives `controller` the right to issue up to `supply` more, under a
    /// seal with the given blinding number. The supply is counted first.
    pub fn allow_inflation_det(
        self,
        method: Method,
        controller: XOutpoint,
        seal_blinding: u64,
        supply: Amount,
    ) -> (r: Result<PrimaryIssue, IssuerError>)
        ensures
            match r {
                Ok(next) => {
                    &&& spec_grown(self.spec_inflation(), supply) is Some
                    &&& controller.layer1 == Layer1::Liquid ==> self.spec_liquid()
                    &&& next.spec_inflation() == spec_grown(self.spec_inflation(), supply)
                    &&& next.spec_issued() == self.spec_issued()
                    &&& self.spec_stepped(
                        next,
                        IssueStep::AllowInflation {
                            seal: GenesisSeal {
                                outpoint: controller,
                                method,
                                blinding: seal_blinding,
                            },
                            supply,
                        },
                    )
                },
                Err(IssuerError::AmountOverflow) => spec_grown(self.spec_inflation(), supply)
                    is None,
                Err(IssuerError::NoLiquidSupport) => spec_grown(self.spec_inflation(), supply)
                    is Some && controller.layer1 == Layer1::Liquid && !self.spec_liquid(),
            },
    {
        let seal = GenesisSeal::with_blinding(method, controller, seal_blinding);
        self.allow_inflation_seal(seal, supply)
    }

    /// Gives the owner of `seal` the right to issue up to `supply` more.
    fn allow_inflation_seal(self, seal: GenesisSeal, supply: Amount) -> (r: Result<
        PrimaryIssue,
        IssuerError,
    >)
        ensures
            match r {
                Ok(next) => {
                    &&& spec_grown(self.spec_inflation(), supply) is Some
                    &&& self.spec_admits(seal)
                    &&& next.spec_inflation() == spec_grown(self.spec_inflation(), supply)
                    &&& next.spec_issued() == self.spec_issued()
                    &&& self.spec_stepped(next, IssueStep::AllowInflation { seal, supply })
                },
                Err(IssuerError::AmountOverflow) => spec_grown(self.spec_inflation(), supply)
                    is None,
                Err(IssuerError::NoLiquidSupport) => spec_grown(self.spec_inflation(), supply)
                    is Some && !self.spec_admits(seal),
            },
    {
        let mut next = match self.update_max_supply(supply) {
            Ok(next) => next,
            Err(e) => {
                return Err(e);
            },
        };
        if !next.admits(&seal) {
            return Err(IssuerError::NoLiquidSupport);
        }
        next.steps.push(IssueStep::AllowInflation { seal, supply });
        Ok(next)
    }

    /// Adds `supply` to the inflation allowed so far.
    fn update_max_supply(self, supply: Amount) -> (r: Result<PrimaryIssue, IssuerError>)
        ensures
            match r {
                Ok(next) => {
                    &&& spec_grown(self.spec_inflation(), supply) is Some
                    &&& next.spec_inflation() == spec_grown(self.spec_inflation(), supply)
                    &&& next.spec_issued() == self.spec_issued()
                    &&& next.spec_steps() == self.spec_steps()
                    &&& next.spec_liquid() == self.spec_liquid()
                    &&& next.spec_terms() == self.spec_terms()
                    &&& next.spec_spec() == self.spec_spec()
                    &&& next.spec_features() == self.spec_features()
                    &&& next.spec_issuer() == self.spec_issuer()
                },
                Err(e) => e == IssuerError::AmountOverflow && spec_grown(
                    self.spec_inflation(),
                    supply,
                ) is None,
            },
    {
        let mut next = self;
        match next.inflation {
            Some(max) => match max.checked_add(supply) {
                Some(sum) => {
                    next.inflation = Some(sum);
                },
                None => {
                    return Err(IssuerError::AmountOverflow);
                },
            },
            None => {
                next.inflation = Some(supply);
            },
        }
        Ok(next)
    }

    /// Gives `controller` the right to burn, under a seal blinded at random.
    pub fn allow_burn(self, method: Method, controller: XOutpoint) -> (r: Result<
        PrimaryIssue,
        IssuerError,
    >)
        ensures
            match r {
                Ok(next) => {
                    &&& controller.layer1 == Layer1::Liquid ==> self.spec_liquid()
                    &&& next.spec_issued() == self.spec_issued()
                    &&& next.spec_inflation() == self.spec_inflation()
                    &&& exists|blinding: u64|
                        self.spec_stepped(
                            next,
                            IssueStep::AllowBurn {
                                seal: #[trigger] spec_seal(method, controller, blinding),
                            },
                        )
                },
                Err(e) => e == IssuerError::NoLiquidSupport && controller.layer1 == Layer1::Liquid
                    && !self.spec_liquid(),
            },
    {
        let seal = GenesisSeal::new_random(method, controller);
        self.add_right(IssueStep::AllowBurn { seal }, seal)
    }

    /// Gives `controller` the right to burn, under a seal with the given
    /// blinding number.
    pub fn allow_burn_det(self, method: Method, controller: XOutpoint, seal_blinding: u64) -> (r:
        Result<PrimaryIssue, IssuerError>)
        ensures
            match r {
                Ok(next) => {
                    &&& controller.layer1 == Layer1::Liquid ==> self.spec_liquid()
                    &&& next.spec_issued() == self.spec_issued()
                    &&& next.spec_inflation() == self.spec_inflation()
                    &&& self.spec_stepped(
                        next,
                        IssueStep::AllowBurn {
                            seal: GenesisSeal {
                                outpoint: controller,
                                method,
                                blinding: seal_blinding,
                            },
                        },
                    )
                },
                Err(e) => e == IssuerError::NoLiquidSupport && controller.layer1 == Layer1::Liquid
                    && !self.spec_liquid(),
            },
    {
        let seal = GenesisSeal::with_blinding(method, controller, seal_blinding);
        self.add_right(IssueStep::AllowBurn { seal }, seal)
    }

    /// Gives `controller` the right to replace, under a seal blinded at
    /// random.
    pub fn allow_replace(self, method: Method, controller: XOutpoint) -> (r: Result<
        PrimaryIssue,
        IssuerError,
    >)
        ensures
            match r {
                Ok(next) => {
                    &&& controller.layer1 == Layer1::Liquid ==> self.spec_liquid()
                    &&& next.spec_issued() == self.spec_issued()
                    &&& next.spec_inflation() == self.spec_inflation()
                    &&& exists|blinding: u64|
                        self.spec_stepped(
                            next,
                            IssueStep::AllowReplace {
                                seal: #[trigger] spec_seal(method, controller, blinding),
                            },
                        )
                },
                Err(e) => e == IssuerError::NoLiquidSupport && controller.layer1 == Layer1::Liquid
                    && !self.spec_liquid(),
            },
    {
        let seal = GenesisSeal::new_random(method, controller);
        self.add_right(IssueStep::AllowReplace { seal }, seal)
    }

    /// Gives `controller` the right to replace, under a seal with the given
    /// blinding number.
    pub fn allow_replace_det(self, method: Method, controller: XOutpoint, seal_blinding: u64) -> (r:
        Result<PrimaryIssue, IssuerError>)
        ensures
            match r {
                Ok(next) => {
                    &&& controller.layer1 == Layer1::Liquid ==> self.spec_liquid()
                    &&& next.spec_issued() == self.spec_issued()
                    &&& next.spec_inflation() == self.spec_inflation()
                    &&& self.spec_stepped(
                        next,
                        IssueStep::AllowReplace {
                            seal: GenesisSeal {
                                outpoint: controller,
                                method,
                                blinding: seal_blinding,
                            },
                        },
                    )
                },
                Err(e) => e == IssuerError::NoLiquidSupport && controller.layer1 == Layer1::Liquid
                    && !self.spec_liquid(),
            },
    {
        let seal = GenesisSeal::with_blinding(method, controller, seal_blinding);
        self.add_right(IssueStep::AllowReplace { seal }, seal)
    }

    /// Records a right owned by `seal`.
    fn add_right(self, step: IssueStep, seal: GenesisSeal) -> (r: Result<PrimaryIssue, IssuerError>)
        ensures
            match r {
                Ok(next) => {
                    &&& self.spec_admits(seal)
                    &&& next.spec_issued() == self.spec_issued()
                    &&& next.spec_inflation() == self.spec_inflation()
                    &&& self.spec_stepped(next, step)
                },
                Err(e) => e == IssuerError::NoLiquidSupport && !self.spec_admits(seal),
            },
    {
        if !self.admits(&seal) {
            return Err(IssuerError::NoLiquidSupport);
        }
        let mut next = self;
        next.steps.push(step);
        Ok(next)
    }

    /// Closes the issue. The greatest supply of the contract is the issued
    /// supply plus the inflation allowed, where inflation was allowed at
    /// all; it must fit 64 bits.
    pub fn pre_issue_contract(self) -> (r: Result<Genesis, IssuerError>)
        ensures
            match r {
                Ok(genesis) => {
                    &&& genesis.issued_supply == self.spec_issued()
                    &&& genesis.steps@ == self.spec_steps()
                    &&& genesis.liquid == self.spec_liquid()
                    &&& genesis.terms == self.spec_terms()
                    &&& genesis.spec == self.spec_spec()
                    &&& genesis.features == self.spec_features()
                    &&& genesis.issuer@ == self.spec_issuer()
                    &&& match self.spec_inflation() {
                        Some(inflation) => genesis.max_supply is Some
                            && genesis.max_supply->0@ == self.spec_issued()@ + inflation@,
                        None => genesis.max_supply is None,
                    }
                },
                Err(e) => e == IssuerError::AmountOverflow && self.spec_inflation() is Some
                    && self.spec_issued()@ + self.spec_inflation()->0@ > u64::MAX,
            },
    {
        let max_supply = match self.inflation {
            Some(inflation) => match self.issued.checked_add(inflation) {
                Some(max) => Some(max),
                None => {
                    return Err(IssuerError::AmountOverflow);
                },
            },
            None => None,
        };
        Ok(
            Genesis {
                features: self.features,
                issuer: self.issuer,
                spec: self.spec,
                terms: self.terms,
                liquid: self.liquid,
                issued_supply: self.issued,
                max_supply,
                steps: self.steps,
            },
        )
    }
}

/// The inflation allowed after `supply` more is allowed: the sum, which
/// must fit 64 bits.
pub open spec fn spec_grown(inflation: Option<Amount>, supply: Amount) -> Option<Amount> {
    match inflation {
        Some(max) => if max@ + supply@ <= u64::MAX {
            Some(Amount((max@ + supply@) as u64))
        } else {
            None
        },
        None => Some(supply),
    }
}

/// The issued supply after the allocations of a list are made in order,
/// starting from `issued`, or the error of the first that is refused. An
/// allocation is refused where the supply would exceed 64 bits and, that
/// being in order, where its output lies on Liquid without the support for
/// it.
pub open spec fn spec_allocate_all(
    issued: nat,
    liquid: bool,
    allocations: Seq<(XOutpoint, Amount)>,
) -> Result<nat, IssuerError>
    decreases allocations.len(),
{
    if allocations.len() == 0 {
        Ok(issued)
    } else {
        match spec_allocate_all(issued, liquid, allocations.drop_last()) {
            Err(e) => Err(e),
            Ok(sum) => if sum + allocations.last().1@ > u64::MAX {
                Err(IssuerError::AmountOverflow)
            } else if allocations.last().0.layer1 == Layer1::Liquid && !liquid {
                Err(IssuerError::NoLiquidSupport)
            } else {
                Ok(sum + allocations.last().1@)
            },
        }
    }
}

/// Once an allocation of a list is refused, the list is refused with the
/// same error, whatever follows.
proof fn lemma_refusal_stays(
    issued: nat,
    liquid: bool,
    allocations: Seq<(XOutpoint, Amount)>,
    k: int,
)
    requires
        0 <= k <= allocations.len(),
        spec_allocate_all(issued, liquid, allocations.take(k)) is Err,
    ensures
        spec_allocate_all(issued, liquid, allocations) == spec_allocate_all(
            issued,
            liquid,
            allocations.take(k),
        ),
    decreases allocations.len(),
{
    if k < allocations.len() {
        let shorter = allocations.drop_last();
        assert(shorter.take(k) =~= allocations.take(k));
        lemma_refusal_stays(issued, liquid, shorter, k);
    } else {
        assert(allocations.take(k) =~= allocations);
    }
}

/// Sum of the amounts of a list of allocations.
pub open spec fn sum_of(allocations: Seq<(XOutpoint, Amount)>) -> nat
    decreases allocations.len(),
{
    if allocations.len() == 0 {
        0
    } else {
        sum_of(allocations.drop_last()) + allocations.last().1@
    }
}

} // verus!
