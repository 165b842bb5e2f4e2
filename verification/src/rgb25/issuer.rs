//! Issue of a collectible fungible asset.

use vstd::prelude::*;
use crate::fungible::{Amount, Precision};
use crate::rgb20::issuer::IssuerError;
use crate::rgb25::Rgb25;
use crate::seals::{spec_seal, GenesisSeal, Method, Outpoint, XOutpoint};
use crate::stl::rstring::InvalidName;
use crate::stl::specs::{Attachment, ContractTerms, Details, Name, RicardianContract};

verus! {

/// What a finished issue hands to the builder of the genesis.
#[derive(Clone, Debug, PartialEq, Eq)]
pub struct Rgb25Genesis {
    /// Features of the contract.
    pub features: Rgb25,
    /// How the seals of the contract are closed.
    pub close_method: Method,
    /// Identity of the issuer.
    pub issuer: String,
    /// Name of the contract.
    pub name: Name,
    /// Number of decimals of the amounts.
    pub precision: Precision,
    /// More about the contract.
    pub details: Option<Details>,
    /// Terms of the contract.
    pub terms: ContractTerms,
    /// Sum of all allocations.
    pub issued_supply: Amount,
    /// The allocations, in the order in which they were made.
    pub allocations: Vec<(GenesisSeal, Amount)>,
}

/// An issue in preparation.
#[derive(Clone, Debug)]
pub struct Issue {
    features: Rgb25,
    close_method: Method,
    issuer: String,
    name: Name,
    precision: Precision,
    details: Option<Details>,
    terms: ContractTerms,
    issued: Amount,
    deterministic: bool,
    allocations: Vec<(GenesisSeal, Amount)>,
}

impl Issue {
    /// Sum of the allocations made so far.
    pub closed spec fn spec_issued(self) -> Amount {
        self.issued
    }

    /// Whether the seals of the issue are blinded by given numbers.
    pub closed spec fn spec_deterministic(self) -> bool {
        self.deterministic
    }

    /// The allocations made so far.
    pub closed spec fn spec_allocations(self) -> Seq<(GenesisSeal, Amount)> {
        self.allocations@
    }

    /// The terms of the contract.
    pub closed spec fn spec_terms(self) -> ContractTerms {
        self.terms
    }

    /// The details of the contract.
    pub closed spec fn spec_details(self) -> Option<Details> {
        self.details
    }

    /// The name of the contract.
    pub closed spec fn spec_name(self) -> Name {
        self.name
    }

    /// How the seals of the contract are closed.
    pub closed spec fn spec_close_method(self) -> Method {
        self.close_method
    }

    /// The features of the contract.
    pub closed spec fn spec_features(self) -> Rgb25 {
        self.features
    }

    /// The identity of the issuer.
    pub closed spec fn spec_issuer(self) -> Seq<char> {
        self.issuer@
    }

    /// The number of decimals of the amounts.
    pub closed spec fn spec_precision(self) -> Precision {
        self.precision
    }

    /// Whether `next` is this issue but for what a step changes: the issued
    /// supply, the allocations, the details and the terms.
    pub open spec fn spec_same_contract(self, next: Issue) -> bool {
        &&& next.spec_name() == self.spec_name()
        &&& next.spec_close_method() == self.spec_close_method()
        &&& next.spec_features() == self.spec_features()
        &&& next.spec_issuer() == self.spec_issuer()
        &&& next.spec_precision() == self.spec_precision()
        &&& next.spec_deterministic() == self.spec_deterministic()
    }

    /// Starts an issue on a test network whose seals are blinded at random.
    pub fn testnet_with(
        close_method: Method,
        features: Rgb25,
        by: &str,
        name: &str,
        precision: Precision,
    ) -> (r: Result<Issue, InvalidName>)
        ensures
            match r {
                Ok(issue) => {
                    &&& Name::spec_valid(name@)
                    &&& issue.spec_name()@ == name@
                    &&& issue.spec_close_method() == close_method
                    &&& issue.spec_features() == features
                    &&& issue.spec_issuer() == by@
                    &&& issue.spec_precision() == precision
                    &&& issue.spec_terms().text@.len() == 0
                    &&& issue.spec_terms().media is None
                    &&& issue.spec_issued()@ == 0
                    &&& !issue.spec_deterministic()
                    &&& issue.spec_allocations().len() == 0
                    &&& issue.spec_details() is None
                },
                Err(fault) => Name::spec_fault(name@, fault),
            },
    {
        let name = match Name::from_str(name) {
            Ok(made) => made,
            Err(fault) => {
                return Err(fault);
            },
        };
        Ok(
            Issue {
                features,
                close_method,
                issuer: by.to_owned(),
                name,
                precision,
                details: None,
                terms: ContractTerms::default(),
                issued: Amount::zero(),
                deterministic: false,
                allocations: Vec::new(),
            },
        )
    }

    /// Starts an issue on a test network whose seals are blinded by given
    /// numbers.
    pub fn testnet_det(
        close_method: Method,
        features: Rgb25,
        by: &str,
        name: &str,
        precision: Precision,
    ) -> (r: Result<Issue, InvalidName>)
        ensures
            match r {
                Ok(issue) => {
                    &&& Name::spec_valid(name@)
                    &&& issue.spec_name()@ == name@
                    &&& issue.spec_close_method() == close_method
                    &&& issue.spec_features() == features
                    &&& issue.spec_issuer() == by@
                    &&& issue.spec_precision() == precision
                    &&& issue.spec_terms().text@.len() == 0
                    &&& issue.spec_terms().media is None
                    &&& issue.spec_issued()@ == 0
                    &&& issue.spec_deterministic()
                    &&& issue.spec_allocations().len() == 0
                    &&& issue.spec_details() is None
                },
                Err(fault) => Name::spec_fault(name@, fault),
            },
    {
        match Issue::testnet_with(close_method, features, by, name, precision) {
            Ok(issue) => {
                let mut me = issue;
                me.deterministic = true;
                Ok(me)
            },
            Err(fault) => Err(fault),
        }
    }

    /// Sets the details of the contract: a text of 1 to 255 bytes.
    pub fn add_details(self, details: &str) -> (r: Result<Issue, InvalidName>)
        ensures
            match r {
                Ok(next) => {
                    &&& Details::spec_valid(details@)
                    &&& next.spec_details() is Some
                    &&& next.spec_details()->0@ == details@
                    &&& next.spec_issued() == self.spec_issued()
                    &&& next.spec_allocations() == self.spec_allocations()
                    &&& next.spec_terms() == self.spec_terms()
                    &&& self.spec_same_contract(next)
                },
                Err(fault) => !Details::spec_valid(details@) && (fault == InvalidName::Undersize
                    || fault == InvalidName::Oversize),
            },
    {
        let details = match Details::from_str(details) {
            Ok(made) => made,
            Err(fault) => {
                return Err(fault);
            },
        };
        let mut next = self;
        next.details = Some(details);
        Ok(next)
    }

    /// Sets the terms of the contract. A text of more than 65535 bytes is
    /// refused.
    pub fn add_terms(self, contract: &str, media: Option<Attachment>) -> (r: Result<
        Issue,
        InvalidName,
    >)
        ensures
            match r {
                Ok(next) => {
                    &&& next.spec_terms().text@ == contract@
                    &&& next.spec_terms().media == media
                    &&& next.spec_issued() == self.spec_issued()
                    &&& next.spec_allocations() == self.spec_allocations()
                    &&& next.spec_details() == self.spec_details()
                    &&& self.spec_same_contract(next)
                },
                Err(fault) => fault == InvalidName::Oversize && !RicardianContract::spec_valid(
                    contract@,
                ),
            },
    {
        let terms = match ContractTerms::with(contract, media) {
            Ok(terms) => terms,
            Err(fault) => {
                return Err(fault);
            },
        };
        let mut next = self;
        next.terms = terms;
        Ok(next)
    }

    /// Allocates `amount` to `outpoint` under a seal blinded at random. The
    /// issue must be one whose seals are blinded at random.
    pub fn allocate(self, outpoint: Outpoint, amount: Amount) -> (r: Result<
        Issue,
        IssuerError,
    >)
        requires
            !self.spec_deterministic(),
        ensures
            match r {
                Ok(next) => {
                    &&& self.spec_issued()@ + amount@ <= u64::MAX
                    &&& next.spec_issued()@ == self.spec_issued()@ + amount@
                    &&& next.spec_details() == self.spec_details()
                    &&& next.spec_terms() == self.spec_terms()
                    &&& self.spec_same_contract(next)
                    &&& exists|blinding: u64|
                        next.spec_allocations() == self.spec_allocations().push(
                            (
                                #[trigger] spec_seal(
                                    self.spec_close_method(),
                                    XOutpoint::spec_bitcoin(outpoint),
                                    blinding,
                                ),
                                amount,
                            ),
                        )
                },
                Err(e) => e == IssuerError::AmountOverflow && self.spec_issued()@ + amount@
                    > u64::MAX,
            },
    {
        let seal = GenesisSeal::new_random(self.close_method, XOutpoint::bitcoin(outpoint));
        self.allocate_seal(seal, amount)
    }

    /// Allocates `amount` to `outpoint` under a seal with the given blinding
    /// number. The issue must be one whose seals are blinded by given
    /// numbers.
    pub fn allocate_det(self, outpoint: Outpoint, seal_blinding: u64, amount: Amount) -> (r: Result<
        Issue,
        IssuerError,
    >)
        requires
            self.spec_deterministic(),
        ensures
            match r {
                Ok(next) => {
                    &&& self.spec_issued()@ + amount@ <= u64::MAX
                    &&& next.spec_issued()@ == self.spec_issued()@ + amount@
                    &&& next.spec_details() == self.spec_details()
                    &&& next.spec_terms() == self.spec_terms()
                    &&& self.spec_same_contract(next)
                    &&& next.spec_allocations() == self.spec_allocations().push(
                        (
                            spec_seal(
                                self.spec_close_method(),
                                XOutpoint::spec_bitcoin(outpoint),
                                seal_blinding,
                            ),
                            amount,
                        ),
                    )
                },
                Err(e) => e == IssuerError::AmountOverflow && self.spec_issued()@ + amount@
                    > u64::MAX,
            },
    {
        let seal = GenesisSeal::with_blinding(
            self.close_method,
            XOutpoint::bitcoin(outpoint),
            seal_blinding,
        );
        self.allocate_seal(seal, amount)
    }

    /// Allocates each amount of the list to its output, in order, under
    /// seals blinded at random, and stops at the first whose amount the
    /// issued supply cannot take.
    pub fn allocate_all(self, allocations: &Vec<(Outpoint, Amount)>) -> (r: Result<
        Issue,
        IssuerError,
    >)
        requires
            !self.spec_deterministic(),
        ensures
            match r {
                Ok(next) => {
                    &&& next.spec_issued()@ == self.spec_issued()@ + spec_sum(allocations@)
                    &&& self.spec_same_contract(next)
                    &&& next.spec_allocations().len() == self.spec_allocations().len()
                        + allocations@.len()
                },
                Err(e) => e == IssuerError::AmountOverflow && self.spec_issued()@ + spec_sum(
                    allocations@,
                ) > u64::MAX,
            },
    {
        let ghost start = self;
        let mut issue = self;
        let mut i: usize = 0;
        while i < allocations.len()
            invariant
                i <= allocations@.len(),
                start == self,
                issue.spec_issued()@ == start.spec_issued()@ + spec_sum(allocations@.take(i as int)),
                start.spec_same_contract(issue),
                !start.spec_deterministic(),
                issue.spec_allocations().len() == start.spec_allocations().len() + i,
            decreases allocations@.len() - i,
        {
            let (outpoint, amount) = allocations[i];
            proof {
                let longer = allocations@.take(i + 1);
                assert(longer.drop_last() =~= allocations@.take(i as int));
                assert(longer.last() == allocations@[i as int]);
            }
            issue = match issue.allocate(outpoint, amount) {
                Ok(next) => next,
                Err(e) => {
                    proof {
                        lemma_sum_grows(allocations@, i + 1);
                    }
                    return Err(e);
                },
            };
            i += 1;
        }
        proof {
            assert(allocations@.take(i as int) =~= allocations@);
        }
        Ok(issue)
    }

    /// Allocates `amount` under `seal`.
    fn allocate_seal(self, seal: GenesisSeal, amount: Amount) -> (r: Result<Issue, IssuerError>)
        ensures
            match r {
                Ok(next) => {
                    &&& self.spec_issued()@ + amount@ <= u64::MAX
                    &&& next.spec_issued()@ == self.spec_issued()@ + amount@
                    &&& next.spec_details() == self.spec_details()
                    &&& next.spec_terms() == self.spec_terms()
                    &&& self.spec_same_contract(next)
                    &&& next.spec_allocations() == self.spec_allocations().push((seal, amount))
                },
                Err(e) => e == IssuerError::AmountOverflow && self.spec_issued()@ + amount@
                    > u64::MAX,
            },
    {
        let mut next = self;
        match next.issued.checked_add_assign(amount) {
            Some(_) => {},
            None => {
                return Err(IssuerError::AmountOverflow);
            },
        }
        next.allocations.push((seal, amount));
        Ok(next)
    }

    /// Closes the issue.
    pub fn pre_issue_contract(self) -> (r: Rgb25Genesis)
        ensures
            r.issued_supply == self.spec_issued(),
            r.allocations@ == self.spec_allocations(),
            r.terms == self.spec_terms(),
            r.details == self.spec_details(),
            r.name == self.spec_name(),
            r.close_method == self.spec_close_method(),
            r.features == self.spec_features(),
            r.issuer@ == self.spec_issuer(),
            r.precision == self.spec_precision(),
    {
        Rgb25Genesis {
            features: self.features,
            close_method: self.close_method,
            issuer: self.issuer,
            name: self.name,
            precision: self.precision,
            details: self.details,
            terms: self.terms,
            issued_supply: self.issued,
            allocations: self.allocations,
        }
    }
}

/// Sum of the amounts of a list of allocations.
pub open spec fn spec_sum(allocations: Seq<(Outpoint, Amount)>) -> nat
    decreases allocations.len(),
{
    if allocations.len() == 0 {
        0
    } else {
        spec_sum(allocations.drop_last()) + allocations.last().1@
    }
}

/// The sum of a list is at least the sum of any of its beginnings.
proof fn lemma_sum_grows(allocations: Seq<(Outpoint, Amount)>, k: int)
    requires
        0 <= k <= allocations.len(),
    ensures
        spec_sum(allocations.take(k)) <= spec_sum(allocations),
    decreases allocations.len(),
{
    if k < allocations.len() {
        let shorter = allocations.drop_last();
        assert(shorter.take(k) =~= allocations.take(k));
        lemma_sum_grows(shorter, k);
    } else {
        assert(allocations.take(k) =~= allocations);
    }
}

} // verus!
