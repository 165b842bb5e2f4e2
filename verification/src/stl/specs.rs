//! Specifications of assets and contracts: their names, their terms and
//! the data that goes with them.

use vstd::prelude::*;
use vstd::utf8::encode_utf8;
use vstd::std_specs::cmp::PartialEqSpecImpl;
use crate::fungible::Precision;
use crate::stl::mime::MediaType;
use crate::stl::rstring::{check_length, check_name, is_fault, is_name, CharSet, InvalidName};
use crate::text::{to_uppercase, uppercase_of};

verus! {

/// Article of a contract: a letter, then letters and digits, 1 to 32 in all.
#[derive(Debug, Hash, PartialEq, Eq, PartialOrd, Ord)]
pub struct Article(String);

impl View for Article {
    type V = Seq<char>;

    closed spec fn view(&self) -> Seq<char> {
        self.0@
    }
}

impl Clone for Article {
    fn clone(&self) -> (r: Article)
        ensures
            r@ == self@,
    {
        proof {
            use_type_invariant(self);
        }
        Article(self.0.clone())
    }
}

impl Article {
    /// Least length in bytes.
    pub const MIN_LEN: usize = 1;

    /// Greatest length in bytes.
    pub const MAX_LEN: usize = 32;

    /// Whether `text` is a valid article.
    pub open spec fn spec_valid(text: Seq<char>) -> bool {
        is_name(encode_utf8(text), CharSet::Alpha, CharSet::AlphaNum, 1, 32)
    }

    /// Whether `fault` is what keeps `text` from being a valid article.
    pub open spec fn spec_fault(text: Seq<char>, fault: InvalidName) -> bool {
        is_fault(encode_utf8(text), CharSet::Alpha, CharSet::AlphaNum, 1, 32, fault)
    }

    #[verifier::type_invariant]
    spec fn valid(self) -> bool {
        Article::spec_valid(self.0@)
    }

    /// Makes a article of `text`, or says what is wrong with it.
    pub fn from_str(text: &str) -> (r: Result<Article, InvalidName>)
        ensures
            match r {
                Ok(made) => made@ == text@ && Article::spec_valid(text@),
                Err(fault) => Article::spec_fault(text@, fault),
            },
    {
        match check_name(text, CharSet::Alpha, CharSet::AlphaNum, 1, 32) {
            Ok(_) => Ok(Article(text.to_owned())),
            Err(fault) => Err(fault),
        }
    }

    /// Makes a article of a text that is known to be valid.
    pub fn from_valid(text: &str) -> (r: Article)
        requires
            Article::spec_valid(text@),
        ensures
            r@ == text@,
    {
        Article(text.to_owned())
    }

    /// The text of the article, which is valid.
    pub fn as_str(&self) -> (r: &str)
        ensures
            r@ == self@,
            Article::spec_valid(self@),
    {
        proof {
            use_type_invariant(self);
        }
        self.0.as_str()
    }

    /// The text of the article.
    pub fn to_string(&self) -> (r: String)
        ensures
            r@ == self@,
    {
        self.0.clone()
    }
}

/// Ticker of an asset: a letter, then letters and digits, 1 to 8 in all. Two tickers are equal where they differ in case only.
#[derive(Debug, Eq, PartialOrd, Ord)]
pub struct Ticker(String);

impl View for Ticker {
    type V = Seq<char>;

    closed spec fn view(&self) -> Seq<char> {
        self.0@
    }
}

impl Clone for Ticker {
    fn clone(&self) -> (r: Ticker)
        ensures
            r@ == self@,
    {
        proof {
            use_type_invariant(self);
        }
        Ticker(self.0.clone())
    }
}

impl Ticker {
    /// Least length in bytes.
    pub const MIN_LEN: usize = 1;

    /// Greatest length in bytes.
    pub const MAX_LEN: usize = 8;

    /// Whether `text` is a valid ticker.
    pub open spec fn spec_valid(text: Seq<char>) -> bool {
        is_name(encode_utf8(text), CharSet::Alpha, CharSet::AlphaNum, 1, 8)
    }

    /// Whether `fault` is what keeps `text` from being a valid ticker.
    pub open spec fn spec_fault(text: Seq<char>, fault: InvalidName) -> bool {
        is_fault(encode_utf8(text), CharSet::Alpha, CharSet::AlphaNum, 1, 8, fault)
    }

    #[verifier::type_invariant]
    spec fn valid(self) -> bool {
        Ticker::spec_valid(self.0@)
    }

    /// Makes a ticker of `text`, or says what is wrong with it.
    pub fn from_str(text: &str) -> (r: Result<Ticker, InvalidName>)
        ensures
            match r {
                Ok(made) => made@ == text@ && Ticker::spec_valid(text@),
                Err(fault) => Ticker::spec_fault(text@, fault),
            },
    {
        match check_name(text, CharSet::Alpha, CharSet::AlphaNum, 1, 8) {
            Ok(_) => Ok(Ticker(text.to_owned())),
            Err(fault) => Err(fault),
        }
    }

    /// Makes a ticker of a text that is known to be valid.
    pub fn from_valid(text: &str) -> (r: Ticker)
        requires
            Ticker::spec_valid(text@),
        ensures
            r@ == text@,
    {
        Ticker(text.to_owned())
    }

    /// The text of the ticker, which is valid.
    pub fn as_str(&self) -> (r: &str)
        ensures
            r@ == self@,
            Ticker::spec_valid(self@),
    {
        proof {
            use_type_invariant(self);
        }
        self.0.as_str()
    }

    /// The text of the ticker.
    pub fn to_string(&self) -> (r: String)
        ensures
            r@ == self@,
    {
        self.0.clone()
    }
}

impl PartialEq for Ticker {
    fn eq(&self, other: &Ticker) -> (r: bool) {
        let mine = to_uppercase(self.0.as_str());
        let theirs = to_uppercase(other.0.as_str());
        mine == theirs
    }
}

impl PartialEqSpecImpl for Ticker {
    open spec fn obeys_eq_spec() -> bool {
        true
    }

    open spec fn eq_spec(&self, other: &Ticker) -> bool {
        uppercase_of(self@) == uppercase_of(other@)
    }
}

/// Name of an asset or a contract: 1 to 40 ASCII characters.
#[derive(Debug, Hash, PartialEq, Eq, PartialOrd, Ord)]
pub struct Name(String);

impl View for Name {
    type V = Seq<char>;

    closed spec fn view(&self) -> Seq<char> {
        self.0@
    }
}

impl Clone for Name {
    fn clone(&self) -> (r: Name)
        ensures
            r@ == self@,
    {
        proof {
            use_type_invariant(self);
        }
        Name(self.0.clone())
    }
}

impl Name {
    /// Least length in bytes.
    pub const MIN_LEN: usize = 1;

    /// Greatest length in bytes.
    pub const MAX_LEN: usize = 40;

    /// Whether `text` is a valid name.
    pub open spec fn spec_valid(text: Seq<char>) -> bool {
        is_name(encode_utf8(text), CharSet::AsciiPrintable, CharSet::AsciiPrintable, 1, 40)
    }

    /// Whether `fault` is what keeps `text` from being a valid name.
    pub open spec fn spec_fault(text: Seq<char>, fault: InvalidName) -> bool {
        is_fault(encode_utf8(text), CharSet::AsciiPrintable, CharSet::AsciiPrintable, 1, 40, fault)
    }

    #[verifier::type_invariant]
    spec fn valid(self) -> bool {
        Name::spec_valid(self.0@)
    }

    /// Makes a name of `text`, or says what is wrong with it.
    pub fn from_str(text: &str) -> (r: Result<Name, InvalidName>)
        ensures
            match r {
                Ok(made) => made@ == text@ && Name::spec_valid(text@),
                Err(fault) => Name::spec_fault(text@, fault),
            },
    {
        match check_name(text, CharSet::AsciiPrintable, CharSet::AsciiPrintable, 1, 40) {
            Ok(_) => Ok(Name(text.to_owned())),
            Err(fault) => Err(fault),
        }
    }

    /// Makes a name of a text that is known to be valid.
    pub fn from_valid(text: &str) -> (r: Name)
        requires
            Name::spec_valid(text@),
        ensures
            r@ == text@,
    {
        Name(text.to_owned())
    }

    /// The text of the name, which is valid.
    pub fn as_str(&self) -> (r: &str)
        ensures
            r@ == self@,
            Name::spec_valid(self@),
    {
        proof {
            use_type_invariant(self);
        }
        self.0.as_str()
    }

    /// The text of the name.
    pub fn to_string(&self) -> (r: String)
        ensures
            r@ == self@,
    {
        self.0.clone()
    }
}

/// Details of an asset or a contract: a text of 1 to 255 bytes.
#[derive(Debug, Hash, PartialEq, Eq, PartialOrd, Ord)]
pub struct Details(String);

impl View for Details {
    type V = Seq<char>;

    closed spec fn view(&self) -> Seq<char> {
        self.0@
    }
}

impl Clone for Details {
    fn clone(&self) -> (r: Details)
        ensures
            r@ == self@,
    {
        proof {
            use_type_invariant(self);
        }
        Details(self.0.clone())
    }
}

impl Details {
    /// Least length in bytes.
    pub const MIN_LEN: usize = 1;

    /// Greatest length in bytes.
    pub const MAX_LEN: usize = 255;

    /// Whether `text` is a valid text of details: any characters, with a length in
    /// bytes within the bounds.
    pub open spec fn spec_valid(text: Seq<char>) -> bool {
        1 <= encode_utf8(text).len() <= 255
    }

    /// Whether `fault` is what keeps `text` from being valid: it is too
    /// short or too long.
    pub open spec fn spec_fault(text: Seq<char>, fault: InvalidName) -> bool {
        ||| fault == InvalidName::Undersize && encode_utf8(text).len() < 1
        ||| fault == InvalidName::Oversize && encode_utf8(text).len() > 255
    }

    #[verifier::type_invariant]
    spec fn valid(self) -> bool {
        Details::spec_valid(self.0@)
    }

    /// Makes a text of details of `text`, or says whether it is too short or too
    /// long.
    pub fn from_str(text: &str) -> (r: Result<Details, InvalidName>)
        ensures
            match r {
                Ok(made) => made@ == text@ && Details::spec_valid(text@),
                Err(fault) => Details::spec_fault(text@, fault),
            },
    {
        match check_length(text, 1, 255) {
            Ok(_) => Ok(Details(text.to_owned())),
            Err(fault) => Err(fault),
        }
    }

    /// Makes a text of details of a text that is known to be valid.
    pub fn from_valid(text: &str) -> (r: Details)
        requires
            Details::spec_valid(text@),
        ensures
            r@ == text@,
    {
        Details(text.to_owned())
    }

    /// The text, which is valid.
    pub fn as_str(&self) -> (r: &str)
        ensures
            r@ == self@,
            Details::spec_valid(self@),
    {
        proof {
            use_type_invariant(self);
        }
        self.0.as_str()
    }

    /// The text.
    pub fn to_string(&self) -> (r: String)
        ensures
            r@ == self@,
    {
        self.0.clone()
    }
}

/// Text of a Ricardian contract: at most 65535 bytes, possibly none.
#[derive(Debug, Hash, PartialEq, Eq, PartialOrd, Ord)]
pub struct RicardianContract(String);

impl View for RicardianContract {
    type V = Seq<char>;

    closed spec fn view(&self) -> Seq<char> {
        self.0@
    }
}

impl Clone for RicardianContract {
    fn clone(&self) -> (r: RicardianContract)
        ensures
            r@ == self@,
    {
        proof {
            use_type_invariant(self);
        }
        RicardianContract(self.0.clone())
    }
}

impl RicardianContract {
    /// Least length in bytes.
    pub const MIN_LEN: usize = 0;

    /// Greatest length in bytes.
    pub const MAX_LEN: usize = 65535;

    /// Whether `text` is a valid contract text: any characters, with a length in
    /// bytes within the bounds.
    pub open spec fn spec_valid(text: Seq<char>) -> bool {
        0 <= encode_utf8(text).len() <= 65535
    }

    /// Whether `fault` is what keeps `text` from being valid: it is too
    /// short or too long.
    pub open spec fn spec_fault(text: Seq<char>, fault: InvalidName) -> bool {
        ||| fault == InvalidName::Undersize && encode_utf8(text).len() < 0
        ||| fault == InvalidName::Oversize && encode_utf8(text).len() > 65535
    }

    #[verifier::type_invariant]
    spec fn valid(self) -> bool {
        RicardianContract::spec_valid(self.0@)
    }

    /// Makes a contract text of `text`, or says whether it is too short or too
    /// long.
    pub fn from_str(text: &str) -> (r: Result<RicardianContract, InvalidName>)
        ensures
            match r {
                Ok(made) => made@ == text@ && RicardianContract::spec_valid(text@),
                Err(fault) => RicardianContract::spec_fault(text@, fault),
            },
    {
        match check_length(text, 0, 65535) {
            Ok(_) => Ok(RicardianContract(text.to_owned())),
            Err(fault) => Err(fault),
        }
    }

    /// Makes a contract text of a text that is known to be valid.
    pub fn from_valid(text: &str) -> (r: RicardianContract)
        requires
            RicardianContract::spec_valid(text@),
        ensures
            r@ == text@,
    {
        RicardianContract(text.to_owned())
    }

    /// The text, which is valid.
    pub fn as_str(&self) -> (r: &str)
        ensures
            r@ == self@,
            RicardianContract::spec_valid(self@),
    {
        proof {
            use_type_invariant(self);
        }
        self.0.as_str()
    }

    /// The text.
    pub fn to_string(&self) -> (r: String)
        ensures
            r@ == self@,
    {
        self.0.clone()
    }
}

impl Default for RicardianContract {
    fn default() -> (r: RicardianContract)
        ensures
            r@ == Seq::<char>::empty(),
    {
        let text = String::new();
        assert(encode_utf8(text@).len() == 0) by {
            reveal_with_fuel(encode_utf8, 1);
        }
        RicardianContract(text)
    }
}

/// What an asset is called: its ticker, its name, more about it and the
/// number of decimals of its amounts.
#[derive(Clone, Debug, PartialEq, Eq)]
pub struct AssetSpec {
    pub ticker: Ticker,
    pub name: Name,
    pub details: Option<Details>,
    pub precision: Precision,
}

impl AssetSpec {
    /// Whether the texts make a specification of an asset.
    pub open spec fn spec_valid(ticker: Seq<char>, name: Seq<char>, details: Option<Seq<char>>) -> bool {
        &&& Ticker::spec_valid(ticker)
        &&& Name::spec_valid(name)
        &&& details is Some ==> Details::spec_valid(details->0)
    }

    /// Whether `fault` is what keeps the texts from making a specification
    /// of an asset: the fault of the first of ticker, name and details that
    /// has one.
    pub open spec fn spec_fault(
        ticker: Seq<char>,
        name: Seq<char>,
        details: Option<Seq<char>>,
        fault: InvalidName,
    ) -> bool {
        ||| Ticker::spec_fault(ticker, fault)
        ||| Ticker::spec_valid(ticker) && Name::spec_fault(name, fault)
        ||| Ticker::spec_valid(ticker) && Name::spec_valid(name) && details is Some
            && Details::spec_fault(details->0, fault)
    }

    /// The specification with the given ticker and name and no details. The
    /// texts must be valid.
    pub fn new(ticker: &'static str, name: &'static str, precision: Precision) -> (r: AssetSpec)
        requires
            Ticker::spec_valid(ticker@),
            Name::spec_valid(name@),
        ensures
            r.ticker@ == ticker@,
            r.name@ == name@,
            r.details is None,
            r.precision == precision,
    {
        AssetSpec {
            ticker: Ticker::from_valid(ticker),
            name: Name::from_valid(name),
            details: None,
            precision,
        }
    }

    /// The specification with the given texts. They are checked in the
    /// order ticker, name, details, and the first fault is returned.
    pub fn with(ticker: &str, name: &str, precision: Precision, details: Option<&str>) -> (r: Result<
        AssetSpec,
        InvalidName,
    >)
        ensures
            match r {
                Ok(spec) => {
                    &&& spec.ticker@ == ticker@
                    &&& spec.name@ == name@
                    &&& spec.precision == precision
                    &&& match details {
                        Some(text) => spec.details is Some && spec.details->0@ == text@,
                        None => spec.details is None,
                    }
                    &&& AssetSpec::spec_valid(
                        ticker@,
                        name@,
                        match details {
                            Some(text) => Some(text@),
                            None => None,
                        },
                    )
                },
                Err(fault) => AssetSpec::spec_fault(
                    ticker@,
                    name@,
                    match details {
                        Some(text) => Some(text@),
                        None => None,
                    },
                    fault,
                ),
            },
    {
        let ticker = match Ticker::from_str(ticker) {
            Ok(made) => made,
            Err(fault) => {
                return Err(fault);
            },
        };
        let name = match Name::from_str(name) {
            Ok(made) => made,
            Err(fault) => {
                return Err(fault);
            },
        };
        let details = match details {
            Some(text) => match Details::from_str(text) {
                Ok(made) => Some(made),
                Err(fault) => {
                    return Err(fault);
                },
            },
            None => None,
        };
        Ok(AssetSpec { ticker, name, details, precision })
    }

    /// The ticker as a text.
    pub fn ticker(&self) -> (r: &str)
        ensures
            r@ == self.ticker@,
    {
        self.ticker.as_str()
    }

    /// The name as a text.
    pub fn name(&self) -> (r: &str)
        ensures
            r@ == self.name@,
    {
        self.name.as_str()
    }

    /// The details as a text, if there are any.
    pub fn details(&self) -> (r: Option<&str>)
        ensures
            match r {
                Some(text) => self.details is Some && text@ == self.details->0@,
                None => self.details is None,
            },
    {
        match &self.details {
            Some(details) => Some(details.as_str()),
            None => None,
        }
    }
}

/// What a contract is called: its article, its name, more about it and the
/// number of decimals of its amounts.
#[derive(Clone, Debug, PartialEq, Eq)]
pub struct ContractSpec {
    pub article: Option<Article>,
    pub name: Name,
    pub details: Option<Details>,
    pub precision: Precision,
}

impl ContractSpec {
    /// The specification with the given name, no article and no details.
    /// The name must be valid.
    pub fn new(name: &'static str, precision: Precision) -> (r: ContractSpec)
        requires
            Name::spec_valid(name@),
        ensures
            r.article is None,
            r.name@ == name@,
            r.details is None,
            r.precision == precision,
    {
        ContractSpec { article: None, name: Name::from_valid(name), details: None, precision }
    }

    /// The specification with the given texts. They are checked in the
    /// order article, name, details, and the first fault is returned.
    pub fn with(article: &str, name: &str, precision: Precision, details: Option<&str>) -> (r:
        Result<ContractSpec, InvalidName>)
        ensures
            match r {
                Ok(spec) => {
                    &&& spec.article is Some
                    &&& spec.article->0@ == article@
                    &&& spec.name@ == name@
                    &&& spec.precision == precision
                    &&& match details {
                        Some(text) => spec.details is Some && spec.details->0@ == text@,
                        None => spec.details is None,
                    }
                    &&& Article::spec_valid(article@)
                    &&& Name::spec_valid(name@)
                    &&& details is Some ==> Details::spec_valid(details->0@)
                },
                Err(fault) => {
                    ||| Article::spec_fault(article@, fault)
                    ||| Article::spec_valid(article@) && Name::spec_fault(name@, fault)
                    ||| Article::spec_valid(article@) && Name::spec_valid(name@) && details is Some
                        && Details::spec_fault(details->0@, fault)
                },
            },
    {
        let article = match Article::from_str(article) {
            Ok(made) => made,
            Err(fault) => {
                return Err(fault);
            },
        };
        let name = match Name::from_str(name) {
            Ok(made) => made,
            Err(fault) => {
                return Err(fault);
            },
        };
        let details = match details {
            Some(text) => match Details::from_str(text) {
                Ok(made) => Some(made),
                Err(fault) => {
                    return Err(fault);
                },
            },
            None => None,
        };
        Ok(ContractSpec { article: Some(article), name, details, precision })
    }

    /// The article as a text, if there is one.
    pub fn article(&self) -> (r: Option<&str>)
        ensures
            match r {
                Some(text) => self.article is Some && text@ == self.article->0@,
                None => self.article is None,
            },
    {
        match &self.article {
            Some(article) => Some(article.as_str()),
            None => None,
        }
    }

    /// The name as a text.
    pub fn name(&self) -> (r: &str)
        ensures
            r@ == self.name@,
    {
        self.name.as_str()
    }

    /// The details as a text, if there are any.
    pub fn details(&self) -> (r: Option<&str>)
        ensures
            match r {
                Some(text) => self.details is Some && text@ == self.details->0@,
                None => self.details is None,
            },
    {
        match &self.details {
            Some(details) => Some(details.as_str()),
            None => None,
        }
    }
}

/// The character for the hexadecimal digit `d`, which is below sixteen, in
/// lower case.
pub open spec fn hex_char(d: nat) -> char {
    if d < 10 {
        (0x30 + d) as u8 as char
    } else {
        (0x61 + d - 10) as u8 as char
    }
}

/// Hexadecimal notation of `bytes`: two digits in lower case for each byte,
/// in the order of the bytes.
pub open spec fn lower_hex(bytes: Seq<u8>) -> Seq<char>
    decreases bytes.len(),
{
    if bytes.len() == 0 {
        Seq::<char>::empty()
    } else {
        lower_hex(bytes.drop_last()) + seq![
            hex_char(bytes.last() as nat / 16),
            hex_char(bytes.last() as nat % 16),
        ]
    }
}

/// Writes a digest as `amplify::Bytes32` shows it: in hexadecimal notation,
/// lower case, byte after byte in the order in which they are held.
#[verifier::external_body]
fn digest_hex(digest: &[u8; 32]) -> (r: String)
    ensures
        r@ == lower_hex(digest@),
{
    amplify::Bytes32::from(*digest).to_string()
}

/// A file that goes with a contract, known by its media type and the digest
/// of its content.
#[derive(Clone, Debug, PartialEq, Eq)]
pub struct Attachment {
    pub ty: MediaType,
    pub digest: [u8; 32],
}

impl Attachment {
    /// The attachment as a text: its media type and its digest in
    /// hexadecimal notation.
    pub open spec fn spec_to_string(self) -> Seq<char> {
        "type "@ + self.ty.spec_to_string() + ", digest 0x"@ + lower_hex(self.digest@)
    }

    /// The attachment as a text.
    pub fn to_string(&self) -> (r: String)
        ensures
            r@ == self.spec_to_string(),
    {
        let mut out = "type ".to_owned();
        let ty = self.ty.to_string();
        out.append(ty.as_str());
        out.append(", digest 0x");
        let digest = digest_hex(&self.digest);
        out.append(digest.as_str());
        out
    }
}

/// The terms of a contract: its text and, possibly, a file.
#[derive(Clone, Debug, PartialEq, Eq)]
pub struct ContractTerms {
    pub text: RicardianContract,
    pub media: Option<Attachment>,
}

impl ContractTerms {
    /// The terms as a text: the text of the contract, then the attached
    /// file or `~` for none.
    pub open spec fn spec_to_string(self) -> Seq<char> {
        "text "@ + self.text@ + ", media "@ + (match self.media {
            Some(media) => media.spec_to_string(),
            None => "~"@,
        })
    }

    /// The terms as a text.
    pub fn to_string(&self) -> (r: String)
        ensures
            r@ == self.spec_to_string(),
    {
        let mut out = "text ".to_owned();
        out.append(self.text.as_str());
        out.append(", media ");
        match &self.media {
            Some(media) => {
                let shown = media.to_string();
                out.append(shown.as_str());
            },
            None => out.append("~"),
        }
        out
    }

    /// Terms with the given text. A text of more than 65535 bytes is
    /// refused as oversized.
    pub fn with(contract: &str, media: Option<Attachment>) -> (r: Result<ContractTerms, InvalidName>)
        ensures
            match r {
                Ok(terms) => terms.text@ == contract@ && terms.media == media
                    && RicardianContract::spec_valid(contract@),
                Err(fault) => RicardianContract::spec_fault(contract@, fault) && fault
                    == InvalidName::Oversize,
            },
    {
        match RicardianContract::from_str(contract) {
            Ok(text) => Ok(ContractTerms { text, media }),
            Err(fault) => Err(fault),
        }
    }
}

impl Default for ContractTerms {
    fn default() -> (r: ContractTerms)
        ensures
            r.text@ == Seq::<char>::empty(),
            r.media is None,
    {
        ContractTerms { text: RicardianContract::default(), media: None }
    }
}

} // verus!
