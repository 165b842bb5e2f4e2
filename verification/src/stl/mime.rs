//! Media types of the files that go with a contract.

use vstd::prelude::*;
use vstd::utf8::encode_utf8;
use crate::stl::rstring::{check_name, is_fault, is_name, CharSet, InvalidName};
use crate::text::{same_text, spec_split_once, split_once};

verus! {

/// Registered name of a media type or subtype: a small letter, then small letters, digits and `! # $ & + - . ^ _`, 1 to 64 in all.
#[derive(Debug, Hash, PartialEq, Eq, PartialOrd, Ord)]
pub struct MediaRegName(String);

impl View for MediaRegName {
    type V = Seq<char>;

    closed spec fn view(&self) -> Seq<char> {
        self.0@
    }
}

impl Clone for MediaRegName {
    fn clone(&self) -> (r: MediaRegName)
        ensures
            r@ == self@,
    {
        proof {
            use_type_invariant(self);
        }
        MediaRegName(self.0.clone())
    }
}

impl MediaRegName {
    /// Least length in bytes.
    pub const MIN_LEN: usize = 1;

    /// Greatest length in bytes.
    pub const MAX_LEN: usize = 64;

    /// Whether `text` is a valid registered name.
    pub open spec fn spec_valid(text: Seq<char>) -> bool {
        is_name(encode_utf8(text), CharSet::AlphaSmall, CharSet::Mime, 1, 64)
    }

    /// Whether `fault` is what keeps `text` from being a valid registered name.
    pub open spec fn spec_fault(text: Seq<char>, fault: InvalidName) -> bool {
        is_fault(encode_utf8(text), CharSet::AlphaSmall, CharSet::Mime, 1, 64, fault)
    }

    #[verifier::type_invariant]
    spec fn valid(self) -> bool {
        MediaRegName::spec_valid(self.0@)
    }

    /// Makes a registered name of `text`, or says what is wrong with it.
    pub fn from_str(text: &str) -> (r: Result<MediaRegName, InvalidName>)
        ensures
            match r {
                Ok(made) => made@ == text@ && MediaRegName::spec_valid(text@),
                Err(fault) => MediaRegName::spec_fault(text@, fault),
            },
    {
        match check_name(text, CharSet::AlphaSmall, CharSet::Mime, 1, 64) {
            Ok(_) => Ok(MediaRegName(text.to_owned())),
            Err(fault) => Err(fault),
        }
    }

    /// Makes a registered name of a text that is known to be valid.
    pub fn from_valid(text: &str) -> (r: MediaRegName)
        requires
            MediaRegName::spec_valid(text@),
        ensures
            r@ == text@,
    {
        MediaRegName(text.to_owned())
    }

    /// The text of the registered name, which is valid.
    pub fn as_str(&self) -> (r: &str)
        ensures
            r@ == self@,
            MediaRegName::spec_valid(self@),
    {
        proof {
            use_type_invariant(self);
        }
        self.0.as_str()
    }

    /// The text of the registered name.
    pub fn to_string(&self) -> (r: String)
        ensures
            r@ == self@,
    {
        self.0.clone()
    }
}

/// Why a text is not a media type.
#[derive(Copy, Clone, Debug, Hash, PartialEq, Eq, Structural)]
pub enum ParseMediaTypeError {
    /// The text does not consist of two parts with a slash between them.
    InvalidStructure,
    /// The part before the slash is no registered name.
    TypeName(InvalidName),
    /// The part after the slash is neither a registered name nor `*`.
    SubtypeName(InvalidName),
}

impl ParseMediaTypeError {
    /// The start of the message of the error, which names the part at
    /// fault.
    pub open spec fn spec_message(self) -> Seq<char> {
        match self {
            ParseMediaTypeError::InvalidStructure => "media type (MIME) must consist of two parts separated by a slash."@,
            ParseMediaTypeError::TypeName(_) => "invalid media (MIME) type component"@,
            ParseMediaTypeError::SubtypeName(_) => "invalid media (MIME) subtype component"@,
        }
    }

    /// The start of the message of the error, which names the part at
    /// fault.
    pub fn to_string(&self) -> (r: String)
        ensures
            r@ == self.spec_message(),
    {
        match self {
            ParseMediaTypeError::InvalidStructure => {
                "media type (MIME) must consist of two parts separated by a slash.".to_owned()
            },
            ParseMediaTypeError::TypeName(_) => "invalid media (MIME) type component".to_owned(),
            ParseMediaTypeError::SubtypeName(_) => {
                "invalid media (MIME) subtype component".to_owned()
            },
        }
    }
}

/// A media type: a type and a subtype, where no subtype stands for all of
/// them, and possibly a character set.
#[derive(Clone, Debug, Hash, PartialEq, Eq, PartialOrd, Ord)]
pub struct MediaType {
    pub ty: MediaRegName,
    pub subtype: Option<MediaRegName>,
    pub charset: Option<MediaRegName>,
}

impl MediaType {
    /// Whether `text` is written as a media type: a registered name, a
    /// slash, and a registered name or `*`. The text is split at its first
    /// slash.
    pub open spec fn spec_valid(text: Seq<char>) -> bool {
        match spec_split_once(text, '/') {
            Some((ty, subtype)) => MediaRegName::spec_valid(ty) && (subtype == "*"@
                || MediaRegName::spec_valid(subtype)),
            None => false,
        }
    }

    /// The media type as a text: type, slash, and subtype or `*`.
    pub open spec fn spec_to_string(self) -> Seq<char> {
        self.ty@ + "/"@ + (match self.subtype {
            Some(subtype) => subtype@,
            None => "*"@,
        })
    }

    /// Reads a media type. The type is checked before the subtype.
    pub fn from_str(text: &str) -> (r: Result<MediaType, ParseMediaTypeError>)
        ensures
            match r {
                Ok(media) => match spec_split_once(text@, '/') {
                    Some((ty, subtype)) => {
                        &&& media.ty@ == ty
                        &&& media.charset is None
                        &&& if subtype == "*"@ {
                            media.subtype is None
                        } else {
                            media.subtype is Some && media.subtype->0@ == subtype
                        }
                        &&& MediaType::spec_valid(text@)
                    },
                    None => false,
                },
                Err(ParseMediaTypeError::InvalidStructure) => spec_split_once(text@, '/') is None,
                Err(ParseMediaTypeError::TypeName(fault)) => match spec_split_once(text@, '/') {
                    Some((ty, subtype)) => MediaRegName::spec_fault(ty, fault),
                    None => false,
                },
                Err(ParseMediaTypeError::SubtypeName(fault)) => match spec_split_once(text@, '/') {
                    Some((ty, subtype)) => MediaRegName::spec_valid(ty) && subtype != "*"@
                        && MediaRegName::spec_fault(subtype, fault),
                    None => false,
                },
            },
    {
        let (ty, subty) = match split_once(text, '/') {
            Some(parts) => parts,
            None => {
                return Err(ParseMediaTypeError::InvalidStructure);
            },
        };
        let ty = match MediaRegName::from_str(ty) {
            Ok(made) => made,
            Err(fault) => {
                return Err(ParseMediaTypeError::TypeName(fault));
            },
        };
        let subtype = if same_text(subty, "*") {
            None
        } else {
            match MediaRegName::from_str(subty) {
                Ok(made) => Some(made),
                Err(fault) => {
                    return Err(ParseMediaTypeError::SubtypeName(fault));
                },
            }
        };
        Ok(MediaType { ty, subtype, charset: None })
    }

    /// The media type that `text` is known to be written as.
    pub fn with(text: &'static str) -> (r: MediaType)
        requires
            MediaType::spec_valid(text@),
        ensures
            r.charset is None,
            match spec_split_once(text@, '/') {
                Some((ty, subtype)) => r.ty@ == ty && if subtype == "*"@ {
                    r.subtype is None
                } else {
                    r.subtype is Some && r.subtype->0@ == subtype
                },
                None => false,
            },
    {
        let (ty, subty) = match split_once(text, '/') {
            Some(parts) => parts,
            None => ("", ""),
        };
        MediaType {
            ty: MediaRegName::from_valid(ty),
            subtype: if same_text(subty, "*") {
                None
            } else {
                Some(MediaRegName::from_valid(subty))
            },
            charset: None,
        }
    }

    /// Images of every kind: `image/*`.
    pub fn image_any() -> (r: MediaType)
        ensures
            r.ty@ == "image"@,
            r.subtype is None,
            r.charset is None,
    {
        proof {
            lemma_image_is_registered_name();
        }
        MediaType { ty: MediaRegName::from_valid("image"), subtype: None, charset: None }
    }

    /// The media type as a text: type, slash, and subtype or `*`.
    pub fn to_string(&self) -> (r: String)
        ensures
            r@ == self.spec_to_string(),
    {
        let mut out = self.ty.to_string();
        out.append("/");
        match &self.subtype {
            Some(subtype) => out.append(subtype.as_str()),
            None => out.append("*"),
        }
        out
    }
}

/// The word `image` is a registered name.
proof fn lemma_image_is_registered_name()
    ensures
        MediaRegName::spec_valid("image"@),
{
    reveal_strlit("image");
    let text = "image"@;
    assert(text.len() == 5);
    assert(text[0] == 'i' && text[1] == 'm' && text[2] == 'a' && text[3] == 'g' && text[4] == 'e');
    assert(vstd::utf8::is_ascii_chars(text));
    vstd::utf8::is_ascii_chars_encode_utf8(text);
    let bytes = encode_utf8(text);
    assert(bytes.len() == 5);
    assert(bytes[0] == 0x69 && bytes[1] == 0x6d && bytes[2] == 0x61 && bytes[3] == 0x67 && bytes[4]
        == 0x65) by {
        assert(text[0] as u8 == bytes[0]);
        assert(text[1] as u8 == bytes[1]);
        assert(text[2] as u8 == bytes[2]);
        assert(text[3] as u8 == bytes[3]);
        assert(text[4] as u8 == bytes[4]);
    }
    assert forall|i: int| 1 <= i < bytes.len() implies CharSet::Mime.spec_contains(
        #[trigger] bytes[i],
    ) by {
        if i == 1 {
        } else if i == 2 {
        } else if i == 3 {
        } else {
        }
    }
}

} // verus!
