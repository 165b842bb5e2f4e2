use std::str::FromStr;

use rgb_interfaces::fungible::Precision;
use rgb_interfaces::stl::{
    check_length, check_name, Article, AssetSpec, Attachment, CharSet, ContractSpec,
    ContractTerms, Details, InvalidName, MediaRegName, MediaType, Name, ParseMediaTypeError,
    RicardianContract, Ticker,
};
use strict_encoding::stl::{Alpha, AlphaNum, AlphaSmall, AsciiPrintable};
use strict_encoding::RString;

const SAMPLES: [&str; 30] = [
    "", "A", "a", "z9", "9z", "USDT", "usdt", "BTC1", "ABCDEFGH", "ABCDEFGHI", "A B", "A-B", "A_B",
    "text", "text+xml", "x.y-z", "image", "Image", "a!#$&+-.^_", "a/b", "a*", "*", " ", "~", "\u{7f}",
    "\n", "é", "aé", "Ю", "a\0",
];

#[test]
fn names_agree_with_the_encoding_library() {
    for sample in SAMPLES {
        let expected = RString::<Alpha, AlphaNum, 1, 8>::from_str(sample).is_ok();
        assert_eq!(Ticker::from_str(sample).is_ok(), expected, "ticker {:?}", sample);
        let expected = RString::<Alpha, AlphaNum, 1, 32>::from_str(sample).is_ok();
        assert_eq!(Article::from_str(sample).is_ok(), expected, "article {:?}", sample);
        let expected = RString::<AsciiPrintable, AsciiPrintable, 1, 40>::from_str(sample).is_ok();
        assert_eq!(Name::from_str(sample).is_ok(), expected, "name {:?}", sample);
        let expected = RString::<AlphaSmall, AlphaSmall, 1, 64>::from_str(sample).is_ok();
        let checked = check_name(sample, CharSet::AlphaSmall, CharSet::AlphaSmall, 1, 64).is_ok();
        assert_eq!(checked, expected, "small letters {:?}", sample);
        let expected = RString::<Alpha, AlphaNum, 0, 3>::from_str(sample).is_ok();
        let checked = check_name(sample, CharSet::Alpha, CharSet::AlphaNum, 0, 3).is_ok();
        assert_eq!(checked, expected, "short {:?}", sample);
    }
    let long = "n".repeat(41);
    assert_eq!(
        Name::from_str(&long).is_ok(),
        RString::<AsciiPrintable, AsciiPrintable, 1, 40>::from_str(&long).is_ok()
    );
    assert!(Name::from_str(&long[..40]).is_ok());
}

#[test]
fn names_report_the_first_fault() {
    assert_eq!(Ticker::from_str(""), Err(InvalidName::Empty));
    assert_eq!(Ticker::from_str("1A"), Err(InvalidName::DisallowedFirst));
    assert_eq!(Ticker::from_str("A-B"), Err(InvalidName::InvalidChar(1)));
    assert_eq!(Ticker::from_str("AB-C-"), Err(InvalidName::InvalidChar(2)));
    assert_eq!(Ticker::from_str("ABCDEFGHI"), Err(InvalidName::Oversize));
    assert_eq!(Ticker::from_str("ABCDEFGH-"), Err(InvalidName::InvalidChar(8)));
    assert_eq!(Ticker::from_str("aé"), Err(InvalidName::InvalidChar(1)));
    assert_eq!(check_name("ab", CharSet::Alpha, CharSet::Alpha, 3, 8), Err(InvalidName::Undersize));
    assert_eq!(check_name("", CharSet::Alpha, CharSet::Alpha, 0, 8), Ok(()));
    assert_eq!(check_length("", 1, 3), Err(InvalidName::Undersize));
    assert_eq!(check_length("abcd", 1, 3), Err(InvalidName::Oversize));
    assert_eq!(check_length("é", 1, 1), Err(InvalidName::Oversize));
    assert_eq!(check_length("é", 1, 2), Ok(()));
    assert_eq!(Ticker::MAX_LEN, 8);
    assert_eq!(Article::MAX_LEN, 32);
    assert_eq!(Name::MAX_LEN, 40);
    assert_eq!(MediaRegName::MAX_LEN, 64);
    assert_eq!(Details::MAX_LEN, 255);
    assert_eq!(RicardianContract::MIN_LEN, 0);
}

#[test]
fn character_sets() {
    for byte in 0u8..=255 {
        let c = byte as char;
        assert_eq!(CharSet::Alpha.contains(byte), c.is_ascii_alphabetic());
        assert_eq!(CharSet::AlphaNum.contains(byte), c.is_ascii_alphanumeric());
        assert_eq!(CharSet::AlphaSmall.contains(byte), c.is_ascii_lowercase());
        assert_eq!(CharSet::AsciiPrintable.contains(byte), byte.is_ascii());
        let mime = c.is_ascii_lowercase() || c.is_ascii_digit() || "!#$&+-.^_".contains(c);
        assert_eq!(CharSet::Mime.contains(byte), mime && byte.is_ascii());
        assert_eq!(CharSet::Alpha.contains(byte), Alpha::try_from(byte).is_ok());
        assert_eq!(CharSet::AlphaNum.contains(byte), AlphaNum::try_from(byte).is_ok());
        assert_eq!(CharSet::AlphaSmall.contains(byte), AlphaSmall::try_from(byte).is_ok());
        assert_eq!(CharSet::AsciiPrintable.contains(byte), AsciiPrintable::try_from(byte).is_ok());
    }
}

#[test]
fn tickers_are_equal_up_to_case() {
    let upper = Ticker::from_str("USDT").unwrap();
    let lower = Ticker::from_str("usdt").unwrap();
    let other = Ticker::from_str("USDC").unwrap();
    assert!(upper == lower);
    assert!(upper != other);
    assert_eq!(upper.as_str(), "USDT");
    assert_eq!(lower.to_string(), "usdt");
    assert_eq!(upper.clone().as_str(), "USDT");
    assert!(Name::from_str("Tether").unwrap() != Name::from_str("tether").unwrap());
}

#[test]
fn details_and_contract_texts() {
    assert_eq!(Details::from_str("").err(), Some(InvalidName::Undersize));
    assert_eq!(Details::from_str("détails").unwrap().as_str(), "détails");
    assert!(Details::from_str(&"d".repeat(255)).is_ok());
    assert_eq!(Details::from_str(&"d".repeat(256)).err(), Some(InvalidName::Oversize));
    assert_eq!(Details::from_str(&"é".repeat(128)).err(), Some(InvalidName::Oversize));
    assert_eq!(RicardianContract::default().as_str(), "");
    assert_eq!(RicardianContract::from_str("").unwrap(), RicardianContract::default());
    assert!(RicardianContract::from_str(&"c".repeat(65535)).is_ok());
    assert_eq!(
        RicardianContract::from_str(&"c".repeat(65536)).err(),
        Some(InvalidName::Oversize)
    );
}

#[test]
fn asset_specifications() {
    let spec = AssetSpec::with("USDT", "Tether", Precision::Centi, Some("a stable coin")).unwrap();
    assert_eq!(spec.ticker(), "USDT");
    assert_eq!(spec.name(), "Tether");
    assert_eq!(spec.details(), Some("a stable coin"));
    assert_eq!(spec.precision, Precision::Centi);
    let plain = AssetSpec::new("USDT", "Tether", Precision::Centi);
    assert_eq!(plain.details(), None);
    assert_eq!(plain, AssetSpec::with("usdt", "Tether", Precision::Centi, None).unwrap());
    assert_eq!(
        AssetSpec::with("US DT", "Tether", Precision::Centi, None).err(),
        Some(InvalidName::InvalidChar(2))
    );
    assert_eq!(
        AssetSpec::with("USDT", "Tethér", Precision::Centi, None).err(),
        Some(InvalidName::InvalidChar(4))
    );
    assert_eq!(
        AssetSpec::with("USDT", "Tether", Precision::Centi, Some("")).err(),
        Some(InvalidName::Undersize)
    );
    assert_eq!(
        AssetSpec::with("", "", Precision::Centi, Some("")).err(),
        Some(InvalidName::Empty)
    );
}

#[test]
fn contract_specifications() {
    let spec = ContractSpec::with("The", "Collection", Precision::Indivisible, None).unwrap();
    assert_eq!(spec.article(), Some("The"));
    assert_eq!(spec.name(), "Collection");
    assert_eq!(spec.details(), None);
    let plain = ContractSpec::new("Collection", Precision::Indivisible);
    assert_eq!(plain.article(), None);
    assert_eq!(plain.name(), "Collection");
    assert_eq!(plain.precision, Precision::Indivisible);
    assert_eq!(
        ContractSpec::with("1st", "Collection", Precision::Indivisible, None).err(),
        Some(InvalidName::DisallowedFirst)
    );
    assert_eq!(
        ContractSpec::with("The", "", Precision::Indivisible, Some("d")).err(),
        Some(InvalidName::Empty)
    );
    assert_eq!(
        ContractSpec::with("The", "Collection", Precision::Indivisible, Some(&"d".repeat(300)))
            .err(),
        Some(InvalidName::Oversize)
    );
    let detailed = ContractSpec::with("A", "B", Precision::Atto, Some("more")).unwrap();
    assert_eq!(detailed.details(), Some("more"));
}

#[test]
fn media_types_are_read_and_written() {
    let media = MediaType::from_str("text/plain").unwrap();
    assert_eq!(media.ty.as_str(), "text");
    assert_eq!(media.subtype.as_ref().unwrap().as_str(), "plain");
    assert_eq!(media.charset, None);
    assert_eq!(media.to_string(), "text/plain");
    assert_eq!(media, MediaType::with("text/plain"));
    let any = MediaType::from_str("image/*").unwrap();
    assert_eq!(any.subtype, None);
    assert_eq!(any.to_string(), "image/*");
    assert_eq!(any, MediaType::image_any());
    assert_eq!(any, MediaType::with("image/*"));
    let xml = MediaType::from_str("application/vnd.api+json").unwrap();
    assert_eq!(xml.to_string(), "application/vnd.api+json");
    assert_eq!(MediaType::from_str(&xml.to_string()).unwrap(), xml);
}

#[test]
fn media_types_report_each_error() {
    assert_eq!(MediaType::from_str("text"), Err(ParseMediaTypeError::InvalidStructure));
    assert_eq!(MediaType::from_str(""), Err(ParseMediaTypeError::InvalidStructure));
    assert_eq!(
        MediaType::from_str("/plain"),
        Err(ParseMediaTypeError::TypeName(InvalidName::Empty))
    );
    assert_eq!(
        MediaType::from_str("Text/plain"),
        Err(ParseMediaTypeError::TypeName(InvalidName::DisallowedFirst))
    );
    assert_eq!(
        MediaType::from_str("text/"),
        Err(ParseMediaTypeError::SubtypeName(InvalidName::Empty))
    );
    assert_eq!(
        MediaType::from_str("text/pl ain"),
        Err(ParseMediaTypeError::SubtypeName(InvalidName::InvalidChar(2)))
    );
    // the text is split at the first slash
    assert_eq!(
        MediaType::from_str("a/b/c"),
        Err(ParseMediaTypeError::SubtypeName(InvalidName::InvalidChar(1)))
    );
    assert_eq!(
        MediaType::from_str("*/*"),
        Err(ParseMediaTypeError::TypeName(InvalidName::DisallowedFirst))
    );
    // the type is checked first
    assert_eq!(
        MediaType::from_str("1/2"),
        Err(ParseMediaTypeError::TypeName(InvalidName::DisallowedFirst))
    );
    assert_eq!(
        MediaType::from_str(&format!("{}/x", "a".repeat(65))),
        Err(ParseMediaTypeError::TypeName(InvalidName::Oversize))
    );
    assert_eq!(
        ParseMediaTypeError::InvalidStructure.to_string(),
        "media type (MIME) must consist of two parts separated by a slash."
    );
    assert_eq!(
        ParseMediaTypeError::TypeName(InvalidName::Empty).to_string(),
        "invalid media (MIME) type component"
    );
    assert_eq!(
        ParseMediaTypeError::SubtypeName(InvalidName::Empty).to_string(),
        "invalid media (MIME) subtype component"
    );
}

#[test]
fn attachments_and_terms_are_shown() {
    let mut digest = [0u8; 32];
    for (i, byte) in digest.iter_mut().enumerate() {
        *byte = (i as u8) * 8 + 1;
    }
    let attachment = Attachment { ty: MediaType::with("text/plain"), digest };
    assert_eq!(
        attachment.to_string(),
        "type text/plain, digest \
         0x0109111921293139414951596169717981899199a1a9b1b9c1c9d1d9e1e9f1f9"
    );
    let zero = Attachment { ty: MediaType::image_any(), digest: [0u8; 32] };
    assert_eq!(zero.to_string(), format!("type image/*, digest 0x{}", "0".repeat(64)));
    let high = Attachment { ty: MediaType::image_any(), digest: [0xAB; 32] };
    assert_eq!(high.to_string(), format!("type image/*, digest 0x{}", "ab".repeat(32)));

    let terms = ContractTerms::with("be fair", None).unwrap();
    assert_eq!(terms.to_string(), "text be fair, media ~");
    let terms = ContractTerms::with("be fair", Some(zero.clone())).unwrap();
    assert_eq!(terms.to_string(), format!("text be fair, media {}", zero.to_string()));
    assert_eq!(ContractTerms::default().to_string(), "text , media ~");
    assert_eq!(
        ContractTerms::with(&"x".repeat(65536), None).err(),
        Some(InvalidName::Oversize)
    );
}
