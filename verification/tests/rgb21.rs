use rgb_interfaces::decimal::ParseNumError;
use rgb_interfaces::features::{FeatureName, IfacePart, IfaceStep};
use rgb_interfaces::rgb21::{
    AllocationParseError, AttachmentName, AttachmentType, EmbeddedMedia, IssuerError, Issues,
    ItemsCount, NftAllocation, OwnedFraction, Rgb21, Rgb21PrimaryIssue, TokenData, TokenIndex,
};
use rgb_interfaces::seals::{Layer1, Method, XOutpoint};
use rgb_interfaces::stl::{
    Attachment, InvalidName, MediaType, Precision, ProofOfReserves,
};
use rgb_interfaces::seals::Outpoint;

#[test]
fn types_owned_fraction_from_str() {
    let owned_fraction = match OwnedFraction::from_str("1") {
        Ok(value) => value,
        Err(_) => OwnedFraction::zero(),
    };

    assert_eq!(owned_fraction.value(), 1);
    assert_eq!(format!("{owned_fraction}", owned_fraction = owned_fraction.to_string()), "1");
}

#[test]
fn types_owned_fraction_add_assign() {
    let mut owned_fraction = match OwnedFraction::from_str("1") {
        Ok(value) => value,
        Err(_) => OwnedFraction::zero(),
    };

    let _ = owned_fraction.checked_add_assign(OwnedFraction::zero());
    assert_eq!(owned_fraction.value(), 1);
    assert_eq!(format!("{owned_fraction}", owned_fraction = owned_fraction.to_string()), "1");
}

#[test]
fn types_owned_fraction_add() {
    let owned_fraction = match OwnedFraction::from_str("1") {
        Ok(value) => value,
        Err(_) => OwnedFraction::zero(),
    };

    let owned = match owned_fraction.checked_add(OwnedFraction::zero()) {
        Some(value) => value,
        None => OwnedFraction::zero(),
    };
    assert_eq!(owned.value(), 1);
    assert_eq!(format!("{owned}", owned = owned.to_string()), "1");
}

#[test]
fn types_owned_fraction_sub() {
    let owned_fraction = match OwnedFraction::from_str("1") {
        Ok(value) => value,
        Err(_) => OwnedFraction::zero(),
    };

    let other_fraction = match OwnedFraction::from_str("1") {
        Ok(value) => value,
        Err(_) => OwnedFraction::zero(),
    };

    let owned = match owned_fraction.checked_sub(other_fraction) {
        Some(value) => value,
        None => OwnedFraction::zero(),
    };
    assert_eq!(owned.value(), 0);
    assert_eq!(format!("{owned}", owned = owned.to_string()), "0");
}

#[test]
fn types_owned_fraction_sub_assign() {
    let mut owned_fraction = match OwnedFraction::from_str("1") {
        Ok(value) => value,
        Err(_) => OwnedFraction::zero(),
    };

    let other_fraction = match OwnedFraction::from_str("1") {
        Ok(value) => value,
        Err(_) => OwnedFraction::zero(),
    };

    let _ = owned_fraction.checked_sub_assign(other_fraction);
    assert_eq!(owned_fraction.value(), 0);
    assert_eq!(format!("{owned_fraction}", owned_fraction = owned_fraction.to_string()), "0");
}

#[test]
fn owned_fraction_saturates_and_checks() {
    let max = OwnedFraction::from(u64::MAX);
    let one = OwnedFraction::from_inner(1);
    assert_eq!(max.saturating_add(one), max);
    assert_eq!(OwnedFraction::zero().saturating_sub(one), OwnedFraction::zero());
    assert_eq!(max.checked_add(one), None);
    assert_eq!(OwnedFraction::zero().checked_sub(one), None);
    let mut value = max;
    assert_eq!(value.checked_add_assign(one), None);
    assert_eq!(value, max);
    value.saturating_add_assign(one);
    assert_eq!(value, max);
    value.saturating_sub_assign(max);
    assert_eq!(value.into_inner(), 0);
    assert_eq!(value.checked_sub_assign(one), None);
    assert_eq!(OwnedFraction::default(), OwnedFraction::zero());
}

#[test]
fn small_numbers_read_and_write_decimal() {
    assert_eq!(ItemsCount::from_str("12"), Ok(ItemsCount::from(12u32)));
    assert_eq!(ItemsCount::from_str("4294967296"), Err(ParseNumError::PosOverflow));
    assert_eq!(ItemsCount::from_inner(7).to_string(), "7");
    assert_eq!(TokenIndex::from_str("0"), Ok(TokenIndex::default()));
    assert_eq!(TokenIndex::from_str("x"), Err(ParseNumError::InvalidDigit));
    assert_eq!(TokenIndex::from_inner(u32::MAX).to_string(), "4294967295");
    assert_eq!(TokenIndex::from_inner(5).into_inner(), 5);
}

#[test]
fn allocation_reads_and_writes_fraction_at_index() {
    let allocation = NftAllocation::from_str("3@17").unwrap();
    assert_eq!(allocation, NftAllocation::with(TokenIndex::from(17u32), OwnedFraction::from(3u64)));
    assert_eq!(allocation.token_index(), TokenIndex::from(17u32));
    assert_eq!(allocation.fraction(), OwnedFraction::from(3u64));
    assert_eq!(allocation.to_string(), "3@17");
    assert_eq!(NftAllocation::from_str(&allocation.to_string()), Ok(allocation));
    assert_eq!(NftAllocation::default().to_string(), "0@0");
}

#[test]
fn allocation_reports_each_error() {
    assert_eq!(NftAllocation::from_str("3"), Err(AllocationParseError::WrongFormat));
    assert_eq!(
        NftAllocation::from_str("3@x"),
        Err(AllocationParseError::InvalidIndex("x".to_owned()))
    );
    assert_eq!(
        NftAllocation::from_str("THREE@1"),
        Err(AllocationParseError::InvalidFraction("three".to_owned()))
    );
    assert_eq!(
        NftAllocation::from_str("18446744073709551616@1"),
        Err(AllocationParseError::InvalidFraction("18446744073709551616".to_owned()))
    );
    assert_eq!(
        AllocationParseError::InvalidIndex("x".to_owned()).to_string(),
        "invalid token index x."
    );
    assert_eq!(
        AllocationParseError::InvalidFraction("y".to_owned()).to_string(),
        "invalid fraction y."
    );
    assert_eq!(
        AllocationParseError::WrongFormat.to_string(),
        "allocation must have format <fraction>@<token_index>."
    );
}

#[test]
fn rgb21_features() {
    assert_eq!(Rgb21::default(), Rgb21::none());
    assert_eq!(Issues::default(), Issues::Unique);
    assert_eq!(Rgb21::enumerate(), vec![Rgb21::none(), Rgb21::all()]);
    assert_eq!(Rgb21::none().to_list(), vec![FeatureName::Fractional, FeatureName::Unique]);
    assert_eq!(
        Rgb21::all().to_list(),
        vec![
            FeatureName::Collection,
            FeatureName::Engravable,
            FeatureName::Fractional,
            FeatureName::Renamable
        ]
    );
    let limited = Rgb21 { renaming: false, engraving: true, issues: Issues::Limited };
    assert_eq!(
        limited.to_list(),
        vec![FeatureName::Engravable, FeatureName::Fractional, FeatureName::Limited]
    );
    for features in [Rgb21::none(), Rgb21::all(), limited] {
        let list = features.to_list();
        let mut sorted: Vec<&str> = list.iter().map(|name| name.as_str()).collect();
        let shown = sorted.clone();
        sorted.sort();
        sorted.dedup();
        assert_eq!(shown, sorted);
    }
    assert_eq!(Rgb21::IFACE_NAME, "RGB21");
}

#[test]
fn rgb21_interface_steps() {
    let names: Vec<String> = Rgb21::none().iface_steps().iter().map(|step| step.name()).collect();
    assert_eq!(names, vec!["RGB21Base", "RGB21Unique"]);
    let names: Vec<String> = Rgb21::all().iface_steps().iter().map(|step| step.name()).collect();
    assert_eq!(names, vec!["RGB21Base", "RGB21Renameable", "RGB21Engravable", "RGB21Issuable"]);
    let parts: Vec<IfacePart> = Rgb21::all().iface_steps().iter().map(|step| step.part()).collect();
    assert_eq!(
        parts,
        vec![
            IfacePart::NonFungibleToken,
            IfacePart::RenameableAsset,
            IfacePart::EngravableNft,
            IfacePart::IssuableNft
        ]
    );
    let limited = Rgb21 { renaming: false, engraving: false, issues: Issues::Limited };
    assert_eq!(limited.iface_steps(), vec![IfaceStep::Rgb21Base, IfaceStep::Rgb21Limited]);
    assert_eq!(IfacePart::LimitedNft.name(), "LimitedNft");
}

#[test]
fn attachment_names_and_token_data() {
    assert_eq!(AttachmentName::from_str("cover").unwrap().as_str(), "cover");
    assert_eq!(AttachmentName::from_str(""), Err(InvalidName::Empty));
    assert_eq!(AttachmentName::from_str("012345678901234567890"), Err(InvalidName::Oversize));
    assert_eq!(AttachmentName::from_str("01234567890123456789").unwrap().to_string().len(), 20);
    assert_eq!(AttachmentName::from_str("é"), Err(InvalidName::DisallowedFirst));
    let kind = AttachmentType::with(4, "cover");
    assert_eq!(kind.id, 4);
    assert_eq!(kind.name.as_str(), "cover");

    let mut token = TokenData::default();
    assert!(token.is_wf());
    let attachment = Attachment { ty: MediaType::image_any(), digest: [7u8; 32] };
    token.attachments.push((1, attachment.clone()));
    token.attachments.push((3, attachment.clone()));
    assert!(token.is_wf());
    token.attachments.push((3, attachment.clone()));
    assert!(!token.is_wf());
    token.attachments.pop();
    token.attachments.push((2, attachment.clone()));
    assert!(!token.is_wf());
    token.attachments.clear();
    for id in 0..21u8 {
        token.attachments.push((id, attachment.clone()));
    }
    assert!(!token.is_wf());
    token.attachments.pop();
    assert!(token.is_wf());
    token.preview = Some(EmbeddedMedia { ty: MediaType::image_any(), data: vec![0; 65536] });
    assert!(!token.is_wf());
    token.preview = Some(EmbeddedMedia { ty: MediaType::image_any(), data: vec![0; 65535] });
    assert!(token.is_wf());
    let utxo = Outpoint { txid: [1u8; 32], vout: 2 };
    token.reserves = Some(ProofOfReserves::new(utxo, vec![0; 65536]));
    assert!(!token.is_wf());
    token.reserves = Some(ProofOfReserves::new(utxo, vec![9; 10]));
    assert!(token.is_wf());
    assert_eq!(token.reserves.as_ref().unwrap().utxo, utxo);
}

fn bitcoin(vout: u32) -> XOutpoint {
    XOutpoint { layer1: Layer1::Bitcoin, txid: [0x11; 32], vout }
}

fn liquid(vout: u32) -> XOutpoint {
    XOutpoint { layer1: Layer1::Liquid, txid: [0x22; 32], vout }
}

#[test]
fn rgb21_issue_collects_allocations() {
    let issue = Rgb21PrimaryIssue::testnet_with(
        Rgb21::none(),
        "ssi:anonymous",
        "UDA",
        "Unique asset",
        None,
        Precision::Indivisible,
    )
    .unwrap();
    let share = NftAllocation::with(TokenIndex::from(1u32), OwnedFraction::from(1u64));
    let issue = issue.allocate(Method::TapretFirst, bitcoin(0), share).unwrap();
    assert_eq!(
        issue.clone().allocate(Method::TapretFirst, liquid(0), share).err(),
        Some(IssuerError::NoLiquidSupport)
    );
    let issue = issue.support_liquid();
    let issue = issue
        .allocate_all(Method::OpretFirst, &vec![(liquid(1), share), (bitcoin(2), share)])
        .unwrap();
    let issue = issue.add_terms("terms of the token", None).unwrap();
    let genesis = issue.pre_issue_contract(1, "https://example.org/image.png");
    assert!(genesis.liquid);
    assert_eq!(genesis.features, Rgb21::none());
    assert_eq!(genesis.issuer, "ssi:anonymous");
    assert_eq!(genesis.spec.ticker(), "UDA");
    assert_eq!(genesis.terms.text.as_str(), "terms of the token");
    assert_eq!(genesis.asset_tag, None);
    assert_eq!(genesis.allocations.len(), 3);
    assert_eq!(genesis.allocations[0].0.outpoint, bitcoin(0));
    assert_eq!(genesis.allocations[0].0.method, Method::TapretFirst);
    assert_eq!(genesis.allocations[1].0.outpoint, liquid(1));
    assert_eq!(genesis.allocations[2].0.method, Method::OpretFirst);
    assert_eq!(genesis.allocations[2].1, share);
    assert_eq!(genesis.token.index, TokenIndex::from(1u32));
    let preview = genesis.token.preview.unwrap();
    assert_eq!(preview.ty.to_string(), "image/*");
    assert_eq!(preview.data, "https://example.org/image.png".as_bytes());
    assert!(genesis.token.attachments.is_empty());
}

#[test]
fn rgb21_issue_refusals() {
    let refused = Rgb21PrimaryIssue::testnet_with(
        Rgb21::all(),
        "ssi:anonymous",
        "1UDA",
        "Unique asset",
        None,
        Precision::Indivisible,
    );
    assert_eq!(refused.err(), Some(InvalidName::DisallowedFirst));
    let issue = Rgb21PrimaryIssue::testnet_det(
        Rgb21::all(),
        "ssi:anonymous",
        "UDA",
        "Unique asset",
        Some("details"),
        Precision::Indivisible,
        [5u8; 32],
    )
    .unwrap();
    let share = NftAllocation::with(TokenIndex::from(1u32), OwnedFraction::from(1u64));
    assert_eq!(
        issue
            .clone()
            .allocate_all(Method::OpretFirst, &vec![(bitcoin(1), share), (liquid(2), share)])
            .err(),
        Some(IssuerError::NoLiquidSupport)
    );
    let long = "x".repeat(65536);
    assert_eq!(issue.clone().add_terms(&long, None).err(), Some(InvalidName::Oversize));
    let genesis = issue.pre_issue_contract(0, "");
    assert_eq!(genesis.asset_tag, Some([5u8; 32]));
    assert_eq!(genesis.spec.details(), Some("details"));
    assert_eq!(
        IssuerError::NoLiquidSupport.to_string(),
        "contract genesis doesn't support allocating to liquid seals; request liquid support first."
    );
    assert_eq!(
        IssuerError::FractionOverflow.to_string(),
        "the amount of token fractions in outputs exceeds 1."
    );
    assert_eq!(
        IssuerError::InvalidAttachmentType.to_string(),
        "attachment has a type which is not allowed for the token"
    );
    assert_eq!(IssuerError::UnknownToken.to_string(), "allocation of unknown token ID");
}
