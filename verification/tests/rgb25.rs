use rgb_interfaces::features::{FeatureName, IfaceStep};
use rgb_interfaces::fungible::{Amount, Precision};
use rgb_interfaces::iface_ids::{
    same_id, RGB20_FIXED_IFACE_ID, RGB20_FULL_IFACE_ID, RGB20_RENAMABLE_BURNABLE_IFACE_ID,
    RGB21_IFACE_ID, RGB21_UNIQUE_IFACE_ID, RGB25_BASE_IFACE_ID, RGB25_IFACE_ID,
};
use rgb_interfaces::rgb20::{IssuerError, Rgb20};
use rgb_interfaces::rgb21::{Issues, Rgb21};
use rgb_interfaces::rgb25::{Issue, Rgb25, Rgb25Wrapper};
use rgb_interfaces::seals::{GenesisSeal, Method, Outpoint, XOutpoint};
use rgb_interfaces::standard::{IfaceStandard, UnknownStandard, LNPBP_IDENTITY};
use rgb_interfaces::stl::{ContractTerms, InvalidName, Name};
use rgb_interfaces::dumb::Dumb;

fn out(vout: u32) -> Outpoint {
    Outpoint { txid: [0x33; 32], vout }
}

#[test]
fn rgb25_features() {
    assert_eq!(Rgb25::default(), Rgb25::none());
    assert_eq!(Rgb25::enumerate(), vec![Rgb25::none(), Rgb25::all()]);
    assert_eq!(Rgb25::none().to_list(), vec![FeatureName::Fractional]);
    assert_eq!(Rgb25::all().to_list(), vec![FeatureName::Burnable, FeatureName::Fractional]);
    assert_eq!(Rgb25::none().iface_steps(), vec![IfaceStep::Rgb25Base]);
    assert_eq!(Rgb25::all().iface_steps(), vec![IfaceStep::Rgb25Base, IfaceStep::Rgb25Burnable]);
    assert_eq!(IfaceStep::Rgb25Burnable.name(), "RGB25Burnable");
    assert_eq!(IfaceStep::Rgb25Base.name(), "RGB25Base");
    assert_eq!(Rgb25::IFACE_NAME, "RGB25");
    assert!(Rgb25::all().burnable);
}

#[test]
fn rgb25_issue_counts_the_issued_supply() {
    let issue = Issue::testnet_det(
        Method::OpretFirst,
        Rgb25::all(),
        "ssi:anonymous",
        "Collectible",
        Precision::Indivisible,
    )
    .unwrap();
    let issue = issue.add_details("a collectible").unwrap();
    let issue = issue.add_terms("the terms", None).unwrap();
    let issue = issue.allocate_det(out(0), 5, Amount::from(40u64)).unwrap();
    let issue = issue.allocate_det(out(1), 6, Amount::from(2u64)).unwrap();
    assert_eq!(
        issue.clone().allocate_det(out(2), 7, Amount::from(u64::MAX)).err(),
        Some(IssuerError::AmountOverflow)
    );
    let genesis = issue.pre_issue_contract();
    assert_eq!(genesis.issued_supply, Amount::from(42u64));
    assert_eq!(genesis.allocations.len(), 2);
    assert_eq!(
        genesis.allocations[0],
        (
            GenesisSeal::with_blinding(Method::OpretFirst, XOutpoint::bitcoin(out(0)), 5),
            Amount::from(40u64)
        )
    );
    assert_eq!(genesis.name.as_str(), "Collectible");
    assert_eq!(genesis.details.as_ref().unwrap().as_str(), "a collectible");
    assert_eq!(genesis.terms.text.as_str(), "the terms");
    assert_eq!(genesis.close_method, Method::OpretFirst);
    assert_eq!(genesis.features, Rgb25::all());
    assert_eq!(genesis.precision, Precision::Indivisible);
    assert_eq!(genesis.issuer, "ssi:anonymous");
}

#[test]
fn rgb25_issue_with_random_seals() {
    let issue = Issue::testnet_with(
        Method::TapretFirst,
        Rgb25::none(),
        "ssi:anonymous",
        "Collectible",
        Precision::Deci,
    )
    .unwrap();
    let issue = issue.allocate(out(0), Amount::from(1u64)).unwrap();
    let list = vec![(out(1), Amount::from(2u64)), (out(2), Amount::from(3u64))];
    let issue = issue.allocate_all(&list).unwrap();
    assert_eq!(
        issue.clone().allocate_all(&vec![(out(3), Amount::from(u64::MAX))]).err(),
        Some(IssuerError::AmountOverflow)
    );
    assert_eq!(
        issue.clone().allocate(out(3), Amount::from(u64::MAX - 5)).err(),
        Some(IssuerError::AmountOverflow)
    );
    let genesis = issue.pre_issue_contract();
    assert_eq!(genesis.issued_supply, Amount::from(6u64));
    assert_eq!(genesis.allocations.len(), 3);
    assert_eq!(genesis.allocations[1].0.outpoint, XOutpoint::bitcoin(out(1)));
    assert_eq!(genesis.allocations[2].0.method, Method::TapretFirst);
    assert_eq!(genesis.allocations[2].1, Amount::from(3u64));
    assert_eq!(genesis.details, None);
    assert_eq!(genesis.terms, ContractTerms::default());
}

#[test]
fn rgb25_issue_checks_its_texts() {
    let refused = Issue::testnet_with(
        Method::TapretFirst,
        Rgb25::none(),
        "ssi:anonymous",
        "",
        Precision::Deci,
    );
    assert_eq!(refused.err(), Some(InvalidName::Empty));
    let refused = Issue::testnet_det(
        Method::TapretFirst,
        Rgb25::none(),
        "ssi:anonymous",
        &"n".repeat(41),
        Precision::Deci,
    );
    assert_eq!(refused.err(), Some(InvalidName::Oversize));
    let issue =
        Issue::testnet_with(Method::TapretFirst, Rgb25::none(), "me", "Name", Precision::Deci)
            .unwrap();
    assert_eq!(issue.clone().add_details("").err(), Some(InvalidName::Undersize));
    assert_eq!(issue.clone().add_details(&"d".repeat(256)).err(), Some(InvalidName::Oversize));
    assert_eq!(issue.add_terms(&"t".repeat(65536), None).err(), Some(InvalidName::Oversize));
}

#[test]
fn rgb25_contract_state() {
    let mut contract = Rgb25Wrapper {
        name: Name::from_str("Collectible").unwrap(),
        details: None,
        precision: Precision::Milli,
        terms: ContractTerms::default(),
        issued_supply: vec![Amount::from(10u64), Amount::from(5u64)],
        burned_supply: None,
    };
    assert_eq!(contract.precision(), Precision::Milli);
    assert_eq!(contract.total_issued_supply(), Amount::from(15u64));
    assert_eq!(contract.total_burned_supply(), Amount::zero());
    assert_eq!(contract.balance(&[Amount::from(4u64)]), Amount::from(4u64));
    contract.burned_supply = Some(vec![Amount::from(u64::MAX), Amount::from(1u64)]);
    assert_eq!(contract.total_burned_supply(), Amount::from(u64::MAX));
}

#[test]
fn standards_are_read_in_any_case() {
    assert_eq!(IfaceStandard::from_str("RGB20"), Ok(IfaceStandard::Rgb20));
    assert_eq!(IfaceStandard::from_str("rgb21"), Ok(IfaceStandard::Rgb21));
    assert_eq!(IfaceStandard::from_str("Rgb25"), Ok(IfaceStandard::Rgb25));
    assert_eq!(IfaceStandard::from_str("RGB22"), Err(UnknownStandard));
    assert_eq!(IfaceStandard::from_str(""), Err(UnknownStandard));
    assert_eq!(IfaceStandard::from_str(" RGB20"), Err(UnknownStandard));
    assert_eq!(IfaceStandard::from_name("RGB20"), Ok(IfaceStandard::Rgb20));
    assert_eq!(IfaceStandard::from_name("rgb20"), Err(UnknownStandard));
    for standard in [IfaceStandard::Rgb20, IfaceStandard::Rgb21, IfaceStandard::Rgb25] {
        assert_eq!(IfaceStandard::from_str(&standard.to_string()), Ok(standard));
        assert_eq!(IfaceStandard::from_name(&standard.to_string()), Ok(standard));
        assert_eq!(IfaceStandard::from_str(&standard.to_string().to_lowercase()), Ok(standard));
    }
    assert_eq!(IfaceStandard::Rgb25.to_string(), "RGB25");
    assert_eq!(UnknownStandard.to_string(), "unknown RGB interface standard name");
    assert!(LNPBP_IDENTITY.starts_with("ssi:"));
    assert_eq!(Dumb, Dumb::default());
}

#[test]
fn standard_interfaces_are_known_by_their_identifiers() {
    let ids = Rgb20::iface_ids();
    assert_eq!(ids.len(), 10);
    for (features, id) in Rgb20::enumerate().iter().zip(ids.iter()) {
        assert_eq!(features.iface_id(), *id);
        assert!(Rgb20::is_iface_id(id));
        assert!(!Rgb21::is_iface_id(id));
        assert!(!Rgb25::is_iface_id(id));
    }
    for (i, a) in ids.iter().enumerate() {
        for (j, b) in ids.iter().enumerate() {
            assert_eq!(same_id(a, b), i == j);
        }
    }
    assert_eq!(Rgb20::fixed().iface_id(), RGB20_FIXED_IFACE_ID);
    assert_eq!(Rgb20::all().iface_id(), RGB20_FULL_IFACE_ID);
    assert_eq!(Rgb20::renamable_burnable().iface_id(), RGB20_RENAMABLE_BURNABLE_IFACE_ID);
    assert_eq!(RGB20_FIXED_IFACE_ID[0], 0xfe);
    assert_eq!(RGB20_FIXED_IFACE_ID[31], 0x39);
    assert!(!Rgb20::is_iface_id(&[0u8; 32]));
    let mut forged = RGB20_FULL_IFACE_ID;
    forged[31] ^= 1;
    assert!(!Rgb20::is_iface_id(&forged));

    assert_eq!(Rgb21::none().iface_id(), Some(RGB21_UNIQUE_IFACE_ID));
    assert_eq!(Rgb21::all().iface_id(), Some(RGB21_IFACE_ID));
    let limited = Rgb21 { renaming: false, engraving: false, issues: Issues::Limited };
    assert_eq!(limited.iface_id(), None);
    assert!(Rgb21::is_iface_id(&RGB21_UNIQUE_IFACE_ID));
    assert!(Rgb21::is_iface_id(&RGB21_IFACE_ID));
    assert!(!Rgb21::is_iface_id(&RGB25_IFACE_ID));

    assert_eq!(Rgb25::none().iface_id(), RGB25_BASE_IFACE_ID);
    assert_eq!(Rgb25::all().iface_id(), RGB25_IFACE_ID);
    assert!(Rgb25::is_iface_id(&RGB25_BASE_IFACE_ID));
    assert!(Rgb25::is_iface_id(&RGB25_IFACE_ID));
    assert!(!Rgb25::is_iface_id(&RGB21_IFACE_ID));
}

#[test]
fn random_seals_keep_the_output_and_the_method() {
    let outpoint = XOutpoint::liquid(out(9));
    let first = GenesisSeal::new_random(Method::TapretFirst, outpoint);
    assert_eq!(first.outpoint, outpoint);
    assert_eq!(first.method, Method::TapretFirst);
    let blindings: Vec<u64> =
        (0..8).map(|_| GenesisSeal::new_random(Method::OpretFirst, outpoint).blinding).collect();
    assert!(blindings.iter().any(|blinding| *blinding != blindings[0]));
}
