use rgb_interfaces::features::{FeatureName, IfacePart, IfaceStep};
use rgb_interfaces::fungible::{Amount, Precision};
use rgb_interfaces::rgb20::{
    Genesis, Inflation, IssueStep, IssuerError, PrimaryIssue, Rgb20, Rgb20Wrapper,
};
use rgb_interfaces::seals::{GenesisSeal, Layer1, Method, Outpoint, XOutpoint};
use rgb_interfaces::stl::{AssetSpec, ContractTerms, InvalidName};

fn bitcoin(vout: u32) -> XOutpoint {
    XOutpoint::bitcoin(Outpoint { txid: [0x11; 32], vout })
}

fn liquid(vout: u32) -> XOutpoint {
    XOutpoint::liquid(Outpoint { txid: [0x22; 32], vout })
}

fn start() -> PrimaryIssue {
    PrimaryIssue::testnet_with(
        Rgb20::all(),
        "ssi:anonymous",
        "TEST",
        "Test asset",
        Some("an asset for tests"),
        Precision::Centi,
    )
    .unwrap()
}

fn finish(issue: PrimaryIssue) -> Genesis {
    issue.pre_issue_contract().unwrap()
}

#[test]
fn inflation_kinds() {
    assert_eq!(Inflation::default(), Inflation::Fixed);
    assert!(Inflation::Fixed.is_fixed());
    assert!(!Inflation::Fixed.is_inflatable() && !Inflation::Fixed.is_burnable());
    assert!(Inflation::Burnable.is_burnable() && !Inflation::Burnable.is_inflatable());
    assert!(Inflation::Inflatable.is_inflatable() && !Inflation::Inflatable.is_burnable());
    assert!(Inflation::InflatableBurnable.is_inflatable());
    assert!(Inflation::InflatableBurnable.is_burnable());
    assert!(!Inflation::InflatableBurnable.is_replaceable());
    assert!(Inflation::Replaceable.is_replaceable());
    assert!(Inflation::Replaceable.is_inflatable() && Inflation::Replaceable.is_burnable());
    assert_eq!(Inflation::Fixed.to_string(), "fixed");
    assert_eq!(Inflation::Burnable.to_string(), "burnable");
    assert_eq!(Inflation::Inflatable.to_string(), "inflatable");
    assert_eq!(Inflation::InflatableBurnable.to_string(), "inflatable, burnable");
    assert_eq!(Inflation::Replaceable.to_string(), "replaceable");
}

#[test]
fn inflation_from_operations_round_trips() {
    for kind in [
        Inflation::Fixed,
        Inflation::Burnable,
        Inflation::Inflatable,
        Inflation::InflatableBurnable,
        Inflation::Replaceable,
    ] {
        let read =
            Inflation::from_operations(kind.is_inflatable(), kind.is_burnable(), kind.is_replaceable());
        assert_eq!(read, Some(kind));
    }
    assert_eq!(Inflation::from_operations(true, false, true), None);
    assert_eq!(Inflation::from_operations(false, false, true), None);
    assert_eq!(Inflation::from_operations(false, true, true), None);
    assert_eq!(
        Rgb20::from_transitions(true, true, true, false),
        Rgb20::renamable_inflatable_burnable()
    );
    assert_eq!(Rgb20::from_transitions(false, false, false, false), Rgb20::fixed());
}

#[test]
fn rgb20_feature_sets() {
    let all = Rgb20::enumerate();
    assert_eq!(all.len(), 10);
    assert_eq!(all[0], Rgb20::fixed());
    assert_eq!(all[1], Rgb20::renamable());
    assert_eq!(all[2], Rgb20::inflatable());
    assert_eq!(all[3], Rgb20::burnable());
    assert_eq!(all[4], Rgb20::inflatable_burnable());
    assert_eq!(all[5], Rgb20::replaceable());
    assert_eq!(all[6], Rgb20::renamable_inflatable());
    assert_eq!(all[7], Rgb20::renamable_burnable());
    assert_eq!(all[8], Rgb20::renamable_inflatable_burnable());
    assert_eq!(all[9], Rgb20::all());
    assert_eq!(Rgb20::default(), Rgb20::fixed());
    assert_eq!(Rgb20::all(), Rgb20 { renaming: true, inflation: Inflation::Replaceable });
    assert_eq!(Rgb20::IFACE_NAME, "RGB20");
    assert_eq!(Rgb20::fixed().to_string(), "fixed");
    assert_eq!(Rgb20::renamable().to_string(), "renamable, fixed");
    assert_eq!(
        Rgb20::renamable_inflatable_burnable().to_string(),
        "renamable, inflatable, burnable"
    );
}

#[test]
fn rgb20_feature_lists() {
    assert_eq!(Rgb20::fixed().to_list(), Vec::<FeatureName>::new());
    assert_eq!(Rgb20::renamable().to_list(), vec![FeatureName::Renamable]);
    assert_eq!(Rgb20::burnable().to_list(), vec![FeatureName::Burnable]);
    assert_eq!(
        Rgb20::inflatable_burnable().to_list(),
        vec![FeatureName::Burnable, FeatureName::Inflatable]
    );
    assert_eq!(
        Rgb20::all().to_list(),
        vec![
            FeatureName::Burnable,
            FeatureName::Inflatable,
            FeatureName::Renamable,
            FeatureName::Replaceable
        ]
    );
    let names: Vec<&str> = Rgb20::all().to_list().iter().map(|name| name.as_str()).collect();
    assert_eq!(names, vec!["burnable", "inflatable", "renamable", "replaceable"]);
    for features in Rgb20::enumerate() {
        let list = features.to_list();
        assert_eq!(list.contains(&FeatureName::Burnable), features.inflation.is_burnable());
        assert_eq!(list.contains(&FeatureName::Inflatable), features.inflation.is_inflatable());
        assert_eq!(list.contains(&FeatureName::Renamable), features.renaming);
        assert_eq!(list.contains(&FeatureName::Replaceable), features.inflation.is_replaceable());
        let mut sorted = list.clone();
        sorted.sort();
        sorted.dedup();
        assert_eq!(list, sorted);
    }
}

fn step_names(features: Rgb20) -> Vec<String> {
    features.iface_steps().iter().map(|step| step.name()).collect()
}

#[test]
fn rgb20_interface_steps() {
    assert_eq!(step_names(Rgb20::fixed()), vec!["RGB20Base", "RGB20Fixed"]);
    assert_eq!(step_names(Rgb20::burnable()), vec!["RGB20Base", "RGB20Burnable"]);
    assert_eq!(step_names(Rgb20::inflatable()), vec!["RGB20Base", "RGB20Inflatable"]);
    assert_eq!(
        step_names(Rgb20::inflatable_burnable()),
        vec!["RGB20Base", "RGB20Inflatable", "RGB20InflatableBurnable"]
    );
    assert_eq!(
        step_names(Rgb20::replaceable()),
        vec!["RGB20Base", "RGB20Inflatable", "RGB20InflatableBurnable", "RGB20Replaceable"]
    );
    assert_eq!(
        step_names(Rgb20::renamable()),
        vec!["RGB20Base", "RGB20Renamable", "RGB20RenamableFixed"]
    );
    assert_eq!(
        step_names(Rgb20::all()),
        vec![
            "RGB20Base",
            "RGB20Renamable",
            "RGB20RenamableInflatable",
            "RGB20RenamableInflatableBurnable",
            "RGB20RenamableReplaceable"
        ]
    );
    let parts: Vec<IfacePart> = Rgb20::all().iface_steps().iter().map(|step| step.part()).collect();
    assert_eq!(
        parts,
        vec![
            IfacePart::FungibleAsset,
            IfacePart::RenameableAsset,
            IfacePart::InflatableAsset,
            IfacePart::BurnableAsset,
            IfacePart::ReplaceableAsset
        ]
    );
    assert_eq!(IfaceStep::Rgb20Burnable { renamable: true }.name(), "RGB20RenamableBurnable");
    assert_eq!(IfaceStep::Rgb20Fixed { renamable: false }.part(), IfacePart::FixedAsset);
}

#[test]
fn issue_counts_the_issued_supply() {
    let issue = start();
    let issue = issue.allocate_det(Method::OpretFirst, bitcoin(0), 7, Amount::from(1000u64)).unwrap();
    let issue = issue.allocate(Method::TapretFirst, bitcoin(1), Amount::from(234u64)).unwrap();
    let genesis = finish(issue);
    assert_eq!(genesis.issued_supply, Amount::from(1234u64));
    assert_eq!(genesis.max_supply, None);
    assert_eq!(genesis.steps.len(), 2);
    assert_eq!(
        genesis.steps[0],
        IssueStep::Allocate {
            seal: GenesisSeal::with_blinding(Method::OpretFirst, bitcoin(0), 7),
            amount: Amount::from(1000u64)
        }
    );
    match genesis.steps[1] {
        IssueStep::Allocate { seal, amount } => {
            assert_eq!(seal.outpoint, bitcoin(1));
            assert_eq!(seal.method, Method::TapretFirst);
            assert_eq!(amount, Amount::from(234u64));
        }
        _ => panic!("the second step is an allocation"),
    }
    assert_eq!(genesis.features, Rgb20::all());
    assert_eq!(genesis.issuer, "ssi:anonymous");
    assert_eq!(genesis.spec.ticker(), "TEST");
    assert_eq!(genesis.spec.name(), "Test asset");
    assert_eq!(genesis.spec.details(), Some("an asset for tests"));
    assert_eq!(genesis.spec.precision, Precision::Centi);
    assert_eq!(genesis.terms, ContractTerms::default());
    assert!(!genesis.liquid);
}

#[test]
fn issue_refuses_overflow_of_the_issued_supply() {
    let issue = start();
    let issue = issue.allocate_det(Method::OpretFirst, bitcoin(0), 1, Amount::from(u64::MAX)).unwrap();
    assert_eq!(
        issue.clone().allocate_det(Method::OpretFirst, bitcoin(1), 2, Amount::from(1u64)).err(),
        Some(IssuerError::AmountOverflow)
    );
    // the amount is counted before the seal is looked at
    assert_eq!(
        issue.clone().allocate_det(Method::OpretFirst, liquid(1), 2, Amount::from(1u64)).err(),
        Some(IssuerError::AmountOverflow)
    );
    assert_eq!(
        issue.clone().allocate(Method::OpretFirst, bitcoin(1), Amount::from(1u64)).err(),
        Some(IssuerError::AmountOverflow)
    );
    let issue = issue.allocate_det(Method::OpretFirst, bitcoin(1), 2, Amount::zero()).unwrap();
    assert_eq!(finish(issue).issued_supply, Amount::from(u64::MAX));
}

#[test]
fn issue_needs_liquid_support_for_liquid_seals() {
    let issue = start();
    assert_eq!(
        issue.clone().allocate_det(Method::OpretFirst, liquid(0), 1, Amount::from(1u64)).err(),
        Some(IssuerError::NoLiquidSupport)
    );
    assert_eq!(
        issue.clone().allow_burn(Method::OpretFirst, liquid(0)).err(),
        Some(IssuerError::NoLiquidSupport)
    );
    assert_eq!(
        issue.clone().allow_burn_det(Method::OpretFirst, liquid(0), 3).err(),
        Some(IssuerError::NoLiquidSupport)
    );
    assert_eq!(
        issue.clone().allow_replace(Method::OpretFirst, liquid(0)).err(),
        Some(IssuerError::NoLiquidSupport)
    );
    assert_eq!(
        issue.clone().allow_replace_det(Method::OpretFirst, liquid(0), 3).err(),
        Some(IssuerError::NoLiquidSupport)
    );
    assert_eq!(
        issue.clone().allow_inflation_det(Method::OpretFirst, liquid(0), 3, Amount::from(1u64)).err(),
        Some(IssuerError::NoLiquidSupport)
    );
    let issue = issue.support_liquid();
    let issue = issue.allocate_det(Method::OpretFirst, liquid(0), 1, Amount::from(5u64)).unwrap();
    let issue = issue.allow_burn_det(Method::TapretFirst, liquid(1), 9).unwrap();
    let issue = issue.allow_replace_det(Method::TapretFirst, bitcoin(2), 10).unwrap();
    let issue = issue.allow_burn(Method::OpretFirst, bitcoin(3)).unwrap();
    let issue = issue.allow_replace(Method::OpretFirst, liquid(4)).unwrap();
    let genesis = finish(issue);
    assert!(genesis.liquid);
    assert_eq!(genesis.steps.len(), 5);
    assert_eq!(
        genesis.steps[1],
        IssueStep::AllowBurn { seal: GenesisSeal::with_blinding(Method::TapretFirst, liquid(1), 9) }
    );
    assert_eq!(
        genesis.steps[2],
        IssueStep::AllowReplace {
            seal: GenesisSeal::with_blinding(Method::TapretFirst, bitcoin(2), 10)
        }
    );
    assert_eq!(liquid(0).layer1, Layer1::Liquid);
}

#[test]
fn issue_adds_allowances_to_the_greatest_supply() {
    let issue = start();
    let issue = issue.allocate_det(Method::OpretFirst, bitcoin(0), 1, Amount::from(100u64)).unwrap();
    let issue =
        issue.allow_inflation_det(Method::OpretFirst, bitcoin(1), 2, Amount::from(50u64)).unwrap();
    let issue = issue.allow_inflation(Method::OpretFirst, bitcoin(2), Amount::from(25u64)).unwrap();
    let issue = issue.add_inflation_metadata(Amount::from(75u64)).unwrap();
    let genesis = finish(issue.clone());
    assert_eq!(genesis.issued_supply, Amount::from(100u64));
    assert_eq!(genesis.max_supply, Some(Amount::from(175u64)));
    assert_eq!(genesis.steps.len(), 4);
    assert_eq!(genesis.steps[3], IssueStep::InflationMetadata { amount: Amount::from(75u64) });
    assert_eq!(
        genesis.steps[1],
        IssueStep::AllowInflation {
            seal: GenesisSeal::with_blinding(Method::OpretFirst, bitcoin(1), 2),
            supply: Amount::from(50u64)
        }
    );

    assert_eq!(
        issue
            .clone()
            .allow_inflation_det(Method::OpretFirst, bitcoin(3), 4, Amount::from(u64::MAX - 74))
            .err(),
        Some(IssuerError::AmountOverflow)
    );
    // allowances that fit by themselves may not fit together with what was issued
    let issue = issue
        .allow_inflation_det(Method::OpretFirst, bitcoin(3), 4, Amount::from(u64::MAX - 75))
        .unwrap();
    assert_eq!(issue.pre_issue_contract().err(), Some(IssuerError::AmountOverflow));
}

#[test]
fn issue_allocates_a_list_in_order() {
    let list = vec![
        (bitcoin(0), Amount::from(1u64)),
        (bitcoin(1), Amount::from(2u64)),
        (bitcoin(2), Amount::from(3u64)),
    ];
    let genesis = finish(start().allocate_all(Method::OpretFirst, &list).unwrap());
    assert_eq!(genesis.issued_supply, Amount::from(6u64));
    assert_eq!(genesis.steps.len(), 3);
    assert_eq!(finish(start().allocate_all(Method::OpretFirst, &vec![]).unwrap()).steps.len(), 0);

    let overflowing = vec![(bitcoin(0), Amount::from(u64::MAX)), (bitcoin(1), Amount::from(1u64))];
    assert_eq!(
        start().allocate_all(Method::OpretFirst, &overflowing).err(),
        Some(IssuerError::AmountOverflow)
    );
    // the first refusal decides
    let mixed = vec![
        (bitcoin(0), Amount::from(u64::MAX)),
        (liquid(1), Amount::zero()),
        (bitcoin(2), Amount::from(1u64)),
    ];
    assert_eq!(
        start().allocate_all(Method::OpretFirst, &mixed).err(),
        Some(IssuerError::NoLiquidSupport)
    );
    let mixed = vec![
        (bitcoin(0), Amount::from(u64::MAX)),
        (bitcoin(2), Amount::from(1u64)),
        (liquid(1), Amount::zero()),
    ];
    assert_eq!(
        start().allocate_all(Method::OpretFirst, &mixed).err(),
        Some(IssuerError::AmountOverflow)
    );
}

#[test]
fn issue_checks_names_and_terms() {
    let refuse = |ticker: &str, name: &str, details: Option<&str>| {
        PrimaryIssue::testnet_with(
            Rgb20::fixed(),
            "ssi:anonymous",
            ticker,
            name,
            details,
            Precision::default(),
        )
        .err()
    };
    assert_eq!(refuse("", "Name", None), Some(InvalidName::Empty));
    assert_eq!(refuse("TOOLONGTK", "Name", None), Some(InvalidName::Oversize));
    assert_eq!(refuse("T-T", "Name", None), Some(InvalidName::InvalidChar(1)));
    assert_eq!(refuse("TICK", "", None), Some(InvalidName::Empty));
    assert_eq!(refuse("TICK", "Name", Some("")), Some(InvalidName::Undersize));
    assert_eq!(refuse("TICK", "Name", Some("fine")), None);
    // the ticker is checked first
    assert_eq!(refuse("9", "", Some("")), Some(InvalidName::DisallowedFirst));

    let issue = start().add_terms("the terms", None).unwrap();
    assert_eq!(finish(issue).terms.text.as_str(), "the terms");
    assert_eq!(
        start().add_terms(&"t".repeat(65536), None).err(),
        Some(InvalidName::Oversize)
    );
    assert!(start().add_terms(&"t".repeat(65535), None).is_ok());
    assert_eq!(
        IssuerError::AmountOverflow.to_string(),
        "overflow in the amount of the issued assets: the total amount must not exceed 2^64."
    );
    assert_eq!(
        IssuerError::NoLiquidSupport.to_string(),
        "contract genesis doesn't support allocating to liquid seals; request liquid support first."
    );
}

fn state(transitions: &[&str]) -> Rgb20Wrapper {
    Rgb20Wrapper {
        transitions: transitions.iter().map(|name| name.to_string()).collect(),
        spec: AssetSpec::with("TEST", "Test asset", Precision::Centi, None).unwrap(),
        terms: ContractTerms::default(),
        issued_supply: vec![Amount::from(1000u64), Amount::from(234u64)],
        max_supply: None,
        burned_supply: None,
        replaced_supply: None,
    }
}

#[test]
fn contract_state_shows_its_features() {
    assert_eq!(state(&["transfer"]).features(), Rgb20::fixed());
    assert_eq!(state(&["transfer", "rename"]).features(), Rgb20::renamable());
    assert_eq!(state(&["issue", "transfer"]).features(), Rgb20::inflatable());
    assert_eq!(state(&["burn"]).features(), Rgb20::burnable());
    assert_eq!(state(&["burn", "issue"]).features(), Rgb20::inflatable_burnable());
    assert_eq!(state(&["burn", "issue", "replace", "rename"]).features(), Rgb20::all());
    assert_eq!(state(&["burn", "issue", "replace"]).try_features(), Some(Rgb20::replaceable()));
    assert_eq!(state(&["replace"]).try_features(), None);
    assert_eq!(state(&["replace", "issue"]).try_features(), None);
    assert_eq!(state(&["replace", "burn"]).try_features(), None);
    assert_eq!(state(&["Rename", "issues"]).try_features(), Some(Rgb20::fixed()));
}

#[test]
fn contract_state_sums_its_supplies() {
    let mut contract = state(&[]);
    assert_eq!(contract.total_issued_supply(), Amount::from(1234u64));
    assert_eq!(contract.max_supply(), Amount::from(1234u64));
    assert_eq!(contract.total_burned_supply(), Amount::zero());
    assert_eq!(contract.total_replaced_supply(), Amount::zero());
    assert_eq!(contract.total_supply(), Amount::from(1234u64));
    assert_eq!(contract.balance(&[Amount::from(1u64), Amount::from(2u64)]), Amount::from(3u64));
    assert_eq!(contract.balance(&[Amount::from(u64::MAX), Amount::from(2u64)]).value(), u64::MAX);

    contract.max_supply = Some(vec![Amount::from(5000u64)]);
    contract.burned_supply = Some(vec![Amount::from(30u64), Amount::from(4u64)]);
    contract.replaced_supply = Some(vec![Amount::from(9u64)]);
    assert_eq!(contract.max_supply(), Amount::from(5000u64));
    assert_eq!(contract.total_burned_supply(), Amount::from(34u64));
    assert_eq!(contract.total_replaced_supply(), Amount::from(9u64));
    assert_eq!(contract.total_supply(), Amount::from(1200u64));
    assert_eq!(contract.checked_total_supply(), Some(Amount::from(1200u64)));

    contract.burned_supply = Some(vec![Amount::from(1235u64)]);
    assert_eq!(contract.checked_total_supply(), None);
    contract.issued_supply = vec![Amount::from(u64::MAX), Amount::from(u64::MAX)];
    assert_eq!(contract.total_issued_supply(), Amount::from(u64::MAX));
    contract.max_supply = Some(vec![]);
    assert_eq!(contract.max_supply(), Amount::zero());
}
