use safe_harbor::errors::ErrorCode;
use safe_harbor::helpers::{
    find_account_index, find_chain_index, is_valid_chain_id, validate_bounty_terms,
    validate_no_duplicate_chain_ids, version,
};
use safe_harbor::types::{AccountInScope, BountyTerms, Chain, IdentityRequirements};

#[test]
fn validate_no_duplicate_chain_ids_ok() {
    let chains = vec![
        Chain { asset_recovery_address: "x".into(), accounts: vec![], caip2_chain_id: "eip155:1".into() },
        Chain { asset_recovery_address: "y".into(), accounts: vec![], caip2_chain_id: "eip155:137".into() },
    ];
    assert!(validate_no_duplicate_chain_ids(&chains).is_ok());
}

#[test]
fn validate_no_duplicate_chain_ids_err() {
    let chains = vec![
        Chain { asset_recovery_address: "x".into(), accounts: vec![], caip2_chain_id: "eip155:1".into() },
        Chain { asset_recovery_address: "y".into(), accounts: vec![], caip2_chain_id: "eip155:1".into() },
    ];
    assert!(validate_no_duplicate_chain_ids(&chains).is_err());
}

#[test]
fn find_chain_index_works() {
    let chains = vec![
        Chain { asset_recovery_address: "x".into(), accounts: vec![], caip2_chain_id: "eip155:1".into() },
        Chain { asset_recovery_address: "y".into(), accounts: vec![], caip2_chain_id: "eip155:137".into() },
    ];
    assert_eq!(find_chain_index(&chains, "eip155:137").unwrap(), 1);
    assert!(find_chain_index(&chains, "eip155:2").is_err());
}

#[test]
fn find_account_index_works() {
    let accounts = vec![
        AccountInScope { account_address: "0x01".into(), child_contract_scope: Default::default() },
        AccountInScope { account_address: "0x02".into(), child_contract_scope: Default::default() },
    ];
    assert_eq!(find_account_index(&accounts, "0x02").unwrap(), 1);
    assert!(find_account_index(&accounts, "0x03").is_err());
}

#[test]
fn duplicate_found_away_from_the_front() {
    let chains = vec![
        Chain { asset_recovery_address: "x".into(), accounts: vec![], caip2_chain_id: "eip155:1".into() },
        Chain { asset_recovery_address: "y".into(), accounts: vec![], caip2_chain_id: "eip155:10".into() },
        Chain { asset_recovery_address: "z".into(), accounts: vec![], caip2_chain_id: "eip155:10".into() },
    ];
    assert_eq!(validate_no_duplicate_chain_ids(&chains), Err(ErrorCode::DuplicateChainId));
    assert_eq!(validate_no_duplicate_chain_ids(&[]), Ok(()));
}

#[test]
fn find_returns_first_match_and_error_kinds() {
    let chains = vec![
        Chain { asset_recovery_address: "x".into(), accounts: vec![], caip2_chain_id: "eip155:5".into() },
        Chain { asset_recovery_address: "y".into(), accounts: vec![], caip2_chain_id: "eip155:5".into() },
    ];
    assert_eq!(find_chain_index(&chains, "eip155:5"), Ok(0));
    assert_eq!(find_chain_index(&[], "eip155:5"), Err(ErrorCode::ChainNotFound));
    assert_eq!(find_account_index(&[], "0x01"), Err(ErrorCode::AccountNotFound));
}

#[test]
fn chain_id_shape() {
    assert!(is_valid_chain_id(&"eip155:1".to_string()));
    assert!(is_valid_chain_id(&":".to_string()));
    assert!(!is_valid_chain_id(&"eip155".to_string()));
    assert!(!is_valid_chain_id(&"".to_string()));
}

#[test]
fn bounty_terms_exclusive_modes() {
    let mut t = BountyTerms {
        bounty_percentage: 10,
        bounty_cap_usd: 100,
        retainable: true,
        identity: IdentityRequirements::Named,
        diligence_requirements: "d".into(),
        aggregate_bounty_cap_usd: 100,
    };
    assert_eq!(validate_bounty_terms(&t), Err(ErrorCode::CannotSetBothAggregateBountyCapUSDAndRetainable));
    t.aggregate_bounty_cap_usd = 0;
    assert_eq!(validate_bounty_terms(&t), Ok(()));
    t.aggregate_bounty_cap_usd = 5;
    t.retainable = false;
    assert_eq!(validate_bounty_terms(&t), Ok(()));
}

#[test]
fn version_string() {
    assert_eq!(version(), "1.1.0");
}
