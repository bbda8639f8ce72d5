use anchor_lang::prelude::Pubkey;
use safe_harbor::address::Address;
use safe_harbor::agreements::{
    add_accounts, add_chains, create_agreement, get_agreement_details, remove_accounts,
    remove_chains, set_agreement_uri, set_bounty_terms, set_chains, set_contact_details,
    set_protocol_name, transfer_ownership,
};
use safe_harbor::errors::ErrorCode;
use safe_harbor::events::Event;
use safe_harbor::registry::{initialize_registry, is_chain_valid, set_valid_chains};
use safe_harbor::state::{Agreement, Registry, Stored, AGREEMENT_INITIAL_SPACE};
use safe_harbor::types::{
    AccountInScope, AgreementInitParams, BountyTerms, Chain, ChildContractScope, Contact,
    IdentityRequirements,
};

fn addr() -> Address {
    Address { bytes: Pubkey::new_unique().to_bytes() }
}

fn registry_with(ids: &[&str]) -> Stored<Registry> {
    let owner = addr();
    let mut slot: Option<Stored<Registry>> = None;
    initialize_registry(&mut slot, addr(), owner).unwrap();
    let mut r = slot.unwrap();
    set_valid_chains(&mut r, owner, ids.iter().map(|s| s.to_string()).collect()).unwrap();
    r
}

fn chain(id: &str, accounts: &[&str]) -> Chain {
    Chain {
        asset_recovery_address: "0x1234567890123456789012345678901234567890".to_string(),
        accounts: accounts
            .iter()
            .map(|a| AccountInScope { account_address: a.to_string(), child_contract_scope: ChildContractScope::NoChildren })
            .collect(),
        caip2_chain_id: id.to_string(),
    }
}

fn terms(aggregate: u64, retainable: bool) -> BountyTerms {
    BountyTerms {
        bounty_percentage: 10,
        bounty_cap_usd: 100000,
        retainable,
        identity: IdentityRequirements::Anonymous,
        diligence_requirements: "Standard diligence".to_string(),
        aggregate_bounty_cap_usd: aggregate,
    }
}

fn params(chains: Vec<Chain>, bounty_terms: BountyTerms) -> AgreementInitParams {
    AgreementInitParams {
        protocol_name: "Test Protocol".to_string(),
        contact_details: vec![Contact { name: "Test Contact".to_string(), contact: "test@example.com".to_string() }],
        chains,
        bounty_terms,
        agreement_uri: "ipfs://QmTest".to_string(),
    }
}

fn ids_of(a: &Agreement) -> Vec<String> {
    a.chains.iter().map(|c| c.caip2_chain_id.clone()).collect()
}

fn new_agreement(reg: &Registry, owner: Address, chains: Vec<Chain>) -> Stored<Agreement> {
    create_agreement(reg, addr(), params(chains, terms(0, true)), owner).unwrap().0
}

#[test]
fn test_create_agreement() {
    let reg = registry_with(&["eip155:1"]);
    let owner = addr();
    let key = addr();
    let (stored, events) =
        create_agreement(&reg.data, key, params(vec![chain("eip155:1", &["0x1234567890123456789012345678901234567890"])], terms(0, true)), owner).unwrap();
    assert_eq!(stored.key, key);
    assert_eq!(stored.data.owner, owner);
    assert_eq!(stored.data.protocol_name, "Test Protocol");
    assert_eq!(stored.data_len, AGREEMENT_INITIAL_SPACE);
    assert_eq!(events.len(), 1);
    match &events[0] {
        Event::AgreementUpdated(e) => assert_eq!(e.agreement, key),
        _ => panic!("unexpected event"),
    }
}

#[test]
fn registry_scenario_valid_and_invalid_networks() {
    let reg = registry_with(&["eip155:1"]);
    assert!(is_chain_valid(&reg.data, &"eip155:1".to_string()));
    assert!(create_agreement(&reg.data, addr(), params(vec![chain("eip155:1", &[])], terms(0, false)), addr()).is_ok());
    let err = create_agreement(&reg.data, addr(), params(vec![chain("eip155:2", &[])], terms(0, false)), addr()).unwrap_err();
    assert_eq!(err, ErrorCode::InvalidChainId);
}

#[test]
fn bounty_scenario_cap_and_retainable_exclusive() {
    let reg = registry_with(&["eip155:1"]);
    let err = create_agreement(&reg.data, addr(), params(vec![], terms(100, true)), addr()).unwrap_err();
    assert_eq!(err, ErrorCode::CannotSetBothAggregateBountyCapUSDAndRetainable);
    assert!(create_agreement(&reg.data, addr(), params(vec![], terms(0, true)), addr()).is_ok());
}

#[test]
fn create_refuses_duplicate_networks() {
    let reg = registry_with(&["eip155:1"]);
    let err = create_agreement(&reg.data, addr(), params(vec![chain("eip155:1", &[]), chain("eip155:1", &[])], terms(0, false)), addr()).unwrap_err();
    assert_eq!(err, ErrorCode::DuplicateChainId);
}

#[test]
fn rename_scenario_only_owner() {
    let reg = registry_with(&["eip155:1"]);
    let b = addr();
    let c = addr();
    let mut a = new_agreement(&reg.data, b, vec![]);
    assert!(set_protocol_name(&mut a, b, "Updated".to_string()).is_ok());
    assert_eq!(set_protocol_name(&mut a, c, "Updated".to_string()).unwrap_err(), ErrorCode::Unauthorized);
    assert_eq!(get_agreement_details(&a.data).protocol_name, "Updated");
}

#[test]
fn protocol_name_bounds() {
    let reg = registry_with(&[]);
    let owner = addr();
    let mut a = new_agreement(&reg.data, owner, vec![]);
    assert_eq!(set_protocol_name(&mut a, owner, String::new()).unwrap_err(), ErrorCode::InvalidInput);
    assert_eq!(set_protocol_name(&mut a, owner, "x".repeat(129)).unwrap_err(), ErrorCode::InvalidInput);
    assert_eq!(a.data.protocol_name, "Test Protocol");
    assert!(set_protocol_name(&mut a, owner, "x".repeat(128)).is_ok());
    assert_eq!(a.data.protocol_name.len(), 128);
}

#[test]
fn unauthorized_callers_change_nothing() {
    let reg = registry_with(&["eip155:1", "eip155:10"]);
    let owner = addr();
    let stranger = addr();
    let mut a = new_agreement(&reg.data, owner, vec![chain("eip155:1", &["0x01"])]);
    let before_len = a.data_len;
    let u = ErrorCode::Unauthorized;
    assert_eq!(set_contact_details(&mut a, stranger, vec![]).unwrap_err(), u);
    assert_eq!(set_bounty_terms(&mut a, stranger, terms(0, false)).unwrap_err(), u);
    assert_eq!(set_agreement_uri(&mut a, stranger, "ipfs://other".into()).unwrap_err(), u);
    assert_eq!(transfer_ownership(&mut a, stranger, stranger).unwrap_err(), u);
    assert_eq!(add_chains(&reg.data, &mut a, stranger, vec![chain("eip155:10", &[])]).unwrap_err(), u);
    assert_eq!(set_chains(&reg.data, &mut a, stranger, vec![chain("eip155:1", &[])]).unwrap_err(), u);
    assert_eq!(remove_chains(&mut a, stranger, vec!["eip155:1".into()]).unwrap_err(), u);
    assert_eq!(add_accounts(&mut a, stranger, "eip155:1".into(), vec![]).unwrap_err(), u);
    assert_eq!(remove_accounts(&mut a, stranger, "eip155:1".into(), vec!["0x01".into()]).unwrap_err(), u);
    // Authorization comes before input validation.
    assert_eq!(set_protocol_name(&mut a, stranger, String::new()).unwrap_err(), u);
    assert_eq!(a.data.owner, owner);
    assert_eq!(a.data.contact_details.len(), 1);
    assert_eq!(a.data.agreement_uri, "ipfs://QmTest");
    assert!(a.data.bounty_terms.retainable);
    assert_eq!(ids_of(&a.data), vec!["eip155:1".to_string()]);
    assert_eq!(a.data.chains[0].accounts.len(), 1);
    assert_eq!(a.data_len, before_len);
}

#[test]
fn add_chains_keeps_ids_unique() {
    let reg = registry_with(&["eip155:1", "eip155:10", "eip155:137"]);
    let owner = addr();
    let mut a = new_agreement(&reg.data, owner, vec![chain("eip155:1", &[])]);
    assert_eq!(add_chains(&reg.data, &mut a, owner, vec![chain("eip155:1", &[])]).unwrap_err(), ErrorCode::DuplicateChainId);
    assert_eq!(add_chains(&reg.data, &mut a, owner, vec![chain("eip155:10", &[]), chain("eip155:10", &[])]).unwrap_err(), ErrorCode::DuplicateChainId);
    assert_eq!(add_chains(&reg.data, &mut a, owner, vec![chain("eip155:5", &[])]).unwrap_err(), ErrorCode::InvalidChainId);
    assert_eq!(ids_of(&a.data), vec!["eip155:1".to_string()]);
    add_chains(&reg.data, &mut a, owner, vec![chain("eip155:10", &[]), chain("eip155:137", &[])]).unwrap();
    assert_eq!(ids_of(&a.data), vec!["eip155:1".to_string(), "eip155:10".to_string(), "eip155:137".to_string()]);
}

#[test]
fn set_chains_updates_existing_only() {
    let reg = registry_with(&["eip155:1", "eip155:10"]);
    let owner = addr();
    let mut a = new_agreement(&reg.data, owner, vec![chain("eip155:1", &[])]);
    let mut replacement = chain("eip155:1", &["0xaa", "0xbb"]);
    replacement.asset_recovery_address = "0xrecovery".into();
    set_chains(&reg.data, &mut a, owner, vec![replacement]).unwrap();
    assert_eq!(a.data.chains.len(), 1);
    assert_eq!(a.data.chains[0].asset_recovery_address, "0xrecovery");
    assert_eq!(a.data.chains[0].accounts.len(), 2);
    assert_eq!(set_chains(&reg.data, &mut a, owner, vec![chain("eip155:10", &[])]).unwrap_err(), ErrorCode::ChainNotFound);
    assert_eq!(a.data.chains[0].accounts.len(), 2);
}

#[test]
fn removing_a_missing_network_fails_and_changes_nothing() {
    let reg = registry_with(&["eip155:1", "eip155:10", "eip155:137"]);
    let owner = addr();
    let mut a = new_agreement(&reg.data, owner, vec![chain("eip155:1", &[]), chain("eip155:10", &[]), chain("eip155:137", &[])]);
    assert_eq!(remove_chains(&mut a, owner, vec!["eip155:1".into(), "eip155:2".into()]).unwrap_err(), ErrorCode::ChainNotFound);
    assert_eq!(ids_of(&a.data), vec!["eip155:1".to_string(), "eip155:10".to_string(), "eip155:137".to_string()]);
    remove_chains(&mut a, owner, vec!["eip155:1".into()]).unwrap();
    assert_eq!(ids_of(&a.data), vec!["eip155:137".to_string(), "eip155:10".to_string()]);
}

#[test]
fn accounts_are_added_and_removed_by_address() {
    let reg = registry_with(&["eip155:1"]);
    let owner = addr();
    let mut a = new_agreement(&reg.data, owner, vec![chain("eip155:1", &["0x01"])]);
    let extra = vec![
        AccountInScope { account_address: "0x02".into(), child_contract_scope: ChildContractScope::All },
        AccountInScope { account_address: "0x03".into(), child_contract_scope: ChildContractScope::FutureOnly },
    ];
    assert_eq!(add_accounts(&mut a, owner, "eip155:9".into(), vec![]).unwrap_err(), ErrorCode::ChainNotFound);
    add_accounts(&mut a, owner, "eip155:1".into(), extra).unwrap();
    assert_eq!(a.data.chains[0].accounts.len(), 3);
    assert_eq!(a.data.chains[0].accounts[2].child_contract_scope, ChildContractScope::FutureOnly);
    assert_eq!(remove_accounts(&mut a, owner, "eip155:1".into(), vec!["0x01".into(), "0x09".into()]).unwrap_err(), ErrorCode::AccountNotFound);
    assert_eq!(a.data.chains[0].accounts.len(), 3);
    remove_accounts(&mut a, owner, "eip155:1".into(), vec!["0x01".into()]).unwrap();
    let left: Vec<String> = a.data.chains[0].accounts.iter().map(|x| x.account_address.clone()).collect();
    assert_eq!(left, vec!["0x03".to_string(), "0x02".to_string()]);
    assert_eq!(remove_accounts(&mut a, owner, "eip155:2".into(), vec![]).unwrap_err(), ErrorCode::ChainNotFound);
}

#[test]
fn bounty_terms_and_uri_updates() {
    let reg = registry_with(&[]);
    let owner = addr();
    let mut a = new_agreement(&reg.data, owner, vec![]);
    assert_eq!(set_bounty_terms(&mut a, owner, terms(100, true)).unwrap_err(), ErrorCode::CannotSetBothAggregateBountyCapUSDAndRetainable);
    assert!(a.data.bounty_terms.retainable);
    set_bounty_terms(&mut a, owner, terms(100, false)).unwrap();
    assert_eq!(a.data.bounty_terms.aggregate_bounty_cap_usd, 100);
    assert_eq!(set_agreement_uri(&mut a, owner, String::new()).unwrap_err(), ErrorCode::InvalidInput);
    set_agreement_uri(&mut a, owner, "ipfs://next".into()).unwrap();
    assert_eq!(a.data.agreement_uri, "ipfs://next");
}

#[test]
fn ownership_moves_with_transfer() {
    let reg = registry_with(&[]);
    let first = addr();
    let second = addr();
    let mut a = new_agreement(&reg.data, first, vec![]);
    transfer_ownership(&mut a, first, second).unwrap();
    assert_eq!(transfer_ownership(&mut a, first, first).unwrap_err(), ErrorCode::Unauthorized);
    set_agreement_uri(&mut a, second, "ipfs://by-second".into()).unwrap();
    assert_eq!(a.data.owner, second);
}

#[test]
fn region_grows_and_never_shrinks() {
    let reg = registry_with(&[]);
    let owner = addr();
    let mut a = new_agreement(&reg.data, owner, vec![]);
    let many: Vec<Contact> = (0..100).map(|i| Contact { name: format!("name-{}", i), contact: format!("contact-{}@example.com", i) }).collect();
    set_contact_details(&mut a, owner, many).unwrap();
    let grown = a.data_len;
    assert!(grown > AGREEMENT_INITIAL_SPACE);
    assert_eq!(grown, a.data.calculate_required_space());
    set_contact_details(&mut a, owner, vec![]).unwrap();
    assert_eq!(a.data_len, grown);
}

#[test]
fn growth_beyond_the_host_limit_fails() {
    let reg = registry_with(&[]);
    let owner = addr();
    let mut a = new_agreement(&reg.data, owner, vec![]);
    let huge = vec![Contact { name: "big".into(), contact: "x".repeat(11 * 1024 * 1024) }];
    assert_eq!(set_contact_details(&mut a, owner, huge).unwrap_err(), ErrorCode::InvalidRealloc);
    assert_eq!(a.data.contact_details.len(), 1);
    assert_eq!(a.data_len, AGREEMENT_INITIAL_SPACE);
}

#[test]
fn details_mirror_the_record() {
    let reg = registry_with(&["eip155:1"]);
    let a = new_agreement(&reg.data, addr(), vec![chain("eip155:1", &["0x01"])]);
    let d = get_agreement_details(&a.data);
    assert_eq!(d.protocol_name, "Test Protocol");
    assert_eq!(d.contact_details[0].contact, "test@example.com");
    assert_eq!(d.chains[0].accounts[0].account_address, "0x01");
    assert_eq!(d.bounty_terms.diligence_requirements, "Standard diligence");
    assert_eq!(d.agreement_uri, "ipfs://QmTest");
}
