use anchor_lang::prelude::Pubkey;
use safe_harbor::address::Address;
use safe_harbor::errors::ErrorCode;
use safe_harbor::sizing::{resize_if_needed, MAX_ACCOUNT_SPACE};
use safe_harbor::state::{AccountMap, Agreement, Registry};
use safe_harbor::types::{AccountInScope, BountyTerms, Chain, Contact, IdentityRequirements};

fn addr(p: Pubkey) -> Address {
    Address { bytes: p.to_bytes() }
}

fn make_agreement(contacts: usize, chains: usize, accounts_per_chain: usize) -> Agreement {
    let contact_details = (0..contacts).map(|i| Contact { name: format!("n{}", i), contact: format!("c{}", i) }).collect();
    let chains_vec = (0..chains).map(|i| {
        let accounts = (0..accounts_per_chain).map(|j| AccountInScope { account_address: format!("0x{:02x}", j), child_contract_scope: Default::default() }).collect();
        Chain { asset_recovery_address: format!("addr{}", i), accounts, caip2_chain_id: format!("eip155:{}", i + 1) }
    }).collect();
    Agreement {
        owner: addr(Pubkey::default()),
        protocol_name: "p".into(),
        contact_details,
        chains: chains_vec,
        bounty_terms: BountyTerms { bounty_percentage: 10, bounty_cap_usd: 100, retainable: false, identity: IdentityRequirements::Anonymous, diligence_requirements: "x".into(), aggregate_bounty_cap_usd: 0 },
        agreement_uri: "ipfs://x".into(),
    }
}

#[test]
fn agreement_space_grows_with_contacts() {
    let mut a = make_agreement(0, 1, 1);
    let base = a.calculate_required_space();
    a.contact_details.push(Contact { name: "A".into(), contact: "B".into() });
    assert!(a.calculate_required_space() > base);
}

#[test]
fn agreement_space_grows_with_accounts() {
    let a1 = make_agreement(0, 1, 0);
    let a2 = make_agreement(0, 1, 3);
    assert!(a2.calculate_required_space() > a1.calculate_required_space());
}

#[test]
fn registry_space_grows_with_valid_chains_and_agreements() {
    let mut r = Registry { owner: addr(Pubkey::default()), agreements: AccountMap { items: vec![] }, valid_chains: vec![], fallback_registry: None };
    let base = r.calculate_required_space();
    r.valid_chains.push("eip155:1".into());
    let after_chain = r.calculate_required_space();
    assert!(after_chain > base);
    r.agreements.insert(addr(Pubkey::new_unique()), addr(Pubkey::new_unique()));
    assert!(r.calculate_required_space() > after_chain);
}

#[test]
fn space_exact_values() {
    // 86 fixed bytes + "p" + "x" + "ipfs://x" = 96, plus a quarter.
    let a = make_agreement(0, 0, 0);
    assert_eq!(a.calculate_required_space(), 120);
    assert_eq!(a.checked_required_space(), Some(120));
    // One contact "n0"/"c0": 4 + 2 + 4 + 2 = 12 more bytes: 108 + 27.
    let b = make_agreement(1, 0, 0);
    assert_eq!(b.calculate_required_space(), 135);
    // One chain "addr0", "eip155:1", one account "0x00": 4+5 + 4 + (4+4+1) + 4+8 = 34 more bytes.
    let c = make_agreement(0, 1, 1);
    assert_eq!(c.calculate_required_space(), 130 + 130 / 4);
    let r = Registry { owner: addr(Pubkey::default()), agreements: AccountMap::new(), valid_chains: vec![], fallback_registry: None };
    assert_eq!(r.calculate_required_space(), 81 + 20);
}

#[test]
fn space_grows_with_string_length() {
    let mut a = make_agreement(1, 1, 1);
    let before = a.calculate_required_space();
    a.protocol_name = "a much longer protocol name".into();
    assert!(a.calculate_required_space() > before);
    let mut b = make_agreement(1, 1, 1);
    b.protocol_name = "é".into();
    // Strings are counted by their UTF-8 bytes.
    assert_eq!(b.calculate_required_space(), make_agreement(1, 1, 1).calculate_required_space() + 1);
}

#[test]
fn account_map_insert_replaces() {
    let k = addr(Pubkey::new_unique());
    let v1 = addr(Pubkey::new_unique());
    let v2 = addr(Pubkey::new_unique());
    let mut m = AccountMap::new();
    assert_eq!(m.get(k), None);
    m.insert(k, v1);
    assert_eq!(m.get(k), Some(v1));
    m.insert(k, v2);
    assert_eq!(m.get(k), Some(v2));
    assert_eq!(m.items.len(), 1);
    let other = addr(Pubkey::new_unique());
    m.insert(other, v1);
    assert_eq!(m.items.len(), 2);
    assert_eq!(m.get(other), Some(v1));
}

#[test]
fn resize_only_grows() {
    let mut len: usize = 100;
    assert_eq!(resize_if_needed(&mut len, 50), Ok(()));
    assert_eq!(len, 100);
    assert_eq!(resize_if_needed(&mut len, 300), Ok(()));
    assert_eq!(len, 300);
    assert_eq!(resize_if_needed(&mut len, MAX_ACCOUNT_SPACE + 1), Err(ErrorCode::InvalidRealloc));
    assert_eq!(len, 300);
    assert_eq!(resize_if_needed(&mut len, MAX_ACCOUNT_SPACE), Ok(()));
    assert_eq!(len, MAX_ACCOUNT_SPACE);
}
