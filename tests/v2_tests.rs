use anchor_lang::prelude::Pubkey;
use safe_harbor::address::Address;
use safe_harbor::state::Stored;
use safe_harbor::types::Contact;
use safe_harbor::v2::{
    account_record_address, add_account_handler, adopt_safe_harbor_handler, agreement_address,
    close_agreement_handler, create_agreement_handler, remove_account_handler,
    set_agreement_uri_handler, set_asset_recovery_address_handler, set_bounty_terms_handler,
    set_contact_details_handler, set_protocol_name_handler, transfer_ownership_handler,
    AccountRecord, AdoptionRecord, Agreement, BountyTerms, ChildContractScope, ErrorCode, Event,
    AGREEMENT_SPACE,
};

fn addr() -> Address {
    Address { bytes: Pubkey::new_unique().to_bytes() }
}

fn contacts() -> [Contact; 10] {
    std::array::from_fn(|i| Contact { name: format!("n{}", i), contact: format!("c{}", i) })
}

fn terms() -> BountyTerms {
    BountyTerms { bounty_percentage: 10, bounty_cap_usd: 1000, retainable: false, identity: 1, diligence_requirements: "kyc".into() }
}

fn created(owner: Address) -> Stored<Agreement> {
    let mut slot: Option<Stored<Agreement>> = None;
    create_agreement_handler(&mut slot, addr(), 254, "Proto".into(), contacts(), addr(), terms(), "ipfs://a".into(), owner).unwrap();
    slot.unwrap()
}

#[test]
fn compact_agreement_lifecycle() {
    let owner = addr();
    let key = addr();
    let mut slot: Option<Stored<Agreement>> = None;
    let events = create_agreement_handler(&mut slot, key, 7, "Proto".into(), contacts(), addr(), terms(), "ipfs://a".into(), owner).unwrap();
    assert!(matches!(&events[0], Event::SafeHarborUpdateEvent(e) if e.agreement == key));
    assert_eq!(slot.as_ref().unwrap().data_len, AGREEMENT_SPACE);
    assert_eq!(slot.as_ref().unwrap().data.bump, 7);
    assert_eq!(
        create_agreement_handler(&mut slot, key, 7, "Other".into(), contacts(), addr(), terms(), "u".into(), owner).unwrap_err(),
        ErrorCode::AccountAlreadyExists
    );
    assert_eq!(slot.as_ref().unwrap().data.protocol_name, "Proto");
    assert_eq!(close_agreement_handler(&mut slot, addr()).unwrap_err(), ErrorCode::Unauthorized);
    assert!(slot.is_some());
    close_agreement_handler(&mut slot, owner).unwrap();
    assert!(slot.is_none());
    assert_eq!(close_agreement_handler(&mut slot, owner).unwrap_err(), ErrorCode::AccountNotInitialized);
}

#[test]
fn compact_setters_need_the_owner_and_the_room() {
    let owner = addr();
    let stranger = addr();
    let mut a = created(owner);
    assert_eq!(set_protocol_name_handler(&mut a, stranger, "X".into()).unwrap_err(), ErrorCode::Unauthorized);
    assert_eq!(set_contact_details_handler(&mut a, stranger, contacts()).unwrap_err(), ErrorCode::Unauthorized);
    assert_eq!(set_asset_recovery_address_handler(&mut a, stranger, addr()).unwrap_err(), ErrorCode::Unauthorized);
    assert_eq!(set_agreement_uri_handler(&mut a, stranger, "u".into()).unwrap_err(), ErrorCode::Unauthorized);
    assert_eq!(set_bounty_terms_handler(&mut a, stranger, terms()).unwrap_err(), ErrorCode::Unauthorized);
    assert_eq!(transfer_ownership_handler(&mut a, stranger, stranger).unwrap_err(), ErrorCode::Unauthorized);
    set_protocol_name_handler(&mut a, owner, "Renamed".into()).unwrap();
    assert_eq!(a.data.protocol_name, "Renamed");
    // The record has room for about 2300 bytes of strings in all.
    assert_eq!(set_agreement_uri_handler(&mut a, owner, "x".repeat(2400)).unwrap_err(), ErrorCode::AccountDidNotSerialize);
    assert_eq!(a.data.agreement_uri, "ipfs://a");
    set_agreement_uri_handler(&mut a, owner, "x".repeat(200)).unwrap();
    assert_eq!(a.data.agreement_uri.len(), 200);
    let recovery = addr();
    set_asset_recovery_address_handler(&mut a, owner, recovery).unwrap();
    assert_eq!(a.data.asset_recovery_address, recovery);
    let next = addr();
    transfer_ownership_handler(&mut a, owner, next).unwrap();
    assert_eq!(a.data.owner, next);
}

#[test]
fn compact_account_records() {
    let owner = addr();
    let a = created(owner);
    let account = addr();
    let mut record: Option<AccountRecord> = None;
    assert_eq!(add_account_handler(&a, &mut record, addr(), account, ChildContractScope::All, 1).unwrap_err(), ErrorCode::Unauthorized);
    let events = add_account_handler(&a, &mut record, owner, account, ChildContractScope::All, 1).unwrap();
    assert_eq!(events.len(), 2);
    assert!(matches!(&events[1], Event::AddAccountEvent(e) if e.account_address == account));
    assert_eq!(record.unwrap().child_contract_scope, ChildContractScope::All);
    assert_eq!(add_account_handler(&a, &mut record, owner, account, ChildContractScope::NoChildren, 1).unwrap_err(), ErrorCode::AccountAlreadyExists);
    let events = remove_account_handler(&a, &mut record, owner).unwrap();
    assert!(matches!(&events[1], Event::RemoveAccountEvent(e) if e.account_address == account));
    assert!(record.is_none());
    assert_eq!(remove_account_handler(&a, &mut record, owner).unwrap_err(), ErrorCode::AccountNotFound);
}

#[test]
fn compact_adoption_overwrites() {
    let adopter = addr();
    let mut record: Option<AdoptionRecord> = None;
    let x = addr();
    let y = addr();
    adopt_safe_harbor_handler(&mut record, adopter, x, 100);
    assert_eq!(record.unwrap().agreement, x);
    let events = adopt_safe_harbor_handler(&mut record, adopter, y, 200);
    assert_eq!(record.unwrap().agreement, y);
    assert_eq!(record.unwrap().timestamp, 200);
    assert!(matches!(&events[0], Event::SafeHarborAdoptionEvent(e) if e.authority == adopter && e.agreement == y));
}

#[test]
fn compact_record_addresses() {
    let program = Pubkey::new_from_array([
        204, 95, 132, 4, 10, 149, 95, 175, 227, 120, 44, 252, 109, 96, 30, 220, 42, 32, 160, 7,
        65, 23, 117, 100, 22, 41, 180, 133, 69, 200, 89, 80,
    ]);
    assert_eq!(program.to_string(), "EkneQStBTPBmoCi6jmWFoF6Q5khNg2tj9kKPRuJzYvX9");
    let authority = addr();
    let account = addr();
    let (expected, _) = Pubkey::find_program_address(&[b"agreement", &authority.bytes], &program);
    let agreement = agreement_address(&authority).unwrap();
    assert_eq!(agreement.bytes, expected.to_bytes());
    let (expected, _) = Pubkey::find_program_address(&[b"account", &agreement.bytes, &account.bytes], &program);
    assert_eq!(account_record_address(&agreement, &account).unwrap().bytes, expected.to_bytes());
}
