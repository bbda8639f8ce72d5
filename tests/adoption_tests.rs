use anchor_lang::prelude::Pubkey;
use safe_harbor::address::{derive_adoption_entry_address, derive_adoption_head_address, program_id, Address};
use safe_harbor::adoption::{adopt_safe_harbor, get_agreement_by_pda, get_agreement_for_adopter, AdoptionIndex};
use safe_harbor::agreements::create_and_adopt_agreement;
use safe_harbor::errors::ErrorCode;
use safe_harbor::events::Event;
use safe_harbor::registry::initialize_registry;
use safe_harbor::state::{Registry, Stored};
use safe_harbor::types::{AgreementInitParams, BountyTerms, IdentityRequirements};

fn addr() -> Address {
    Address { bytes: Pubkey::new_unique().to_bytes() }
}

#[test]
fn test_adopt_safe_harbor() {
    let mut index = AdoptionIndex::new();
    let adopter = addr();
    let agreement = addr();
    let events = adopt_safe_harbor(&mut index, adopter, agreement).unwrap();
    match &events[0] {
        Event::SafeHarborAdoption(e) => {
            assert_eq!(e.entity, adopter);
            assert_eq!(e.new_details, agreement);
        },
        _ => panic!("unexpected event"),
    }
    assert_eq!(get_agreement_for_adopter(&index, adopter), Ok(agreement));
}

#[test]
fn newest_adoption_wins() {
    let mut index = AdoptionIndex::new();
    let adopter = addr();
    let x = addr();
    let y = addr();
    adopt_safe_harbor(&mut index, adopter, x).unwrap();
    assert_eq!(get_agreement_for_adopter(&index, adopter), Ok(x));
    adopt_safe_harbor(&mut index, adopter, y).unwrap();
    assert_eq!(get_agreement_for_adopter(&index, adopter), Ok(y));
    assert_eq!(index.heads.items.len(), 1);
    // Each pair keeps its own record.
    assert_eq!(get_agreement_by_pda(&index, adopter, x), Ok(x));
    assert_eq!(get_agreement_by_pda(&index, adopter, y), Ok(y));
    assert_eq!(index.entries.items.len(), 2);
}

#[test]
fn unknown_adopter_has_no_agreement() {
    let mut index = AdoptionIndex::new();
    let adopter = addr();
    assert_eq!(get_agreement_for_adopter(&index, adopter), Err(ErrorCode::NoAgreement));
    adopt_safe_harbor(&mut index, addr(), addr()).unwrap();
    assert_eq!(get_agreement_for_adopter(&index, adopter), Err(ErrorCode::NoAgreement));
    assert_eq!(get_agreement_by_pda(&index, adopter, addr()), Err(ErrorCode::NoAgreement));
}

#[test]
fn derived_addresses_match_the_host() {
    let adopter = addr();
    let agreement = addr();
    let program = Pubkey::new_from_array(program_id().bytes);
    let (head, _) = Pubkey::find_program_address(&[b"adoption_head", &adopter.bytes], &program);
    let (entry, _) = Pubkey::find_program_address(&[b"adoption_v2", &adopter.bytes, &agreement.bytes], &program);
    let got_head = derive_adoption_head_address(&adopter).unwrap();
    let got_entry = derive_adoption_entry_address(&adopter, &agreement).unwrap();
    assert_eq!(got_head.bytes, head.to_bytes());
    assert_eq!(got_entry.bytes, entry.to_bytes());
    assert!(got_head != adopter);
    assert!(got_head != got_entry);
    assert_eq!(Pubkey::new_from_array(program_id().bytes).to_string(), "64Gpb6dztgGMcWPkQrDV4VjFHSfXTPoDtrhEu8ykXFKU");
}

#[test]
fn create_and_adopt_is_all_or_nothing() {
    let mut slot: Option<Stored<Registry>> = None;
    initialize_registry(&mut slot, addr(), addr()).unwrap();
    let reg = slot.unwrap();
    let mut index = AdoptionIndex::new();
    let adopter = addr();
    let key = addr();
    let params = |aggregate: u64| AgreementInitParams {
        protocol_name: "P".into(),
        contact_details: vec![],
        chains: vec![],
        bounty_terms: BountyTerms {
            bounty_percentage: 5,
            bounty_cap_usd: 10,
            retainable: true,
            identity: IdentityRequirements::Pseudonymous,
            diligence_requirements: String::new(),
            aggregate_bounty_cap_usd: aggregate,
        },
        agreement_uri: "u".into(),
    };
    let err = create_and_adopt_agreement(&reg.data, &mut index, key, params(1), addr(), adopter).unwrap_err();
    assert_eq!(err, ErrorCode::CannotSetBothAggregateBountyCapUSDAndRetainable);
    assert_eq!(get_agreement_for_adopter(&index, adopter), Err(ErrorCode::NoAgreement));
    let (stored, events) = create_and_adopt_agreement(&reg.data, &mut index, key, params(0), addr(), adopter).unwrap();
    assert_eq!(stored.key, key);
    assert_eq!(events.len(), 2);
    assert!(matches!(events[1], Event::SafeHarborAdoption(_)));
    assert_eq!(get_agreement_for_adopter(&index, adopter), Ok(key));
}
