use crate::address::{
    Address, adoption_entry_address, adoption_head_address, derive_adoption_entry_address,
    derive_adoption_head_address,
};
use crate::errors::ErrorCode;
use crate::events::{Event, SafeHarborAdoption};
use crate::registry::{after, reports};
use crate::state::AccountMap;
use vstd::prelude::*;

verus! {

/// Adoption records, each kept under an address derived from its seeds: one
/// per adopter holding its current agreement (`heads`), and one per
/// (adopter, agreement) pair (`entries`). A lookup derives the record's
/// address from the adopter and reads what is kept under it; the host reaches
/// such a record by its address alone.
#[derive(Debug)]
pub struct AdoptionIndex {
    pub heads: AccountMap,
    pub entries: AccountMap,
}

/// The index as two maps from record address to agreement address.
pub struct AdoptionIndexView {
    pub heads: Map<Seq<u8>, Address>,
    pub entries: Map<Seq<u8>, Address>,
}

impl View for AdoptionIndex {
    type V = AdoptionIndexView;

    open spec fn view(&self) -> AdoptionIndexView {
        AdoptionIndexView { heads: self.heads@, entries: self.entries@ }
    }
}

/// `adopter` adopts `agreement`: its current agreement becomes `agreement`,
/// whatever it was, and the pair is recorded.
pub open spec fn adopt_spec(m: AdoptionIndexView, adopter: Address, agreement: Address) -> Result<
    AdoptionIndexView,
    ErrorCode,
> {
    match (adoption_head_address(adopter@), adoption_entry_address(adopter@, agreement@)) {
        (Some(h), Some(e)) => Ok(
            AdoptionIndexView {
                heads: m.heads.insert(h, agreement),
                entries: m.entries.insert(e, agreement),
            },
        ),
        _ => Err(ErrorCode::InvalidSeeds),
    }
}

/// The current agreement of `adopter`.
pub open spec fn resolve_spec(m: AdoptionIndexView, adopter: Address) -> Result<Address, ErrorCode> {
    match adoption_head_address(adopter@) {
        Some(h) => if m.heads.contains_key(h) {
            Ok(m.heads[h])
        } else {
            Err(ErrorCode::NoAgreement)
        },
        None => Err(ErrorCode::NoAgreement),
    }
}

/// The agreement recorded for the pair (`adopter`, `agreement`).
pub open spec fn resolve_pair_spec(m: AdoptionIndexView, adopter: Address, agreement: Address) -> Result<
    Address,
    ErrorCode,
> {
    match adoption_entry_address(adopter@, agreement@) {
        Some(e) => if m.entries.contains_key(e) {
            Ok(m.entries[e])
        } else {
            Err(ErrorCode::NoAgreement)
        },
        None => Err(ErrorCode::NoAgreement),
    }
}

pub open spec fn adoption_event(adopter: Address, agreement: Address) -> Event {
    Event::SafeHarborAdoption(SafeHarborAdoption { entity: adopter, new_details: agreement })
}

impl AdoptionIndex {
    pub open spec fn well_formed(&self) -> bool {
        self.heads.keys_unique() && self.entries.keys_unique()
    }

    /// An index with no adoption.
    pub fn new() -> (r: AdoptionIndex)
        ensures
            r.well_formed(),
            r@.heads == Map::<Seq<u8>, Address>::empty(),
            r@.entries == Map::<Seq<u8>, Address>::empty(),
    {
        AdoptionIndex { heads: AccountMap::new(), entries: AccountMap::new() }
    }
}

/// Records that `adopter` endorses `agreement`; the newest adoption wins.
pub fn adopt_safe_harbor(index: &mut AdoptionIndex, adopter: Address, agreement: Address) -> (r:
    Result<Vec<Event>, ErrorCode>)
    requires
        old(index).well_formed(),
    ensures
        final(index).well_formed(),
        final(index)@ == after(old(index)@, adopt_spec(old(index)@, adopter, agreement)),
        reports(
            r,
            adopt_spec(old(index)@, adopter, agreement),
            seq![adoption_event(adopter, agreement)],
        ),
{
    let head = derive_adoption_head_address(&adopter);
    let entry = derive_adoption_entry_address(&adopter, &agreement);
    match (head, entry) {
        (Some(h), Some(e)) => {
            index.heads.insert(h, agreement);
            index.entries.insert(e, agreement);
            let mut events: Vec<Event> = Vec::new();
            events.push(
                Event::SafeHarborAdoption(
                    SafeHarborAdoption { entity: adopter, new_details: agreement },
                ),
            );
            Ok(events)
        },
        _ => Err(ErrorCode::InvalidSeeds),
    }
}

/// The agreement `adopter` currently endorses; `NoAgreement` if it never adopted one.
pub fn get_agreement_for_adopter(index: &AdoptionIndex, adopter: Address) -> (r: Result<
    Address,
    ErrorCode,
>)
    requires
        index.well_formed(),
    ensures
        r == resolve_spec(index@, adopter),
{
    match derive_adoption_head_address(&adopter) {
        Some(h) => match index.heads.get(h) {
            Some(a) => Ok(a),
            None => Err(ErrorCode::NoAgreement),
        },
        None => Err(ErrorCode::NoAgreement),
    }
}

/// The agreement recorded for the pair (`adopter`, `agreement`);
/// `NoAgreement` if `adopter` never adopted it.
pub fn get_agreement_by_pda(index: &AdoptionIndex, adopter: Address, agreement: Address) -> (r:
    Result<Address, ErrorCode>)
    requires
        index.well_formed(),
    ensures
        r == resolve_pair_spec(index@, adopter, agreement),
{
    match derive_adoption_entry_address(&adopter, &agreement) {
        Some(e) => match index.entries.get(e) {
            Some(a) => Ok(a),
            None => Err(ErrorCode::NoAgreement),
        },
        None => Err(ErrorCode::NoAgreement),
    }
}

} // verus!
