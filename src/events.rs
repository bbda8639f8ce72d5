use crate::address::Address;
use vstd::prelude::*;

verus! {

/// The registry record was created.
#[derive(Debug)]
pub struct RegistryInitialized {
    pub owner: Address,
}

/// `entity` now endorses the agreement at `new_details`.
#[derive(Debug)]
pub struct SafeHarborAdoption {
    pub entity: Address,
    pub new_details: Address,
}

/// A network id became valid (`valid`) or stopped being valid.
#[derive(Debug)]
pub struct ChainValiditySet {
    pub caip2_chain_id: String,
    pub valid: bool,
}

/// The agreement record at `agreement` was created or changed.
#[derive(Debug)]
pub struct AgreementUpdated {
    pub agreement: Address,
}

/// One entry of the audit log that operations hand back to the host.
#[derive(Debug)]
pub enum Event {
    RegistryInitialized(RegistryInitialized),
    SafeHarborAdoption(SafeHarborAdoption),
    ChainValiditySet(ChainValiditySet),
    AgreementUpdated(AgreementUpdated),
}

pub open spec fn agreement_updated(agreement: Address) -> Event {
    Event::AgreementUpdated(AgreementUpdated { agreement })
}

pub open spec fn chain_validity_set(caip2_chain_id: String, valid: bool) -> Event {
    Event::ChainValiditySet(ChainValiditySet { caip2_chain_id, valid })
}

} // verus!
