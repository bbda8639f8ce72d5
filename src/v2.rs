//! The compact variant of the registry: fixed-size agreement records, one
//! record per in-scope account, and one adoption record per adopter.
use crate::address::{Address, bytes_to_vec, program_address, seeds_view, try_find_program_address};
use crate::sizing::{str_len, string_len};
use crate::state::{Stored, StoredView};
use crate::types::Contact;
use vstd::prelude::*;

verus! {

/// Why an operation of the compact variant was refused; the records are then
/// left as they were.
#[derive(Clone, Copy, Debug, PartialEq, Eq, Structural)]
pub enum ErrorCode {
    /// The caller is not the agreement's owner.
    Unauthorized,
    /// The network is not recognised.
    InvalidChain,
    /// The account record to remove does not exist.
    AccountNotFound,
    /// The network already has a scope.
    ChainAlreadyExists,
    /// A record to create exists already.
    AccountAlreadyExists,
    /// The agreement record to close does not exist.
    AccountNotInitialized,
    /// The contents do not fit the record's fixed region.
    AccountDidNotSerialize,
}

/// Which contracts deployed by an in-scope account are covered too.
#[derive(Clone, Copy, Debug, PartialEq, Eq, Structural)]
pub enum ChildContractScope {
    /// No child contract is in scope.
    NoChildren,
    ExistingOnly,
    All,
}

/// Bounty terms of the compact variant; `identity` codes the identity
/// requirement as a number.
#[derive(Debug)]
pub struct BountyTerms {
    pub bounty_percentage: u64,
    pub bounty_cap_usd: u64,
    pub retainable: bool,
    pub identity: u8,
    pub diligence_requirements: String,
}

impl Clone for BountyTerms {
    fn clone(&self) -> (r: Self)
        ensures
            r == *self,
    {
        BountyTerms {
            bounty_percentage: self.bounty_percentage,
            bounty_cap_usd: self.bounty_cap_usd,
            retainable: self.retainable,
            identity: self.identity,
            diligence_requirements: self.diligence_requirements.clone(),
        }
    }
}

/// An agreement record of fixed size, with exactly ten contact slots.
#[derive(Debug)]
pub struct Agreement {
    pub version: u8,
    pub owner: Address,
    pub protocol_name: String,
    pub contact_details: [Contact; 10],
    pub asset_recovery_address: Address,
    pub bounty_terms: BountyTerms,
    pub agreement_uri: String,
    pub bump: u8,
}

pub struct AgreementView {
    pub version: u8,
    pub owner: Address,
    pub protocol_name: String,
    pub contact_details: Seq<Contact>,
    pub asset_recovery_address: Address,
    pub bounty_terms: BountyTerms,
    pub agreement_uri: String,
    pub bump: u8,
}

impl View for Agreement {
    type V = AgreementView;

    open spec fn view(&self) -> AgreementView {
        AgreementView {
            version: self.version,
            owner: self.owner,
            protocol_name: self.protocol_name,
            contact_details: self.contact_details@,
            asset_recovery_address: self.asset_recovery_address,
            bounty_terms: self.bounty_terms,
            agreement_uri: self.agreement_uri,
            bump: self.bump,
        }
    }
}

/// The record of one in-scope account of an agreement.
#[derive(Clone, Copy, Debug)]
pub struct AccountRecord {
    pub account_address: Address,
    pub child_contract_scope: ChildContractScope,
    pub bump: u8,
}

/// The record of an adopter's current agreement.
#[derive(Clone, Copy, Debug)]
pub struct AdoptionRecord {
    pub authority: Address,
    pub agreement: Address,
    pub timestamp: i64,
}

/// An account came into scope of an agreement.
#[derive(Debug)]
pub struct AddAccountEvent {
    pub account_address: Address,
}

/// An account left the scope of an agreement.
#[derive(Debug)]
pub struct RemoveAccountEvent {
    pub account_address: Address,
}

/// The agreement record at `agreement` was created, changed or closed.
#[derive(Debug)]
pub struct SafeHarborUpdateEvent {
    pub agreement: Address,
}

/// `authority` now endorses the agreement at `agreement`.
#[derive(Debug)]
pub struct SafeHarborAdoptionEvent {
    pub authority: Address,
    pub agreement: Address,
}

/// One entry of the compact variant's audit log.
#[derive(Debug)]
pub enum Event {
    AddAccountEvent(AddAccountEvent),
    RemoveAccountEvent(RemoveAccountEvent),
    SafeHarborUpdateEvent(SafeHarborUpdateEvent),
    SafeHarborAdoptionEvent(SafeHarborAdoptionEvent),
}

/// Bytes an agreement record holds: discriminator, then each field, with
/// every string at most 100 bytes and every contact slot reserved.
pub const AGREEMENT_SPACE: usize = 8 + 1 + 32 + (4 + 100) + 10 * (4 + 100 + 4 + 100) + 32 + (8 + 8
    + 1 + 1 + 4 + 100) + (4 + 100) + 1;

pub open spec fn contact_len(c: Contact) -> int {
    (8 + str_len(c.name) + str_len(c.contact)) as int
}

pub open spec fn contacts_len(s: Seq<Contact>, n: int) -> int
    decreases n,
{
    if n <= 0 {
        0
    } else {
        contacts_len(s, n - 1) + contact_len(s[n - 1])
    }
}

/// Bytes an agreement's contents take once written to its record.
pub open spec fn serialized_len(a: AgreementView) -> int {
    104 + str_len(a.protocol_name) + contacts_len(a.contact_details, 10) + str_len(
        a.bounty_terms.diligence_requirements,
    ) + str_len(a.agreement_uri)
}

/// The contents fit the record's fixed region.
pub open spec fn fits(a: AgreementView) -> bool {
    serialized_len(a) <= AGREEMENT_SPACE
}

/// Whether an agreement with these strings fits its record.
fn fits_record(
    protocol_name: &String,
    contact_details: &[Contact; 10],
    diligence_requirements: &String,
    agreement_uri: &String,
) -> (r: bool)
    ensures
        forall|a: AgreementView|
            a.protocol_name == *protocol_name && a.contact_details == contact_details@
                && a.bounty_terms.diligence_requirements == *diligence_requirements
                && a.agreement_uri == *agreement_uri ==> r == #[trigger] fits(a),
{
    let mut total: u128 = 104 + string_len(protocol_name) as u128 + string_len(
        diligence_requirements,
    ) as u128 + string_len(agreement_uri) as u128;
    let mut i: usize = 0;
    while i < 10
        invariant
            0 <= i <= 10,
            total == 104 + str_len(*protocol_name) + str_len(*diligence_requirements) + str_len(
                *agreement_uri,
            ) + contacts_len(contact_details@, i as int),
            total as int <= 104 + (3 + 2 * i as int) * (usize::MAX as int + 8),
        decreases 10 - i,
    {
        let a = string_len(&contact_details[i].name);
        let b = string_len(&contact_details[i].contact);
        assert(total as int + 8 + a + b <= 104 + (3 + 2 * (i + 1) as int) * (usize::MAX as int + 8))
            by (nonlinear_arith)
            requires
                total as int <= 104 + (3 + 2 * i as int) * (usize::MAX as int + 8),
                a <= usize::MAX,
                b <= usize::MAX,
        ;
        assert(104 + (3 + 2 * (i + 1) as int) * (usize::MAX as int + 8) <= 0x1_0000_0000_0000_0000_0000_0000)
            by (nonlinear_arith)
            requires
                i < 10,
                usize::MAX as int <= 0xffff_ffff_ffff_ffff,
        ;
        total = total + 8 + a as u128 + b as u128;
        i += 1;
    }
    total <= AGREEMENT_SPACE as u128
}

pub open spec fn update_event(key: Address) -> Event {
    Event::SafeHarborUpdateEvent(SafeHarborUpdateEvent { agreement: key })
}

/// The outcome of a change of an agreement's contents to `data` by `signer`.
pub open spec fn change_spec(a: StoredView<AgreementView>, signer: Address, data: AgreementView) -> Result<
    StoredView<AgreementView>,
    ErrorCode,
> {
    if signer@ != a.data.owner@ {
        Err(ErrorCode::Unauthorized)
    } else if !fits(data) {
        Err(ErrorCode::AccountDidNotSerialize)
    } else {
        Ok(StoredView { data, ..a })
    }
}

/// The record after `outcome`, and what `r` must then be.
pub open spec fn changed(
    old: StoredView<AgreementView>,
    new: StoredView<AgreementView>,
    r: Result<Vec<Event>, ErrorCode>,
    outcome: Result<StoredView<AgreementView>, ErrorCode>,
) -> bool {
    match outcome {
        Ok(s) => new == s && r is Ok && r.unwrap()@ == seq![update_event(old.key)],
        Err(e) => new == old && r == Err::<Vec<Event>, ErrorCode>(e),
    }
}

fn update_events(key: Address) -> (r: Vec<Event>)
    ensures
        r@ == seq![update_event(key)],
{
    let mut events: Vec<Event> = Vec::new();
    events.push(Event::SafeHarborUpdateEvent(SafeHarborUpdateEvent { agreement: key }));
    assert(events@ =~= seq![update_event(key)]);
    events
}

/// The program under which the compact variant's records are addressed.
pub open spec fn program_id_bytes() -> Seq<u8> {
    seq![
        204u8, 95, 132, 4, 10, 149, 95, 175, 227, 120, 44, 252, 109, 96, 30, 220, 42, 32, 160, 7,
        65, 23, 117, 100, 22, 41, 180, 133, 69, 200, 89, 80,
    ]
}

fn program_id() -> (r: Address)
    ensures
        r@ == program_id_bytes(),
{
    let r = Address {
        bytes: [
            204, 95, 132, 4, 10, 149, 95, 175, 227, 120, 44, 252, 109, 96, 30, 220, 42, 32, 160, 7,
            65, 23, 117, 100, 22, 41, 180, 133, 69, 200, 89, 80,
        ],
    };
    assert(r@ =~= program_id_bytes());
    r
}

/// The record address derived from `seeds`, if any.
pub open spec fn derived(seeds: Seq<Seq<u8>>) -> Option<Seq<u8>> {
    match program_address(seeds, program_id_bytes()) {
        Some((a, _)) => Some(a),
        None => None,
    }
}

fn derive(seeds: &Vec<Vec<u8>>) -> (r: Option<Address>)
    ensures
        match r {
            Some(a) => derived(seeds_view(seeds@)) == Some(a@),
            None => derived(seeds_view(seeds@)) is None,
        },
{
    let program = program_id();
    match try_find_program_address(seeds, &program) {
        Some((a, _)) => Some(a),
        None => None,
    }
}

/// Where the agreement record created by `authority` lives: seeds "agreement"
/// and the authority.
pub fn agreement_address(authority: &Address) -> (r: Option<Address>)
    ensures
        match r {
            Some(a) => derived(
                seq![seq![97u8, 103, 114, 101, 101, 109, 101, 110, 116], authority@],
            ) == Some(a@),
            None => derived(
                seq![seq![97u8, 103, 114, 101, 101, 109, 101, 110, 116], authority@],
            ) is None,
        },
{
    let seeds: Vec<Vec<u8>> = vec![
        vec![97u8, 103, 114, 101, 101, 109, 101, 110, 116],
        bytes_to_vec(&authority.bytes),
    ];
    assert(seeds_view(seeds@) =~= seq![
        seq![97u8, 103, 114, 101, 101, 109, 101, 110, 116],
        authority@,
    ]);
    derive(&seeds)
}

/// Where the record of `account_address` in scope of `agreement` lives: seeds
/// "account", the agreement and the account.
pub fn account_record_address(agreement: &Address, account_address: &Address) -> (r: Option<Address>)
    ensures
        match r {
            Some(a) => derived(
                seq![seq![97u8, 99, 99, 111, 117, 110, 116], agreement@, account_address@],
            ) == Some(a@),
            None => derived(
                seq![seq![97u8, 99, 99, 111, 117, 110, 116], agreement@, account_address@],
            ) is None,
        },
{
    let seeds: Vec<Vec<u8>> = vec![
        vec![97u8, 99, 99, 111, 117, 110, 116],
        bytes_to_vec(&agreement.bytes),
        bytes_to_vec(&account_address.bytes),
    ];
    assert(seeds_view(seeds@) =~= seq![
        seq![97u8, 99, 99, 111, 117, 110, 116],
        agreement@,
        account_address@,
    ]);
    derive(&seeds)
}

/// Where the adoption record of `authority` lives: seeds "adoption" and the
/// authority.
pub fn adoption_record_address(authority: &Address) -> (r: Option<Address>)
    ensures
        match r {
            Some(a) => derived(
                seq![seq![97u8, 100, 111, 112, 116, 105, 111, 110], authority@],
            ) == Some(a@),
            None => derived(
                seq![seq![97u8, 100, 111, 112, 116, 105, 111, 110], authority@],
            ) is None,
        },
{
    let seeds: Vec<Vec<u8>> = vec![
        vec![97u8, 100, 111, 112, 116, 105, 111, 110],
        bytes_to_vec(&authority.bytes),
    ];
    assert(seeds_view(seeds@) =~= seq![
        seq![97u8, 100, 111, 112, 116, 105, 111, 110],
        authority@,
    ]);
    derive(&seeds)
}

/// Creates the agreement record at `key` in `slot`, owned by `owner`; fails
/// with `AccountAlreadyExists` where the record exists, and with
/// `AccountDidNotSerialize` where the contents do not fit it.
pub fn create_agreement_handler(
    slot: &mut Option<Stored<Agreement>>,
    key: Address,
    bump: u8,
    protocol_name: String,
    contact_details: [Contact; 10],
    asset_recovery_address: Address,
    bounty_terms: BountyTerms,
    agreement_uri: String,
    owner: Address,
) -> (r: Result<Vec<Event>, ErrorCode>)
    ensures
        ({
            let data = AgreementView {
                version: 0,
                owner,
                protocol_name,
                contact_details: contact_details@,
                asset_recovery_address,
                bounty_terms,
                agreement_uri,
                bump,
            };
            if old(slot).is_some() {
                r == Err::<Vec<Event>, ErrorCode>(ErrorCode::AccountAlreadyExists) && *final(slot)
                    == *old(slot)
            } else if !fits(data) {
                r == Err::<Vec<Event>, ErrorCode>(ErrorCode::AccountDidNotSerialize) && *final(slot) == *old(slot)
            } else {
                r is Ok && r.unwrap()@ == seq![update_event(key)] && final(slot).is_some()
                    && final(slot).unwrap()@ == (StoredView {
                    key,
                    data,
                    data_len: AGREEMENT_SPACE,
                })
            }
        }),
{
    if slot.is_some() {
        return Err(ErrorCode::AccountAlreadyExists);
    }
    if !fits_record(
        &protocol_name,
        &contact_details,
        &bounty_terms.diligence_requirements,
        &agreement_uri,
    ) {
        return Err(ErrorCode::AccountDidNotSerialize);
    }
    let agreement = Agreement {
        version: 0,
        owner,
        protocol_name,
        contact_details,
        asset_recovery_address,
        bounty_terms,
        agreement_uri,
        bump,
    };
    *slot = Some(Stored { key, data: agreement, data_len: AGREEMENT_SPACE });
    Ok(update_events(key))
}

/// Closes the agreement record in `slot`. Only its owner may.
pub fn close_agreement_handler(slot: &mut Option<Stored<Agreement>>, signer: Address) -> (r: Result<
    Vec<Event>,
    ErrorCode,
>)
    ensures
        match *old(slot) {
            None => r == Err::<Vec<Event>, ErrorCode>(ErrorCode::AccountNotInitialized) && *final(slot) == *old(slot),
            Some(a) => if signer@ != a.data.owner@ {
                r == Err::<Vec<Event>, ErrorCode>(ErrorCode::Unauthorized) && *final(slot) == *old(slot)
            } else {
                r is Ok && r.unwrap()@ == seq![update_event(a.key)] && final(slot).is_none()
            },
        },
{
    let key = match slot {
        None => {
            return Err(ErrorCode::AccountNotInitialized);
        },
        Some(a) => {
            if !(signer == a.data.owner) {
                return Err(ErrorCode::Unauthorized);
            }
            a.key
        },
    };
    *slot = None;
    Ok(update_events(key))
}

/// Renames the protocol. Only the owner may.
pub fn set_protocol_name_handler(agreement: &mut Stored<Agreement>, signer: Address, name: String) -> (r:
    Result<Vec<Event>, ErrorCode>)
    ensures
        changed(
            old(agreement)@,
            final(agreement)@,
            r,
            change_spec(
                old(agreement)@,
                signer,
                AgreementView { protocol_name: name, ..old(agreement).data@ },
            ),
        ),
{
    if !(signer == agreement.data.owner) {
        return Err(ErrorCode::Unauthorized);
    }
    if !fits_record(
        &name,
        &agreement.data.contact_details,
        &agreement.data.bounty_terms.diligence_requirements,
        &agreement.data.agreement_uri,
    ) {
        return Err(ErrorCode::AccountDidNotSerialize);
    }
    agreement.data.protocol_name = name;
    Ok(update_events(agreement.key))
}

/// Replaces the ten contact slots. Only the owner may.
pub fn set_contact_details_handler(
    agreement: &mut Stored<Agreement>,
    signer: Address,
    contact_details: [Contact; 10],
) -> (r: Result<Vec<Event>, ErrorCode>)
    ensures
        changed(
            old(agreement)@,
            final(agreement)@,
            r,
            change_spec(
                old(agreement)@,
                signer,
                AgreementView { contact_details: contact_details@, ..old(agreement).data@ },
            ),
        ),
{
    if !(signer == agreement.data.owner) {
        return Err(ErrorCode::Unauthorized);
    }
    if !fits_record(
        &agreement.data.protocol_name,
        &contact_details,
        &agreement.data.bounty_terms.diligence_requirements,
        &agreement.data.agreement_uri,
    ) {
        return Err(ErrorCode::AccountDidNotSerialize);
    }
    agreement.data.contact_details = contact_details;
    Ok(update_events(agreement.key))
}

/// Changes where recovered assets go. Only the owner may.
pub fn set_asset_recovery_address_handler(
    agreement: &mut Stored<Agreement>,
    signer: Address,
    asset_recovery_address: Address,
) -> (r: Result<Vec<Event>, ErrorCode>)
    ensures
        changed(
            old(agreement)@,
            final(agreement)@,
            r,
            change_spec(
                old(agreement)@,
                signer,
                AgreementView { asset_recovery_address, ..old(agreement).data@ },
            ),
        ),
{
    if !(signer == agreement.data.owner) {
        return Err(ErrorCode::Unauthorized);
    }
    if !fits_record(
        &agreement.data.protocol_name,
        &agreement.data.contact_details,
        &agreement.data.bounty_terms.diligence_requirements,
        &agreement.data.agreement_uri,
    ) {
        return Err(ErrorCode::AccountDidNotSerialize);
    }
    agreement.data.asset_recovery_address = asset_recovery_address;
    Ok(update_events(agreement.key))
}

/// Points the agreement at a new document. Only the owner may.
pub fn set_agreement_uri_handler(agreement: &mut Stored<Agreement>, signer: Address, uri: String) -> (r:
    Result<Vec<Event>, ErrorCode>)
    ensures
        changed(
            old(agreement)@,
            final(agreement)@,
            r,
            change_spec(
                old(agreement)@,
                signer,
                AgreementView { agreement_uri: uri, ..old(agreement).data@ },
            ),
        ),
{
    if !(signer == agreement.data.owner) {
        return Err(ErrorCode::Unauthorized);
    }
    if !fits_record(
        &agreement.data.protocol_name,
        &agreement.data.contact_details,
        &agreement.data.bounty_terms.diligence_requirements,
        &uri,
    ) {
        return Err(ErrorCode::AccountDidNotSerialize);
    }
    agreement.data.agreement_uri = uri;
    Ok(update_events(agreement.key))
}

/// Replaces the bounty terms. Only the owner may.
pub fn set_bounty_terms_handler(agreement: &mut Stored<Agreement>, signer: Address, terms: BountyTerms) -> (r:
    Result<Vec<Event>, ErrorCode>)
    ensures
        changed(
            old(agreement)@,
            final(agreement)@,
            r,
            change_spec(
                old(agreement)@,
                signer,
                AgreementView { bounty_terms: terms, ..old(agreement).data@ },
            ),
        ),
{
    if !(signer == agreement.data.owner) {
        return Err(ErrorCode::Unauthorized);
    }
    if !fits_record(
        &agreement.data.protocol_name,
        &agreement.data.contact_details,
        &terms.diligence_requirements,
        &agreement.data.agreement_uri,
    ) {
        return Err(ErrorCode::AccountDidNotSerialize);
    }
    agreement.data.bounty_terms = terms;
    Ok(update_events(agreement.key))
}

/// Hands the agreement to `new_owner`. Only the current owner may.
pub fn transfer_ownership_handler(
    agreement: &mut Stored<Agreement>,
    signer: Address,
    new_owner: Address,
) -> (r: Result<Vec<Event>, ErrorCode>)
    ensures
        changed(
            old(agreement)@,
            final(agreement)@,
            r,
            change_spec(
                old(agreement)@,
                signer,
                AgreementView { owner: new_owner, ..old(agreement).data@ },
            ),
        ),
{
    if !(signer == agreement.data.owner) {
        return Err(ErrorCode::Unauthorized);
    }
    if !fits_record(
        &agreement.data.protocol_name,
        &agreement.data.contact_details,
        &agreement.data.bounty_terms.diligence_requirements,
        &agreement.data.agreement_uri,
    ) {
        return Err(ErrorCode::AccountDidNotSerialize);
    }
    agreement.data.owner = new_owner;
    Ok(update_events(agreement.key))
}

/// Brings `account_address` into scope of the agreement by creating its
/// record in `record`. Only the agreement's owner may; the record must not
/// exist yet.
pub fn add_account_handler(
    agreement: &Stored<Agreement>,
    record: &mut Option<AccountRecord>,
    signer: Address,
    account_address: Address,
    child_contract_scope: ChildContractScope,
    bump: u8,
) -> (r: Result<Vec<Event>, ErrorCode>)
    ensures
        if signer@ != agreement.data.owner@ {
            r == Err::<Vec<Event>, ErrorCode>(ErrorCode::Unauthorized) && *final(record) == *old(record)
        } else if old(record).is_some() {
            r == Err::<Vec<Event>, ErrorCode>(ErrorCode::AccountAlreadyExists) && *final(record)
                == *old(record)
        } else {
            *final(record) == Some(AccountRecord { account_address, child_contract_scope, bump })
                && r is Ok && r.unwrap()@ == seq![
                update_event(agreement.key),
                Event::AddAccountEvent(AddAccountEvent { account_address }),
            ]
        },
{
    if !(signer == agreement.data.owner) {
        return Err(ErrorCode::Unauthorized);
    }
    if record.is_some() {
        return Err(ErrorCode::AccountAlreadyExists);
    }
    *record = Some(AccountRecord { account_address, child_contract_scope, bump });
    let mut events = update_events(agreement.key);
    events.push(Event::AddAccountEvent(AddAccountEvent { account_address }));
    Ok(events)
}

/// Takes an account out of scope by closing its record. Only the agreement's
/// owner may; the record must exist.
pub fn remove_account_handler(
    agreement: &Stored<Agreement>,
    record: &mut Option<AccountRecord>,
    signer: Address,
) -> (r: Result<Vec<Event>, ErrorCode>)
    ensures
        if signer@ != agreement.data.owner@ {
            r == Err::<Vec<Event>, ErrorCode>(ErrorCode::Unauthorized) && *final(record) == *old(record)
        } else {
            match *old(record) {
                None => r == Err::<Vec<Event>, ErrorCode>(ErrorCode::AccountNotFound) && *final(record) == *old(record),
                Some(rec) => final(record).is_none() && r is Ok && r.unwrap()@ == seq![
                    update_event(agreement.key),
                    Event::RemoveAccountEvent(
                        RemoveAccountEvent { account_address: rec.account_address },
                    ),
                ],
            }
        },
{
    if !(signer == agreement.data.owner) {
        return Err(ErrorCode::Unauthorized);
    }
    let account_address = match record {
        None => {
            return Err(ErrorCode::AccountNotFound);
        },
        Some(rec) => rec.account_address,
    };
    *record = None;
    let mut events = update_events(agreement.key);
    events.push(Event::RemoveAccountEvent(RemoveAccountEvent { account_address }));
    Ok(events)
}

/// Makes `agreement` the current agreement of `signer`, stamped with
/// `timestamp`, whatever its record held before.
pub fn adopt_safe_harbor_handler(
    record: &mut Option<AdoptionRecord>,
    signer: Address,
    agreement: Address,
    timestamp: i64,
) -> (r: Vec<Event>)
    ensures
        *final(record) == Some(AdoptionRecord { authority: signer, agreement, timestamp }),
        r@ == seq![
            Event::SafeHarborAdoptionEvent(SafeHarborAdoptionEvent { authority: signer, agreement }),
        ],
{
    *record = Some(AdoptionRecord { authority: signer, agreement, timestamp });
    let mut events: Vec<Event> = Vec::new();
    events.push(
        Event::SafeHarborAdoptionEvent(SafeHarborAdoptionEvent { authority: signer, agreement }),
    );
    assert(events@ =~= seq![
        Event::SafeHarborAdoptionEvent(SafeHarborAdoptionEvent { authority: signer, agreement }),
    ]);
    events
}

} // verus!
