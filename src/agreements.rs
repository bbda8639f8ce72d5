use crate::address::Address;
use crate::adoption::{AdoptionIndex, adopt_safe_harbor, adopt_spec, adoption_event};
use crate::errors::ErrorCode;
use crate::events::{AgreementUpdated, Event, agreement_updated};
use crate::helpers::{
    MAX_PROTOCOL_NAME_LEN, account_addresses, chain_ids, find_account_index, find_chain_index,
    index_of, string_views, validate_bounty_terms, validate_no_duplicate_chain_ids,
};
use crate::registry::{after, reports};
use crate::sizing::{grown_len, resize_if_needed, str_len, string_len};
use crate::state::{AGREEMENT_INITIAL_SPACE, Agreement, AgreementView, Stored, StoredView, agreement_required_space, agreement_space};
use crate::types::{
    AccountInScope, AgreementInitParams, AgreementInitParamsView, BountyTerms, Chain, ChainView,
    Contact, bounty_terms_consistent, chains_view, clone_accounts, clone_chains, clone_contacts,
};
use vstd::prelude::*;

verus! {

/// The record after a change to `data`, its region grown to fit; fails with
/// `InvalidRealloc` where the host cannot grant the space.
pub open spec fn commit_agreement(a: StoredView<AgreementView>, data: AgreementView) -> Result<
    StoredView<AgreementView>,
    ErrorCode,
> {
    match grown_len(a.data_len, agreement_required_space(data)) {
        Some(n) => Ok(StoredView { key: a.key, data, data_len: n }),
        None => Err(ErrorCode::InvalidRealloc),
    }
}

/// What every change to the agreement at `key` emits.
pub open spec fn updated(key: Address) -> Seq<Event> {
    seq![agreement_updated(key)]
}

pub open spec fn set_protocol_name_spec(
    a: StoredView<AgreementView>,
    signer: Address,
    name: String,
) -> Result<StoredView<AgreementView>, ErrorCode> {
    if signer@ != a.data.owner@ {
        Err(ErrorCode::Unauthorized)
    } else if name@.len() == 0 || str_len(name) > MAX_PROTOCOL_NAME_LEN {
        Err(ErrorCode::InvalidInput)
    } else {
        commit_agreement(a, AgreementView { protocol_name: name, ..a.data })
    }
}

pub open spec fn set_contact_details_spec(
    a: StoredView<AgreementView>,
    signer: Address,
    contacts: Seq<Contact>,
) -> Result<StoredView<AgreementView>, ErrorCode> {
    if signer@ != a.data.owner@ {
        Err(ErrorCode::Unauthorized)
    } else {
        commit_agreement(a, AgreementView { contact_details: contacts, ..a.data })
    }
}

pub open spec fn set_bounty_terms_spec(
    a: StoredView<AgreementView>,
    signer: Address,
    terms: BountyTerms,
) -> Result<StoredView<AgreementView>, ErrorCode> {
    if signer@ != a.data.owner@ {
        Err(ErrorCode::Unauthorized)
    } else if !bounty_terms_consistent(terms) {
        Err(ErrorCode::CannotSetBothAggregateBountyCapUSDAndRetainable)
    } else {
        commit_agreement(a, AgreementView { bounty_terms: terms, ..a.data })
    }
}

pub open spec fn set_agreement_uri_spec(
    a: StoredView<AgreementView>,
    signer: Address,
    uri: String,
) -> Result<StoredView<AgreementView>, ErrorCode> {
    if signer@ != a.data.owner@ {
        Err(ErrorCode::Unauthorized)
    } else if uri@.len() == 0 {
        Err(ErrorCode::InvalidInput)
    } else {
        commit_agreement(a, AgreementView { agreement_uri: uri, ..a.data })
    }
}

pub open spec fn transfer_ownership_spec(
    a: StoredView<AgreementView>,
    signer: Address,
    new_owner: Address,
) -> Result<StoredView<AgreementView>, ErrorCode> {
    if signer@ != a.data.owner@ {
        Err(ErrorCode::Unauthorized)
    } else {
        Ok(StoredView { data: AgreementView { owner: new_owner, ..a.data }, ..a })
    }
}

/// Every network scope names a network id the registry holds valid.
pub open spec fn chains_registered(valid: Seq<String>, chains: Seq<ChainView>) -> bool {
    forall|i: int|
        0 <= i < chains.len() ==> string_views(valid).contains(#[trigger] chains[i].caip2_chain_id@)
}

/// `cur` with each scope of `new`, in order, put in place of the first scope
/// with its id; `None` where some id has no scope.
pub open spec fn replace_chains(cur: Seq<ChainView>, new: Seq<ChainView>) -> Option<Seq<ChainView>>
    decreases new.len(),
{
    if new.len() == 0 {
        Some(cur)
    } else {
        match index_of(chain_ids(cur), new[0].caip2_chain_id@) {
            Some(i) => replace_chains(cur.update(i, new[0]), new.drop_first()),
            None => None,
        }
    }
}

/// `cur` with the first scope of each id of `ids` removed, in order, by moving
/// the last scope into its place; `None` where some id has no scope.
pub open spec fn remove_chains_by_id(cur: Seq<ChainView>, ids: Seq<String>) -> Option<Seq<ChainView>>
    decreases ids.len(),
{
    if ids.len() == 0 {
        Some(cur)
    } else {
        match index_of(chain_ids(cur), ids[0]@) {
            Some(i) => remove_chains_by_id(cur.update(i, cur.last()).drop_last(), ids.drop_first()),
            None => None,
        }
    }
}

/// `cur` with the first account of each address of `addrs` removed, in order,
/// by moving the last account into its place; `None` where some address has
/// no account.
pub open spec fn remove_accounts_by_address(cur: Seq<AccountInScope>, addrs: Seq<String>) -> Option<
    Seq<AccountInScope>,
>
    decreases addrs.len(),
{
    if addrs.len() == 0 {
        Some(cur)
    } else {
        match index_of(account_addresses(cur), addrs[0]@) {
            Some(i) => remove_accounts_by_address(
                cur.update(i, cur.last()).drop_last(),
                addrs.drop_first(),
            ),
            None => None,
        }
    }
}

pub open spec fn add_chains_spec(
    valid: Seq<String>,
    a: StoredView<AgreementView>,
    signer: Address,
    chains: Seq<ChainView>,
) -> Result<StoredView<AgreementView>, ErrorCode> {
    if signer@ != a.data.owner@ {
        Err(ErrorCode::Unauthorized)
    } else if !chains_registered(valid, chains) {
        Err(ErrorCode::InvalidChainId)
    } else if !chain_ids(a.data.chains + chains).no_duplicates() {
        Err(ErrorCode::DuplicateChainId)
    } else {
        commit_agreement(a, AgreementView { chains: a.data.chains + chains, ..a.data })
    }
}

pub open spec fn set_chains_spec(
    valid: Seq<String>,
    a: StoredView<AgreementView>,
    signer: Address,
    chains: Seq<ChainView>,
) -> Result<StoredView<AgreementView>, ErrorCode> {
    if signer@ != a.data.owner@ {
        Err(ErrorCode::Unauthorized)
    } else if !chains_registered(valid, chains) {
        Err(ErrorCode::InvalidChainId)
    } else {
        match replace_chains(a.data.chains, chains) {
            Some(all) => commit_agreement(a, AgreementView { chains: all, ..a.data }),
            None => Err(ErrorCode::ChainNotFound),
        }
    }
}

pub open spec fn remove_chains_spec(a: StoredView<AgreementView>, signer: Address, ids: Seq<String>) -> Result<
    StoredView<AgreementView>,
    ErrorCode,
> {
    if signer@ != a.data.owner@ {
        Err(ErrorCode::Unauthorized)
    } else {
        match remove_chains_by_id(a.data.chains, ids) {
            Some(all) => Ok(StoredView { data: AgreementView { chains: all, ..a.data }, ..a }),
            None => Err(ErrorCode::ChainNotFound),
        }
    }
}

pub open spec fn add_accounts_spec(
    a: StoredView<AgreementView>,
    signer: Address,
    caip2_chain_id: String,
    accounts: Seq<AccountInScope>,
) -> Result<StoredView<AgreementView>, ErrorCode> {
    if signer@ != a.data.owner@ {
        Err(ErrorCode::Unauthorized)
    } else {
        match index_of(chain_ids(a.data.chains), caip2_chain_id@) {
            Some(i) => {
                let c = a.data.chains[i];
                commit_agreement(
                    a,
                    AgreementView {
                        chains: a.data.chains.update(
                            i,
                            ChainView { accounts: c.accounts + accounts, ..c },
                        ),
                        ..a.data
                    },
                )
            },
            None => Err(ErrorCode::ChainNotFound),
        }
    }
}

pub open spec fn remove_accounts_spec(
    a: StoredView<AgreementView>,
    signer: Address,
    caip2_chain_id: String,
    addrs: Seq<String>,
) -> Result<StoredView<AgreementView>, ErrorCode> {
    if signer@ != a.data.owner@ {
        Err(ErrorCode::Unauthorized)
    } else {
        match index_of(chain_ids(a.data.chains), caip2_chain_id@) {
            Some(i) => {
                let c = a.data.chains[i];
                match remove_accounts_by_address(c.accounts, addrs) {
                    Some(rest) => Ok(
                        StoredView {
                            data: AgreementView {
                                chains: a.data.chains.update(i, ChainView { accounts: rest, ..c }),
                                ..a.data
                            },
                            ..a
                        },
                    ),
                    None => Err(ErrorCode::AccountNotFound),
                }
            },
            None => Err(ErrorCode::ChainNotFound),
        }
    }
}

/// A new agreement at `key`, owned by `owner`, with the contents of `p`. Its
/// networks must be valid in the registry and distinct, and its bounty terms
/// consistent; its region starts at `AGREEMENT_INITIAL_SPACE` bytes and grows
/// to fit. The protocol name is not checked here.
pub open spec fn create_agreement_spec(
    valid: Seq<String>,
    key: Address,
    p: AgreementInitParamsView,
    owner: Address,
) -> Result<StoredView<AgreementView>, ErrorCode> {
    if !chains_registered(valid, p.chains) {
        Err(ErrorCode::InvalidChainId)
    } else if !bounty_terms_consistent(p.bounty_terms) {
        Err(ErrorCode::CannotSetBothAggregateBountyCapUSDAndRetainable)
    } else if !chain_ids(p.chains).no_duplicates() {
        Err(ErrorCode::DuplicateChainId)
    } else {
        let data = AgreementView {
            owner,
            protocol_name: p.protocol_name,
            contact_details: p.contact_details,
            chains: p.chains,
            bounty_terms: p.bounty_terms,
            agreement_uri: p.agreement_uri,
        };
        match grown_len(AGREEMENT_INITIAL_SPACE, agreement_required_space(data)) {
            Some(n) => Ok(StoredView { key, data, data_len: n }),
            None => Err(ErrorCode::InvalidRealloc),
        }
    }
}

/// `r` carries the record of `outcome` and `events`, or its error.
pub open spec fn created(
    r: Result<(Stored<Agreement>, Vec<Event>), ErrorCode>,
    outcome: Result<StoredView<AgreementView>, ErrorCode>,
    events: Seq<Event>,
) -> bool {
    match (r, outcome) {
        (Ok((s, ev)), Ok(v)) => s@ == v && ev@ == events,
        (Err(a), Err(b)) => a == b,
        _ => false,
    }
}

/// Whether every scope of `chains` names a network id of `valid`.
fn chains_are_registered(valid: &Vec<String>, chains: &Vec<Chain>) -> (r: bool)
    ensures
        r == chains_registered(valid@, chains_view(chains@)),
{
    let ghost v = chains_view(chains@);
    let mut i: usize = 0;
    while i < chains.len()
        invariant
            v == chains_view(chains@),
            0 <= i <= chains@.len(),
            forall|j: int| 0 <= j < i ==> string_views(valid@).contains(#[trigger] v[j].caip2_chain_id@),
        decreases chains.len() - i,
    {
        if !crate::helpers::contains_string(valid, &chains[i].caip2_chain_id) {
            assert(v[i as int].caip2_chain_id == chains@[i as int].caip2_chain_id);
            return false;
        }
        i += 1;
    }
    true
}

/// The new length of a region of `data_len` bytes that must hold `required`
/// bytes, of which `space` is the machine value where it fits.
fn grow_region(data_len: usize, space: Option<usize>, Ghost(required): Ghost<int>) -> (r: Result<
    usize,
    ErrorCode,
>)
    requires
        match space {
            Some(n) => n == required,
            None => required > usize::MAX,
        },
    ensures
        r == (match grown_len(data_len, required) {
            Some(n) => Ok::<usize, ErrorCode>(n),
            None => Err(ErrorCode::InvalidRealloc),
        }),
{
    match space {
        None => Err(ErrorCode::InvalidRealloc),
        Some(n) => {
            let mut len = data_len;
            match resize_if_needed(&mut len, n) {
                Ok(()) => Ok(len),
                Err(e) => Err(e),
            }
        },
    }
}

fn updated_events(key: Address) -> (r: Vec<Event>)
    ensures
        r@ == updated(key),
{
    let mut events: Vec<Event> = Vec::new();
    events.push(Event::AgreementUpdated(AgreementUpdated { agreement: key }));
    assert(events@ =~= updated(key));
    events
}

/// Renames the protocol. Only the agreement's owner may; the name must be
/// non-empty and at most `MAX_PROTOCOL_NAME_LEN` bytes.
pub fn set_protocol_name(agreement: &mut Stored<Agreement>, signer: Address, protocol_name: String) -> (r:
    Result<Vec<Event>, ErrorCode>)
    ensures
        final(agreement)@ == after(
            old(agreement)@,
            set_protocol_name_spec(old(agreement)@, signer, protocol_name),
        ),
        reports(
            r,
            set_protocol_name_spec(old(agreement)@, signer, protocol_name),
            updated(old(agreement).key),
        ),
{
    if !(signer == agreement.data.owner) {
        return Err(ErrorCode::Unauthorized);
    }
    if protocol_name.as_str().is_empty() || string_len(&protocol_name) > MAX_PROTOCOL_NAME_LEN {
        return Err(ErrorCode::InvalidInput);
    }
    let ghost data = AgreementView { protocol_name: protocol_name, ..agreement.data@ };
    let space = agreement_space(
        &protocol_name,
        &agreement.data.contact_details,
        &agreement.data.chains,
        &agreement.data.bounty_terms.diligence_requirements,
        &agreement.data.agreement_uri,
    );
    let len = grow_region(agreement.data_len, space, Ghost(agreement_required_space(data)))?;
    agreement.data.protocol_name = protocol_name;
    agreement.data_len = len;
    Ok(updated_events(agreement.key))
}

/// Replaces the contact list. Only the agreement's owner may.
pub fn set_contact_details(agreement: &mut Stored<Agreement>, signer: Address, contacts: Vec<Contact>) -> (r:
    Result<Vec<Event>, ErrorCode>)
    ensures
        final(agreement)@ == after(
            old(agreement)@,
            set_contact_details_spec(old(agreement)@, signer, contacts@),
        ),
        reports(
            r,
            set_contact_details_spec(old(agreement)@, signer, contacts@),
            updated(old(agreement).key),
        ),
{
    if !(signer == agreement.data.owner) {
        return Err(ErrorCode::Unauthorized);
    }
    let ghost data = AgreementView { contact_details: contacts@, ..agreement.data@ };
    let space = agreement_space(
        &agreement.data.protocol_name,
        &contacts,
        &agreement.data.chains,
        &agreement.data.bounty_terms.diligence_requirements,
        &agreement.data.agreement_uri,
    );
    let len = grow_region(agreement.data_len, space, Ghost(agreement_required_space(data)))?;
    agreement.data.contact_details = contacts;
    agreement.data_len = len;
    Ok(updated_events(agreement.key))
}

/// Replaces the bounty terms. Only the agreement's owner may; terms with an
/// aggregate cap cannot be retainable.
pub fn set_bounty_terms(agreement: &mut Stored<Agreement>, signer: Address, terms: BountyTerms) -> (r:
    Result<Vec<Event>, ErrorCode>)
    ensures
        final(agreement)@ == after(
            old(agreement)@,
            set_bounty_terms_spec(old(agreement)@, signer, terms),
        ),
        reports(
            r,
            set_bounty_terms_spec(old(agreement)@, signer, terms),
            updated(old(agreement).key),
        ),
{
    if !(signer == agreement.data.owner) {
        return Err(ErrorCode::Unauthorized);
    }
    validate_bounty_terms(&terms)?;
    let ghost data = AgreementView { bounty_terms: terms, ..agreement.data@ };
    let space = agreement_space(
        &agreement.data.protocol_name,
        &agreement.data.contact_details,
        &agreement.data.chains,
        &terms.diligence_requirements,
        &agreement.data.agreement_uri,
    );
    let len = grow_region(agreement.data_len, space, Ghost(agreement_required_space(data)))?;
    agreement.data.bounty_terms = terms;
    agreement.data_len = len;
    Ok(updated_events(agreement.key))
}

/// Points the agreement at a new document. Only the agreement's owner may;
/// the URI must be non-empty.
pub fn set_agreement_uri(agreement: &mut Stored<Agreement>, signer: Address, agreement_uri: String) -> (r:
    Result<Vec<Event>, ErrorCode>)
    ensures
        final(agreement)@ == after(
            old(agreement)@,
            set_agreement_uri_spec(old(agreement)@, signer, agreement_uri),
        ),
        reports(
            r,
            set_agreement_uri_spec(old(agreement)@, signer, agreement_uri),
            updated(old(agreement).key),
        ),
{
    if !(signer == agreement.data.owner) {
        return Err(ErrorCode::Unauthorized);
    }
    if agreement_uri.as_str().is_empty() {
        return Err(ErrorCode::InvalidInput);
    }
    let ghost data = AgreementView { agreement_uri: agreement_uri, ..agreement.data@ };
    let space = agreement_space(
        &agreement.data.protocol_name,
        &agreement.data.contact_details,
        &agreement.data.chains,
        &agreement.data.bounty_terms.diligence_requirements,
        &agreement_uri,
    );
    let len = grow_region(agreement.data_len, space, Ghost(agreement_required_space(data)))?;
    agreement.data.agreement_uri = agreement_uri;
    agreement.data_len = len;
    Ok(updated_events(agreement.key))
}

/// Hands the agreement to `new_owner`. Only the current owner may.
pub fn transfer_ownership(agreement: &mut Stored<Agreement>, signer: Address, new_owner: Address) -> (r:
    Result<Vec<Event>, ErrorCode>)
    ensures
        final(agreement)@ == after(
            old(agreement)@,
            transfer_ownership_spec(old(agreement)@, signer, new_owner),
        ),
        reports(
            r,
            transfer_ownership_spec(old(agreement)@, signer, new_owner),
            updated(old(agreement).key),
        ),
{
    if !(signer == agreement.data.owner) {
        return Err(ErrorCode::Unauthorized);
    }
    agreement.data.owner = new_owner;
    Ok(updated_events(agreement.key))
}

/// Everything a reader may see of an agreement but its owner.
pub fn get_agreement_details(agreement: &Agreement) -> (r: AgreementInitParams)
    ensures
        r@ == (AgreementInitParamsView {
            protocol_name: agreement.protocol_name,
            contact_details: agreement.contact_details@,
            chains: chains_view(agreement.chains@),
            bounty_terms: agreement.bounty_terms,
            agreement_uri: agreement.agreement_uri,
        }),
{
    AgreementInitParams {
        protocol_name: agreement.protocol_name.clone(),
        contact_details: clone_contacts(&agreement.contact_details),
        chains: clone_chains(&agreement.chains),
        bounty_terms: agreement.bounty_terms.clone(),
        agreement_uri: agreement.agreement_uri.clone(),
    }
}

/// Adds network scopes. Only the agreement's owner may; each id must be valid
/// in the registry, and no id may then occur twice in the agreement.
pub fn add_chains(
    registry: &crate::state::Registry,
    agreement: &mut Stored<Agreement>,
    signer: Address,
    chains: Vec<Chain>,
) -> (r: Result<Vec<Event>, ErrorCode>)
    ensures
        final(agreement)@ == after(
            old(agreement)@,
            add_chains_spec(registry.valid_chains@, old(agreement)@, signer, chains_view(chains@)),
        ),
        reports(
            r,
            add_chains_spec(registry.valid_chains@, old(agreement)@, signer, chains_view(chains@)),
            updated(old(agreement).key),
        ),
{
    if !(signer == agreement.data.owner) {
        return Err(ErrorCode::Unauthorized);
    }
    if !chains_are_registered(&registry.valid_chains, &chains) {
        return Err(ErrorCode::InvalidChainId);
    }
    let ghost added = chains_view(chains@);
    let ghost before = chains_view(agreement.data.chains@);
    let mut all = clone_chains(&agreement.data.chains);
    let mut chains = chains;
    all.append(&mut chains);
    assert(chains_view(all@) =~= before + added);
    validate_no_duplicate_chain_ids(all.as_slice())?;
    let ghost data = AgreementView { chains: before + added, ..agreement.data@ };
    let space = agreement_space(
        &agreement.data.protocol_name,
        &agreement.data.contact_details,
        &all,
        &agreement.data.bounty_terms.diligence_requirements,
        &agreement.data.agreement_uri,
    );
    let len = grow_region(agreement.data_len, space, Ghost(agreement_required_space(data)))?;
    agreement.data.chains = all;
    agreement.data_len = len;
    Ok(updated_events(agreement.key))
}

/// Replaces existing network scopes, each matched by its id. Only the
/// agreement's owner may; each id must be valid in the registry and already
/// have a scope in the agreement.
pub fn set_chains(
    registry: &crate::state::Registry,
    agreement: &mut Stored<Agreement>,
    signer: Address,
    chains: Vec<Chain>,
) -> (r: Result<Vec<Event>, ErrorCode>)
    ensures
        final(agreement)@ == after(
            old(agreement)@,
            set_chains_spec(registry.valid_chains@, old(agreement)@, signer, chains_view(chains@)),
        ),
        reports(
            r,
            set_chains_spec(registry.valid_chains@, old(agreement)@, signer, chains_view(chains@)),
            updated(old(agreement).key),
        ),
{
    if !(signer == agreement.data.owner) {
        return Err(ErrorCode::Unauthorized);
    }
    if !chains_are_registered(&registry.valid_chains, &chains) {
        return Err(ErrorCode::InvalidChainId);
    }
    let ghost new = chains_view(chains@);
    let ghost n = chains@.len() as int;
    let ghost target = replace_chains(chains_view(agreement.data.chains@), new);
    let mut all = clone_chains(&agreement.data.chains);
    let mut k: usize = 0;
    assert(new.subrange(0, n) =~= new);
    while k < chains.len()
        invariant
            *agreement == *old(agreement),
            signer@ == agreement.data.owner@,
            chains_registered(registry.valid_chains@, new),
            new == chains_view(chains@),
            n == chains@.len(),
            0 <= k <= n,
            target == replace_chains(chains_view(old(agreement).data.chains@), new),
            replace_chains(chains_view(all@), new.subrange(k as int, n)) == target,
        decreases n - k,
    {
        let ghost rest = new.subrange(k as int, n);
        let ghost cur = chains_view(all@);
        assert(rest.drop_first() =~= new.subrange(k + 1, n));
        assert(rest[0] == chains@[k as int]@);
        match find_chain_index(all.as_slice(), chains[k].caip2_chain_id.as_str()) {
            Err(e) => {
                return Err(e);
            },
            Ok(i) => {
                let c = chains[k].clone();
                all.set(i, c);
                assert(chains_view(all@) =~= cur.update(i as int, chains@[k as int]@));
            },
        }
        k += 1;
    }
    assert(new.subrange(n, n) =~= seq![]);
    let ghost data = AgreementView { chains: chains_view(all@), ..agreement.data@ };
    let space = agreement_space(
        &agreement.data.protocol_name,
        &agreement.data.contact_details,
        &all,
        &agreement.data.bounty_terms.diligence_requirements,
        &agreement.data.agreement_uri,
    );
    let len = grow_region(agreement.data_len, space, Ghost(agreement_required_space(data)))?;
    agreement.data.chains = all;
    agreement.data_len = len;
    Ok(updated_events(agreement.key))
}

/// Removes network scopes by id. Only the agreement's owner may; each id must
/// have a scope when its turn comes.
pub fn remove_chains(agreement: &mut Stored<Agreement>, signer: Address, ids: Vec<String>) -> (r:
    Result<Vec<Event>, ErrorCode>)
    ensures
        final(agreement)@ == after(
            old(agreement)@,
            remove_chains_spec(old(agreement)@, signer, ids@),
        ),
        reports(r, remove_chains_spec(old(agreement)@, signer, ids@), updated(old(agreement).key)),
{
    if !(signer == agreement.data.owner) {
        return Err(ErrorCode::Unauthorized);
    }
    let ghost n = ids@.len() as int;
    let ghost target = remove_chains_by_id(chains_view(agreement.data.chains@), ids@);
    let mut all = clone_chains(&agreement.data.chains);
    let mut k: usize = 0;
    assert(ids@.subrange(0, n) =~= ids@);
    while k < ids.len()
        invariant
            *agreement == *old(agreement),
            signer@ == agreement.data.owner@,
            n == ids@.len(),
            0 <= k <= n,
            target == remove_chains_by_id(chains_view(old(agreement).data.chains@), ids@),
            remove_chains_by_id(chains_view(all@), ids@.subrange(k as int, n)) == target,
        decreases n - k,
    {
        let ghost rest = ids@.subrange(k as int, n);
        let ghost cur = chains_view(all@);
        assert(rest.drop_first() =~= ids@.subrange(k + 1, n));
        assert(rest[0] == ids@[k as int]);
        match find_chain_index(all.as_slice(), ids[k].as_str()) {
            Err(e) => {
                return Err(e);
            },
            Ok(i) => {
                all.swap_remove(i);
                assert(chains_view(all@) =~= cur.update(i as int, cur.last()).drop_last());
            },
        }
        k += 1;
    }
    assert(ids@.subrange(n, n) =~= seq![]);
    agreement.data.chains = all;
    Ok(updated_events(agreement.key))
}

/// Adds accounts to the network scope with id `caip2_chain_id`. Only the
/// agreement's owner may.
pub fn add_accounts(
    agreement: &mut Stored<Agreement>,
    signer: Address,
    caip2_chain_id: String,
    accounts: Vec<AccountInScope>,
) -> (r: Result<Vec<Event>, ErrorCode>)
    ensures
        final(agreement)@ == after(
            old(agreement)@,
            add_accounts_spec(old(agreement)@, signer, caip2_chain_id, accounts@),
        ),
        reports(
            r,
            add_accounts_spec(old(agreement)@, signer, caip2_chain_id, accounts@),
            updated(old(agreement).key),
        ),
{
    if !(signer == agreement.data.owner) {
        return Err(ErrorCode::Unauthorized);
    }
    let i = find_chain_index(agreement.data.chains.as_slice(), caip2_chain_id.as_str())?;
    let ghost before = chains_view(agreement.data.chains@);
    let ghost added = accounts@;
    let ghost c = before[i as int];
    let mut accts = clone_accounts(&agreement.data.chains[i].accounts);
    let mut accounts = accounts;
    accts.append(&mut accounts);
    let updated_chain = Chain {
        asset_recovery_address: agreement.data.chains[i].asset_recovery_address.clone(),
        accounts: accts,
        caip2_chain_id: agreement.data.chains[i].caip2_chain_id.clone(),
    };
    let mut all = clone_chains(&agreement.data.chains);
    all.set(i, updated_chain);
    assert(chains_view(all@) =~= before.update(
        i as int,
        ChainView { accounts: c.accounts + added, ..c },
    ));
    let ghost data = AgreementView { chains: chains_view(all@), ..agreement.data@ };
    let space = agreement_space(
        &agreement.data.protocol_name,
        &agreement.data.contact_details,
        &all,
        &agreement.data.bounty_terms.diligence_requirements,
        &agreement.data.agreement_uri,
    );
    let len = grow_region(agreement.data_len, space, Ghost(agreement_required_space(data)))?;
    agreement.data.chains = all;
    agreement.data_len = len;
    Ok(updated_events(agreement.key))
}

/// Removes accounts, by address, from the network scope with id
/// `caip2_chain_id`. Only the agreement's owner may; each address must have
/// an account when its turn comes.
pub fn remove_accounts(
    agreement: &mut Stored<Agreement>,
    signer: Address,
    caip2_chain_id: String,
    account_addresses: Vec<String>,
) -> (r: Result<Vec<Event>, ErrorCode>)
    ensures
        final(agreement)@ == after(
            old(agreement)@,
            remove_accounts_spec(old(agreement)@, signer, caip2_chain_id, account_addresses@),
        ),
        reports(
            r,
            remove_accounts_spec(old(agreement)@, signer, caip2_chain_id, account_addresses@),
            updated(old(agreement).key),
        ),
{
    if !(signer == agreement.data.owner) {
        return Err(ErrorCode::Unauthorized);
    }
    let i = find_chain_index(agreement.data.chains.as_slice(), caip2_chain_id.as_str())?;
    let ghost before = chains_view(agreement.data.chains@);
    let ghost c = before[i as int];
    let ghost n = account_addresses@.len() as int;
    let ghost target = remove_accounts_by_address(c.accounts, account_addresses@);
    let mut accts = clone_accounts(&agreement.data.chains[i].accounts);
    let mut k: usize = 0;
    assert(account_addresses@.subrange(0, n) =~= account_addresses@);
    while k < account_addresses.len()
        invariant
            *agreement == *old(agreement),
            signer@ == agreement.data.owner@,
            before == chains_view(old(agreement).data.chains@),
            index_of(chain_ids(before), caip2_chain_id@) == Some(i as int),
            c == before[i as int],
            n == account_addresses@.len(),
            0 <= k <= n,
            target == remove_accounts_by_address(c.accounts, account_addresses@),
            remove_accounts_by_address(accts@, account_addresses@.subrange(k as int, n)) == target,
        decreases n - k,
    {
        let ghost rest = account_addresses@.subrange(k as int, n);
        let ghost cur = accts@;
        assert(rest.drop_first() =~= account_addresses@.subrange(k + 1, n));
        assert(rest[0] == account_addresses@[k as int]);
        match find_account_index(accts.as_slice(), account_addresses[k].as_str()) {
            Err(e) => {
                return Err(e);
            },
            Ok(j) => {
                accts.swap_remove(j);
            },
        }
        k += 1;
    }
    assert(account_addresses@.subrange(n, n) =~= seq![]);
    let updated_chain = Chain {
        asset_recovery_address: agreement.data.chains[i].asset_recovery_address.clone(),
        accounts: accts,
        caip2_chain_id: agreement.data.chains[i].caip2_chain_id.clone(),
    };
    let mut all = clone_chains(&agreement.data.chains);
    all.set(i, updated_chain);
    assert(chains_view(all@) =~= before.update(i as int, ChainView { accounts: accts@, ..c }));
    agreement.data.chains = all;
    Ok(updated_events(agreement.key))
}

/// Creates the agreement record at `key` from `params`, owned by `owner`, who
/// need not be the caller.
pub fn create_agreement(
    registry: &crate::state::Registry,
    key: Address,
    params: AgreementInitParams,
    owner: Address,
) -> (r: Result<(Stored<Agreement>, Vec<Event>), ErrorCode>)
    ensures
        created(r, create_agreement_spec(registry.valid_chains@, key, params@, owner), updated(key)),
{
    if !chains_are_registered(&registry.valid_chains, &params.chains) {
        return Err(ErrorCode::InvalidChainId);
    }
    validate_bounty_terms(&params.bounty_terms)?;
    validate_no_duplicate_chain_ids(params.chains.as_slice())?;
    let space = agreement_space(
        &params.protocol_name,
        &params.contact_details,
        &params.chains,
        &params.bounty_terms.diligence_requirements,
        &params.agreement_uri,
    );
    let agreement = Agreement {
        owner,
        protocol_name: params.protocol_name,
        contact_details: params.contact_details,
        chains: params.chains,
        bounty_terms: params.bounty_terms,
        agreement_uri: params.agreement_uri,
    };
    let len = grow_region(
        AGREEMENT_INITIAL_SPACE,
        space,
        Ghost(agreement_required_space(agreement@)),
    )?;
    Ok((Stored { key, data: agreement, data_len: len }, updated_events(key)))
}

/// Creates the agreement record at `key` as `create_agreement` does, and
/// makes it `adopter`'s current agreement; all or nothing.
pub fn create_and_adopt_agreement(
    registry: &crate::state::Registry,
    index: &mut AdoptionIndex,
    key: Address,
    params: AgreementInitParams,
    owner: Address,
    adopter: Address,
) -> (r: Result<(Stored<Agreement>, Vec<Event>), ErrorCode>)
    requires
        old(index).well_formed(),
    ensures
        final(index).well_formed(),
        created(
            r,
            match create_agreement_spec(registry.valid_chains@, key, params@, owner) {
                Ok(s) => match adopt_spec(old(index)@, adopter, key) {
                    Ok(_) => Ok(s),
                    Err(e) => Err(e),
                },
                Err(e) => Err(e),
            },
            updated(key).push(adoption_event(adopter, key)),
        ),
        final(index)@ == (match create_agreement_spec(registry.valid_chains@, key, params@, owner) {
            Ok(_) => after(old(index)@, adopt_spec(old(index)@, adopter, key)),
            Err(_) => old(index)@,
        }),
{
    let (stored, mut events) = create_agreement(registry, key, params, owner)?;
    let mut adopted = adopt_safe_harbor(index, adopter, key)?;
    events.append(&mut adopted);
    assert(events@ =~= updated(key).push(adoption_event(adopter, key)));
    Ok((stored, events))
}

} // verus!
