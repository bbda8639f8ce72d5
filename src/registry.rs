use crate::address::Address;
use crate::errors::ErrorCode;
use crate::events::{ChainValiditySet, Event, RegistryInitialized, chain_validity_set};
use crate::helpers::{
    contains_string, find_string_index, index_of, is_valid_chain_id, is_well_formed_chain_id,
    lemma_index_of_found, string_views,
};
use crate::sizing::{grown_len, resize_if_needed};
use crate::state::{
    AccountMap, REGISTRY_INITIAL_SPACE, Registry, RegistryView, Stored, StoredView,
    registry_required_space, registry_space,
};
use crate::types::clone_strings;
use vstd::prelude::*;

verus! {

/// The contents a record has after an operation with this outcome.
pub open spec fn after<V>(old: V, outcome: Result<V, ErrorCode>) -> V {
    match outcome {
        Ok(v) => v,
        Err(_) => old,
    }
}

/// `r` reports `outcome`: the same error, or, on success, `events`.
pub open spec fn reports<V>(
    r: Result<Vec<Event>, ErrorCode>,
    outcome: Result<V, ErrorCode>,
    events: Seq<Event>,
) -> bool {
    match (r, outcome) {
        (Ok(v), Ok(_)) => v@ == events,
        (Err(a), Err(b)) => a == b,
        _ => false,
    }
}

/// `s` with each id of `ids` appended, in order, unless already present.
pub open spec fn add_valid_chains(s: Seq<String>, ids: Seq<String>) -> Seq<String>
    decreases ids.len(),
{
    if ids.len() == 0 {
        s
    } else if string_views(s).contains(ids[0]@) {
        add_valid_chains(s, ids.drop_first())
    } else {
        add_valid_chains(s.push(ids[0]), ids.drop_first())
    }
}

/// One event per id that `add_valid_chains` appends.
pub open spec fn added_chain_events(s: Seq<String>, ids: Seq<String>) -> Seq<Event>
    decreases ids.len(),
{
    if ids.len() == 0 {
        seq![]
    } else if string_views(s).contains(ids[0]@) {
        added_chain_events(s, ids.drop_first())
    } else {
        seq![chain_validity_set(ids[0], true)] + added_chain_events(s.push(ids[0]), ids.drop_first())
    }
}

/// `s` with the first occurrence of each id of `ids` removed, in order, by
/// moving the last entry into its place; absent ids are skipped.
pub open spec fn remove_valid_chains(s: Seq<String>, ids: Seq<String>) -> Seq<String>
    decreases ids.len(),
{
    if ids.len() == 0 {
        s
    } else {
        match index_of(string_views(s), ids[0]@) {
            Some(i) => remove_valid_chains(s.update(i, s.last()).drop_last(), ids.drop_first()),
            None => remove_valid_chains(s, ids.drop_first()),
        }
    }
}

/// One event per id that `remove_valid_chains` removes.
pub open spec fn removed_chain_events(s: Seq<String>, ids: Seq<String>) -> Seq<Event>
    decreases ids.len(),
{
    if ids.len() == 0 {
        seq![]
    } else {
        match index_of(string_views(s), ids[0]@) {
            Some(i) => seq![chain_validity_set(ids[0], false)] + removed_chain_events(
                s.update(i, s.last()).drop_last(),
                ids.drop_first(),
            ),
            None => removed_chain_events(s, ids.drop_first()),
        }
    }
}

/// The registry as first created.
pub open spec fn new_registry(owner: Address) -> RegistryView {
    RegistryView {
        owner,
        agreements: seq![],
        valid_chains: seq![],
        fallback_registry: None,
    }
}

pub open spec fn set_valid_chains_spec(
    r: StoredView<RegistryView>,
    signer: Address,
    chains: Seq<String>,
) -> Result<StoredView<RegistryView>, ErrorCode> {
    if signer@ != r.data.owner@ {
        Err(ErrorCode::Unauthorized)
    } else if !(forall|i: int| 0 <= i < chains.len() ==> is_well_formed_chain_id(#[trigger] chains[i]@)) {
        Err(ErrorCode::InvalidChainId)
    } else {
        let data = RegistryView {
            valid_chains: add_valid_chains(r.data.valid_chains, chains),
            ..r.data
        };
        match grown_len(r.data_len, registry_required_space(data)) {
            Some(n) => Ok(StoredView { key: r.key, data, data_len: n }),
            None => Err(ErrorCode::InvalidRealloc),
        }
    }
}

pub open spec fn set_invalid_chains_spec(
    r: StoredView<RegistryView>,
    signer: Address,
    chains: Seq<String>,
) -> Result<StoredView<RegistryView>, ErrorCode> {
    if signer@ != r.data.owner@ {
        Err(ErrorCode::Unauthorized)
    } else {
        Ok(
            StoredView {
                data: RegistryView {
                    valid_chains: remove_valid_chains(r.data.valid_chains, chains),
                    ..r.data
                },
                ..r
            },
        )
    }
}

pub open spec fn set_fallback_registry_spec(
    r: StoredView<RegistryView>,
    signer: Address,
    fallback: Option<Address>,
) -> Result<StoredView<RegistryView>, ErrorCode> {
    if signer@ != r.data.owner@ {
        Err(ErrorCode::Unauthorized)
    } else {
        Ok(StoredView { data: RegistryView { fallback_registry: fallback, ..r.data }, ..r })
    }
}

/// Creates the registry record in `slot`, curated by `owner`; fails with
/// `AlreadyInitialized` where one exists.
pub fn initialize_registry(slot: &mut Option<Stored<Registry>>, key: Address, owner: Address) -> (r:
    Result<Vec<Event>, ErrorCode>)
    ensures
        old(slot).is_some() ==> r == Err::<Vec<Event>, ErrorCode>(ErrorCode::AlreadyInitialized)
            && *final(slot) == *old(slot),
        old(slot).is_none() ==> match (r, *final(slot)) {
            (Ok(events), Some(s)) => s@ == (StoredView {
                key,
                data: new_registry(owner),
                data_len: REGISTRY_INITIAL_SPACE,
            }) && events@ == seq![Event::RegistryInitialized(RegistryInitialized { owner })]
                && registry_required_space(s.data@) <= s.data_len,
            _ => false,
        },
{
    if slot.is_some() {
        return Err(ErrorCode::AlreadyInitialized);
    }
    let registry = Registry {
        owner,
        agreements: AccountMap::new(),
        valid_chains: Vec::new(),
        fallback_registry: None,
    };
    assert(registry@.agreements =~= seq![]);
    assert(registry@.valid_chains =~= seq![]);
    assert(registry_required_space(registry@) <= REGISTRY_INITIAL_SPACE);
    *slot = Some(Stored { key, data: registry, data_len: REGISTRY_INITIAL_SPACE });
    let mut events: Vec<Event> = Vec::new();
    events.push(Event::RegistryInitialized(RegistryInitialized { owner }));
    Ok(events)
}

/// Marks network ids valid. Only the registry's owner may; every id must be
/// well formed. Ids already valid are left as they are; one event is emitted
/// per id added. The record grows if it must.
pub fn set_valid_chains(registry: &mut Stored<Registry>, signer: Address, chains: Vec<String>) -> (r:
    Result<Vec<Event>, ErrorCode>)
    ensures
        final(registry)@ == after(
            old(registry)@,
            set_valid_chains_spec(old(registry)@, signer, chains@),
        ),
        reports(
            r,
            set_valid_chains_spec(old(registry)@, signer, chains@),
            added_chain_events(old(registry).data.valid_chains@, chains@),
        ),
{
    if !(signer == registry.data.owner) {
        return Err(ErrorCode::Unauthorized);
    }
    let mut i: usize = 0;
    while i < chains.len()
        invariant
            *registry == *old(registry),
            signer@ == registry.data.owner@,
            0 <= i <= chains@.len(),
            forall|j: int| 0 <= j < i ==> is_well_formed_chain_id(#[trigger] chains@[j]@),
        decreases chains.len() - i,
    {
        if !is_valid_chain_id(&chains[i]) {
            assert(!is_well_formed_chain_id(chains@[i as int]@));
            return Err(ErrorCode::InvalidChainId);
        }
        i += 1;
    }
    let ghost start = registry.data.valid_chains@;
    let ghost n = chains@.len() as int;
    let mut valid = clone_strings(&registry.data.valid_chains);
    let mut events: Vec<Event> = Vec::new();
    let mut k: usize = 0;
    assert(chains@.subrange(0, n) =~= chains@);
    while k < chains.len()
        invariant
            *registry == *old(registry),
            signer@ == registry.data.owner@,
            forall|j: int| 0 <= j < n ==> is_well_formed_chain_id(#[trigger] chains@[j]@),
            start == registry.data.valid_chains@,
            n == chains@.len(),
            0 <= k <= n,
            add_valid_chains(valid@, chains@.subrange(k as int, n)) == add_valid_chains(
                start,
                chains@,
            ),
            events@ + added_chain_events(valid@, chains@.subrange(k as int, n))
                == added_chain_events(start, chains@),
        decreases n - k,
    {
        let ghost rest = chains@.subrange(k as int, n);
        let ghost before = events@;
        assert(rest.drop_first() =~= chains@.subrange(k + 1, n));
        assert(rest[0] == chains@[k as int]);
        let present = contains_string(&valid, &chains[k]);
        if !present {
            let ghost v0 = valid@;
            valid.push(chains[k].clone());
            events.push(
                Event::ChainValiditySet(
                    ChainValiditySet { caip2_chain_id: chains[k].clone(), valid: true },
                ),
            );
            assert(events@ + added_chain_events(valid@, chains@.subrange(k + 1, n)) =~= before + (
            seq![chain_validity_set(chains@[k as int], true)] + added_chain_events(
                v0.push(chains@[k as int]),
                chains@.subrange(k + 1, n),
            )));
        }
        k += 1;
    }
    assert(chains@.subrange(n, n) =~= seq![]);
    assert(events@ + seq![] =~= events@);
    let space = registry_space(registry.data.agreements.items.len(), &valid);
    let needed = match space {
        None => {
            return Err(ErrorCode::InvalidRealloc);
        },
        Some(needed) => needed,
    };
    let mut len = registry.data_len;
    match resize_if_needed(&mut len, needed) {
        Err(e) => {
            return Err(e);
        },
        Ok(()) => {},
    }
    registry.data.valid_chains = valid;
    registry.data_len = len;
    Ok(events)
}

/// Marks network ids invalid. Only the registry's owner may. Ids that are not
/// valid are skipped; one event is emitted per id removed. Agreements that
/// name a removed id keep it.
pub fn set_invalid_chains(registry: &mut Stored<Registry>, signer: Address, chains: Vec<String>) -> (r:
    Result<Vec<Event>, ErrorCode>)
    ensures
        final(registry)@ == after(
            old(registry)@,
            set_invalid_chains_spec(old(registry)@, signer, chains@),
        ),
        reports(
            r,
            set_invalid_chains_spec(old(registry)@, signer, chains@),
            removed_chain_events(old(registry).data.valid_chains@, chains@),
        ),
{
    if !(signer == registry.data.owner) {
        return Err(ErrorCode::Unauthorized);
    }
    let ghost start = registry.data.valid_chains@;
    let ghost n = chains@.len() as int;
    let mut events: Vec<Event> = Vec::new();
    let mut k: usize = 0;
    assert(chains@.subrange(0, n) =~= chains@);
    while k < chains.len()
        invariant
            registry.key == old(registry).key,
            registry.data_len == old(registry).data_len,
            registry.data.owner == old(registry).data.owner,
            registry.data.agreements == old(registry).data.agreements,
            registry.data.fallback_registry == old(registry).data.fallback_registry,
            signer@ == registry.data.owner@,
            n == chains@.len(),
            0 <= k <= n,
            remove_valid_chains(registry.data.valid_chains@, chains@.subrange(k as int, n))
                == remove_valid_chains(start, chains@),
            events@ + removed_chain_events(
                registry.data.valid_chains@,
                chains@.subrange(k as int, n),
            ) == removed_chain_events(start, chains@),
        decreases n - k,
    {
        let ghost rest = chains@.subrange(k as int, n);
        let ghost before = events@;
        let ghost v0 = registry.data.valid_chains@;
        assert(rest.drop_first() =~= chains@.subrange(k + 1, n));
        assert(rest[0] == chains@[k as int]);
        match find_string_index(&registry.data.valid_chains, &chains[k]) {
            Some(i) => {
                proof {
                    lemma_index_of_found(string_views(v0), chains@[k as int]@);
                }
                registry.data.valid_chains.swap_remove(i);
                assert(remove_valid_chains(v0, rest) == remove_valid_chains(
                    v0.update(i as int, v0.last()).drop_last(),
                    rest.drop_first(),
                ));
                events.push(
                    Event::ChainValiditySet(
                        ChainValiditySet { caip2_chain_id: chains[k].clone(), valid: false },
                    ),
                );
                assert(events@ + removed_chain_events(
                    registry.data.valid_chains@,
                    chains@.subrange(k + 1, n),
                ) =~= before + (seq![chain_validity_set(chains@[k as int], false)]
                    + removed_chain_events(
                    v0.update(i as int, v0.last()).drop_last(),
                    chains@.subrange(k + 1, n),
                )));
            },
            None => {
                assert(remove_valid_chains(v0, rest) == remove_valid_chains(v0, rest.drop_first()));
            },
        }
        k += 1;
    }
    assert(chains@.subrange(n, n) =~= seq![]);
    assert(events@ + seq![] =~= events@);
    Ok(events)
}

/// Points the registry at a predecessor registry, or clears that pointer.
/// Only the registry's owner may.
pub fn set_fallback_registry(
    registry: &mut Stored<Registry>,
    signer: Address,
    fallback: Option<Address>,
) -> (r: Result<Vec<Event>, ErrorCode>)
    ensures
        final(registry)@ == after(
            old(registry)@,
            set_fallback_registry_spec(old(registry)@, signer, fallback),
        ),
        reports(r, set_fallback_registry_spec(old(registry)@, signer, fallback), seq![]),
{
    if !(signer == registry.data.owner) {
        return Err(ErrorCode::Unauthorized);
    }
    registry.data.fallback_registry = fallback;
    Ok(Vec::new())
}

/// Whether `caip2_chain_id` is currently a valid network id.
pub fn is_chain_valid(registry: &Registry, caip2_chain_id: &String) -> (r: bool)
    ensures
        r == string_views(registry.valid_chains@).contains(caip2_chain_id@),
{
    contains_string(&registry.valid_chains, caip2_chain_id)
}

/// The valid network ids, in the registry's order.
pub fn get_valid_chains(registry: &Registry) -> (r: Vec<String>)
    ensures
        r@ == registry.valid_chains@,
{
    clone_strings(&registry.valid_chains)
}

} // verus!
