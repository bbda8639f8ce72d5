//! Properties that hold across the operations of the registry.
use crate::address::Address;
use crate::adoption::{AdoptionIndexView, adopt_spec, resolve_spec};
use crate::agreements::{
    add_accounts_spec, add_chains_spec, create_agreement_spec, remove_accounts_spec,
    remove_chains_by_id, remove_chains_spec, replace_chains, set_agreement_uri_spec,
    set_bounty_terms_spec, set_chains_spec, set_contact_details_spec, set_protocol_name_spec,
    transfer_ownership_spec,
};
use crate::errors::ErrorCode;
use crate::helpers::{chain_ids, index_of, lemma_index_of_found, string_views};
use crate::registry::{
    add_valid_chains, remove_valid_chains, set_fallback_registry_spec, set_invalid_chains_spec,
    set_valid_chains_spec,
};
use crate::sizing::{lemma_headroom_monotonic, lemma_sum_push, lemma_sum_update, str_len, sum};
use crate::state::{
    AccountMapEntry, AgreementView, RegistryView, StoredView, account_space, account_terms,
    agreement_raw_space, agreement_required_space, chain_space, chain_terms, contact_space,
    contact_terms, registry_required_space, valid_chain_space, valid_chain_terms,
};
use crate::types::{AccountInScope, AgreementInitParamsView, BountyTerms, ChainView, Contact, bounty_terms_consistent};
use vstd::prelude::*;

verus! {

/// An agreement that creation accepts has no network id twice.
pub proof fn lemma_created_chain_ids_unique(
    valid: Seq<String>,
    key: Address,
    p: AgreementInitParamsView,
    owner: Address,
)
    ensures
        match create_agreement_spec(valid, key, p, owner) {
            Ok(s) => chain_ids(s.data.chains).no_duplicates(),
            Err(_) => true,
        },
{
}

/// After networks are added, no network id occurs twice.
pub proof fn lemma_added_chain_ids_unique(
    valid: Seq<String>,
    a: StoredView<AgreementView>,
    signer: Address,
    chains: Seq<ChainView>,
)
    ensures
        match add_chains_spec(valid, a, signer, chains) {
            Ok(s) => chain_ids(s.data.chains).no_duplicates(),
            Err(_) => true,
        },
{
}

proof fn lemma_replace_keeps_ids(cur: Seq<ChainView>, new: Seq<ChainView>)
    ensures
        match replace_chains(cur, new) {
            Some(all) => chain_ids(all) == chain_ids(cur),
            None => true,
        },
    decreases new.len(),
{
    if new.len() > 0 {
        lemma_index_of_found(chain_ids(cur), new[0].caip2_chain_id@);
        match index_of(chain_ids(cur), new[0].caip2_chain_id@) {
            Some(i) => {
                assert(chain_ids(cur.update(i, new[0])) =~= chain_ids(cur));
                lemma_replace_keeps_ids(cur.update(i, new[0]), new.drop_first());
            },
            None => {},
        }
    }
}

/// Removing the entry at `i` by moving the last one into its place keeps a
/// sequence free of duplicates, and every remaining key was there before.
proof fn lemma_swap_remove_keys(keys: Seq<Seq<char>>, i: int)
    requires
        0 <= i < keys.len(),
    ensures
        keys.no_duplicates() ==> keys.update(i, keys.last()).drop_last().no_duplicates(),
        forall|k: Seq<char>|
            #[trigger] keys.update(i, keys.last()).drop_last().contains(k) ==> keys.contains(k),
{
    let r = keys.update(i, keys.last()).drop_last();
    assert forall|k: Seq<char>| #[trigger] r.contains(k) implies keys.contains(k) by {
        let j = choose|j: int| 0 <= j < r.len() && r[j] == k;
        if j == i {
            assert(keys[keys.len() - 1] == k);
        } else {
            assert(keys[j] == k);
        }
    }
    if keys.no_duplicates() {
        assert forall|a: int, b: int| 0 <= a < r.len() && 0 <= b < r.len() && a != b implies r[a]
            != r[b] by {
            let fa = if a == i {
                keys.len() - 1
            } else {
                a
            };
            let fb = if b == i {
                keys.len() - 1
            } else {
                b
            };
            assert(r[a] == keys[fa]);
            assert(r[b] == keys[fb]);
        }
    }
}

proof fn lemma_remove_keeps_unique(cur: Seq<ChainView>, ids: Seq<String>)
    requires
        chain_ids(cur).no_duplicates(),
    ensures
        match remove_chains_by_id(cur, ids) {
            Some(all) => chain_ids(all).no_duplicates(),
            None => true,
        },
    decreases ids.len(),
{
    if ids.len() > 0 {
        lemma_index_of_found(chain_ids(cur), ids[0]@);
        match index_of(chain_ids(cur), ids[0]@) {
            Some(i) => {
                let next = cur.update(i, cur.last()).drop_last();
                lemma_swap_remove_keys(chain_ids(cur), i);
                assert(chain_ids(next) =~= chain_ids(cur).update(i, chain_ids(cur).last()).drop_last());
                lemma_remove_keeps_unique(next, ids.drop_first());
            },
            None => {},
        }
    }
}

/// No other change to an agreement makes a network id occur twice: replacing
/// or removing scopes, editing their accounts, or changing any other field.
pub proof fn lemma_updates_keep_chain_ids_unique(
    valid: Seq<String>,
    a: StoredView<AgreementView>,
    signer: Address,
    chains: Seq<ChainView>,
    ids: Seq<String>,
    caip2_chain_id: String,
    accounts: Seq<AccountInScope>,
    addrs: Seq<String>,
    name: String,
    contacts: Seq<Contact>,
    terms: BountyTerms,
    uri: String,
    new_owner: Address,
)
    requires
        chain_ids(a.data.chains).no_duplicates(),
    ensures
        match set_chains_spec(valid, a, signer, chains) {
            Ok(s) => chain_ids(s.data.chains).no_duplicates(),
            Err(_) => true,
        },
        match remove_chains_spec(a, signer, ids) {
            Ok(s) => chain_ids(s.data.chains).no_duplicates(),
            Err(_) => true,
        },
        match add_accounts_spec(a, signer, caip2_chain_id, accounts) {
            Ok(s) => chain_ids(s.data.chains).no_duplicates(),
            Err(_) => true,
        },
        match remove_accounts_spec(a, signer, caip2_chain_id, addrs) {
            Ok(s) => chain_ids(s.data.chains).no_duplicates(),
            Err(_) => true,
        },
        match set_protocol_name_spec(a, signer, name) {
            Ok(s) => chain_ids(s.data.chains).no_duplicates(),
            Err(_) => true,
        },
        match set_contact_details_spec(a, signer, contacts) {
            Ok(s) => chain_ids(s.data.chains).no_duplicates(),
            Err(_) => true,
        },
        match set_bounty_terms_spec(a, signer, terms) {
            Ok(s) => chain_ids(s.data.chains).no_duplicates(),
            Err(_) => true,
        },
        match set_agreement_uri_spec(a, signer, uri) {
            Ok(s) => chain_ids(s.data.chains).no_duplicates(),
            Err(_) => true,
        },
        match transfer_ownership_spec(a, signer, new_owner) {
            Ok(s) => chain_ids(s.data.chains).no_duplicates(),
            Err(_) => true,
        },
{
    lemma_replace_keeps_ids(a.data.chains, chains);
    lemma_remove_keeps_unique(a.data.chains, ids);
    lemma_index_of_found(chain_ids(a.data.chains), caip2_chain_id@);
    match index_of(chain_ids(a.data.chains), caip2_chain_id@) {
        Some(i) => {
            let c = a.data.chains[i];
            assert(chain_ids(a.data.chains.update(i, ChainView { accounts: c.accounts + accounts, ..c }))
                =~= chain_ids(a.data.chains));
            assert forall|rest: Seq<AccountInScope>|
                #![auto]
                chain_ids(a.data.chains.update(i, ChainView { accounts: rest, ..c }))
                    == chain_ids(a.data.chains) by {
                assert(chain_ids(a.data.chains.update(i, ChainView { accounts: rest, ..c }))
                    =~= chain_ids(a.data.chains));
            }
        },
        None => {},
    }
}

/// Bounty terms that an agreement is created with, or that replace its
/// terms, never set an aggregate cap and retainability together; no other
/// operation changes the terms.
pub proof fn lemma_bounty_terms_consistent(
    valid: Seq<String>,
    key: Address,
    p: AgreementInitParamsView,
    owner: Address,
    a: StoredView<AgreementView>,
    signer: Address,
    terms: BountyTerms,
    chains: Seq<ChainView>,
    ids: Seq<String>,
    caip2_chain_id: String,
    accounts: Seq<AccountInScope>,
    addrs: Seq<String>,
    name: String,
    contacts: Seq<Contact>,
    uri: String,
    new_owner: Address,
)
    ensures
        match create_agreement_spec(valid, key, p, owner) {
            Ok(s) => bounty_terms_consistent(s.data.bounty_terms),
            Err(_) => true,
        },
        match set_bounty_terms_spec(a, signer, terms) {
            Ok(s) => bounty_terms_consistent(s.data.bounty_terms),
            Err(_) => true,
        },
        bounty_terms_consistent(a.data.bounty_terms) ==> {
            &&& set_protocol_name_spec(a, signer, name) is Ok ==> bounty_terms_consistent(
                set_protocol_name_spec(a, signer, name).unwrap().data.bounty_terms,
            )
            &&& set_contact_details_spec(a, signer, contacts) is Ok ==> bounty_terms_consistent(
                set_contact_details_spec(a, signer, contacts).unwrap().data.bounty_terms,
            )
            &&& set_agreement_uri_spec(a, signer, uri) is Ok ==> bounty_terms_consistent(
                set_agreement_uri_spec(a, signer, uri).unwrap().data.bounty_terms,
            )
            &&& transfer_ownership_spec(a, signer, new_owner) is Ok ==> bounty_terms_consistent(
                transfer_ownership_spec(a, signer, new_owner).unwrap().data.bounty_terms,
            )
            &&& add_chains_spec(valid, a, signer, chains) is Ok ==> bounty_terms_consistent(
                add_chains_spec(valid, a, signer, chains).unwrap().data.bounty_terms,
            )
            &&& set_chains_spec(valid, a, signer, chains) is Ok ==> bounty_terms_consistent(
                set_chains_spec(valid, a, signer, chains).unwrap().data.bounty_terms,
            )
            &&& remove_chains_spec(a, signer, ids) is Ok ==> bounty_terms_consistent(
                remove_chains_spec(a, signer, ids).unwrap().data.bounty_terms,
            )
            &&& add_accounts_spec(a, signer, caip2_chain_id, accounts) is Ok
                ==> bounty_terms_consistent(
                add_accounts_spec(a, signer, caip2_chain_id, accounts).unwrap().data.bounty_terms,
            )
            &&& remove_accounts_spec(a, signer, caip2_chain_id, addrs) is Ok
                ==> bounty_terms_consistent(
                remove_accounts_spec(a, signer, caip2_chain_id, addrs).unwrap().data.bounty_terms,
            )
        },
{
}

/// Adding a contact strictly increases the space an agreement needs.
pub proof fn lemma_space_grows_with_contact(a: AgreementView, c: Contact)
    ensures
        agreement_required_space(AgreementView { contact_details: a.contact_details.push(c), ..a })
            > agreement_required_space(a),
{
    let b = AgreementView { contact_details: a.contact_details.push(c), ..a };
    assert(contact_terms(b.contact_details) =~= contact_terms(a.contact_details).push(
        contact_space(c),
    ));
    lemma_sum_push(contact_terms(a.contact_details), contact_space(c));
    lemma_headroom_monotonic(agreement_raw_space(a) as int, agreement_raw_space(b) as int);
}

/// Adding a network scope strictly increases the space an agreement needs.
pub proof fn lemma_space_grows_with_chain(a: AgreementView, c: ChainView)
    ensures
        agreement_required_space(AgreementView { chains: a.chains.push(c), ..a })
            > agreement_required_space(a),
{
    let b = AgreementView { chains: a.chains.push(c), ..a };
    assert(chain_terms(b.chains) =~= chain_terms(a.chains).push(chain_space(c)));
    lemma_sum_push(chain_terms(a.chains), chain_space(c));
    lemma_headroom_monotonic(agreement_raw_space(a) as int, agreement_raw_space(b) as int);
}

/// Adding an account to a network scope strictly increases the space an
/// agreement needs.
pub proof fn lemma_space_grows_with_account(a: AgreementView, i: int, acc: AccountInScope)
    requires
        0 <= i < a.chains.len(),
    ensures
        agreement_required_space(
            AgreementView {
                chains: a.chains.update(
                    i,
                    ChainView { accounts: a.chains[i].accounts.push(acc), ..a.chains[i] },
                ),
                ..a
            },
        ) > agreement_required_space(a),
{
    let c = a.chains[i];
    let c2 = ChainView { accounts: c.accounts.push(acc), ..c };
    let b = AgreementView { chains: a.chains.update(i, c2), ..a };
    assert(account_terms(c2.accounts) =~= account_terms(c.accounts).push(account_space(acc)));
    lemma_sum_push(account_terms(c.accounts), account_space(acc));
    assert(chain_terms(b.chains) =~= chain_terms(a.chains).update(i, chain_space(c2)));
    lemma_sum_update(chain_terms(a.chains), i, chain_space(c2));
    lemma_headroom_monotonic(agreement_raw_space(a) as int, agreement_raw_space(b) as int);
}

/// A longer protocol name, agreement URI or statement of diligence
/// requirements never lowers the space an agreement needs.
pub proof fn lemma_space_monotonic_in_strings(
    a: AgreementView,
    name: String,
    uri: String,
    diligence: String,
)
    requires
        str_len(name) >= str_len(a.protocol_name),
        str_len(uri) >= str_len(a.agreement_uri),
        str_len(diligence) >= str_len(a.bounty_terms.diligence_requirements),
    ensures
        agreement_required_space(
            AgreementView {
                protocol_name: name,
                agreement_uri: uri,
                bounty_terms: BountyTerms { diligence_requirements: diligence, ..a.bounty_terms },
                ..a
            },
        ) >= agreement_required_space(a),
{
    let b = AgreementView {
        protocol_name: name,
        agreement_uri: uri,
        bounty_terms: BountyTerms { diligence_requirements: diligence, ..a.bounty_terms },
        ..a
    };
    lemma_headroom_monotonic(agreement_raw_space(a) as int, agreement_raw_space(b) as int);
}

/// Adding a valid network id, or a legacy association, strictly increases
/// the space the registry needs.
pub proof fn lemma_registry_space_grows(r: RegistryView, id: String, e: AccountMapEntry)
    ensures
        registry_required_space(RegistryView { valid_chains: r.valid_chains.push(id), ..r })
            > registry_required_space(r),
        registry_required_space(RegistryView { agreements: r.agreements.push(e), ..r })
            > registry_required_space(r),
{
    let base: int = (81 + r.agreements.len() * 64 + sum(valid_chain_terms(r.valid_chains))) as int;
    assert(valid_chain_terms(r.valid_chains.push(id)) =~= valid_chain_terms(r.valid_chains).push(
        valid_chain_space(id),
    ));
    lemma_sum_push(valid_chain_terms(r.valid_chains), valid_chain_space(id));
    lemma_headroom_monotonic(base, base + valid_chain_space(id));
    lemma_headroom_monotonic(base, base + 64);
}

/// Every operation that changes a record refuses a caller that is not the
/// record's authority, with `Unauthorized`; the record is then left as it was.
pub proof fn lemma_only_the_owner_changes_an_agreement(
    valid: Seq<String>,
    a: StoredView<AgreementView>,
    signer: Address,
    name: String,
    contacts: Seq<Contact>,
    terms: BountyTerms,
    uri: String,
    new_owner: Address,
    chains: Seq<ChainView>,
    ids: Seq<String>,
    caip2_chain_id: String,
    accounts: Seq<AccountInScope>,
    addrs: Seq<String>,
)
    requires
        signer@ != a.data.owner@,
    ensures
        set_protocol_name_spec(a, signer, name) == Err::<StoredView<AgreementView>, ErrorCode>(
            ErrorCode::Unauthorized,
        ),
        set_contact_details_spec(a, signer, contacts) == Err::<StoredView<AgreementView>, ErrorCode>(
            ErrorCode::Unauthorized,
        ),
        set_bounty_terms_spec(a, signer, terms) == Err::<StoredView<AgreementView>, ErrorCode>(
            ErrorCode::Unauthorized,
        ),
        set_agreement_uri_spec(a, signer, uri) == Err::<StoredView<AgreementView>, ErrorCode>(
            ErrorCode::Unauthorized,
        ),
        transfer_ownership_spec(a, signer, new_owner) == Err::<StoredView<AgreementView>, ErrorCode>(
            ErrorCode::Unauthorized,
        ),
        add_chains_spec(valid, a, signer, chains) == Err::<StoredView<AgreementView>, ErrorCode>(
            ErrorCode::Unauthorized,
        ),
        set_chains_spec(valid, a, signer, chains) == Err::<StoredView<AgreementView>, ErrorCode>(
            ErrorCode::Unauthorized,
        ),
        remove_chains_spec(a, signer, ids) == Err::<StoredView<AgreementView>, ErrorCode>(
            ErrorCode::Unauthorized,
        ),
        add_accounts_spec(a, signer, caip2_chain_id, accounts) == Err::<
            StoredView<AgreementView>,
            ErrorCode,
        >(ErrorCode::Unauthorized),
        remove_accounts_spec(a, signer, caip2_chain_id, addrs) == Err::<
            StoredView<AgreementView>,
            ErrorCode,
        >(ErrorCode::Unauthorized),
{
}

/// The registry's curation operations refuse a caller that is not its owner,
/// with `Unauthorized`.
pub proof fn lemma_only_the_owner_curates_the_registry(
    r: StoredView<RegistryView>,
    signer: Address,
    chains: Seq<String>,
    fallback: Option<Address>,
)
    requires
        signer@ != r.data.owner@,
    ensures
        set_valid_chains_spec(r, signer, chains) == Err::<StoredView<RegistryView>, ErrorCode>(
            ErrorCode::Unauthorized,
        ),
        set_invalid_chains_spec(r, signer, chains) == Err::<StoredView<RegistryView>, ErrorCode>(
            ErrorCode::Unauthorized,
        ),
        set_fallback_registry_spec(r, signer, fallback) == Err::<StoredView<RegistryView>, ErrorCode>(
            ErrorCode::Unauthorized,
        ),
{
}

proof fn lemma_add_valid_distinct(s: Seq<String>, ids: Seq<String>)
    requires
        string_views(s).no_duplicates(),
    ensures
        string_views(add_valid_chains(s, ids)).no_duplicates(),
    decreases ids.len(),
{
    if ids.len() > 0 {
        if !string_views(s).contains(ids[0]@) {
            let t = s.push(ids[0]);
            assert(string_views(t) =~= string_views(s).push(ids[0]@));
            assert forall|a: int, b: int|
                0 <= a < string_views(t).len() && 0 <= b < string_views(t).len() && a != b implies string_views(
                t,
            )[a] != string_views(t)[b] by {
                if a == s.len() {
                    assert(string_views(s)[b] == string_views(t)[b]);
                } else if b == s.len() {
                    assert(string_views(s)[a] == string_views(t)[a]);
                }
            }
            lemma_add_valid_distinct(t, ids.drop_first());
        } else {
            lemma_add_valid_distinct(s, ids.drop_first());
        }
    }
}

proof fn lemma_remove_valid_distinct(s: Seq<String>, ids: Seq<String>)
    requires
        string_views(s).no_duplicates(),
    ensures
        string_views(remove_valid_chains(s, ids)).no_duplicates(),
    decreases ids.len(),
{
    if ids.len() > 0 {
        lemma_index_of_found(string_views(s), ids[0]@);
        match index_of(string_views(s), ids[0]@) {
            Some(i) => {
                let t = s.update(i, s.last()).drop_last();
                lemma_swap_remove_keys(string_views(s), i);
                assert(string_views(t) =~= string_views(s).update(i, string_views(s).last()).drop_last());
                lemma_remove_valid_distinct(t, ids.drop_first());
            },
            None => lemma_remove_valid_distinct(s, ids.drop_first()),
        }
    }
}

/// The registry's valid network ids form a set: curation never lists one
/// twice.
pub proof fn lemma_valid_chains_stay_distinct(
    r: StoredView<RegistryView>,
    signer: Address,
    chains: Seq<String>,
)
    requires
        string_views(r.data.valid_chains).no_duplicates(),
    ensures
        match set_valid_chains_spec(r, signer, chains) {
            Ok(s) => string_views(s.data.valid_chains).no_duplicates(),
            Err(_) => true,
        },
        match set_invalid_chains_spec(r, signer, chains) {
            Ok(s) => string_views(s.data.valid_chains).no_duplicates(),
            Err(_) => true,
        },
{
    lemma_add_valid_distinct(r.data.valid_chains, chains);
    lemma_remove_valid_distinct(r.data.valid_chains, chains);
}

/// After `adopter` adopts `x`, its current agreement is `x`; after it then
/// adopts `y`, its current agreement is `y`.
pub proof fn lemma_resolve_after_adopt(m: AdoptionIndexView, adopter: Address, x: Address, y: Address)
    ensures
        match adopt_spec(m, adopter, x) {
            Ok(m1) => resolve_spec(m1, adopter) == Ok::<Address, ErrorCode>(x) && match adopt_spec(
                m1,
                adopter,
                y,
            ) {
                Ok(m2) => resolve_spec(m2, adopter) == Ok::<Address, ErrorCode>(y),
                Err(_) => true,
            },
            Err(_) => true,
        },
{
}

proof fn lemma_remove_missing(cur: Seq<ChainView>, ids: Seq<String>, k: int)
    requires
        0 <= k < ids.len(),
        !chain_ids(cur).contains(ids[k]@),
    ensures
        remove_chains_by_id(cur, ids) is None,
    decreases ids.len(),
{
    lemma_index_of_found(chain_ids(cur), ids[0]@);
    if k > 0 {
        match index_of(chain_ids(cur), ids[0]@) {
            Some(i) => {
                let next = cur.update(i, cur.last()).drop_last();
                lemma_swap_remove_keys(chain_ids(cur), i);
                assert(chain_ids(next) =~= chain_ids(cur).update(i, chain_ids(cur).last()).drop_last());
                assert(ids.drop_first()[k - 1] == ids[k]);
                lemma_remove_missing(next, ids.drop_first(), k - 1);
            },
            None => {},
        }
    }
}

/// Removing a network id that the agreement does not hold fails with
/// `ChainNotFound`, whatever else the request removes.
pub proof fn lemma_remove_missing_chain(a: StoredView<AgreementView>, signer: Address, ids: Seq<String>, k: int)
    requires
        signer@ == a.data.owner@,
        0 <= k < ids.len(),
        !chain_ids(a.data.chains).contains(ids[k]@),
    ensures
        remove_chains_spec(a, signer, ids) == Err::<StoredView<AgreementView>, ErrorCode>(
            ErrorCode::ChainNotFound,
        ),
{
    lemma_remove_missing(a.data.chains, ids, k);
}

} // verus!
