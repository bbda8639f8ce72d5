use crate::address::Address;
use crate::sizing::{
    checked_headroom, lemma_sum_element, lemma_sum_prefix, lemma_sum_push, str_len, string_len,
    sum, with_headroom,
};
use crate::types::{AccountInScope, BountyTerms, Chain, ChainView, Contact, chains_view};
use vstd::prelude::*;

verus! {

/// One association of a map from addresses to addresses.
#[derive(Clone, Copy, Debug)]
pub struct AccountMapEntry {
    pub key: Address,
    pub value: Address,
}

/// A map from addresses to addresses kept as a list of entries, one per key.
#[derive(Debug)]
pub struct AccountMap {
    pub items: Vec<AccountMapEntry>,
}

impl AccountMap {
    /// No key occurs twice.
    pub open spec fn keys_unique(&self) -> bool {
        forall|i: int, j: int|
            0 <= i < j < self.items@.len() ==> self.items@[i].key@ != self.items@[j].key@
    }

    pub open spec fn has_key(&self, k: Seq<u8>) -> bool {
        exists|i: int| 0 <= i < self.items@.len() && self.items@[i].key@ == k
    }

    proof fn lemma_entry_in_view(&self, i: int)
        requires
            self.keys_unique(),
            0 <= i < self.items@.len(),
        ensures
            self@.contains_key(self.items@[i].key@),
            self@[self.items@[i].key@] == self.items@[i].value,
    {
        let k = self.items@[i].key@;
        assert(self.has_key(k));
        let j = choose|j: int| 0 <= j < self.items@.len() && self.items@[j].key@ == k;
        assert(j == i);
    }

    /// An empty map.
    pub fn new() -> (r: AccountMap)
        ensures
            r.keys_unique(),
            r@ == Map::<Seq<u8>, Address>::empty(),
            r.items@.len() == 0,
    {
        let r = AccountMap { items: Vec::new() };
        assert(r@ =~= Map::<Seq<u8>, Address>::empty());
        r
    }

    proof fn lemma_view_after_write(prev: AccountMap, cur: AccountMap, i: int, key: Address, value: Address)
        requires
            prev.keys_unique(),
            cur.keys_unique(),
            0 <= i < cur.items@.len(),
            cur.items@[i] == (AccountMapEntry { key, value }),
            (i < prev.items@.len() && cur.items@.len() == prev.items@.len()) || (i
                == prev.items@.len() && cur.items@.len() == prev.items@.len() + 1),
            i < prev.items@.len() ==> prev.items@[i].key@ == key@,
            i == prev.items@.len() ==> !prev.has_key(key@),
            forall|j: int| 0 <= j < prev.items@.len() && j != i ==> cur.items@[j] == prev.items@[j],
        ensures
            cur@ == prev@.insert(key@, value),
    {
        let target = prev@.insert(key@, value);
        assert forall|k: Seq<u8>| #[trigger] cur@.contains_key(k) == target.contains_key(k) by {
            if k == key@ {
                cur.lemma_entry_in_view(i);
            } else {
                if cur.has_key(k) {
                    let j = choose|j: int| 0 <= j < cur.items@.len() && cur.items@[j].key@ == k;
                    assert(prev.items@[j].key@ == k);
                    assert(prev.has_key(k));
                }
                if prev.has_key(k) {
                    let j = choose|j: int| 0 <= j < prev.items@.len() && prev.items@[j].key@ == k;
                    assert(cur.items@[j].key@ == k);
                    assert(cur.has_key(k));
                }
            }
        }
        assert forall|k: Seq<u8>| #[trigger] cur@.contains_key(k) implies cur@[k] == target[k] by {
            if k == key@ {
                cur.lemma_entry_in_view(i);
            } else {
                let j = choose|j: int| 0 <= j < prev.items@.len() && prev.items@[j].key@ == k;
                prev.lemma_entry_in_view(j);
                cur.lemma_entry_in_view(j);
            }
        }
        assert(cur@ =~= target);
    }

    /// Associates `value` with `key`, replacing an earlier value of `key`.
    pub fn insert(&mut self, key: Address, value: Address)
        requires
            old(self).keys_unique(),
        ensures
            final(self).keys_unique(),
            final(self)@ == old(self)@.insert(key@, value),
            old(self).has_key(key@) ==> final(self).items@.len() == old(self).items@.len(),
            !old(self).has_key(key@) ==> final(self).items@.len() == old(self).items@.len() + 1,
    {
        let ghost prev = *old(self);
        let mut i: usize = 0;
        while i < self.items.len()
            invariant
                *self == prev,
                prev == *old(self),
                prev.keys_unique(),
                0 <= i <= self.items@.len(),
                forall|j: int| 0 <= j < i ==> self.items@[j].key@ != key@,
            decreases self.items@.len() - i,
        {
            if self.items[i].key == key {
                self.items.set(i, AccountMapEntry { key, value });
                proof {
                    assert forall|j: int| 0 <= j < self.items@.len() implies (
                    #[trigger] self.items@[j]).key@ == prev.items@[j].key@ by {}
                    assert(prev.has_key(key@));
                    AccountMap::lemma_view_after_write(prev, *self, i as int, key, value);
                }
                return;
            }
            i += 1;
        }
        self.items.push(AccountMapEntry { key, value });
        proof {
            let n = prev.items@.len() as int;
            assert forall|j: int| 0 <= j < n implies #[trigger] self.items@[j] == prev.items@[j] by {}
            assert(self.keys_unique());
            AccountMap::lemma_view_after_write(prev, *self, n, key, value);
        }
    }

    /// The value associated with `key`, if any.
    pub fn get(&self, key: Address) -> (r: Option<Address>)
        requires
            self.keys_unique(),
        ensures
            r == (if self@.contains_key(key@) {
                Some(self@[key@])
            } else {
                None
            }),
    {
        let mut i: usize = 0;
        while i < self.items.len()
            invariant
                self.keys_unique(),
                0 <= i <= self.items@.len(),
                forall|j: int| 0 <= j < i ==> self.items@[j].key@ != key@,
            decreases self.items@.len() - i,
        {
            if self.items[i].key == key {
                proof {
                    self.lemma_entry_in_view(i as int);
                }
                return Some(self.items[i].value);
            }
            i += 1;
        }
        None
    }
}

impl View for AccountMap {
    type V = Map<Seq<u8>, Address>;

    open spec fn view(&self) -> Map<Seq<u8>, Address> {
        Map::new(
            |k: Seq<u8>| self.has_key(k),
            |k: Seq<u8>|
                self.items@[choose|i: int|
                    0 <= i < self.items@.len() && self.items@[i].key@ == k].value,
        )
    }
}

/// A record as the host keeps it: its address, its contents and the length of
/// the storage region that holds them.
#[derive(Debug)]
pub struct Stored<T> {
    pub key: Address,
    pub data: T,
    pub data_len: usize,
}

/// The single global record: who curates it, the recognised network ids, and
/// an optional predecessor registry kept for reads.
#[derive(Debug)]
pub struct Registry {
    pub owner: Address,
    pub agreements: AccountMap,
    pub valid_chains: Vec<String>,
    pub fallback_registry: Option<Address>,
}

/// A registry as a value.
pub struct RegistryView {
    pub owner: Address,
    pub agreements: Seq<AccountMapEntry>,
    pub valid_chains: Seq<String>,
    pub fallback_registry: Option<Address>,
}

impl View for Registry {
    type V = RegistryView;

    open spec fn view(&self) -> RegistryView {
        RegistryView {
            owner: self.owner,
            agreements: self.agreements.items@,
            valid_chains: self.valid_chains@,
            fallback_registry: self.fallback_registry,
        }
    }
}

/// A protocol's published disclosure policy.
#[derive(Debug)]
pub struct Agreement {
    pub owner: Address,
    pub protocol_name: String,
    pub contact_details: Vec<Contact>,
    pub chains: Vec<Chain>,
    pub bounty_terms: BountyTerms,
    pub agreement_uri: String,
}

/// An agreement as a value.
pub struct AgreementView {
    pub owner: Address,
    pub protocol_name: String,
    pub contact_details: Seq<Contact>,
    pub chains: Seq<ChainView>,
    pub bounty_terms: BountyTerms,
    pub agreement_uri: String,
}

impl View for Agreement {
    type V = AgreementView;

    open spec fn view(&self) -> AgreementView {
        AgreementView {
            owner: self.owner,
            protocol_name: self.protocol_name,
            contact_details: self.contact_details@,
            chains: chains_view(self.chains@),
            bounty_terms: self.bounty_terms,
            agreement_uri: self.agreement_uri,
        }
    }
}

/// Fixed part of a registry record: discriminator, owner, two length
/// prefixes, and the optional fallback address.
pub const REGISTRY_BASE_SPACE: usize = 8 + 32 + 4 + 4 + 1 + 32;

/// What the host allocates for a new registry record.
pub const REGISTRY_INITIAL_SPACE: usize = REGISTRY_BASE_SPACE + 1024;

/// Fixed part of an agreement record: discriminator, owner, the length
/// prefixes of its name, contacts and networks, the fixed bounty fields and
/// the prefixes of its two remaining strings.
pub const AGREEMENT_BASE_SPACE: usize = 8 + 32 + 4 + 4 + 4 + 8 + 8 + 1 + 1 + 4 + 8 + 4;

/// What the host allocates for a new agreement record.
pub const AGREEMENT_INITIAL_SPACE: usize = AGREEMENT_BASE_SPACE + 1024;

pub open spec fn valid_chain_space(c: String) -> nat {
    4 + str_len(c)
}

pub open spec fn valid_chain_terms(s: Seq<String>) -> Seq<nat> {
    s.map_values(|c: String| valid_chain_space(c))
}

/// Bytes a registry with `agreement_count` legacy associations and the given
/// valid network ids needs, headroom included.
pub open spec fn registry_space_parts(agreement_count: nat, valid_chains: Seq<String>) -> int {
    with_headroom(REGISTRY_BASE_SPACE + agreement_count * 64 + sum(valid_chain_terms(valid_chains)))
}

/// Bytes a registry record needs, headroom included.
pub open spec fn registry_required_space(r: RegistryView) -> int {
    registry_space_parts(r.agreements.len(), r.valid_chains)
}

pub open spec fn contact_space(c: Contact) -> nat {
    4 + str_len(c.name) + 4 + str_len(c.contact)
}

pub open spec fn contact_terms(s: Seq<Contact>) -> Seq<nat> {
    s.map_values(|c: Contact| contact_space(c))
}

pub open spec fn account_space(a: AccountInScope) -> nat {
    4 + str_len(a.account_address) + 1
}

pub open spec fn account_terms(s: Seq<AccountInScope>) -> Seq<nat> {
    s.map_values(|a: AccountInScope| account_space(a))
}

pub open spec fn chain_space(c: ChainView) -> nat {
    4 + str_len(c.asset_recovery_address) + 4 + sum(account_terms(c.accounts)) + 4 + str_len(
        c.caip2_chain_id,
    )
}

pub open spec fn chain_terms(s: Seq<ChainView>) -> Seq<nat> {
    s.map_values(|c: ChainView| chain_space(c))
}

/// Bytes an agreement's contents take, before headroom.
pub open spec fn agreement_raw_space(a: AgreementView) -> nat {
    (AGREEMENT_BASE_SPACE + str_len(a.protocol_name) + sum(contact_terms(a.contact_details)) + sum(
        chain_terms(a.chains),
    ) + str_len(a.bounty_terms.diligence_requirements) + str_len(a.agreement_uri)) as nat
}

/// Bytes an agreement record needs, headroom included.
pub open spec fn agreement_required_space(a: AgreementView) -> int {
    with_headroom(agreement_raw_space(a) as int)
}

/// A record as a value.
pub struct StoredView<V> {
    pub key: Address,
    pub data: V,
    pub data_len: usize,
}

impl<T: View> View for Stored<T> {
    type V = StoredView<T::V>;

    open spec fn view(&self) -> StoredView<T::V> {
        StoredView { key: self.key, data: self.data@, data_len: self.data_len }
    }
}

proof fn lemma_prefix_step(terms: Seq<nat>, i: int)
    requires
        0 <= i < terms.len(),
    ensures
        sum(terms.subrange(0, i + 1)) == sum(terms.subrange(0, i)) + terms[i],
        sum(terms.subrange(0, i + 1)) <= sum(terms),
{
    assert(terms.subrange(0, i + 1) =~= terms.subrange(0, i).push(terms[i]));
    lemma_sum_push(terms.subrange(0, i), terms[i]);
    lemma_sum_prefix(terms, i + 1);
}

/// Bytes the accounts of a network scope take, if that fits in a `usize`.
pub fn accounts_space(v: &Vec<AccountInScope>) -> (r: Option<usize>)
    ensures
        match r {
            Some(n) => n == sum(account_terms(v@)),
            None => sum(account_terms(v@)) > usize::MAX,
        },
{
    let ghost terms = account_terms(v@);
    let mut size: usize = 0;
    let mut i: usize = 0;
    while i < v.len()
        invariant
            terms == account_terms(v@),
            0 <= i <= v.len(),
            size == sum(terms.subrange(0, i as int)),
        decreases v.len() - i,
    {
        proof {
            lemma_prefix_step(terms, i as int);
        }
        let t: u128 = size as u128 + 5 + string_len(&v[i].account_address) as u128;
        if t > usize::MAX as u128 {
            return None;
        }
        size = t as usize;
        i += 1;
    }
    assert(terms.subrange(0, v.len() as int) =~= terms);
    Some(size)
}

/// Bytes a list of contacts takes, if that fits in a `usize`.
pub fn contacts_space(v: &Vec<Contact>) -> (r: Option<usize>)
    ensures
        match r {
            Some(n) => n == sum(contact_terms(v@)),
            None => sum(contact_terms(v@)) > usize::MAX,
        },
{
    let ghost terms = contact_terms(v@);
    let mut size: usize = 0;
    let mut i: usize = 0;
    while i < v.len()
        invariant
            terms == contact_terms(v@),
            0 <= i <= v.len(),
            size == sum(terms.subrange(0, i as int)),
        decreases v.len() - i,
    {
        proof {
            lemma_prefix_step(terms, i as int);
        }
        let t: u128 = size as u128 + 8 + string_len(&v[i].name) as u128 + string_len(
            &v[i].contact,
        ) as u128;
        if t > usize::MAX as u128 {
            return None;
        }
        size = t as usize;
        i += 1;
    }
    assert(terms.subrange(0, v.len() as int) =~= terms);
    Some(size)
}

/// Bytes a list of network scopes takes, if that fits in a `usize`.
pub fn chains_space(v: &Vec<Chain>) -> (r: Option<usize>)
    ensures
        match r {
            Some(n) => n == sum(chain_terms(chains_view(v@))),
            None => sum(chain_terms(chains_view(v@))) > usize::MAX,
        },
{
    let ghost terms = chain_terms(chains_view(v@));
    let mut size: usize = 0;
    let mut i: usize = 0;
    while i < v.len()
        invariant
            terms == chain_terms(chains_view(v@)),
            0 <= i <= v.len(),
            size == sum(terms.subrange(0, i as int)),
        decreases v.len() - i,
    {
        proof {
            lemma_prefix_step(terms, i as int);
        }
        let accounts = accounts_space(&v[i].accounts);
        match accounts {
            None => {
                proof {
                    lemma_sum_element(terms, i as int);
                }
                return None;
            },
            Some(a) => {
                let t: u128 = size as u128 + 12 + string_len(&v[i].asset_recovery_address) as u128
                    + a as u128 + string_len(&v[i].caip2_chain_id) as u128;
                if t > usize::MAX as u128 {
                    return None;
                }
                size = t as usize;
            },
        }
        i += 1;
    }
    assert(terms.subrange(0, v.len() as int) =~= terms);
    Some(size)
}

/// Bytes a registry with `agreement_count` legacy associations and the given
/// valid network ids needs, headroom included, if that fits in a `usize`.
pub fn registry_space(agreement_count: usize, valid_chains: &Vec<String>) -> (r: Option<usize>)
    ensures
        match r {
            Some(n) => n == registry_space_parts(agreement_count as nat, valid_chains@),
            None => registry_space_parts(agreement_count as nat, valid_chains@) > usize::MAX,
        },
{
    let ghost terms = valid_chain_terms(valid_chains@);
    let mut size: u128 = REGISTRY_BASE_SPACE as u128 + agreement_count as u128 * 64;
    if size > usize::MAX as u128 {
        return None;
    }
    let mut i: usize = 0;
    while i < valid_chains.len()
        invariant
            terms == valid_chain_terms(valid_chains@),
            0 <= i <= valid_chains.len(),
            size <= usize::MAX,
            size == REGISTRY_BASE_SPACE + agreement_count * 64 + sum(terms.subrange(0, i as int)),
        decreases valid_chains.len() - i,
    {
        proof {
            lemma_prefix_step(terms, i as int);
        }
        size = size + 4 + string_len(&valid_chains[i]) as u128;
        if size > usize::MAX as u128 {
            return None;
        }
        i += 1;
    }
    assert(terms.subrange(0, valid_chains.len() as int) =~= terms);
    checked_headroom(size as usize)
}

impl Registry {
    /// Bytes this registry's record needs, headroom included, if that fits in a `usize`.
    pub fn checked_required_space(&self) -> (r: Option<usize>)
        ensures
            match r {
                Some(n) => n == registry_required_space(self@),
                None => registry_required_space(self@) > usize::MAX,
            },
    {
        registry_space(self.agreements.items.len(), &self.valid_chains)
    }

    /// Bytes this registry's record needs, headroom included.
    pub fn calculate_required_space(&self) -> (r: usize)
        requires
            registry_required_space(self@) <= usize::MAX,
        ensures
            r == registry_required_space(self@),
    {
        match self.checked_required_space() {
            Some(n) => n,
            None => 0,
        }
    }
}

/// Bytes an agreement with these contents needs, headroom included, if that
/// fits in a `usize`. The owner and the fixed bounty fields add a constant.
pub fn agreement_space(
    protocol_name: &String,
    contact_details: &Vec<Contact>,
    chains: &Vec<Chain>,
    diligence_requirements: &String,
    agreement_uri: &String,
) -> (r: Option<usize>)
    ensures
        forall|a: AgreementView|
            a.protocol_name == *protocol_name && a.contact_details == contact_details@ && a.chains
                == chains_view(chains@) && a.bounty_terms.diligence_requirements
                == *diligence_requirements && a.agreement_uri == *agreement_uri ==> match r {
                Some(n) => n == #[trigger] agreement_required_space(a),
                None => agreement_required_space(a) > usize::MAX,
            },
{
    let contacts = contacts_space(contact_details);
    let chain_bytes = chains_space(chains);
    match (contacts, chain_bytes) {
        (Some(c), Some(h)) => {
            let size: u128 = AGREEMENT_BASE_SPACE as u128 + string_len(protocol_name) as u128
                + c as u128 + h as u128 + string_len(diligence_requirements) as u128 + string_len(
                agreement_uri,
            ) as u128;
            if size > usize::MAX as u128 {
                return None;
            }
            checked_headroom(size as usize)
        },
        _ => None,
    }
}

impl Agreement {
    /// Bytes this agreement's record needs, headroom included, if that fits in a `usize`.
    pub fn checked_required_space(&self) -> (r: Option<usize>)
        ensures
            match r {
                Some(n) => n == agreement_required_space(self@),
                None => agreement_required_space(self@) > usize::MAX,
            },
    {
        agreement_space(
            &self.protocol_name,
            &self.contact_details,
            &self.chains,
            &self.bounty_terms.diligence_requirements,
            &self.agreement_uri,
        )
    }

    /// Bytes this agreement's record needs, headroom included.
    pub fn calculate_required_space(&self) -> (r: usize)
        requires
            agreement_required_space(self@) <= usize::MAX,
        ensures
            r == agreement_required_space(self@),
    {
        match self.checked_required_space() {
            Some(n) => n,
            None => 0,
        }
    }
}

} // verus!
