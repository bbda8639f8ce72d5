use crate::address::Address;
use crate::errors::ErrorCode;
use crate::state::Agreement;
use crate::types::{AccountInScope, BountyTerms, Chain, ChainView, bounty_terms_consistent, chains_view};
use vstd::prelude::*;
use vstd::string::StrSliceExecFns;

verus! {

/// Version of this registry's interface.
pub const VERSION: &'static str = "1.1.0";

/// The version string of this registry's interface.
pub fn version() -> (r: String)
    ensures
        r@ == VERSION@,
{
    VERSION.to_owned()
}

/// Longest protocol name a rename accepts, in bytes.
pub const MAX_PROTOCOL_NAME_LEN: usize = 128;

pub open spec fn chain_ids(s: Seq<ChainView>) -> Seq<Seq<char>> {
    s.map_values(|c: ChainView| c.caip2_chain_id@)
}

pub open spec fn account_addresses(s: Seq<AccountInScope>) -> Seq<Seq<char>> {
    s.map_values(|a: AccountInScope| a.account_address@)
}

pub open spec fn string_views(s: Seq<String>) -> Seq<Seq<char>> {
    s.map_values(|c: String| c@)
}

/// Where `id` first occurs in `keys`.
pub open spec fn index_of(keys: Seq<Seq<char>>, id: Seq<char>) -> Option<int>
    decreases keys.len(),
{
    if keys.len() == 0 {
        None
    } else {
        match index_of(keys.drop_last(), id) {
            Some(i) => Some(i),
            None => if keys.last() == id {
                Some(keys.len() - 1)
            } else {
                None
            },
        }
    }
}

pub proof fn lemma_index_of_found(keys: Seq<Seq<char>>, id: Seq<char>)
    ensures
        match index_of(keys, id) {
            Some(i) => 0 <= i < keys.len() && keys[i] == id && forall|j: int|
                0 <= j < i ==> keys[j] != id,
            None => !keys.contains(id),
        },
    decreases keys.len(),
{
    if keys.len() > 0 {
        let init = keys.drop_last();
        lemma_index_of_found(init, id);
        assert forall|j: int| 0 <= j < init.len() implies init[j] == keys[j] by {}
        match index_of(init, id) {
            Some(i) => {},
            None => {
                assert forall|j: int| 0 <= j < keys.len() - 1 implies keys[j] != id by {
                    assert(init[j] == keys[j]);
                    if keys[j] == id {
                        assert(init.contains(id));
                    }
                }
                if keys.last() != id {
                    assert forall|j: int| 0 <= j < keys.len() implies keys[j] != id by {}
                }
            },
        }
    }
}

/// A key found in a prefix is found at the same place in the whole.
pub proof fn lemma_index_of_prefix(keys: Seq<Seq<char>>, id: Seq<char>, n: int)
    requires
        0 <= n <= keys.len(),
        index_of(keys.subrange(0, n), id) is Some,
    ensures
        index_of(keys, id) == index_of(keys.subrange(0, n), id),
    decreases keys.len() - n,
{
    if n < keys.len() {
        assert(keys.subrange(0, n + 1).drop_last() =~= keys.subrange(0, n));
        lemma_index_of_prefix(keys, id, n + 1);
    } else {
        assert(keys.subrange(0, n) =~= keys);
    }
}

/// Scans `keys` for `id` from the front: the loop behind every lookup by id.
proof fn lemma_index_of_step(keys: Seq<Seq<char>>, id: Seq<char>, i: int)
    requires
        0 <= i < keys.len(),
        index_of(keys.subrange(0, i), id) is None,
    ensures
        keys[i] == id ==> index_of(keys, id) == Some(i),
        keys[i] != id ==> index_of(keys.subrange(0, i + 1), id) is None,
{
    assert(keys.subrange(0, i + 1).drop_last() =~= keys.subrange(0, i));
    if keys[i] == id {
        lemma_index_of_prefix(keys, id, i + 1);
    }
}

proof fn lemma_index_of_all(keys: Seq<Seq<char>>, id: Seq<char>)
    requires
        index_of(keys.subrange(0, keys.len() as int), id) is None,
    ensures
        index_of(keys, id) is None,
{
    assert(keys.subrange(0, keys.len() as int) =~= keys);
}

/// Fails with `Unauthorized` unless `owner` is the agreement's authority.
pub fn assert_agreement_owner(owner: Address, agreement: &Agreement) -> (r: Result<(), ErrorCode>)
    ensures
        r == (if owner@ == agreement.owner@ {
            Ok::<(), ErrorCode>(())
        } else {
            Err(ErrorCode::Unauthorized)
        }),
{
    if owner == agreement.owner {
        Ok(())
    } else {
        Err(ErrorCode::Unauthorized)
    }
}

/// Fails with `DuplicateChainId` where two network scopes share an id.
pub fn validate_no_duplicate_chain_ids(chains: &[Chain]) -> (r: Result<(), ErrorCode>)
    ensures
        r == (if chain_ids(chains_view(chains@)).no_duplicates() {
            Ok::<(), ErrorCode>(())
        } else {
            Err(ErrorCode::DuplicateChainId)
        }),
{
    let ghost ids = chain_ids(chains_view(chains@));
    let mut i: usize = 0;
    while i < chains.len()
        invariant
            ids == chain_ids(chains_view(chains@)),
            0 <= i <= chains@.len(),
            forall|a: int, b: int| 0 <= a < i && a < b < chains@.len() ==> ids[a] != ids[b],
        decreases chains.len() - i,
    {
        let mut j: usize = i + 1;
        while j < chains.len()
            invariant
                ids == chain_ids(chains_view(chains@)),
                0 <= i < chains@.len(),
                i + 1 <= j <= chains@.len(),
                forall|a: int, b: int| 0 <= a < i && a < b < chains@.len() ==> ids[a] != ids[b],
                forall|b: int| i < b < j ==> ids[i as int] != ids[b],
            decreases chains.len() - j,
        {
            if chains[i].caip2_chain_id == chains[j].caip2_chain_id {
                assert(ids[i as int] == ids[j as int]);
                return Err(ErrorCode::DuplicateChainId);
            }
            j += 1;
        }
        i += 1;
    }
    Ok(())
}

/// The position of the first network scope with id `id`; `ChainNotFound` if none.
pub fn find_chain_index(chains: &[Chain], id: &str) -> (r: Result<usize, ErrorCode>)
    ensures
        match r {
            Ok(i) => i < chains@.len() && index_of(chain_ids(chains_view(chains@)), id@) == Some(
                i as int,
            ),
            Err(e) => e == ErrorCode::ChainNotFound && index_of(
                chain_ids(chains_view(chains@)),
                id@,
            ) is None,
        },
{
    let ghost ids = chain_ids(chains_view(chains@));
    let target = id.to_owned();
    let mut i: usize = 0;
    while i < chains.len()
        invariant
            ids == chain_ids(chains_view(chains@)),
            target@ == id@,
            0 <= i <= chains@.len(),
            index_of(ids.subrange(0, i as int), id@) is None,
        decreases chains.len() - i,
    {
        proof {
            lemma_index_of_step(ids, id@, i as int);
        }
        if chains[i].caip2_chain_id == target {
            return Ok(i);
        }
        i += 1;
    }
    proof {
        lemma_index_of_all(ids, id@);
    }
    Err(ErrorCode::ChainNotFound)
}

/// The position of the first account with address `addr`; `AccountNotFound` if none.
pub fn find_account_index(accounts: &[AccountInScope], addr: &str) -> (r: Result<usize, ErrorCode>)
    ensures
        match r {
            Ok(i) => i < accounts@.len() && index_of(account_addresses(accounts@), addr@) == Some(
                i as int,
            ),
            Err(e) => e == ErrorCode::AccountNotFound && index_of(
                account_addresses(accounts@),
                addr@,
            ) is None,
        },
{
    let ghost keys = account_addresses(accounts@);
    let target = addr.to_owned();
    let mut i: usize = 0;
    while i < accounts.len()
        invariant
            keys == account_addresses(accounts@),
            target@ == addr@,
            0 <= i <= accounts@.len(),
            index_of(keys.subrange(0, i as int), addr@) is None,
        decreases accounts.len() - i,
    {
        proof {
            lemma_index_of_step(keys, addr@, i as int);
        }
        if accounts[i].account_address == target {
            return Ok(i);
        }
        i += 1;
    }
    proof {
        lemma_index_of_all(keys, addr@);
    }
    Err(ErrorCode::AccountNotFound)
}

/// The position of `id` in a list of network ids, if present.
pub fn find_string_index(v: &Vec<String>, id: &String) -> (r: Option<usize>)
    ensures
        match r {
            Some(i) => i < v@.len() && index_of(string_views(v@), id@) == Some(i as int),
            None => index_of(string_views(v@), id@) is None,
        },
{
    let ghost keys = string_views(v@);
    let mut i: usize = 0;
    while i < v.len()
        invariant
            keys == string_views(v@),
            0 <= i <= v@.len(),
            index_of(keys.subrange(0, i as int), id@) is None,
        decreases v.len() - i,
    {
        proof {
            lemma_index_of_step(keys, id@, i as int);
        }
        if v[i] == *id {
            return Some(i);
        }
        i += 1;
    }
    proof {
        lemma_index_of_all(keys, id@);
    }
    None
}

/// Whether `id` is one of the ids in `v`.
pub fn contains_string(v: &Vec<String>, id: &String) -> (r: bool)
    ensures
        r == string_views(v@).contains(id@),
{
    let found = find_string_index(v, id);
    proof {
        lemma_index_of_found(string_views(v@), id@);
    }
    found.is_some()
}

/// A network id is well formed when it is non-empty and holds a `:`
/// separating namespace and reference.
pub open spec fn is_well_formed_chain_id(s: Seq<char>) -> bool {
    s.len() > 0 && s.contains(':')
}

/// Checks the shape of a network id, without looking it up anywhere.
pub fn is_valid_chain_id(id: &String) -> (r: bool)
    ensures
        r == is_well_formed_chain_id(id@),
{
    let s = id.as_str();
    let n = s.unicode_len();
    let mut i: usize = 0;
    while i < n
        invariant
            s@ == id@,
            n == s@.len(),
            0 <= i <= n,
            forall|j: int| 0 <= j < i ==> s@[j] != ':',
        decreases n - i,
    {
        if s.get_char(i) == ':' {
            assert(s@[i as int] == ':');
            return n > 0;
        }
        i += 1;
    }
    false
}

/// Fails with `CannotSetBothAggregateBountyCapUSDAndRetainable` on terms
/// that set an aggregate cap and are retainable.
pub fn validate_bounty_terms(terms: &BountyTerms) -> (r: Result<(), ErrorCode>)
    ensures
        r == (if bounty_terms_consistent(*terms) {
            Ok::<(), ErrorCode>(())
        } else {
            Err(ErrorCode::CannotSetBothAggregateBountyCapUSDAndRetainable)
        }),
{
    if terms.aggregate_bounty_cap_usd > 0 && terms.retainable {
        Err(ErrorCode::CannotSetBothAggregateBountyCapUSDAndRetainable)
    } else {
        Ok(())
    }
}

} // verus!
