use crate::errors::ErrorCode;
use vstd::prelude::*;

verus! {

/// The largest storage region the host grants one record, in bytes.
pub const MAX_ACCOUNT_SPACE: usize = 10 * 1024 * 1024;

/// Bytes a string takes in a record: the length of its UTF-8 encoding, as the
/// machine reports it.
pub open spec fn str_len(s: String) -> nat {
    (vstd::utf8::encode_utf8(s@).len() as usize) as nat
}

/// Sum of a sequence of sizes.
pub open spec fn sum(s: Seq<nat>) -> nat
    decreases s.len(),
{
    if s.len() == 0 {
        0
    } else {
        sum(s.drop_last()) + s.last()
    }
}

pub proof fn lemma_sum_push(s: Seq<nat>, x: nat)
    ensures
        sum(s.push(x)) == sum(s) + x,
{
    assert(s.push(x).drop_last() =~= s);
}

/// A prefix never sums to more than the whole.
pub proof fn lemma_sum_prefix(s: Seq<nat>, i: int)
    requires
        0 <= i <= s.len(),
    ensures
        sum(s.subrange(0, i)) <= sum(s),
    decreases s.len(),
{
    if i < s.len() {
        lemma_sum_prefix(s.drop_last(), i);
        assert(s.drop_last().subrange(0, i) =~= s.subrange(0, i));
    } else {
        assert(s.subrange(0, i) =~= s);
    }
}

/// Changing one element changes the sum by the difference.
pub proof fn lemma_sum_update(s: Seq<nat>, i: int, x: nat)
    requires
        0 <= i < s.len(),
    ensures
        sum(s.update(i, x)) == sum(s) - s[i] + x,
    decreases s.len(),
{
    let u = s.update(i, x);
    if i == s.len() - 1 {
        assert(u.drop_last() =~= s.drop_last());
    } else {
        lemma_sum_update(s.drop_last(), i, x);
        assert(u.drop_last() =~= s.drop_last().update(i, x));
    }
}

/// Every element is at most the sum.
pub proof fn lemma_sum_element(s: Seq<nat>, i: int)
    requires
        0 <= i < s.len(),
    ensures
        s[i] <= sum(s),
{
    lemma_sum_prefix(s, i + 1);
    assert(s.subrange(0, i + 1) =~= s.subrange(0, i).push(s[i]));
    lemma_sum_push(s.subrange(0, i), s[i]);
}

/// Sizes with a quarter of headroom added, so that repeated growth is amortised.
pub open spec fn with_headroom(n: int) -> int {
    n + n / 4
}

pub proof fn lemma_headroom_monotonic(a: int, b: int)
    requires
        0 <= a <= b,
    ensures
        with_headroom(a) <= with_headroom(b),
        a < b ==> with_headroom(a) < with_headroom(b),
{
    assert(a / 4 <= b / 4) by (nonlinear_arith)
        requires
            a <= b,
    ;
}

/// `n` with headroom, if that fits in a `usize`.
pub fn checked_headroom(n: usize) -> (r: Option<usize>)
    ensures
        match r {
            Some(m) => m == with_headroom(n as int),
            None => with_headroom(n as int) > usize::MAX,
        },
{
    n.checked_add(n / 4)
}

/// The length a storage region of `data_len` bytes has once it holds
/// `required` bytes: unchanged when large enough, else exactly `required`;
/// `None` where the host cannot grant that much.
pub open spec fn grown_len(data_len: usize, required: int) -> Option<usize> {
    if required <= data_len {
        Some(data_len)
    } else if required <= MAX_ACCOUNT_SPACE {
        Some(required as usize)
    } else {
        None
    }
}

/// Grows a storage region to hold `required_space` bytes. Never shrinks it.
pub fn resize_if_needed(data_len: &mut usize, required_space: usize) -> (r: Result<(), ErrorCode>)
    ensures
        match grown_len(*old(data_len), required_space as int) {
            Some(n) => r is Ok && *final(data_len) == n,
            None => r == Err::<(), ErrorCode>(ErrorCode::InvalidRealloc) && *final(data_len) == *old(
                data_len,
            ),
        },
{
    if *data_len < required_space {
        if required_space > MAX_ACCOUNT_SPACE {
            return Err(ErrorCode::InvalidRealloc);
        }
        *data_len = required_space;
    }
    Ok(())
}

/// The bytes of a string in a record, as a `usize`.
pub fn string_len(s: &String) -> (r: usize)
    ensures
        r == str_len(*s),
{
    s.as_str().len()
}

} // verus!
