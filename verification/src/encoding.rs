//! The byte string that a block's digest is taken over.

use vstd::prelude::*;

verus! {

/// The ASCII digit for `d`, for `d` below ten.
pub open spec fn digit(d: nat) -> u8 {
    (48 + d) as u8
}

/// The decimal representation of `n` in ASCII, most significant digit first,
/// without leading zeros (`0` is written `"0"`).
pub open spec fn decimal(n: nat) -> Seq<u8>
    decreases n,
{
    if n < 10 {
        seq![digit(n)]
    } else {
        decimal(n / 10).push(digit(n % 10))
    }
}

/// Appends the decimal representation of `n` to `out`.
pub fn push_decimal(out: &mut Vec<u8>, n: u128)
    ensures
        final(out)@ == old(out)@ + decimal(n as nat),
    decreases n,
{
    if n >= 10 {
        push_decimal(out, n / 10);
    }
    let d: u8 = (n % 10) as u8;
    out.push(48 + d);
}

/// The bytes that the digest of a block is taken over: the block's index in
/// decimal, the digest of its predecessor, the whole seconds of its timestamp
/// in decimal, and its payload, one after the other with nothing between.
pub open spec fn digest_input(
    index: nat,
    previous_hash: Seq<u8>,
    secs: nat,
    data: Seq<u8>,
) -> Seq<u8> {
    decimal(index) + previous_hash + decimal(secs) + data
}

/// Builds the bytes that the digest of a block is taken over.
pub fn build_digest_input(index: u64, previous_hash: &[u8], secs: u128, data: &[u8]) -> (out: Vec<
    u8,
>)
    ensures
        out@ == digest_input(index as nat, previous_hash@, secs as nat, data@),
{
    let mut out: Vec<u8> = Vec::new();
    push_decimal(&mut out, index as u128);
    out.extend_from_slice(previous_hash);
    push_decimal(&mut out, secs);
    out.extend_from_slice(data);
    out
}

/// A decimal representation has at least one digit.
pub proof fn lemma_decimal_nonempty(n: nat)
    ensures
        decimal(n).len() >= 1,
    decreases n,
{
    if n >= 10 {
        lemma_decimal_nonempty(n / 10);
    }
}

/// Different numbers have different decimal representations.
pub proof fn lemma_decimal_injective(a: nat, b: nat)
    requires
        decimal(a) == decimal(b),
    ensures
        a == b,
    decreases a,
{
    if a < 10 && b < 10 {
        assert(decimal(a)[0] == digit(a));
        assert(decimal(b)[0] == digit(b));
    } else if a < 10 {
        lemma_decimal_nonempty(b / 10);
    } else if b < 10 {
        lemma_decimal_nonempty(a / 10);
    } else {
        assert(decimal(a).drop_last() == decimal(a / 10));
        assert(decimal(b).drop_last() == decimal(b / 10));
        assert(decimal(a).last() == digit(a % 10));
        assert(decimal(b).last() == digit(b % 10));
        lemma_decimal_injective(a / 10, b / 10);
    }
}

/// Two byte strings that are equal after the same bytes have been put before
/// and behind each are equal.
pub proof fn lemma_concat_cancel(before: Seq<u8>, x: Seq<u8>, y: Seq<u8>, behind: Seq<u8>)
    requires
        before + x + behind == before + y + behind,
    ensures
        x == y,
{
    let whole = before + x + behind;
    assert(whole.len() == before.len() + y.len() + behind.len());
    assert(x == whole.subrange(before.len() as int, (before.len() + x.len()) as int));
    assert(y == whole.subrange(before.len() as int, (before.len() + y.len()) as int));
}

/// Another index gives other bytes to hash.
pub proof fn lemma_index_changes_input(
    index: nat,
    index2: nat,
    previous_hash: Seq<u8>,
    secs: nat,
    data: Seq<u8>,
)
    requires
        index != index2,
    ensures
        digest_input(index, previous_hash, secs, data) != digest_input(
            index2,
            previous_hash,
            secs,
            data,
        ),
{
    let a = digest_input(index, previous_hash, secs, data);
    let b = digest_input(index2, previous_hash, secs, data);
    if a == b {
        let none = Seq::<u8>::empty();
        let behind = previous_hash + decimal(secs) + data;
        assert(a == none + decimal(index) + behind);
        assert(b == none + decimal(index2) + behind);
        lemma_concat_cancel(none, decimal(index), decimal(index2), behind);
        lemma_decimal_injective(index, index2);
    }
}

/// Another predecessor's digest gives other bytes to hash.
pub proof fn lemma_previous_hash_changes_input(
    index: nat,
    previous_hash: Seq<u8>,
    previous_hash2: Seq<u8>,
    secs: nat,
    data: Seq<u8>,
)
    requires
        previous_hash != previous_hash2,
    ensures
        digest_input(index, previous_hash, secs, data) != digest_input(
            index,
            previous_hash2,
            secs,
            data,
        ),
{
    let a = digest_input(index, previous_hash, secs, data);
    let b = digest_input(index, previous_hash2, secs, data);
    if a == b {
        let behind = decimal(secs) + data;
        assert(a == decimal(index) + previous_hash + behind);
        assert(b == decimal(index) + previous_hash2 + behind);
        lemma_concat_cancel(decimal(index), previous_hash, previous_hash2, behind);
    }
}

/// Another second of the timestamp gives other bytes to hash.
pub proof fn lemma_secs_changes_input(
    index: nat,
    previous_hash: Seq<u8>,
    secs: nat,
    secs2: nat,
    data: Seq<u8>,
)
    requires
        secs != secs2,
    ensures
        digest_input(index, previous_hash, secs, data) != digest_input(
            index,
            previous_hash,
            secs2,
            data,
        ),
{
    let a = digest_input(index, previous_hash, secs, data);
    let b = digest_input(index, previous_hash, secs2, data);
    if a == b {
        lemma_concat_cancel(decimal(index) + previous_hash, decimal(secs), decimal(secs2), data);
        lemma_decimal_injective(secs, secs2);
    }
}

/// Another payload gives other bytes to hash.
pub proof fn lemma_data_changes_input(
    index: nat,
    previous_hash: Seq<u8>,
    secs: nat,
    data: Seq<u8>,
    data2: Seq<u8>,
)
    requires
        data != data2,
    ensures
        digest_input(index, previous_hash, secs, data) != digest_input(
            index,
            previous_hash,
            secs,
            data2,
        ),
{
    let a = digest_input(index, previous_hash, secs, data);
    let b = digest_input(index, previous_hash, secs, data2);
    if a == b {
        let none = Seq::<u8>::empty();
        let before = decimal(index) + previous_hash + decimal(secs);
        assert(a == before + data + none);
        assert(b == before + data2 + none);
        lemma_concat_cancel(before, data, data2, none);
    }
}

} // verus!
