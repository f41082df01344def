//! Null-terminated byte strings, as the C interfaces take and return them.
use vstd::prelude::*;

verus! {

/// Whether `s` holds a null byte anywhere.
pub open spec fn has_nul(s: Seq<u8>) -> bool {
    exists|i: int| 0 <= i < s.len() && s[i] == 0
}

/// The index of the first null byte of `s`, or its length when it holds none.
pub open spec fn first_nul(s: Seq<u8>) -> nat
    decreases s.len(),
{
    if s.len() == 0 {
        0
    } else if s[0] == 0 {
        0
    } else {
        1 + first_nul(s.drop_first())
    }
}

/// The bytes of `s` before its first null byte: what C reads as the string.
pub open spec fn until_nul(s: Seq<u8>) -> Seq<u8> {
    s.take(first_nul(s) as int)
}

pub proof fn lemma_first_nul(s: Seq<u8>)
    ensures
        first_nul(s) <= s.len(),
        forall|i: int| 0 <= i < first_nul(s) ==> s[i] != 0,
        first_nul(s) < s.len() ==> s[first_nul(s) as int] == 0,
        has_nul(s) <==> first_nul(s) < s.len(),
    decreases s.len(),
{
    if s.len() > 0 && s[0] != 0 {
        lemma_first_nul(s.drop_first());
        assert forall|i: int| 0 <= i < first_nul(s) implies s[i] != 0 by {
            if i > 0 {
                assert(s[i] == s.drop_first()[i - 1]);
            }
        }
        if has_nul(s) {
            let j = choose|j: int| 0 <= j < s.len() && s[j] == 0;
            assert(s.drop_first()[j - 1] == 0);
        }
        if first_nul(s) < s.len() {
            assert(s[first_nul(s) as int] == s.drop_first()[first_nul(s.drop_first()) as int]);
        }
    }
}

/// Finds the first null byte of `bytes`; its length when there is none.
pub fn find_nul(bytes: &[u8]) -> (r: usize)
    ensures
        r == first_nul(bytes@),
{
    proof {
        lemma_first_nul(bytes@);
    }
    let mut i: usize = 0;
    while i < bytes.len() && bytes[i] != 0
        invariant
            i <= bytes@.len(),
            forall|k: int| 0 <= k < i ==> bytes@[k] != 0,
        decreases bytes.len() - i,
    {
        i = i + 1;
    }
    proof {
        lemma_first_nul_at(bytes@, i as nat);
    }
    i
}

/// The first null byte of `s` is the first index at which a null byte or
/// the end is met.
pub proof fn lemma_first_nul_at(s: Seq<u8>, i: nat)
    requires
        i <= s.len(),
        forall|k: int| 0 <= k < i ==> s[k] != 0,
        i == s.len() || s[i as int] == 0,
    ensures
        first_nul(s) == i,
    decreases s.len(),
{
    if i > 0 {
        assert forall|k: int| 0 <= k < i - 1 implies s.drop_first()[k] != 0 by {
            assert(s.drop_first()[k] == s[k + 1]);
        }
        if i < s.len() {
            assert(s.drop_first()[i - 1] == s[i as int]);
        }
        lemma_first_nul_at(s.drop_first(), (i - 1) as nat);
    }
}

/// Copies the bytes of `bytes` that come before its first null byte.
pub fn bytes_until_nul(bytes: &[u8]) -> (r: Vec<u8>)
    ensures
        r@ == until_nul(bytes@),
        !has_nul(r@),
{
    proof {
        lemma_first_nul(bytes@);
    }
    let n = find_nul(bytes);
    let mut out: Vec<u8> = Vec::new();
    let mut i: usize = 0;
    while i < n
        invariant
            n == first_nul(bytes@),
            n <= bytes@.len(),
            i <= n,
            out@ == bytes@.take(i as int),
        decreases n - i,
    {
        out.push(bytes[i]);
        i = i + 1;
        assert(out@ =~= bytes@.take(i as int));
    }
    assert(out@ =~= until_nul(bytes@));
    out
}

/// The null-terminated form of `bytes`: `Ok` with the bytes and a final null
/// byte when `bytes` holds none, otherwise `Err` with the index of its first
/// null byte.
pub fn to_c_bytes(bytes: &[u8]) -> (r: Result<Vec<u8>, usize>)
    ensures
        match r {
            Ok(v) => !has_nul(bytes@) && v@ == bytes@.push(0),
            Err(p) => has_nul(bytes@) && p == first_nul(bytes@),
        },
{
    proof {
        lemma_first_nul(bytes@);
    }
    let n = find_nul(bytes);
    if n < bytes.len() {
        return Err(n);
    }
    let mut out = bytes_until_nul(bytes);
    assert(until_nul(bytes@) =~= bytes@);
    out.push(0);
    Ok(out)
}

} // verus!
