//! The difficulty test that every engine's `verify` applies to a digest.

use vstd::prelude::*;

verus! {

/// Every byte of `target` is `0xFF`.
pub open spec fn all_ones(target: Seq<u8>) -> bool {
    forall|i: int| 0 <= i < target.len() ==> target[i] == 0xFFu8
}

/// `a` comes strictly before `b` in lexicographic order: either they agree up
/// to some position where `a` holds the smaller byte, or `a` is a proper
/// prefix of `b`.
pub open spec fn lex_less(a: Seq<u8>, b: Seq<u8>) -> bool {
    ||| exists|k: int|
        0 <= k < a.len() && k < b.len() && a[k] < b[k] && a.subrange(0, k) == b.subrange(0, k)
    ||| a.len() < b.len() && a == b.subrange(0, a.len() as int)
}

/// Whether `digest` satisfies `target`: an empty target is never met, a target
/// of `0xFF` bytes always is, and any other target is met by a digest of the
/// same length that comes strictly before it in lexicographic order.
pub open spec fn meets_target(digest: Seq<u8>, target: Seq<u8>) -> bool {
    if target.len() == 0 {
        false
    } else if all_ones(target) {
        true
    } else {
        digest.len() == target.len() && lex_less(digest, target)
    }
}

/// Tells whether every byte of `target` is `0xFF`.
pub fn is_all_ones(target: &[u8]) -> (r: bool)
    ensures
        r == all_ones(target@),
{
    let mut i: usize = 0;
    while i < target.len()
        invariant
            i <= target.len(),
            forall|j: int| 0 <= j < i ==> target@[j] == 0xFFu8,
        decreases target.len() - i,
    {
        if target[i] != 0xFF {
            return false;
        }
        i += 1;
    }
    true
}

/// Tells whether `a` comes strictly before `b` in lexicographic order.
pub fn is_lex_less(a: &[u8], b: &[u8]) -> (r: bool)
    ensures
        r == lex_less(a@, b@),
{
    let mut i: usize = 0;
    while i < a.len() && i < b.len()
        invariant
            i <= a.len(),
            i <= b.len(),
            a@.subrange(0, i as int) == b@.subrange(0, i as int),
        decreases a.len() - i,
    {
        if a[i] < b[i] {
            return true;
        }
        if a[i] > b[i] {
            proof {
                lemma_first_difference_decides(a@, b@, i as int);
            }
            return false;
        }
        proof {
            assert(a@.subrange(0, i + 1) =~= a@.subrange(0, i as int).push(a@[i as int]));
            assert(b@.subrange(0, i + 1) =~= b@.subrange(0, i as int).push(b@[i as int]));
        }
        i += 1;
    }
    proof {
        lemma_prefix_decides(a@, b@, i as int);
    }
    a.len() < b.len()
}

/// Tells whether `digest` satisfies `target`.
pub fn check_target(digest: &[u8], target: &[u8]) -> (r: bool)
    ensures
        r == meets_target(digest@, target@),
{
    if target.len() == 0 {
        false
    } else if is_all_ones(target) {
        true
    } else {
        digest.len() == target.len() && is_lex_less(digest, target)
    }
}

/// Where two strings first differ and `a` holds the larger byte there, `a`
/// does not come before `b`.
proof fn lemma_first_difference_decides(a: Seq<u8>, b: Seq<u8>, i: int)
    requires
        0 <= i < a.len(),
        i < b.len(),
        a.subrange(0, i) == b.subrange(0, i),
        a[i] > b[i],
    ensures
        !lex_less(a, b),
{
    assert forall|k: int|
        0 <= k < a.len() && k < b.len() && a[k] < b[k] implies a.subrange(0, k) != b.subrange(
        0,
        k,
    ) by {
        if k < i {
            assert(a.subrange(0, i)[k] == a[k]);
            assert(b.subrange(0, i)[k] == b[k]);
        } else {
            assert(a.subrange(0, k)[i] == a[i]);
            assert(b.subrange(0, k)[i] == b[i]);
        }
    }
    if a.len() < b.len() {
        assert(b.subrange(0, a.len() as int)[i] == b[i]);
    }
}

/// Where the shorter of two strings is a prefix of the other, `a` comes before
/// `b` exactly if it is the shorter one.
proof fn lemma_prefix_decides(a: Seq<u8>, b: Seq<u8>, i: int)
    requires
        i == a.len() || i == b.len(),
        0 <= i <= a.len(),
        i <= b.len(),
        a.subrange(0, i) == b.subrange(0, i),
    ensures
        lex_less(a, b) == (a.len() < b.len()),
{
    assert forall|k: int|
        0 <= k < a.len() && k < b.len() && a[k] < b[k] implies a.subrange(0, k) != b.subrange(
        0,
        k,
    ) by {
        assert(a.subrange(0, i)[k] == a[k]);
        assert(b.subrange(0, i)[k] == b[k]);
    }
    if a.len() < b.len() {
        assert(a =~= a.subrange(0, i));
    }
}

} // verus!
