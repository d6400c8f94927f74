//! Nesting of parentheses in a text.

use vstd::prelude::*;
use crate::text::repeated;

verus! {

/// What a byte adds to the nesting depth: an opening parenthesis one, a
/// closing parenthesis minus one, any other byte nothing.
pub open spec fn weight(byte: u8) -> int {
    if byte == 40 {
        1
    } else if byte == 41 {
        -1
    } else {
        0
    }
}

/// The nesting depth after the first `end` bytes of `s`.
pub open spec fn depth(s: Seq<u8>, end: nat) -> int
    decreases end,
{
    if end == 0 {
        0
    } else {
        depth(s, (end - 1) as nat) + weight(s[end - 1])
    }
}

/// The lowest nesting depth reached within the first `end` bytes of `s`.
pub open spec fn lowest(s: Seq<u8>, end: nat) -> int
    decreases end,
{
    if end == 0 {
        0
    } else if depth(s, end) < lowest(s, (end - 1) as nat) {
        depth(s, end)
    } else {
        lowest(s, (end - 1) as nat)
    }
}

/// `s` changes the nesting depth by `net` in all and never takes it below
/// `floor` on the way.
pub open spec fn spans(s: Seq<u8>, floor: int, net: int) -> bool {
    &&& depth(s, s.len()) == net
    &&& forall|i: nat| i <= s.len() ==> #[trigger] depth(s, i) >= floor
}

/// From its first byte on, `s` is inside at least one pair of parentheses.
pub open spec fn stays_open(s: Seq<u8>) -> bool {
    forall|i: nat| 0 < i <= s.len() ==> #[trigger] depth(s, i) >= 1
}

/// `s` is one parenthesised expression: the parenthesis that its first byte
/// opens is closed by its last byte and not before, and no parenthesis is
/// closed that was not opened.
pub open spec fn one_expression(s: Seq<u8>) -> bool {
    &&& s.len() >= 2
    &&& depth(s, s.len()) == 0
    &&& forall|i: nat| 0 < i < s.len() ==> #[trigger] depth(s, i) > 0
}

/// The depth within `a + b` is that within `a`, and then that of `a` as a
/// whole plus that within `b`.
pub proof fn lemma_depth_concat(a: Seq<u8>, b: Seq<u8>, i: nat)
    requires
        i <= a.len() + b.len(),
    ensures
        depth(a + b, i) == if i <= a.len() {
            depth(a, i)
        } else {
            depth(a, a.len()) + depth(b, (i - a.len()) as nat)
        },
    decreases i,
{
    if i > 0 {
        lemma_depth_concat(a, b, (i - 1) as nat);
        if i <= a.len() {
            assert((a + b)[i - 1] == a[i - 1]);
        } else {
            let j = (i - a.len()) as nat;
            assert((a + b)[i - 1] == b[j - 1]);
            assert(depth(b, 0) == 0);
            assert(depth(b, j) == depth(b, (j - 1) as nat) + weight(b[j - 1]));
        }
    }
}

/// No prefix of the first `end` bytes lies deeper down than `lowest` says.
pub proof fn lemma_lowest_bounds(s: Seq<u8>, end: nat)
    ensures
        forall|i: nat| i <= end ==> #[trigger] depth(s, i) >= lowest(s, end),
    decreases end,
{
    if end > 0 {
        lemma_lowest_bounds(s, (end - 1) as nat);
    }
}

/// Two texts in a row: the changes add up, and the floor is the lower of the
/// first floor and the second floor as seen from where the first text ends.
pub proof fn lemma_spans_concat(a: Seq<u8>, fa: int, na: int, b: Seq<u8>, fb: int, nb: int)
    requires
        spans(a, fa, na),
        spans(b, fb, nb),
    ensures
        spans(
            a + b,
            if fa <= na + fb {
                fa
            } else {
                na + fb
            },
            na + nb,
        ),
{
    let floor = if fa <= na + fb {
        fa
    } else {
        na + fb
    };
    lemma_depth_concat(a, b, (a + b).len());
    assert forall|i: nat| i <= (a + b).len() implies #[trigger] depth(a + b, i) >= floor by {
        lemma_depth_concat(a, b, i);
        if i > a.len() {
            assert(depth(b, (i - a.len()) as nat) >= fb);
        }
    }
}

/// A text that stays open still does so when a text follows that does not
/// close the last open parenthesis.
pub proof fn lemma_stays_open_concat(a: Seq<u8>, na: int, b: Seq<u8>, fb: int, nb: int)
    requires
        stays_open(a),
        depth(a, a.len()) == na,
        spans(b, fb, nb),
        na + fb >= 1,
    ensures
        stays_open(a + b),
        depth(a + b, (a + b).len()) == na + nb,
{
    lemma_depth_concat(a, b, (a + b).len());
    assert(depth(b, 0) >= fb);
    assert forall|i: nat| 0 < i <= (a + b).len() implies #[trigger] depth(a + b, i) >= 1 by {
        lemma_depth_concat(a, b, i);
        if i > a.len() {
            assert(depth(b, (i - a.len()) as nat) >= fb);
        }
    }
}

/// A text without parentheses leaves the depth where it was.
pub proof fn lemma_spans_plain(s: Seq<u8>)
    requires
        forall|i: int| 0 <= i < s.len() ==> weight(#[trigger] s[i]) == 0,
    ensures
        spans(s, 0, 0),
{
    assert forall|i: nat| i <= s.len() implies #[trigger] depth(s, i) == 0 by {
        lemma_depth_plain(s, i);
    }
}

proof fn lemma_depth_plain(s: Seq<u8>, i: nat)
    requires
        forall|k: int| 0 <= k < s.len() ==> weight(#[trigger] s[k]) == 0,
        i <= s.len(),
    ensures
        depth(s, i) == 0,
    decreases i,
{
    if i > 0 {
        lemma_depth_plain(s, (i - 1) as nat);
    }
}

/// Copies of a text that closes what it opens do so too.
pub proof fn lemma_spans_repeated(block: Seq<u8>, count: nat)
    requires
        spans(block, 0, 0),
    ensures
        spans(repeated(block, count), 0, 0),
    decreases count,
{
    if count > 0 {
        lemma_spans_repeated(block, (count - 1) as nat);
        lemma_spans_concat(repeated(block, (count - 1) as nat), 0, 0, block, 0, 0);
    }
}

} // verus!
