//! Text as bytes: the encoding of string slices, their comparison, and
//! appending them to a byte buffer.

use vstd::prelude::*;
use vstd::string::*;
use vstd::utf8::*;

verus! {

/// The bytes that encode `s`.
pub open spec fn text(s: &str) -> Seq<u8> {
    s.spec_bytes()
}

/// `block` written `count` times in a row.
pub open spec fn repeated(block: Seq<u8>, count: nat) -> Seq<u8>
    decreases count,
{
    if count == 0 {
        Seq::empty()
    } else {
        repeated(block, (count - 1) as nat) + block
    }
}

/// The `k`-th stretch of `width` bytes of `s`, counted from zero.
pub open spec fn stretch(s: Seq<u8>, width: nat, k: nat) -> Seq<u8> {
    s.subrange((k * width) as int, ((k + 1) * width) as int)
}

/// A repetition is as long as its copies together, and each of its
/// stretches of the block's length is the block: it holds `count` copies,
/// no more and no fewer.
pub proof fn lemma_repeated_copies(block: Seq<u8>, count: nat)
    ensures
        repeated(block, count).len() == count * block.len(),
        forall|k: nat| k < count ==> #[trigger] stretch(repeated(block, count), block.len(), k) == block,
    decreases count,
{
    let width = block.len();
    if count == 0 {
        assert(0 * width == 0) by (nonlinear_arith);
    } else {
        let fewer = (count - 1) as nat;
        let head = repeated(block, fewer);
        lemma_repeated_copies(block, fewer);
        assert(count * width == fewer * width + width) by (nonlinear_arith)
            requires
                count == fewer + 1,
        ;
        assert forall|k: nat| k < count implies #[trigger] stretch(
            repeated(block, count),
            width,
            k,
        ) == block by {
            assert((k + 1) * width == k * width + width) by (nonlinear_arith);
            if k < fewer {
                assert((k + 1) * width <= fewer * width) by (nonlinear_arith)
                    requires
                        k + 1 <= fewer,
                ;
                assert(stretch(head, width, k) == block);
                assert(stretch(head + block, width, k) =~= stretch(head, width, k));
            } else {
                assert(stretch(head + block, width, k) =~= block);
            }
        }
    }
}

/// One more copy of `block` lengthens `count` copies to `count + 1`.
pub proof fn lemma_repeated_step(block: Seq<u8>, count: nat)
    ensures
        repeated(block, count + 1) == repeated(block, count) + block,
{
}

/// Two string slices hold the same characters exactly when they hold the
/// same bytes.
pub proof fn lemma_text_injective(a: &str, b: &str)
    ensures
        text(a) == text(b) <==> a@ == b@,
{
    encode_utf8_decode_utf8(a@);
    encode_utf8_decode_utf8(b@);
}

/// Whether `a` and `b` are the same text, compared byte for byte.
pub fn same_text(a: &str, b: &str) -> (same: bool)
    ensures
        same == (a@ == b@),
{
    let left = a.as_bytes();
    let right = b.as_bytes();
    proof {
        lemma_text_injective(a, b);
    }
    if left.len() != right.len() {
        return false;
    }
    let mut i: usize = 0;
    while i < left.len()
        invariant
            left@ == text(a),
            right@ == text(b),
            text(a) == text(b) <==> a@ == b@,
            left@.len() == right@.len(),
            i <= left@.len(),
            left@.subrange(0, i as int) == right@.subrange(0, i as int),
        decreases left@.len() - i,
    {
        if left[i] != right[i] {
            return false;
        }
        assert(left@.subrange(0, i + 1) =~= left@.subrange(0, i as int).push(left@[i as int]));
        assert(right@.subrange(0, i + 1) =~= right@.subrange(0, i as int).push(right@[i as int]));
        i += 1;
    }
    assert(left@ =~= left@.subrange(0, i as int));
    assert(right@ =~= right@.subrange(0, i as int));
    true
}

/// Appends the bytes of `s` to `out`.
pub fn append(out: &mut Vec<u8>, s: &str)
    ensures
        final(out)@ == old(out)@ + text(s),
{
    out.extend_from_slice(s.as_bytes());
    assert(final(out)@ =~= old(out)@ + text(s));
}

} // verus!
