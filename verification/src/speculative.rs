//! The verified part of speculative decoding: the buffer that receives the
//! draft tokens a drafter produces.
//!
//! A draft step hands the drafter a buffer of `max_draft` placeholder tokens
//! and the capacity as a C `int`; the drafter writes its tokens to the front
//! of the buffer and reports how many it wrote, and the buffer is then cut to
//! that many.

use vstd::prelude::*;
use crate::token::LlamaToken;

verus! {

/// The token that fills a draft buffer before the drafter writes to it.
pub open spec fn placeholder() -> LlamaToken {
    LlamaToken(0)
}

/// A draft buffer of `max_draft` placeholder tokens.
pub open spec fn fresh_draft(max_draft: nat) -> Seq<LlamaToken> {
    Seq::new(max_draft, |i: int| placeholder())
}

/// What remains of a filled draft buffer `buffer` when the drafter reports
/// `n` tokens: its first `n` tokens, none when `n` is not positive, and the
/// whole buffer when `n` exceeds its length.
pub open spec fn drafted(buffer: Seq<LlamaToken>, n: i32) -> Seq<LlamaToken> {
    if n <= 0 {
        Seq::empty()
    } else if n <= buffer.len() {
        buffer.take(n as int)
    } else {
        buffer
    }
}

/// Empties `out` and fills it with `max_draft` placeholder tokens, the buffer
/// a draft step hands to the drafter.
pub fn prepare_draft_buffer(out: &mut Vec<LlamaToken>, max_draft: usize)
    ensures
        final(out)@ == fresh_draft(max_draft as nat),
        final(out)@.len() == max_draft,
        forall|i: int| 0 <= i < max_draft ==> #[trigger] final(out)@[i] == LlamaToken(0),
        max_draft <= i32::MAX ==> final(out)@.len() == draft_capacity_spec(max_draft),
{
    out.clear();
    out.resize(max_draft, LlamaToken(0));
    assert(final(out)@ =~= fresh_draft(max_draft as nat));
    proof {
        lemma_fresh_draft_shape(max_draft as nat);
    }
}

/// The capacity the drafter receives for a buffer of `max_draft` tokens.
pub open spec fn draft_capacity_spec(max_draft: usize) -> i32 {
    max_draft as i32
}

/// The capacity of a draft buffer as the C `int` the drafter receives: the
/// length converted with `as`, which wraps above `i32::MAX`.
pub fn draft_capacity(max_draft: usize) -> (capacity: i32)
    ensures
        capacity == max_draft as i32,
        capacity == draft_capacity_spec(max_draft),
        max_draft <= i32::MAX ==> capacity == max_draft,
{
    max_draft as i32
}

/// Cuts the filled draft buffer `out` to the `n` tokens the drafter reports
/// having written.
pub fn keep_drafted(out: &mut Vec<LlamaToken>, n: i32)
    ensures
        final(out)@ == drafted(old(out)@, n),
{
    let keep: usize = if n > 0 {
        n as usize
    } else {
        0
    };
    out.truncate(keep);
}

/// A draft step keeps at most as many tokens as its buffer holds, and what it
/// keeps is the front of the buffer: `min(max(n, 0), buffer.len())` tokens.
pub proof fn lemma_draft_bounded_by_buffer(buffer: Seq<LlamaToken>, n: i32)
    ensures
        drafted(buffer, n).len() <= buffer.len(),
        drafted(buffer, n) == buffer.take(drafted(buffer, n).len() as int),
        drafted(buffer, n).len() == (if n <= 0 {
            0
        } else if n <= buffer.len() {
            n as int
        } else {
            buffer.len() as int
        }),
{
    if n > buffer.len() {
        assert(buffer.take(buffer.len() as int) =~= buffer);
    }
}

/// A fresh draft buffer of `max_draft` tokens that a drafter has filled keeps,
/// after the step, at most `max_draft` tokens.
pub proof fn lemma_draft_at_most_max(max_draft: nat, filled: Seq<LlamaToken>, n: i32)
    requires
        filled.len() == fresh_draft(max_draft).len(),
    ensures
        drafted(filled, n).len() <= max_draft,
{
    lemma_draft_bounded_by_buffer(filled, n);
}

/// A fresh draft buffer for `max_draft` tokens holds exactly `max_draft`
/// tokens, each of them `LlamaToken(0)`.
pub proof fn lemma_fresh_draft_shape(max_draft: nat)
    ensures
        fresh_draft(max_draft).len() == max_draft,
        forall|i: int| 0 <= i < max_draft ==> #[trigger] fresh_draft(max_draft)[i] == LlamaToken(0),
{
}

/// The buffer a draft step prepares holds exactly as many tokens as the
/// capacity the drafter is told, whenever that capacity fits into a C `int`.
pub proof fn lemma_fresh_draft_matches_capacity(max_draft: usize)
    requires
        max_draft <= i32::MAX,
    ensures
        fresh_draft(max_draft as nat).len() == draft_capacity_spec(max_draft),
        draft_capacity_spec(max_draft) == max_draft,
{
    lemma_fresh_draft_shape(max_draft as nat);
}

} // verus!
