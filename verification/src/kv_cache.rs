//! Utilities for working with the KV cache.

use vstd::prelude::*;
use std::num::TryFromIntError;

verus! {

/// `<i32 as TryFrom<u32>>::try_from`: std documents that the conversion fails
/// exactly when the value lies outside the range of `i32`, and otherwise
/// gives the same number. What the error value holds is not stated.
pub assume_specification[ <i32 as TryFrom<u32>>::try_from ](v: u32) -> (res: Result<
    i32,
    <i32 as TryFrom<u32>>::Error,
>)
    ensures
        res is Ok <==> v <= i32::MAX,
        res matches Ok(x) ==> x == v,
;

/// Errors that can occur when attempting to prepare values for the KV cache.
#[derive(Debug, Eq, PartialEq)]
pub enum KvCacheConversionError {
    /// The sequence id does not fit into an `i32`.
    SeqIdTooLarge(TryFromIntError),
    /// The start position does not fit into an `i32`.
    P0TooLarge(TryFromIntError),
    /// The end position does not fit into an `i32`.
    P1TooLarge(TryFromIntError),
}

/// One row of a context's memory breakdown: what one buffer type
/// (CPU, Metal, CUDA0, ...) holds for the model, the KV cache and the
/// compute scratch buffers, in bytes.
#[derive(Debug, Clone)]
pub struct MemoryBreakdownEntry {
    /// Name of the buffer type ("CPU", "Metal", "CUDA0", ...).
    pub buft_name: String,
    /// Model weights resident on this buffer.
    pub model_bytes: usize,
    /// Context allocations (KV cache, embedding output, etc.).
    pub context_bytes: usize,
    /// Compute scratch buffers reserved for graph evaluation.
    pub compute_bytes: usize,
}

impl MemoryBreakdownEntry {
    /// The bytes of the three kinds together, as a mathematical integer.
    pub open spec fn spec_total_bytes(&self) -> int {
        self.model_bytes + self.context_bytes + self.compute_bytes
    }

    /// Total bytes attributed to this buffer.
    pub fn total_bytes(&self) -> (total: usize)
        requires
            self.model_bytes + self.context_bytes + self.compute_bytes <= usize::MAX,
        ensures
            total == self.spec_total_bytes(),
            total == self.model_bytes + self.context_bytes + self.compute_bytes,
    {
        self.model_bytes + self.context_bytes + self.compute_bytes
    }
}

/// Whether an optional sequence id or position can be handed to llama.cpp:
/// an absent one always can, a present one when it fits into an `i32`.
pub open spec fn fits_i32(p: Option<u32>) -> bool {
    match p {
        None => true,
        Some(v) => v <= i32::MAX,
    }
}

/// The value llama.cpp receives for an optional sequence id or bound.
/// llama.cpp reads a negative sequence id as "any sequence" and a negative
/// bound as open (`p0 < 0` is the start, `p1 < 0` the end of the cache), so
/// an absent value becomes `-1`.
pub open spec fn encoded(p: Option<u32>) -> i32
    recommends
        fits_i32(p),
{
    match p {
        None => -1i32,
        Some(v) => v as i32,
    }
}

/// How llama.cpp reads a sequence id or bound it receives: a negative one as
/// absent (any sequence, an open bound), any other as the value itself.
pub open spec fn decoded(p: i32) -> Option<u32> {
    if p < 0 {
        None
    } else {
        Some(p as u32)
    }
}

/// Turns an optional sequence id or position into the `i32` that llama.cpp
/// takes, `-1` standing for an absent one. Fails when the value exceeds
/// `i32::MAX`.
pub fn encode_optional(p: Option<u32>) -> (res: Result<i32, TryFromIntError>)
    ensures
        res is Ok <==> fits_i32(p),
        res matches Ok(x) ==> x == encoded(p),
{
    match p {
        None => Ok(-1),
        Some(v) => i32::try_from(v),
    }
}

/// One call into llama.cpp's memory (KV cache) API, with the arguments it
/// receives. The host program makes the call on the context's memory.
#[derive(Debug, Clone, Copy, PartialEq, Eq, Structural)]
pub enum MemoryCall {
    /// `llama_memory_clear(mem, data)`.
    Clear { data: bool },
    /// `llama_memory_seq_rm(mem, seq_id, p0, p1)`; answers whether the
    /// removal succeeded.
    SeqRemove { seq_id: i32, p0: i32, p1: i32 },
    /// `llama_memory_seq_cp(mem, src, dest, p0, p1)`.
    SeqCopy { src: i32, dest: i32, p0: i32, p1: i32 },
    /// `llama_memory_seq_keep(mem, seq_id)`.
    SeqKeep { seq_id: i32 },
    /// `llama_memory_seq_add(mem, seq_id, p0, p1, delta)`.
    SeqAdd { seq_id: i32, p0: i32, p1: i32, delta: i32 },
    /// `llama_memory_seq_div(mem, seq_id, p0, p1, d)`.
    SeqDiv { seq_id: i32, p0: i32, p1: i32, d: i32 },
    /// `llama_memory_seq_pos_min(mem, seq_id)`; answers a position.
    SeqPosMin { seq_id: i32 },
    /// `llama_memory_seq_pos_max(mem, seq_id)`; answers a position.
    SeqPosMax { seq_id: i32 },
}

/// The status llama.cpp's helper functions report on success.
pub const LLAMA_RS_STATUS_OK: i32 = 0;

/// Whether a status reported by one of llama.cpp's helper functions means
/// success.
pub fn status_is_ok(status: i32) -> (ok: bool)
    ensures
        ok == (status == LLAMA_RS_STATUS_OK),
{
    status == LLAMA_RS_STATUS_OK
}

/// One entry of a memory breakdown as llama.cpp reports it, its buffer-type
/// name already read: `None` where llama.cpp gave no name.
pub struct RawMemoryEntry {
    /// Name of the buffer type, if llama.cpp gave one.
    pub buft_name: Option<String>,
    /// Model weights resident on this buffer.
    pub model_bytes: usize,
    /// Context allocations (KV cache, embedding output, etc.).
    pub context_bytes: usize,
    /// Compute scratch buffers reserved for graph evaluation.
    pub compute_bytes: usize,
}

/// The name an entry of the breakdown gets: the one llama.cpp gave, or the
/// empty string.
pub open spec fn entry_name(name: Option<String>) -> Seq<char> {
    match name {
        Some(s) => s@,
        None => Seq::empty(),
    }
}

/// Whether `entry` is the breakdown entry that `raw` describes.
pub open spec fn describes(raw: RawMemoryEntry, entry: MemoryBreakdownEntry) -> bool {
    &&& entry.buft_name@ == entry_name(raw.buft_name)
    &&& entry.model_bytes == raw.model_bytes
    &&& entry.context_bytes == raw.context_bytes
    &&& entry.compute_bytes == raw.compute_bytes
}

/// Whether the breakdown that llama.cpp reported can be read: it reported
/// success, handed out an array, and the array is not empty. Where it cannot,
/// the context's breakdown is empty.
pub fn breakdown_available(status: i32, entries_present: bool, count: usize) -> (available: bool)
    ensures
        available == (status == LLAMA_RS_STATUS_OK && entries_present && count != 0),
{
    status_is_ok(status) && entries_present && count != 0
}

impl MemoryBreakdownEntry {
    /// The breakdown entry that one reported entry describes.
    pub fn from_raw(raw: &RawMemoryEntry) -> (entry: MemoryBreakdownEntry)
        ensures
            describes(*raw, entry),
            entry.buft_name@ == (match raw.buft_name {
                Some(name) => name@,
                None => Seq::<char>::empty(),
            }),
            entry.model_bytes == raw.model_bytes,
            entry.context_bytes == raw.context_bytes,
            entry.compute_bytes == raw.compute_bytes,
    {
        let buft_name = match &raw.buft_name {
            Some(name) => name.clone(),
            None => String::new(),
        };
        MemoryBreakdownEntry {
            buft_name,
            model_bytes: raw.model_bytes,
            context_bytes: raw.context_bytes,
            compute_bytes: raw.compute_bytes,
        }
    }
}

/// The memory breakdown of a context from the entries llama.cpp reported, one
/// entry for each, in the same order.
pub fn memory_breakdown_entries(raw: &Vec<RawMemoryEntry>) -> (entries: Vec<MemoryBreakdownEntry>)
    ensures
        entries.len() == raw.len(),
        forall|i: int| 0 <= i < raw.len() ==> describes(#[trigger] raw@[i], entries@[i]),
        forall|i: int|
            0 <= i < raw.len() ==> {
                &&& (#[trigger] entries@[i]).model_bytes == raw@[i].model_bytes
                &&& entries@[i].context_bytes == raw@[i].context_bytes
                &&& entries@[i].compute_bytes == raw@[i].compute_bytes
                &&& entries@[i].buft_name@ == (match raw@[i].buft_name {
                    Some(name) => name@,
                    None => Seq::<char>::empty(),
                })
            },
{
    let mut entries: Vec<MemoryBreakdownEntry> = Vec::new();
    for i in 0..raw.len()
        invariant
            entries.len() == i,
            forall|j: int| 0 <= j < i ==> describes(#[trigger] raw@[j], entries@[j]),
    {
        entries.push(MemoryBreakdownEntry::from_raw(&raw[i]));
    }
    entries
}

impl MemoryCall {
    /// Copy the cache from one sequence to another, positions `[0, size)`.
    pub fn copy_cache(src: i32, dest: i32, size: i32) -> (call: MemoryCall)
        ensures
            call == (MemoryCall::SeqCopy { src, dest, p0: 0, p1: size }),
    {
        MemoryCall::SeqCopy { src, dest, p0: 0, p1: size }
    }

    /// Copy the cache of sequence `src` to sequence `dest` within `[p0, p1)`;
    /// an absent bound leaves that side of the range open.
    ///
    /// Fails, before any call, when a position exceeds `i32::MAX`; `p0` is
    /// checked first.
    pub fn copy_kv_cache_seq(src: i32, dest: i32, p0: Option<u32>, p1: Option<u32>) -> (res:
        Result<MemoryCall, KvCacheConversionError>)
        ensures
            !fits_i32(p0) ==> res matches Err(KvCacheConversionError::P0TooLarge(_)),
            fits_i32(p0) && !fits_i32(p1) ==> res matches Err(
                KvCacheConversionError::P1TooLarge(_),
            ),
            fits_i32(p0) && fits_i32(p1) ==> res == Ok::<
                MemoryCall,
                KvCacheConversionError,
            >(
                MemoryCall::SeqCopy {
                    src,
                    dest,
                    p0: encoded(p0),
                    p1: encoded(p1),
                },
            ),
    {
        let p0 = match encode_optional(p0) {
            Ok(p) => p,
            Err(e) => return Err(KvCacheConversionError::P0TooLarge(e)),
        };
        let p1 = match encode_optional(p1) {
            Ok(p) => p,
            Err(e) => return Err(KvCacheConversionError::P1TooLarge(e)),
        };
        Ok(MemoryCall::SeqCopy { src, dest, p0, p1 })
    }

    /// Clear the KV cache of sequence `src` within `[p0, p1)`. An absent
    /// sequence id matches every sequence; an absent bound leaves that side
    /// of the range open. The call answers `false` only when a partial
    /// removal fails.
    ///
    /// When the sequence id or a position exceeds `i32::MAX`, no removal is
    /// attempted and an error comes back; the sequence id is checked first,
    /// then `p0`, then `p1`.
    pub fn clear_kv_cache_seq(src: Option<u32>, p0: Option<u32>, p1: Option<u32>) -> (res:
        Result<MemoryCall, KvCacheConversionError>)
        ensures
            !fits_i32(src) ==> res matches Err(KvCacheConversionError::SeqIdTooLarge(_)),
            fits_i32(src) && !fits_i32(p0) ==> res matches Err(
                KvCacheConversionError::P0TooLarge(_),
            ),
            fits_i32(src) && fits_i32(p0) && !fits_i32(p1) ==> res matches Err(
                KvCacheConversionError::P1TooLarge(_),
            ),
            fits_i32(src) && fits_i32(p0) && fits_i32(p1) ==> res == Ok::<
                MemoryCall,
                KvCacheConversionError,
            >(MemoryCall::SeqRemove { seq_id: encoded(src), p0: encoded(p0), p1: encoded(p1) }),
    {
        let seq_id = match encode_optional(src) {
            Ok(s) => s,
            Err(e) => return Err(KvCacheConversionError::SeqIdTooLarge(e)),
        };
        let p0 = match encode_optional(p0) {
            Ok(p) => p,
            Err(e) => return Err(KvCacheConversionError::P0TooLarge(e)),
        };
        let p1 = match encode_optional(p1) {
            Ok(p) => p,
            Err(e) => return Err(KvCacheConversionError::P1TooLarge(e)),
        };
        Ok(MemoryCall::SeqRemove { seq_id, p0, p1 })
    }

    /// Clear the whole KV cache, its metadata and its data buffers.
    pub fn clear_kv_cache() -> (call: MemoryCall)
        ensures
            call == (MemoryCall::Clear { data: true }),
    {
        MemoryCall::Clear { data: true }
    }

    /// Remove all tokens that do not belong to sequence `seq_id`.
    pub fn llama_kv_cache_seq_keep(seq_id: i32) -> (call: MemoryCall)
        ensures
            call == (MemoryCall::SeqKeep { seq_id }),
    {
        MemoryCall::SeqKeep { seq_id }
    }

    /// Add `delta` to the positions of the tokens of sequence `seq_id` that lie
    /// in `[p0, p1)`; an absent bound leaves that side of the range open.
    ///
    /// Fails, before any call, when a position exceeds `i32::MAX`; `p0` is
    /// checked first.
    pub fn kv_cache_seq_add(seq_id: i32, p0: Option<u32>, p1: Option<u32>, delta: i32) -> (res:
        Result<MemoryCall, KvCacheConversionError>)
        ensures
            !fits_i32(p0) ==> res matches Err(KvCacheConversionError::P0TooLarge(_)),
            fits_i32(p0) && !fits_i32(p1) ==> res matches Err(
                KvCacheConversionError::P1TooLarge(_),
            ),
            fits_i32(p0) && fits_i32(p1) ==> res == Ok::<MemoryCall, KvCacheConversionError>(
                MemoryCall::SeqAdd { seq_id, p0: encoded(p0), p1: encoded(p1), delta },
            ),
    {
        let p0 = match encode_optional(p0) {
            Ok(p) => p,
            Err(e) => return Err(KvCacheConversionError::P0TooLarge(e)),
        };
        let p1 = match encode_optional(p1) {
            Ok(p) => p,
            Err(e) => return Err(KvCacheConversionError::P1TooLarge(e)),
        };
        Ok(MemoryCall::SeqAdd { seq_id, p0, p1, delta })
    }

    /// Divide, rounding down, the positions of the tokens of sequence `seq_id`
    /// that lie in `[p0, p1)` by the non-zero factor `d`; an absent bound
    /// leaves that side of the range open.
    ///
    /// Fails, before any call, when a position exceeds `i32::MAX`; `p0` is
    /// checked first.
    pub fn kv_cache_seq_div(seq_id: i32, p0: Option<u32>, p1: Option<u32>, d: u8) -> (res: Result<
        MemoryCall,
        KvCacheConversionError,
    >)
        requires
            d != 0,
        ensures
            !fits_i32(p0) ==> res matches Err(KvCacheConversionError::P0TooLarge(_)),
            fits_i32(p0) && !fits_i32(p1) ==> res matches Err(
                KvCacheConversionError::P1TooLarge(_),
            ),
            fits_i32(p0) && fits_i32(p1) ==> res == Ok::<MemoryCall, KvCacheConversionError>(
                MemoryCall::SeqDiv { seq_id, p0: encoded(p0), p1: encoded(p1), d: d as i32 },
            ),
    {
        let p0 = match encode_optional(p0) {
            Ok(p) => p,
            Err(e) => return Err(KvCacheConversionError::P0TooLarge(e)),
        };
        let p1 = match encode_optional(p1) {
            Ok(p) => p,
            Err(e) => return Err(KvCacheConversionError::P1TooLarge(e)),
        };
        let d = d as i32;
        Ok(MemoryCall::SeqDiv { seq_id, p0, p1, d })
    }

    /// Ask for the largest position present in the KV cache for sequence
    /// `seq_id`.
    pub fn kv_cache_seq_pos_max(seq_id: i32) -> (call: MemoryCall)
        ensures
            call == (MemoryCall::SeqPosMax { seq_id }),
    {
        MemoryCall::SeqPosMax { seq_id }
    }

    /// Ask for the smallest position present in the KV cache for sequence
    /// `seq_id`; llama.cpp answers `-1` when the cache holds nothing of it.
    pub fn kv_cache_seq_pos_min(seq_id: i32) -> (call: MemoryCall)
        ensures
            call == (MemoryCall::SeqPosMin { seq_id }),
    {
        MemoryCall::SeqPosMin { seq_id }
    }
}

/// Whether `call` removes whole sequences: a removal whose bounds both reach
/// llama.cpp as open bounds.
pub open spec fn removes_whole_sequences(call: MemoryCall) -> bool {
    match call {
        MemoryCall::SeqRemove { seq_id: _, p0, p1 } => decoded(p0) is None && decoded(p1) is None,
        _ => false,
    }
}

/// Every sequence id or position that fits reaches llama.cpp so that it reads
/// it back unchanged: an absent one as absent (any sequence, an open bound),
/// a present one as itself.
pub proof fn lemma_encoding_round_trip(p: Option<u32>)
    requires
        fits_i32(p),
    ensures
        decoded(encoded(p)) == p,
        encoded(p) < 0 <==> p is None,
{
}

/// Copying a cache of `size >= 0` positions is the same call as copying the
/// positions `[0, size)` with explicit bounds.
pub proof fn lemma_copy_cache_is_bounded_copy(src: i32, dest: i32, size: i32)
    requires
        size >= 0,
    ensures
        fits_i32(Some(0u32)) && fits_i32(Some(size as u32)),
        (MemoryCall::SeqCopy { src, dest, p0: 0, p1: size }) == (MemoryCall::SeqCopy {
            src,
            dest,
            p0: encoded(Some(0u32)),
            p1: encoded(Some(size as u32)),
        }),
{
}

/// Clearing a sequence with neither bound given removes whole sequences, for
/// every sequence id that fits (an absent one matching every sequence).
pub proof fn lemma_unbounded_clear_removes_whole_sequences(src: Option<u32>)
    requires
        fits_i32(src),
    ensures
        removes_whole_sequences(
            MemoryCall::SeqRemove { seq_id: encoded(src), p0: encoded(None), p1: encoded(None) },
        ),
{
}

/// The total of a breakdown entry is the sum of its model, context and compute
/// bytes, whatever their values.
pub proof fn lemma_total_bytes_is_sum_of_fields(entry: MemoryBreakdownEntry)
    ensures
        entry.spec_total_bytes() == entry.model_bytes + entry.context_bytes + entry.compute_bytes,
        entry.spec_total_bytes() >= entry.model_bytes,
        entry.spec_total_bytes() >= entry.context_bytes,
        entry.spec_total_bytes() >= entry.compute_bytes,
{
}

/// A breakdown entry that describes a reported entry carries its name (the
/// empty string where none was reported) and copies each byte count into the
/// field of the same name.
pub proof fn lemma_describes_copies_fields(raw: RawMemoryEntry, entry: MemoryBreakdownEntry)
    requires
        describes(raw, entry),
    ensures
        entry.model_bytes == raw.model_bytes,
        entry.context_bytes == raw.context_bytes,
        entry.compute_bytes == raw.compute_bytes,
        raw.buft_name is Some ==> entry.buft_name@ == raw.buft_name->0@,
        raw.buft_name is None ==> entry.buft_name@.len() == 0,
{
}

/// Two breakdown entries that describe the same reported entry agree in every
/// field.
pub proof fn lemma_describes_is_functional(
    raw: RawMemoryEntry,
    a: MemoryBreakdownEntry,
    b: MemoryBreakdownEntry,
)
    requires
        describes(raw, a),
        describes(raw, b),
    ensures
        a.buft_name@ == b.buft_name@,
        a.model_bytes == b.model_bytes,
        a.context_bytes == b.context_bytes,
        a.compute_bytes == b.compute_bytes,
{
}

} // verus!
