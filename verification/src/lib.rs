//! Verified core of the KV-cache and speculative-decoding bindings for llama.cpp.
//!
//! The library decides which call reaches llama.cpp's memory API and with
//! which arguments, checks the arguments that have to fit into a C `int`,
//! assembles the memory breakdown of a context and manages the buffer that
//! receives draft tokens. The calls themselves are made by the host program.

mod kv_cache;
mod speculative;
mod token;

pub use kv_cache::{
    breakdown_available, encode_optional, memory_breakdown_entries, status_is_ok,
    KvCacheConversionError, MemoryBreakdownEntry, MemoryCall, RawMemoryEntry, LLAMA_RS_STATUS_OK,
};
pub use speculative::{draft_capacity, keep_drafted, prepare_draft_buffer};
pub use token::LlamaToken;
