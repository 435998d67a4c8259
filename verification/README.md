# llama_cpp_2: KV cache and speculative decoding for llama.cpp

`src/` is a Verus library. It decides every call that reaches llama.cpp's
memory (KV cache) API: `MemoryCall` names the call and its arguments, and its
constructors check the sequence ids and positions that must fit into a C
`int`, reporting `KvCacheConversionError` where one does not. It also
assembles a context's memory breakdown from what llama.cpp reports and manages
the buffer that receives draft tokens during speculative decoding. Each
function carries a contract, and the properties that span functions are
proof functions beside them.

`app/` holds the `unsafe` foreign calls into `llama-cpp-sys-2`
(`LlamaContext`, `LlamaSpeculative`), which make the calls the library
decides and hand the answers back.
