use vstd::prelude::*;

verus! {

/// A token of a model's vocabulary, as llama.cpp numbers it.
#[derive(Clone, Copy, Debug, PartialEq, Eq, Structural, Hash)]
pub struct LlamaToken(pub i32);

} // verus!
