//! Request handling of the generation endpoint: an encoded prompt becomes a
//! running generation, or an error before any stream is opened.

use vstd::prelude::*;

use crate::decode::{DecodeConfig, Generation, initial};
use crate::error::GenerateError;

verus! {

/// Tokens generated per request unless configured otherwise.
pub const DEFAULT_BUDGET: usize = 1;

/// Size of the top-K truncation unless configured otherwise.
pub const DEFAULT_TOP_K: usize = 20;

/// Starts the generation of a prompt from its encoding: `None` when the
/// prompt could not be encoded, which ends the request with `Tokenization`;
/// an encoding with no token ends it with `EmptyPrompt`.
pub fn start_generation(encoded: Option<Vec<u32>>, config: DecodeConfig) -> (r: Result<
    Generation,
    GenerateError,
>)
    requires
        config.top_k >= 1,
    ensures
        encoded is None ==> r is Err && r->Err_0 == GenerateError::Tokenization,
        encoded matches Some(ids) ==> (r is Err <==> ids@.len() == 0),
        encoded matches Some(ids) ==> (r matches Err(e) ==> e == GenerateError::EmptyPrompt),
        encoded matches Some(ids) ==> (r matches Ok(g) ==> g@ == initial(ids@, config) && g@.wf()),
{
    match encoded {
        None => Err(GenerateError::Tokenization),
        Some(ids) => Generation::new(ids, config),
    }
}

} // verus!
