//! Errors of the serving core.

use vstd::prelude::*;

verus! {

/// Why one generation request failed. Each error is fatal to its request
/// only.
#[derive(Clone, Copy, Debug, PartialEq, Eq, Structural)]
pub enum GenerateError {
    /// The prompt could not be encoded.
    Tokenization,
    /// A token id has no vocabulary entry.
    InvalidToken,
    /// The model run failed or returned scores of the wrong shape.
    Inference,
    /// The consumer of the response stream went away.
    StreamDisconnected,
    /// The token sequence reached the model's context window.
    ContextOverflow,
    /// The encoded prompt holds no token, so there is nothing to run.
    EmptyPrompt,
}

/// Why the server could not start.
#[derive(Clone, Copy, Debug, PartialEq, Eq, Structural)]
pub enum StartupError {
    /// The tokenizer file is missing or could not be read.
    TokenizerMissing,
    /// The tokenizer file does not describe a tokenizer.
    TokenizerMalformed,
}

} // verus!
