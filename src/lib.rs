//! Token-generation serving core: score ordering, top-K token selection,
//! the autoregressive decoding state machine, the tokenizer adapter and the
//! request handling of the generation endpoint.

pub mod decode;
pub mod error;
pub mod form;
pub mod logits;
pub mod scores;
pub mod select;
pub mod server;
pub mod tokenizer;
