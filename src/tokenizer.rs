//! The tokenizer's side of the serving core, over plain values.
//!
//! The tokenizer itself (parsing its file, encoding a prompt, decoding an id)
//! runs outside the library: those calls can panic on some tokenizer
//! configurations, so the caller makes them and guards against the panic. The
//! library takes their outcomes: whether the tokenizer file could be read and
//! parsed, the encoded prompt, and what each vocabulary id decodes to.

use vstd::prelude::*;

use crate::error::{GenerateError, StartupError};

verus! {

/// What one token id decodes to.
#[derive(Clone, Debug, PartialEq, Eq)]
pub enum TokenText {
    /// The id has no vocabulary entry.
    Unknown,
    /// The id has an entry, but the decoder failed on it.
    Undecodable,
    /// The decoded text fragment.
    Text(String),
}

/// The fragment of an entry, or the error that decoding it gives.
pub open spec fn text_result(t: TokenText) -> Result<Seq<char>, GenerateError> {
    match t {
        TokenText::Unknown => Err(GenerateError::InvalidToken),
        TokenText::Undecodable => Err(GenerateError::Tokenization),
        TokenText::Text(s) => Ok(s@),
    }
}

/// What decoding `id` gives against the table `v`: ids past its end have no
/// vocabulary entry.
pub open spec fn decoded(v: Seq<TokenText>, id: u32) -> Result<Seq<char>, GenerateError> {
    if id < v.len() {
        text_result(v[id as int])
    } else {
        Err(GenerateError::InvalidToken)
    }
}

/// The view of a decoding outcome: its text as characters.
pub open spec fn result_view(r: Result<String, GenerateError>) -> Result<Seq<char>, GenerateError> {
    match r {
        Ok(s) => Ok(s@),
        Err(e) => Err(e),
    }
}

impl TokenText {
    /// Classifies the outcome of looking `id` up: its vocabulary entry
    /// (`None`: it has none) and the decoder's output (`None`: decoding
    /// failed).
    pub fn from_lookup(entry: Option<String>, decoded: Option<String>) -> (r: TokenText)
        ensures
            entry is None ==> r == TokenText::Unknown,
            entry is Some && decoded is None ==> r == TokenText::Undecodable,
            decoded matches Some(s) ==> (entry is Some ==> r == TokenText::Text(s)),
    {
        match entry {
            None => TokenText::Unknown,
            Some(_) => match decoded {
                None => TokenText::Undecodable,
                Some(s) => TokenText::Text(s),
            },
        }
    }
}

/// The decoding of every vocabulary id, by id: immutable once built and
/// shared by all requests.
pub struct Vocabulary {
    entries: Vec<TokenText>,
}

impl View for Vocabulary {
    type V = Seq<TokenText>;

    closed spec fn view(&self) -> Seq<TokenText> {
        self.entries@
    }
}

impl Vocabulary {
    /// The table whose entry `i` is what id `i` decodes to.
    pub fn new(entries: Vec<TokenText>) -> (r: Vocabulary)
        ensures
            r@ == entries@,
    {
        Vocabulary { entries }
    }

    /// Number of ids in the table.
    pub fn len(&self) -> (r: usize)
        ensures
            r == self@.len(),
    {
        self.entries.len()
    }

    /// The text fragment of the token `id`; an id without a vocabulary entry
    /// gives `InvalidToken`, one the decoder failed on `Tokenization`.
    pub fn decode(&self, id: u32) -> (r: Result<String, GenerateError>)
        ensures
            result_view(r) == decoded(self@, id),
    {
        if id as usize >= self.entries.len() {
            return Err(GenerateError::InvalidToken);
        }
        match &self.entries[id as usize] {
            TokenText::Unknown => Err(GenerateError::InvalidToken),
            TokenText::Undecodable => Err(GenerateError::Tokenization),
            TokenText::Text(s) => Ok(s.clone()),
        }
    }
}

/// The start-up decision on the tokenizer: `file` is `None` when its file
/// could not be read, `Some(None)` when it did not parse, and
/// `Some(Some(t))` with the parsed tokenizer.
pub fn tokenizer_at_startup<T>(file: Option<Option<T>>) -> (r: Result<T, StartupError>)
    ensures
        file is None ==> r == Err::<T, StartupError>(StartupError::TokenizerMissing),
        file == Some(None::<T>) ==> r == Err::<T, StartupError>(StartupError::TokenizerMalformed),
        file matches Some(Some(t)) ==> r == Ok::<T, StartupError>(t),
{
    match file {
        None => Err(StartupError::TokenizerMissing),
        Some(None) => Err(StartupError::TokenizerMalformed),
        Some(Some(t)) => Ok(t),
    }
}

} // verus!
