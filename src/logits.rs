//! The score tensor that one model run returns, and the row of it that the
//! selection policy reads.

use vstd::prelude::*;

use crate::error::GenerateError;
use crate::scores::{order_key, score_key};

verus! {

/// Scores for every sequence position, flattened row by row: `seq_len`
/// rows of `vocab_size` IEEE-754 binary32 bit patterns.
pub struct Logits {
    pub data: Vec<u32>,
    pub seq_len: usize,
    pub vocab_size: usize,
}

impl Logits {
    /// Takes a model output of dimensions (batch, unused, position,
    /// vocabulary); the last two give the rows.
    pub fn from_output(data: Vec<u32>, dims: &Vec<i64>) -> (r: Result<Logits, GenerateError>)
        ensures
            r is Ok <==> dims@.len() == 4 && 0 <= dims@[2] <= usize::MAX && 0 <= dims@[3]
                <= usize::MAX,
            r matches Ok(l) ==> l.data@ == data@ && l.seq_len == dims@[2] && l.vocab_size
                == dims@[3],
            r matches Err(e) ==> e == GenerateError::Inference,
    {
        if dims.len() != 4 || dims[2] < 0 || dims[3] < 0 {
            return Err(GenerateError::Inference);
        }
        let seq_len = dims[2] as u64;
        let vocab_size = dims[3] as u64;
        if seq_len > usize::MAX as u64 || vocab_size > usize::MAX as u64 {
            return Err(GenerateError::Inference);
        }
        Ok(Logits { data, seq_len: seq_len as usize, vocab_size: vocab_size as usize })
    }
}

/// The tensor holds a non-empty row per position, and every vocabulary
/// index fits a `u32` token id.
pub open spec fn shape_ok(l: Logits) -> bool {
    &&& l.seq_len > 0
    &&& l.vocab_size > 0
    &&& l.vocab_size <= 0x1_0000_0000
    &&& l.data@.len() == l.seq_len * l.vocab_size
}

/// Ordering keys of the scores for the last sequence position.
pub open spec fn last_row_keys(l: Logits) -> Seq<u32> {
    l.data@.subrange((l.seq_len - 1) * l.vocab_size, l.seq_len * l.vocab_size).map_values(
        |b: u32| order_key(b),
    )
}

/// The ordering keys of the last position's scores, or `Inference` when the
/// tensor's shape is inconsistent.
pub fn last_row(l: &Logits) -> (r: Result<Vec<u32>, GenerateError>)
    ensures
        r is Ok <==> shape_ok(*l),
        r matches Ok(row) ==> row@ == last_row_keys(*l),
        r matches Err(e) ==> e == GenerateError::Inference,
{
    let n = l.data.len();
    if l.seq_len == 0 || l.vocab_size == 0 || l.vocab_size as u64 > 0x1_0000_0000u64 {
        return Err(GenerateError::Inference);
    }
    match l.seq_len.checked_mul(l.vocab_size) {
        None => {
            return Err(GenerateError::Inference);
        },
        Some(total) => {
            if total != n {
                return Err(GenerateError::Inference);
            }
        },
    }
    assert(n >= l.vocab_size) by (nonlinear_arith)
        requires
            n == l.seq_len * l.vocab_size,
            l.seq_len >= 1,
    ;
    let start = n - l.vocab_size;
    assert(start == (l.seq_len - 1) * l.vocab_size) by (nonlinear_arith)
        requires
            n == l.seq_len * l.vocab_size,
            start == n - l.vocab_size,
    ;
    let mut row: Vec<u32> = Vec::new();
    let mut i: usize = start;
    while i < n
        invariant
            start <= i <= n,
            n == l.data@.len(),
            row@ == l.data@.subrange(start as int, i as int).map_values(|b: u32| order_key(b)),
        decreases n - i,
    {
        let key = score_key(l.data[i]);
        row.push(key);
        assert(l.data@.subrange(start as int, i + 1).map_values(|b: u32| order_key(b))
            =~= l.data@.subrange(start as int, i as int).map_values(|b: u32| order_key(b)).push(key));
        i += 1;
    }
    Ok(row)
}

} // verus!
