use treble::decode::{DecodeConfig, Generation, Next, Status};
use treble::error::GenerateError;
use treble::logits::Logits;

fn config(budget: usize, context_limit: usize) -> DecodeConfig {
    DecodeConfig { budget, top_k: 20, context_limit }
}

/// Scores for `seq_len` positions over `vocab` entries; the last position
/// favours `winner`.
fn favouring(winner: usize, vocab: usize, seq_len: usize) -> Logits {
    let mut data = Vec::new();
    for _ in 0..seq_len - 1 {
        for v in 0..vocab {
            data.push(if v == 0 { 9.0f32 } else { 0.0 }.to_bits());
        }
    }
    for v in 0..vocab {
        data.push(if v == winner { 3.5f32 } else { -1.0 - v as f32 }.to_bits());
    }
    Logits { data, seq_len, vocab_size: vocab }
}

#[test]
fn empty_prompt_is_refused() {
    assert_eq!(Generation::new(Vec::new(), config(3, 100)).err(), Some(GenerateError::EmptyPrompt));
}

#[test]
fn budget_of_n_takes_n_steps() {
    let mut g = Generation::new(vec![10, 42], config(4, 100)).unwrap();
    let mut lengths = Vec::new();
    let mut picks = Vec::new();
    while g.poll() == Next::Infer {
        lengths.push(g.tokens().len());
        let l = favouring(3 + g.steps(), 16, g.tokens().len());
        picks.push(g.advance(&l).unwrap());
    }
    assert_eq!(g.status(), Status::Done);
    assert_eq!(lengths, vec![2, 3, 4, 5]);
    assert_eq!(picks, vec![3, 4, 5, 6]);
    assert_eq!(g.tokens(), &vec![10, 42, 3, 4, 5, 6]);
    assert_eq!(g.poll(), Next::Finished);
}

#[test]
fn zero_budget_finishes_at_once() {
    let mut g = Generation::new(vec![1], config(0, 100)).unwrap();
    assert_eq!(g.poll(), Next::Finished);
    assert_eq!(g.tokens(), &vec![1]);
}

#[test]
fn context_window_stops_generation() {
    let mut g = Generation::new(vec![1, 2], config(5, 3)).unwrap();
    assert_eq!(g.poll(), Next::Infer);
    assert_eq!(g.advance(&favouring(2, 4, 2)), Ok(2));
    assert_eq!(g.poll(), Next::Aborted(GenerateError::ContextOverflow));
    assert_eq!(g.status(), Status::Failed(GenerateError::ContextOverflow));
    assert_eq!(g.tokens(), &vec![1, 2, 2]);
}

#[test]
fn bad_scores_fail_the_generation() {
    let mut g = Generation::new(vec![1], config(2, 10)).unwrap();
    assert_eq!(g.poll(), Next::Infer);
    let l = Logits { data: vec![0; 7], seq_len: 2, vocab_size: 4 };
    assert_eq!(g.advance(&l), Err(GenerateError::Inference));
    assert_eq!(g.poll(), Next::Aborted(GenerateError::Inference));
    assert_eq!(g.tokens(), &vec![1]);
}

#[test]
fn closed_consumer_stops_further_runs() {
    let mut g = Generation::new(vec![5], config(10, 100)).unwrap();
    assert_eq!(g.poll(), Next::Infer);
    g.advance(&favouring(1, 3, 1)).unwrap();
    g.abort(GenerateError::StreamDisconnected);
    for _ in 0..3 {
        assert_eq!(g.poll(), Next::Aborted(GenerateError::StreamDisconnected));
    }
    g.abort(GenerateError::Inference);
    assert_eq!(g.status(), Status::Failed(GenerateError::StreamDisconnected));
    assert_eq!(g.tokens(), &vec![5, 1]);
}
