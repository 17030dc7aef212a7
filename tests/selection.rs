use treble::logits::{last_row, Logits};
use treble::error::GenerateError;
use treble::scores::score_key;
use treble::select::{select_token, top_k};

fn key(x: f32) -> u32 {
    score_key(x.to_bits())
}

#[test]
fn score_key_exact_values() {
    assert_eq!(score_key(0x3f80_0000), 0xbf80_0000);
    assert_eq!(score_key(0xbf80_0000), 0x407f_ffff);
    assert_eq!(score_key(0), 0x8000_0000);
    assert_eq!(score_key(0x8000_0000), 0x7fff_ffff);
}

#[test]
fn score_key_follows_float_order() {
    let xs = [f32::NEG_INFINITY, -3.5, -1.0, -0.0, 0.0, 1e-30, 0.5, 2.0, 1e30, f32::INFINITY];
    for w in xs.windows(2) {
        assert!(key(w[0]) < key(w[1]), "{} vs {}", w[0], w[1]);
    }
}

#[test]
fn top_k_orders_by_score_then_index() {
    let s = vec![1, 5, 3, 5];
    assert_eq!(top_k(&s, 2), vec![1, 3]);
    assert_eq!(top_k(&s, 3), vec![1, 3, 2]);
    assert_eq!(top_k(&s, 10), vec![1, 3, 2, 0]);
}

#[test]
fn top_k_of_nothing() {
    assert_eq!(top_k(&vec![4, 2], 0), Vec::<usize>::new());
    assert_eq!(top_k(&Vec::new(), 3), Vec::<usize>::new());
}

#[test]
fn strict_maximum_is_selected_for_every_k() {
    let mut row: Vec<u32> = (0..10).map(|i| key(i as f32 * 0.1)).collect();
    row[5] = key(100.0);
    for k in [1, 2, 3, 10, 20, 1000] {
        assert_eq!(select_token(&row, k), 5);
        assert_eq!(select_token(&row, k), 5);
    }
}

#[test]
fn equal_scores_select_lowest_index() {
    let row = vec![key(1.0), key(3.0), key(2.0), key(3.0)];
    assert_eq!(select_token(&row, 1), 1);
    assert_eq!(select_token(&row, 4), 1);
}

#[test]
fn last_row_reads_final_position() {
    let data: Vec<u32> = [0.0f32, 1.0, 2.0, -1.0, 4.0, -2.0].iter().map(|x| x.to_bits()).collect();
    let l = Logits { data, seq_len: 2, vocab_size: 3 };
    assert_eq!(last_row(&l), Ok(vec![key(-1.0), key(4.0), key(-2.0)]));
}

#[test]
fn last_row_rejects_bad_shape() {
    let data: Vec<u32> = vec![0; 5];
    assert_eq!(last_row(&Logits { data: data.clone(), seq_len: 2, vocab_size: 3 }), Err(GenerateError::Inference));
    assert_eq!(last_row(&Logits { data: data.clone(), seq_len: 0, vocab_size: 5 }), Err(GenerateError::Inference));
    assert_eq!(last_row(&Logits { data: Vec::new(), seq_len: 1, vocab_size: 0 }), Err(GenerateError::Inference));
    assert_eq!(last_row(&Logits { data, seq_len: usize::MAX, vocab_size: 2 }), Err(GenerateError::Inference));
}

#[test]
fn output_dimensions_give_rows() {
    let l = Logits::from_output(vec![1, 2, 3, 4, 5, 6], &vec![1, 1, 2, 3]).ok().unwrap();
    assert_eq!((l.seq_len, l.vocab_size), (2, 3));
    assert_eq!(l.data, vec![1, 2, 3, 4, 5, 6]);
}

#[test]
fn output_dimensions_rejected() {
    assert_eq!(Logits::from_output(vec![0; 6], &vec![1, 2, 3]).err(), Some(GenerateError::Inference));
    assert_eq!(Logits::from_output(vec![0; 6], &vec![1, 1, -2, 3]).err(), Some(GenerateError::Inference));
    assert_eq!(Logits::from_output(vec![0; 6], &vec![1, 1, 2, -3]).err(), Some(GenerateError::Inference));
}
