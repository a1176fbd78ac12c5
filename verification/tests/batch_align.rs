//! Positional alignment of batch results.

use kalshi::{KalshiError, align_by_index};

#[test]
fn results_align_to_input_positions_whatever_the_completion_order() {
    // Inputs [A, B, C]; B's remote call completed before A's.
    let completed = vec![
        (1usize, "result-B".to_string()),
        (0usize, "result-A".to_string()),
        (2usize, "result-C".to_string()),
    ];
    let aligned = align_by_index(3, completed).unwrap();
    assert_eq!(
        aligned,
        vec!["result-A".to_string(), "result-B".to_string(), "result-C".to_string()]
    );
}

#[test]
fn in_order_completion_aligns_too() {
    let completed = vec![(0usize, 10), (1usize, 11), (2usize, 12)];
    assert_eq!(align_by_index(3, completed).unwrap(), vec![10, 11, 12]);
}

#[test]
fn empty_batch_aligns_to_empty() {
    let completed: Vec<(usize, u8)> = Vec::new();
    assert_eq!(align_by_index(0, completed).unwrap(), Vec::<u8>::new());
}

#[test]
fn duplicate_index_is_an_internal_error() {
    let completed = vec![(0usize, 10), (0usize, 11)];
    match align_by_index(2, completed) {
        Err(KalshiError::InternalError(m)) => {
            assert_eq!(m, "Batch results did not align with the requested order ids");
        }
        other => panic!("expected an internal error, got {:?}", other),
    }
}

#[test]
fn out_of_range_index_is_an_internal_error() {
    let completed = vec![(0usize, 10), (5usize, 11)];
    assert!(align_by_index(2, completed).is_err());
}

#[test]
fn missing_result_is_an_internal_error() {
    let completed = vec![(0usize, 10)];
    assert!(align_by_index(2, completed).is_err());
}
