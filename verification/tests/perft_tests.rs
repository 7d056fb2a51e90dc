use chessboard_ui::engine::{apply_nth, initial_board, legal_moves};
use chessboard_ui::perft::{count_leaves, should_parallelize};

#[test]
fn perft_test() {
    assert_eq!(count_leaves(&initial_board(), 1), Some(20));
    assert_eq!(count_leaves(&initial_board(), 2), Some(400));
    assert_eq!(count_leaves(&initial_board(), 3), Some(8902));
    assert_eq!(count_leaves(&initial_board(), 4), Some(197281));
}

#[test]
fn perft_depth_zero_counts_the_position_itself() {
    let b = initial_board();
    assert_eq!(count_leaves(&b, 0), Some(1));
    let after = apply_nth(&b, 0);
    assert_eq!(count_leaves(&after, 0), Some(1));
}

#[test]
fn perft_is_additive_over_the_legal_moves() {
    let b = initial_board();
    for depth in 1..4u64 {
        let mut sum: u64 = 0;
        let n = legal_moves(&b).len();
        for i in 0..n {
            let child = apply_nth(&b, i);
            sum += count_leaves(&child, depth - 1).unwrap();
        }
        assert_eq!(count_leaves(&b, depth), Some(sum));
    }
}

#[test]
fn parallel_policy_threshold() {
    assert!(!should_parallelize(0));
    assert!(!should_parallelize(1));
    assert!(!should_parallelize(2));
    assert!(should_parallelize(3));
    assert!(should_parallelize(4));
}
