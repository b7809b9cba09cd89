use hmm_rs::utils::{concatenate_states, split_x_lengths};
use ndarray::Array2;

#[test]
fn test_split_x_lengths() {
    let x: Array2<f64> = Array2::zeros((10, 3));
    let parts = split_x_lengths(x.nrows(), &[4, 6]);
    assert_eq!(parts.len(), 2);
    assert_eq!(parts[0].1 - parts[0].0, 4);
    assert_eq!(parts[1].1 - parts[1].0, 6);
}

#[test]
fn test_split_ranges_partition_rows() {
    let parts = split_x_lengths(12, &[3, 0, 5, 4]);
    assert_eq!(parts, vec![(0, 3), (3, 3), (3, 8), (8, 12)]);
}

#[test]
fn test_split_length_one_sequences() {
    let parts = split_x_lengths(5, &[1, 1, 1, 1, 1]);
    assert_eq!(parts, vec![(0, 1), (1, 2), (2, 3), (3, 4), (4, 5)]);
}

#[test]
fn test_split_no_sequences() {
    let parts = split_x_lengths(0, &[]);
    assert!(parts.is_empty());
}

#[test]
fn test_concatenate_states() {
    let parts = vec![vec![0, 1, 1], vec![], vec![2, 0]];
    assert_eq!(concatenate_states(&parts), vec![0, 1, 1, 2, 0]);
}

#[test]
fn test_concatenated_states_one_per_row() {
    let lengths = [2usize, 3];
    let ranges = split_x_lengths(5, &lengths);
    let parts: Vec<Vec<usize>> = ranges.iter().map(|&(a, b)| (a..b).map(|_| 1).collect()).collect();
    assert_eq!(concatenate_states(&parts).len(), 5);
}
