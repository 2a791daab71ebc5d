use store_pipeline::zeros::{count_zeros, count_zeros_in_chunks, ZeroTally};

#[test]
fn ten_bytes_with_four_zeros() {
    let body: [u8; 10] = [0, 1, 2, 0, 3, 0, 4, 5, 0, 6];
    assert_eq!(count_zeros(&body), 4);
}

#[test]
fn empty_chunk_has_no_zeros() {
    assert_eq!(count_zeros(&[]), 0);
    assert_eq!(count_zeros_in_chunks(&vec![]), Some(0));
    assert_eq!(count_zeros_in_chunks(&vec![vec![], vec![]]), Some(0));
}

#[test]
fn all_zero_and_no_zero_chunks() {
    assert_eq!(count_zeros(&[0, 0, 0]), 3);
    assert_eq!(count_zeros(&[1, 255, 7]), 0);
}

#[test]
fn chunk_boundaries_do_not_change_the_count() {
    let body: Vec<u8> = vec![0, 1, 2, 0, 3, 0, 4, 5, 0, 6];
    let whole = count_zeros(&body);
    for cut in 0..=body.len() {
        let chunks = vec![body[..cut].to_vec(), body[cut..].to_vec()];
        assert_eq!(count_zeros_in_chunks(&chunks), Some(whole));
    }
    let three = vec![vec![0u8, 1], vec![2, 0, 3, 0], vec![4, 5, 0, 6]];
    assert_eq!(count_zeros_in_chunks(&three), Some(4));
}

#[test]
fn tally_accumulates_over_chunks() {
    let mut tally = ZeroTally::new();
    assert_eq!(tally.zeros(), 0);
    assert!(tally.absorb(&[0, 0, 1]));
    assert_eq!(tally.zeros(), 2);
    assert!(tally.absorb(&[]));
    assert_eq!(tally.zeros(), 2);
    assert!(tally.absorb(&[9, 0]));
    assert_eq!(tally.zeros(), 3);
}
