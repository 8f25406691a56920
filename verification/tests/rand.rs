use mercator::rand::{shuffle, RandomStream, RandomStreamForTest};

#[test]
fn test_shuffle() {
    let mut stream = RandomStreamForTest::new();
    let original_numbers = vec![1, 2, 3, 4, 5, 6, 7, 8, 9, 10, 11, 12, 13, 14, 15, 16];
    let mut shuffled_numbers = original_numbers.clone();
    shuffle(&mut stream, &mut shuffled_numbers);
    // Test that the shuffled list is not equal to the original list. The
    // deterministic test stream produces a permutation that moves the last
    // element, so the lists differ.
    assert_ne!(shuffled_numbers, original_numbers);
}

#[test]
fn test_counting_sequence() {
    // The deterministic test stream returns the counting sequence.
    let mut stream = RandomStreamForTest::new();
    assert_eq!(stream.read_u8(), 1);
    assert_eq!(stream.read_u8(), 2);
    assert_eq!(stream.read_u8(), 3);
}

#[test]
fn test_read_usize_concatenates_bytes() {
    // A usize read concatenates the next eight bytes of the stream.
    let mut stream = RandomStreamForTest::new();
    assert_eq!(stream.read_u8(), 1);
    assert_eq!(stream.read_usize(), 0x0203_0405_0607_0809usize);
}

#[test]
fn test_shuffle_keeps_elements() {
    let mut stream = RandomStreamForTest::new();
    let mut numbers = vec![3, 1, 4, 1, 5, 9, 2, 6];
    shuffle(&mut stream, &mut numbers);
    assert_eq!(numbers.len(), 8);
    let mut sorted = numbers.clone();
    sorted.sort();
    assert_eq!(sorted, vec![1, 1, 2, 3, 4, 5, 6, 9]);
}
