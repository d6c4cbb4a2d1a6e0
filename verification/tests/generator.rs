use rapid_fuzz::arbitrary_util::generate_owned_arbitrary_data;
use rapid_fuzz::random_numbers::RandomNumbersPreTest;
use rapid_fuzz::{DeterministicStream, PreTestTrait};

#[test]
fn stream_is_deterministic() {
    let seed = [42u8; 32];
    let mut a = DeterministicStream::from_seed(seed);
    let mut b = DeterministicStream::from_seed(seed);
    let mut buf_a = vec![0u8; 100];
    let mut buf_b = vec![0u8; 100];
    a.fill(&mut buf_a);
    b.fill(&mut buf_b);
    assert_eq!(buf_a, buf_b);
    // The stream is not a constant: a second draw differs from the first.
    let mut buf_c = vec![0u8; 100];
    a.fill(&mut buf_c);
    assert_ne!(buf_a, buf_c);
    // A different seed gives different bytes.
    let mut c = DeterministicStream::from_seed([43u8; 32]);
    let mut buf_d = vec![0u8; 100];
    c.fill(&mut buf_d);
    assert_ne!(buf_a, buf_d);
}

#[test]
fn random_below_is_deterministic_and_in_range() {
    let seed = [7u8; 32];
    let mut a = DeterministicStream::from_seed(seed);
    let mut b = DeterministicStream::from_seed(seed);
    for _ in 0..50 {
        let x = a.random_below(10);
        let y = b.random_below(10);
        assert_eq!(x, y);
        assert!(x < 10);
    }
}

#[test]
fn generated_buffer_decodes_deterministically() {
    let seed = [9u8; 32];
    let mut a = DeterministicStream::from_seed(seed);
    let owned = generate_owned_arbitrary_data::<u64>(&mut a).unwrap();
    let first: u64 = owned.arbitrary().unwrap();
    // Decoding the same buffer again consumes nothing and yields the same
    // value.
    let second: u64 = owned.arbitrary().unwrap();
    assert_eq!(first, second);
    // An independent run from the same seed generates the same value.
    let mut b = DeterministicStream::from_seed(seed);
    let other = generate_owned_arbitrary_data::<u64>(&mut b).unwrap();
    let third: u64 = other.arbitrary().unwrap();
    assert_eq!(first, third);
}

#[test]
fn generated_u64_matches_the_raw_stream() {
    // The u64 shape asks for an 18-byte initial buffer ((8 + 1) * 2), and its
    // decoder reads the first eight bytes little-endian, so the generated
    // value can be predicted by replaying the stream by hand: one depth draw
    // below ten, then an 18-byte fill.
    let seed = [250u8; 32];
    let mut by_hand = DeterministicStream::from_seed(seed);
    let _depth = by_hand.random_below(10);
    let mut raw = vec![0u8; 18];
    by_hand.fill(&mut raw);
    let mut expected_bytes = [0u8; 8];
    expected_bytes.copy_from_slice(&raw[..8]);
    let expected = u64::from_le_bytes(expected_bytes);

    let mut generated = DeterministicStream::from_seed(seed);
    let owned = generate_owned_arbitrary_data::<u64>(&mut generated).unwrap();
    let value: u64 = owned.arbitrary().unwrap();
    assert_eq!(value, expected);
}

#[test]
fn generated_i32_matches_the_raw_stream() {
    // Same replay as for u64, with a 10-byte initial buffer ((4 + 1) * 2) and
    // a four-byte little-endian read.
    let seed = [133u8; 32];
    let mut by_hand = DeterministicStream::from_seed(seed);
    let _depth = by_hand.random_below(10);
    let mut raw = vec![0u8; 10];
    by_hand.fill(&mut raw);
    let mut expected_bytes = [0u8; 4];
    expected_bytes.copy_from_slice(&raw[..4]);
    let expected = i32::from_le_bytes(expected_bytes);

    let mut generated = DeterministicStream::from_seed(seed);
    let owned = generate_owned_arbitrary_data::<i32>(&mut generated).unwrap();
    let value: i32 = owned.arbitrary().unwrap();
    assert_eq!(value, expected);
}

#[test]
fn pre_test_draws_are_deterministic() {
    let seed = [17u8; 32];
    let pre_test: RandomNumbersPreTest<()> = RandomNumbersPreTest::new();
    let mut a = DeterministicStream::from_seed(seed);
    let mut b = DeterministicStream::from_seed(seed);
    let first = pre_test.setup_test(&(), &mut a);
    let second = pre_test.setup_test(&(), &mut b);
    assert_eq!(first.data, second.data);
    assert_eq!(first.data2, second.data2);
    // Consecutive draws from one stream differ from a fresh stream's first
    // draws.
    let third = pre_test.setup_test(&(), &mut a);
    assert_ne!(first.data, third.data);
}
