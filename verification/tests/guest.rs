use zkvm_eval::benchmarks::{fibonacci, input_bytes, zisk_input};

#[test]
fn fibonacci_of_small_inputs() {
    assert_eq!(fibonacci(0), 1);
    assert_eq!(fibonacci(1), 1);
    assert_eq!(fibonacci(2), 2);
    assert_eq!(fibonacci(3), 3);
    assert_eq!(fibonacci(4), 5);
    assert_eq!(fibonacci(10), 89);
}

#[test]
fn fibonacci_wraps_at_the_modulus() {
    // F(20) = 6765 < 7919 <= F(21) = 10946
    assert_eq!(fibonacci(19), 6765);
    assert_eq!(fibonacci(20), 10946 % 7919);
}

#[test]
fn zisk_input_reads_four_bytes_little_endian() {
    assert_eq!(zisk_input(vec![1, 0, 0, 0]), Some(1));
    assert_eq!(zisk_input(vec![0x78, 0x56, 0x34, 0x12]), Some(0x1234_5678));
    assert_eq!(zisk_input(300000u32.to_le_bytes().to_vec()), Some(300000));
}

#[test]
fn zisk_input_refuses_other_lengths() {
    assert_eq!(zisk_input(vec![]), None);
    assert_eq!(zisk_input(vec![1, 2, 3]), None);
    assert_eq!(zisk_input(vec![1, 2, 3, 4, 5]), None);
}

#[test]
fn input_bytes_are_little_endian() {
    for n in [0u32, 1, 255, 256, 65535, 65536, 300000, 0x0102_0304, 0x1234_5678, u32::MAX] {
        assert_eq!(input_bytes(n), n.to_le_bytes().to_vec());
    }
    assert_eq!(input_bytes(0x0102_0304), vec![4, 3, 2, 1]);
}

#[test]
fn the_guest_reads_back_what_the_host_wrote() {
    for n in [0u32, 1, 255, 256, 65535, 65536, 300000, 16777215, 16777216, u32::MAX - 1, u32::MAX] {
        assert_eq!(zisk_input(input_bytes(n)), Some(n));
        assert_eq!(zisk_input(n.to_le_bytes().to_vec()), Some(u32::from_le_bytes(n.to_le_bytes())));
    }
}
