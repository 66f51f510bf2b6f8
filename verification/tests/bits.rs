use nano_sync::utils::{
    big_int_from_bytes_be, bits_to_bytes, bits_to_bytes_le, bytes_eq, bytes_to_bits,
    reverse_inner_byte_order,
};

#[test]
fn bytes_to_bits_reads_most_significant_first() {
    let bits = bytes_to_bits(&[0b1010_0000, 0b0000_0001]);
    let mut expected = vec![true, false, true, false, false, false, false, false];
    expected.extend(vec![false, false, false, false, false, false, false, true]);
    assert_eq!(bits, expected);
}

#[test]
fn bits_to_bytes_inverts_bytes_to_bits() {
    let bytes = vec![0u8, 1, 2, 127, 128, 200, 255];
    let bits = bytes_to_bits(&bytes);
    assert_eq!(bits_to_bytes(&bits), bytes);
}

#[test]
fn bits_to_bytes_le_reads_least_significant_first() {
    let bits = vec![true, false, false, false, false, false, false, false];
    assert_eq!(bits_to_bytes_le(&bits), vec![1u8]);
    let bits2 = vec![false, false, false, false, false, false, false, true];
    assert_eq!(bits_to_bytes_le(&bits2), vec![128u8]);
}

#[test]
fn reverse_inner_byte_order_reverses_each_chunk() {
    let bits = bytes_to_bits(&[0b1000_0000, 0b1100_0000]);
    let reversed = reverse_inner_byte_order(&bits);
    assert_eq!(bits_to_bytes(&reversed), vec![0b0000_0001, 0b0000_0011]);
}

#[test]
fn bytes_eq_compares_contents() {
    assert!(bytes_eq(&vec![1u8, 2, 3], &vec![1u8, 2, 3]));
    assert!(!bytes_eq(&vec![1u8, 2, 3], &vec![1u8, 2, 4]));
    assert!(!bytes_eq(&vec![1u8, 2], &vec![1u8, 2, 3]));
}

#[test]
fn big_int_reads_big_endian_limbs() {
    let mut bytes = [0u8; 96];
    for (i, b) in bytes.iter_mut().enumerate() {
        *b = i as u8;
    }
    let big = big_int_from_bytes_be(&bytes);
    for k in 0..12 {
        let offset = 8 * (11 - k);
        let mut word = [0u8; 8];
        word.copy_from_slice(&bytes[offset..offset + 8]);
        assert_eq!(big.limbs[k], u64::from_be_bytes(word));
    }
}
