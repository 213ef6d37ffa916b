use scd30_monitor::checksum::{checksum, INITIAL, POLYNOMIAL, REFLECT, WIDTH, XOR_OUT};

#[test]
fn parameters_are_the_vendors() {
    assert_eq!(POLYNOMIAL, 0x31);
    assert_eq!(WIDTH, 8);
    assert_eq!(INITIAL, 0xff);
    assert_eq!(XOR_OUT, 0x00);
    assert!(!REFLECT);
}

#[test]
fn checksum_matches_vendor_reference_vector() {
    assert_eq!(checksum(&[0xbe, 0xef]), 0x92);
}

#[test]
fn checksum_of_zero_pressure_argument() {
    assert_eq!(checksum(&[0x00, 0x00]), 0x81);
}

#[test]
fn checksum_of_default_pressure_argument() {
    let pressure: u16 = 1020;
    assert_eq!(checksum(&pressure.to_be_bytes()), 0x53);
}

#[test]
fn checksum_of_nothing_is_the_initial_value() {
    assert_eq!(checksum(&[]), 0xff);
}

#[test]
fn checksum_is_deterministic() {
    let mut data: Vec<u8> = Vec::new();
    for round in 0..64u32 {
        data.push((round * 37 % 256) as u8);
        let first = checksum(&data);
        let second = checksum(&data);
        assert_eq!(first, second);
    }
}

#[test]
fn checksum_depends_on_byte_order() {
    assert_ne!(checksum(&[0xbe, 0xef]), checksum(&[0xef, 0xbe]));
}

#[test]
fn checksum_detects_every_single_bit_error_in_a_word() {
    let word = [0x43u8, 0xdb];
    let good = checksum(&word);
    for byte in 0..2 {
        for bit in 0..8 {
            let mut bad = word;
            bad[byte] ^= 1 << bit;
            assert_ne!(checksum(&bad), good);
        }
    }
}
