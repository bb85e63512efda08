use ev_supervisor::crc8::{calc_crc8, generate_lookup};

#[test]
fn lookup() {
    let crc8_lookup = generate_lookup(0x07);

    assert_eq!(crc8_lookup[0], 0x00);
    assert_eq!(crc8_lookup[8], 0x38);
    assert_eq!(crc8_lookup[16], 0x70);
    assert_eq!(crc8_lookup[255], 0xf3);
}

#[test]
fn crc8() {
    let data = [0x31, 0x32, 0x33, 0x34, 0x35, 0x36, 0x37, 0x38, 0x39];
    let crc8_lookup = generate_lookup(0x07);

    let crc = calc_crc8(&data, &crc8_lookup);

    assert_eq!(crc, 0xf4);
}

#[test]
fn lookup_entry_zero_for_every_polynomial() {
    for polynomial in [0x00u8, 0x07, 0x31, 0x85, 0x9b, 0xff] {
        let table = generate_lookup(polynomial);
        assert_eq!(table.len(), 256);
        assert_eq!(table[0], 0);
    }
}

#[test]
fn crc8_of_empty_input_is_zero() {
    let table = generate_lookup(0x85);
    assert_eq!(calc_crc8(&[], &table), 0);
}
