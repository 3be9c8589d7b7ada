use fit_rust::protocol::{calculate_fit_crc, fit_crc_get16};

#[test]
fn fit_crc_get16_test() {
    let example_header: [u8; 12] = [
        0x0E, 0x10, 0x90, 0x05, 0xB3, 0x10, 0x00, 0x00, 0x2E, 0x46, 0x49, 0x54,
    ];
    let header_crc = calculate_fit_crc(&example_header);
    println!("The CRC of the FIT header is: 0x{:X}", header_crc);
    assert_eq!(0x800, header_crc);
}

#[test]
fn crc_of_nothing_is_zero() {
    assert_eq!(0, calculate_fit_crc(&[]));
}

#[test]
fn crc_folds_byte_by_byte() {
    let bytes: [u8; 4] = [0x2E, 0x46, 0x49, 0x54];
    let mut crc: u16 = 0;
    for b in bytes {
        crc = fit_crc_get16(crc, b);
    }
    assert_eq!(crc, calculate_fit_crc(&bytes));
}
