use fit_rust::protocol::io::{
    arr4, read_i16, read_i32, read_i64, read_i8, read_u16, read_u16_arr, read_u32, read_u32_arr,
    read_u64, read_u8, read_u8_arr, skip_bytes, write_bin_u8, ByteCursor,
};
use fit_rust::protocol::Endian;

#[test]
fn read_u8_walks_the_buffer() {
    let mut c = ByteCursor::new(vec![7, 9]);
    assert_eq!(read_u8(&mut c), 7);
    assert_eq!(c.position(), 1);
    assert_eq!(read_u8(&mut c), 9);
    assert_eq!(c.position(), 2);
    assert_eq!(c.remaining(), 0);
}

#[test]
fn read_u8_at_the_end_is_zero() {
    let mut c = ByteCursor::new(vec![7]);
    assert_eq!(read_u8(&mut c), 7);
    assert_eq!(read_u8(&mut c), 0);
    assert_eq!(c.position(), 1);
}

#[test]
fn read_i8_is_twos_complement() {
    let mut c = ByteCursor::new(vec![0x80, 0xFF, 0x7F, 0x00]);
    assert_eq!(read_i8(&mut c), -128);
    assert_eq!(read_i8(&mut c), -1);
    assert_eq!(read_i8(&mut c), 127);
    assert_eq!(read_i8(&mut c), 0);
}

#[test]
fn read_u8_arr_takes_what_is_left() {
    let mut c = ByteCursor::new(vec![1, 2, 3]);
    assert_eq!(read_u8_arr(&mut c, 2), vec![1, 2]);
    assert_eq!(c.position(), 2);
    assert_eq!(read_u8_arr(&mut c, 5), vec![3]);
    assert_eq!(c.position(), 3);
    assert_eq!(read_u8_arr(&mut c, 5), Vec::<u8>::new());
}

#[test]
fn arr4_pads_with_zeros() {
    let mut c = ByteCursor::new(vec![1, 2, 3, 4, 5, 6]);
    assert_eq!(arr4(&mut c), [1, 2, 3, 4]);
    assert_eq!(arr4(&mut c), [5, 6, 0, 0]);
    assert_eq!(c.position(), 6);
}

#[test]
fn read_u16_in_both_orders() {
    let mut c = ByteCursor::new(vec![0x34, 0x12, 0x34, 0x12]);
    assert_eq!(read_u16(&mut c, Endian::Little), 0x1234);
    assert_eq!(read_u16(&mut c, Endian::Big), 0x3412);
}

#[test]
fn read_i16_in_both_orders() {
    let mut c = ByteCursor::new(vec![0xFE, 0xFF, 0xFF, 0xFE]);
    assert_eq!(read_i16(&mut c, Endian::Little), -2);
    assert_eq!(read_i16(&mut c, Endian::Big), -2);
}

#[test]
fn read_u32_in_both_orders() {
    let mut c = ByteCursor::new(vec![0x78, 0x56, 0x34, 0x12, 0x12, 0x34, 0x56, 0x78]);
    assert_eq!(read_u32(&mut c, Endian::Little), 0x1234_5678);
    assert_eq!(read_u32(&mut c, Endian::Big), 0x1234_5678);
}

#[test]
fn read_i32_is_twos_complement() {
    let mut c = ByteCursor::new(vec![0xFF, 0xFF, 0xFF, 0xFF, 0x80, 0, 0, 0]);
    assert_eq!(read_i32(&mut c, Endian::Little), -1);
    assert_eq!(read_i32(&mut c, Endian::Big), i32::MIN);
}

#[test]
fn read_u64_in_both_orders() {
    let mut c = ByteCursor::new(vec![8, 7, 6, 5, 4, 3, 2, 1, 1, 2, 3, 4, 5, 6, 7, 8]);
    assert_eq!(read_u64(&mut c, Endian::Little), 0x0102_0304_0506_0708);
    assert_eq!(read_u64(&mut c, Endian::Big), 0x0102_0304_0506_0708);
}

#[test]
fn read_i64_is_twos_complement() {
    let mut c = ByteCursor::new(vec![0xFE, 0xFF, 0xFF, 0xFF, 0xFF, 0xFF, 0xFF, 0xFF]);
    assert_eq!(read_i64(&mut c, Endian::Little), -2);
}

#[test]
fn read_u16_arr_reads_each_element() {
    let mut c = ByteCursor::new(vec![1, 0, 2, 0, 3]);
    assert_eq!(read_u16_arr(&mut c, Endian::Little, 3), vec![1, 2, 3]);
    assert_eq!(c.position(), 5);
}

#[test]
fn read_u32_arr_reads_each_element() {
    let mut c = ByteCursor::new(vec![0, 0, 0, 1, 0, 0, 1, 0]);
    assert_eq!(read_u32_arr(&mut c, Endian::Big, 2), vec![1, 256]);
}

#[test]
fn skip_bytes_stops_at_the_end() {
    let mut c = ByteCursor::new(vec![1, 2, 3]);
    skip_bytes(&mut c, 2);
    assert_eq!(c.position(), 2);
    skip_bytes(&mut c, 200);
    assert_eq!(c.position(), 3);
    assert_eq!(c.len(), 3);
    assert_eq!(c.into_inner(), vec![1, 2, 3]);
}

#[test]
fn write_bin_u8_appends() {
    let mut v = vec![1u8];
    write_bin_u8(&mut v, 2);
    assert_eq!(v, vec![1, 2]);
}
