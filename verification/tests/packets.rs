use mx002::packet::{RawDataReader, READINGS_SIZE};

fn packet(bytes: &[(usize, u8)]) -> RawDataReader {
    let mut reader = RawDataReader::new();
    for &(index, byte) in bytes {
        reader.data[index] = byte;
    }
    reader
}

#[test]
fn new_reader_is_zeroed() {
    assert_eq!(RawDataReader::new().data, vec![0u8; 64]);
    assert!(RawDataReader::new().data.len() >= READINGS_SIZE);
}

#[test]
fn default_reader_has_no_buffer() {
    assert!(RawDataReader::default().data.is_empty());
}

#[test]
fn words_are_big_endian() {
    let reader = RawDataReader::new();
    assert_eq!(reader.u16_from_2_u8(0x12, 0x34), 0x1234);
    assert_eq!(reader.u16_from_2_u8(0x00, 0xff), 0x00ff);
    assert_eq!(reader.u16_from_2_u8(0xff, 0x00), 0xff00);
    assert_eq!(reader.u16_from_2_u8(0xff, 0xff), 0xffff);
}

#[test]
fn readings_come_from_their_bytes() {
    let reader = packet(&[
        (1, 0x01),
        (2, 0x02),
        (3, 0x03),
        (4, 0x04),
        (5, 0x05),
        (6, 0x06),
        (9, 0x07),
        (11, 0x08),
        (12, 0x31),
    ]);
    assert_eq!(reader.x_axis(), 0x0102);
    assert_eq!(reader.y_axis(), 0x0304);
    assert_eq!(reader.pressure(), 0x0506);
    assert_eq!(reader.pen_buttons(), 0x07);
    assert_eq!(reader.tablet_buttons_as_binary_flags(), 0xfd08);
}

#[test]
fn readings_reach_the_whole_word() {
    let reader = packet(&[(1, 0xff), (2, 0xff), (5, 0xff), (6, 0xff)]);
    assert_eq!(reader.x_axis(), 65535);
    assert_eq!(reader.pressure(), 65535);
}

#[test]
fn unused_buttons_are_forced_high() {
    let reader = packet(&[]);
    assert_eq!(reader.tablet_buttons_as_binary_flags(), 0xcc00);
}

#[test]
fn a_tablet_at_rest_reads_all_ones() {
    let reader = packet(&[(11, 0xff), (12, 0xff)]);
    assert_eq!(reader.tablet_buttons_as_binary_flags(), 0xffff);
    let unused_low = packet(&[(11, 0xff), (12, 0x33)]);
    assert_eq!(unused_low.tablet_buttons_as_binary_flags(), 0xffff);
}
