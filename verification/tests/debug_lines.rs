use mx002::debug::debug_line;
use mx002::packet::RawDataReader;

fn expected(reader: &RawDataReader, n: usize) -> String {
    let end = 14.min(n);
    format!(
        "raw[0..{end}]={:02x?}  pen[9]={:#04x}  tab[11,12]={:#04x},{:#04x}",
        &reader.data[..end],
        reader.data[9],
        reader.data[11],
        reader.data[12],
    )
}

#[test]
fn debug_line_shows_the_bytes() {
    let mut reader = RawDataReader::new();
    for i in 0..64 {
        reader.data[i] = (i * 19) as u8;
    }
    for n in 0..20 {
        assert_eq!(debug_line(&reader, n), expected(&reader, n));
    }
    assert_eq!(debug_line(&reader, 64), expected(&reader, 64));
}

#[test]
fn debug_line_of_a_short_packet() {
    let reader = RawDataReader::new();
    assert_eq!(
        debug_line(&reader, 2),
        "raw[0..2]=[00, 00]  pen[9]=0x00  tab[11,12]=0x00,0x00"
    );
}
