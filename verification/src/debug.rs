//! A packet's bytes as text, for finding out what a control sends.

use vstd::prelude::*;
use vstd::string::{StrSliceExecFns, StringExecFns};

use crate::packet::RawDataReader;

verus! {

/// How many bytes of a packet are shown at most.
pub const SHOWN_BYTES: usize = 14;

/// A hexadecimal digit.
pub open spec fn hex_digit(n: int) -> Seq<char> {
    "0123456789abcdef"@.subrange(n, n + 1)
}

/// A byte as two hexadecimal digits.
pub open spec fn hex_byte(byte: u8) -> Seq<char> {
    hex_digit(byte as int / 16) + hex_digit(byte as int % 16)
}

/// A number below one hundred in decimal, without leading zeros.
pub open spec fn small_decimal(n: int) -> Seq<char> {
    if n < 10 {
        hex_digit(n)
    } else {
        hex_digit(n / 10) + hex_digit(n % 10)
    }
}

/// Bytes as hexadecimal digits, separated by commas.
pub open spec fn hex_list(bytes: Seq<u8>) -> Seq<char>
    decreases bytes.len(),
{
    if bytes.len() == 0 {
        Seq::empty()
    } else if bytes.len() == 1 {
        hex_byte(bytes[0])
    } else {
        hex_list(bytes.drop_last()) + ", "@ + hex_byte(bytes.last())
    }
}

/// How many bytes are shown of a packet of a given length.
pub open spec fn shown(length: usize) -> int {
    if length < SHOWN_BYTES {
        length as int
    } else {
        SHOWN_BYTES as int
    }
}

/// The line that is shown for a packet: its first bytes, and once more those of
/// the barrel button and of the tablet's buttons.
pub open spec fn packet_line(data: Seq<u8>, length: usize) -> Seq<char> {
    "raw[0.."@ + small_decimal(shown(length)) + "]=["@ + hex_list(data.take(shown(length)))
        + "]  pen[9]=0x"@ + hex_byte(data[9]) + "  tab[11,12]=0x"@ + hex_byte(data[11]) + ",0x"@
        + hex_byte(data[12])
}

/// Appends a hexadecimal digit.
fn append_digit(line: &mut String, n: u8)
    requires
        n < 16,
    ensures
        final(line)@ == old(line)@ + hex_digit(n as int),
{
    let digits = "0123456789abcdef";
    proof {
        reveal_strlit("0123456789abcdef");
    }
    line.append(digits.substring_ascii(n as usize, n as usize + 1));
}

/// Appends a byte as two hexadecimal digits.
fn append_byte(line: &mut String, byte: u8)
    ensures
        final(line)@ == old(line)@ + hex_byte(byte),
{
    append_digit(line, byte / 16);
    append_digit(line, byte % 16);
    assert(line@ =~= old(line)@ + hex_byte(byte));
}

/// Appends a number below one hundred in decimal.
fn append_decimal(line: &mut String, n: u8)
    requires
        n < 100,
    ensures
        final(line)@ == old(line)@ + small_decimal(n as int),
{
    if n >= 10 {
        append_digit(line, n / 10);
    }
    append_digit(line, n % 10);
    assert(line@ =~= old(line)@ + small_decimal(n as int));
}

/// Appends the first bytes of a run, separated by commas.
fn append_list(line: &mut String, bytes: &Vec<u8>, count: usize)
    requires
        count <= bytes@.len(),
    ensures
        final(line)@ == old(line)@ + hex_list(bytes@.take(count as int)),
{
    for i in 0..count
        invariant
            count <= bytes@.len(),
            line@ =~= old(line)@ + hex_list(bytes@.take(i as int)),
    {
        proof {
            assert(bytes@.take(i + 1).drop_last() =~= bytes@.take(i as int));
        }
        if i > 0 {
            line.append(", ");
        }
        append_byte(line, bytes[i]);
    }
}

/// The line that is shown for a packet of which `length` bytes were read.
pub fn debug_line(reader: &RawDataReader, length: usize) -> (line: String)
    requires
        reader@.len() > 12,
        shown(length) <= reader@.len(),
    ensures
        line@ == packet_line(reader@, length),
{
    let end: usize = if length < SHOWN_BYTES {
        length
    } else {
        SHOWN_BYTES
    };
    let mut line = String::new();
    line.append("raw[0..");
    append_decimal(&mut line, end as u8);
    line.append("]=[");
    append_list(&mut line, &reader.data, end);
    line.append("]  pen[9]=0x");
    append_byte(&mut line, reader.data[9]);
    line.append("  tab[11,12]=0x");
    append_byte(&mut line, reader.data[11]);
    line.append(",0x");
    append_byte(&mut line, reader.data[12]);
    assert(line@ =~= packet_line(reader@, length));
    line
}

/// The character of a hexadecimal digit, by its number in the character table.
pub open spec fn digit_char(n: int) -> char {
    if n < 10 {
        (48 + n) as char
    } else {
        (87 + n) as char
    }
}

/// A digit is the character that stands as far behind `0` as its value says, or
/// from ten on as far behind `a`.
pub proof fn law_digits_follow_the_character_table(n: int)
    requires
        0 <= n < 16,
    ensures
        hex_digit(n) == seq![digit_char(n)],
        digit_char(n) as int == (if n < 10 {
            48 + n
        } else {
            97 + (n - 10)
        }),
{
    reveal_strlit("0123456789abcdef");
    assert(hex_digit(n) =~= seq![digit_char(n)]);
}

/// A byte is shown as its sixteens and its ones; reading the two digits gives the
/// byte back.
pub proof fn law_byte_is_shown_as_two_digits(byte: u8)
    ensures
        exists|high: int, low: int|
            0 <= high < 16 && 0 <= low < 16 && 16 * high + low == byte && hex_byte(byte) == seq![
                #[trigger] digit_char(high),
                #[trigger] digit_char(low),
            ],
{
    let high = byte as int / 16;
    let low = byte as int % 16;
    law_digits_follow_the_character_table(high);
    law_digits_follow_the_character_table(low);
    assert(hex_byte(byte) =~= seq![digit_char(high), digit_char(low)]);
}

/// A small number is shown by its ones, and before them its tens if it has any.
pub proof fn law_small_numbers_are_decimal(n: int)
    requires
        0 <= n < 100,
    ensures
        n < 10 ==> small_decimal(n) == seq![digit_char(n)],
        n >= 10 ==> small_decimal(n) == seq![digit_char(n / 10), digit_char(n % 10)],
{
    law_digits_follow_the_character_table(n % 10);
    law_digits_follow_the_character_table(n / 10);
    if n >= 10 {
        assert(small_decimal(n) =~= seq![digit_char(n / 10), digit_char(n % 10)]);
    }
}

/// In a list of bytes each takes four places, two for its digits and two for a
/// comma and a space, of which the last byte has none.
pub proof fn law_bytes_are_listed_in_their_places(bytes: Seq<u8>)
    ensures
        bytes.len() == 0 ==> hex_list(bytes).len() == 0,
        bytes.len() > 0 ==> hex_list(bytes).len() == 4 * bytes.len() - 2,
        forall|i: int|
            0 <= i < bytes.len() ==> {
                &&& hex_list(bytes)[4 * i] == digit_char(#[trigger] bytes[i] as int / 16)
                &&& hex_list(bytes)[4 * i + 1] == digit_char(bytes[i] as int % 16)
                &&& i + 1 < bytes.len() ==> hex_list(bytes)[4 * i + 2] == ','
                &&& i + 1 < bytes.len() ==> hex_list(bytes)[4 * i + 3] == ' '
            },
    decreases bytes.len(),
{
    if bytes.len() > 0 {
        let rest = bytes.drop_last();
        let last = bytes.last();
        law_bytes_are_listed_in_their_places(rest);
        law_digits_follow_the_character_table(last as int / 16);
        law_digits_follow_the_character_table(last as int % 16);
        reveal_strlit(", ");
        assert(hex_byte(last).len() == 2);
        assert forall|i: int| 0 <= i < bytes.len() implies {
            &&& hex_list(bytes)[4 * i] == digit_char(#[trigger] bytes[i] as int / 16)
            &&& hex_list(bytes)[4 * i + 1] == digit_char(bytes[i] as int % 16)
            &&& i + 1 < bytes.len() ==> hex_list(bytes)[4 * i + 2] == ','
            &&& i + 1 < bytes.len() ==> hex_list(bytes)[4 * i + 3] == ' '
        } by {
            if i + 1 < bytes.len() {
                assert(rest[i] == bytes[i]);
            }
        }
    }
}

/// The line of a packet: how many bytes are shown, at most fourteen; those bytes;
/// and bytes 9, 11 and 12 by name.
pub proof fn law_line_names_the_buttons(data: Seq<u8>, length: usize)
    ensures
        ({
            let count: int = if length < 14 {
                length as int
            } else {
                14
            };
            let digits = |byte: u8|
                seq![digit_char(byte as int / 16), digit_char(byte as int % 16)];
            packet_line(data, length) == "raw[0.."@ + (if count < 10 {
                seq![digit_char(count)]
            } else {
                seq!['1', digit_char(count - 10)]
            }) + "]=["@ + hex_list(data.take(count)) + "]  pen[9]=0x"@ + digits(data[9])
                + "  tab[11,12]=0x"@ + digits(data[11]) + ",0x"@ + digits(data[12])
        }),
{
    let count: int = if length < 14 {
        length as int
    } else {
        14
    };
    law_small_numbers_are_decimal(count);
    lemma_two_digits(data[9]);
    lemma_two_digits(data[11]);
    lemma_two_digits(data[12]);
}

/// The two digits of a byte.
proof fn lemma_two_digits(byte: u8)
    ensures
        hex_byte(byte) == seq![digit_char(byte as int / 16), digit_char(byte as int % 16)],
{
    law_digits_follow_the_character_table(byte as int / 16);
    law_digits_follow_the_character_table(byte as int % 16);
    assert(hex_byte(byte) =~= seq![digit_char(byte as int / 16), digit_char(byte as int % 16)]);
}

/// The line that is shown is that of the packet.
pub proof fn law_line_is_shown_as_said(reader: RawDataReader, length: usize, line: String)
    requires
        call_ensures(debug_line, (&reader, length), line),
    ensures
        line@ == packet_line(reader.data@, length),
{
}

} // verus!
