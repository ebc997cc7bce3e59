//! The raw packets that the tablet sends, and the readings inside them.

use vstd::arithmetic::power2::pow2;
use vstd::prelude::*;

verus! {

/// Size of the buffer that packets are read into.
pub const PACKET_SIZE: usize = 64;

/// How many bytes of a packet hold readings.
pub const READINGS_SIZE: usize = 13;

const X_AXIS_HIGH: usize = 1;

const X_AXIS_LOW: usize = 2;

const Y_AXIS_HIGH: usize = 3;

const Y_AXIS_LOW: usize = 4;

const PRESSURE_HIGH: usize = 5;

const PRESSURE_LOW: usize = 6;

const PEN_BUTTONS: usize = 9;

const TABLET_BUTTONS_LOW: usize = 11;

const TABLET_BUTTONS_HIGH: usize = 12;

/// Bits of the button word that are forced high, that is, to "not pressed".
const UNUSED_BUTTONS: u16 = 0xcc00;

/// The big-endian reading of two bytes.
pub open spec fn word(high: u8, low: u8) -> int {
    high * 256 + low
}

/// The raw horizontal position in a packet.
pub open spec fn packet_x(data: Seq<u8>) -> int {
    word(data[1], data[2])
}

/// The raw vertical position in a packet.
pub open spec fn packet_y(data: Seq<u8>) -> int {
    word(data[3], data[4])
}

/// The raw pressure in a packet; the harder the pen is pressed, the smaller.
pub open spec fn packet_pressure(data: Seq<u8>) -> int {
    word(data[5], data[6])
}

/// The pen's barrel button in a packet.
pub open spec fn packet_pen_button(data: Seq<u8>) -> u8 {
    data[9]
}

/// The tablet's buttons in a packet, one bit each, low where pressed.
pub open spec fn packet_tablet_buttons(data: Seq<u8>) -> u16 {
    (word(data[12], data[11]) as u16) | 0xcc00
}

/// Whether a control is pressed in a button word: its bit is low.
pub open spec fn is_down(buttons: u16, id: u8) -> bool {
    buttons & (1u16 << id) == 0
}

/// A packet's bytes.
pub struct RawDataReader {
    pub data: Vec<u8>,
}

impl View for RawDataReader {
    type V = Seq<u8>;

    open spec fn view(&self) -> Seq<u8> {
        self.data@
    }
}

impl Default for RawDataReader {
    /// A reader without a buffer.
    fn default() -> (reader: RawDataReader)
        ensures
            reader@ == Seq::<u8>::empty(),
    {
        RawDataReader { data: Vec::new() }
    }
}

impl RawDataReader {
    /// A reader with a zeroed buffer for one packet.
    pub fn new() -> (reader: RawDataReader)
        ensures
            reader@ == Seq::new(64, |i: int| 0u8),
    {
        let data: Vec<u8> = vec![0u8; PACKET_SIZE];
        let reader = RawDataReader { data };
        assert(reader@ =~= Seq::new(64, |i: int| 0u8));
        reader
    }

    /// Joins two bytes to a word.
    pub fn u16_from_2_u8(&self, high: u8, low: u8) -> (value: u16)
        ensures
            value == word(high, low),
    {
        assert((high as u16) << 8 | (low as u16) == (high as u16) * 256 + (low as u16)) by (bit_vector);
        (high as u16) << 8 | (low as u16)
    }

    /// The raw horizontal position.
    pub fn x_axis(&self) -> (x: i32)
        requires
            self@.len() > 2,
        ensures
            x == packet_x(self@),
    {
        self.u16_from_2_u8(self.data[X_AXIS_HIGH], self.data[X_AXIS_LOW]) as i32
    }

    /// The raw vertical position.
    pub fn y_axis(&self) -> (y: i32)
        requires
            self@.len() > 4,
        ensures
            y == packet_y(self@),
    {
        self.u16_from_2_u8(self.data[Y_AXIS_HIGH], self.data[Y_AXIS_LOW]) as i32
    }

    /// The raw pressure.
    pub fn pressure(&self) -> (pressure: i32)
        requires
            self@.len() > 6,
        ensures
            pressure == packet_pressure(self@),
    {
        self.u16_from_2_u8(self.data[PRESSURE_HIGH], self.data[PRESSURE_LOW]) as i32
    }

    /// The tablet's buttons, one bit each, low where pressed.
    pub fn tablet_buttons_as_binary_flags(&self) -> (buttons: u16)
        requires
            self@.len() > 12,
        ensures
            buttons == packet_tablet_buttons(self@),
    {
        self.u16_from_2_u8(self.data[TABLET_BUTTONS_HIGH], self.data[TABLET_BUTTONS_LOW])
            | UNUSED_BUTTONS
    }

    /// The pen's barrel button.
    pub fn pen_buttons(&self) -> (button: u8)
        requires
            self@.len() > 9,
        ensures
            button == packet_pen_button(self@),
    {
        self.data[PEN_BUTTONS]
    }
}

/// The readings are words: whatever the bytes, they fit in sixteen bits.
pub proof fn law_readings_are_words(data: Seq<u8>)
    ensures
        0 <= packet_x(data) <= 0xffff,
        0 <= packet_y(data) <= 0xffff,
        0 <= packet_pressure(data) <= 0xffff,
{
}

/// Where the readings are: each is made of two bytes in a row, the first of
/// which counts two hundred and fifty-six times; the barrel button has a byte of
/// its own.
pub proof fn law_readings_are_big_endian(data: Seq<u8>)
    ensures
        packet_x(data) == 256 * data[1] + data[2],
        packet_y(data) == 256 * data[3] + data[4],
        packet_pressure(data) == 256 * data[5] + data[6],
        packet_pen_button(data) == data[9],
{
}

/// A word gives back the bytes that it was made of.
pub proof fn law_word_gives_back_its_bytes(high: u8, low: u8)
    ensures
        word(high, low) / 256 == high,
        word(high, low) % 256 == low,
{
}

/// A control is down exactly where its bit, read as a binary digit of the word,
/// is zero.
pub proof fn law_down_is_a_zero_digit(buttons: u16, id: u8)
    requires
        id < 16,
    ensures
        is_down(buttons, id) <==> (buttons as int / pow2(id as nat) as int) % 2 == 0,
{
    lemma_bit_is_a_power(id);
    assert(buttons & (1u16 << id) == 0 <==> (buttons / (1u16 << id)) % 2 == 0) by (bit_vector)
        requires
            id < 16,
    ;
}

/// A single bit is a power of two.
proof fn lemma_bit_is_a_power(id: u8)
    requires
        id < 16,
    ensures
        (1u16 << id) == pow2(id as nat),
        (1u16 << id) > 0,
{
    vstd::arithmetic::power2::lemma2_to64();
    assert((1u16 << 0u8) == 1 && (1u16 << 1u8) == 2 && (1u16 << 2u8) == 4 && (1u16 << 3u8) == 8 && (
    1u16 << 4u8) == 16 && (1u16 << 5u8) == 32 && (1u16 << 6u8) == 64 && (1u16 << 7u8) == 128 && (
    1u16 << 8u8) == 256 && (1u16 << 9u8) == 512 && (1u16 << 10u8) == 1024 && (1u16 << 11u8) == 2048
        && (1u16 << 12u8) == 4096 && (1u16 << 13u8) == 8192 && (1u16 << 14u8) == 16384 && (1u16
        << 15u8) == 32768) by (bit_vector);
}

/// Pressing a control, that is, clearing its bit, brings it down, letting go of
/// it brings it up, and neither does anything to another.
pub proof fn law_bits_are_controls(buttons: u16, id: u8, other: u8)
    requires
        id < 16,
        other < 16,
    ensures
        is_down(buttons & !(1u16 << id), other) <==> other == id || is_down(buttons, other),
        is_down(buttons | (1u16 << id), other) <==> other != id && is_down(buttons, other),
{
    assert((buttons & !(1u16 << id)) & (1u16 << other) == 0 <==> other == id || buttons & (1u16
        << other) == 0) by (bit_vector)
        requires
            id < 16,
            other < 16,
    ;
    assert((buttons | (1u16 << id)) & (1u16 << other) == 0 <==> other != id && buttons & (1u16
        << other) == 0) by (bit_vector)
        requires
            id < 16,
            other < 16,
    ;
}

/// Where the controls are: the first eight are the binary digits of byte 11,
/// from the lowest up, the next those of byte 12; a zero is a control that is
/// down. Of byte 12 the third, fourth, seventh and eighth digit do not count.
pub proof fn law_controls_are_digits_of_two_bytes(data: Seq<u8>, id: u8)
    requires
        id < 16,
    ensures
        id < 8 ==> (is_down(packet_tablet_buttons(data), id) <==> (data[11] as int / pow2(
            id as nat,
        ) as int) % 2 == 0),
        id >= 8 && id != 10 && id != 11 && id != 14 && id != 15 ==> (is_down(
            packet_tablet_buttons(data),
            id,
        ) <==> (data[12] as int / pow2((id - 8) as nat) as int) % 2 == 0),
        id == 10 || id == 11 || id == 14 || id == 15 ==> !is_down(packet_tablet_buttons(data), id),
{
    law_unused_buttons_are_never_down(data);
    if id != 10 && id != 11 && id != 14 && id != 15 {
        law_used_buttons_are_read_as_sent(data, id);
        let high = data[12];
        let low = data[11];
        let joined = (high as u16) << 8 | (low as u16);
        assert((high as u16) << 8 | (low as u16) == (high as u16) * 256 + (low as u16))
            by (bit_vector);
        assert(joined == word(high, low) as u16);
        law_down_is_a_zero_digit(joined, id);
        lemma_bit_is_a_power(id);
        if id < 8 {
            assert((((high as u16) << 8 | (low as u16)) / (1u16 << id)) % 2 == ((low as u16) / (1u16
                << id)) % 2) by (bit_vector)
                requires
                    id < 8,
            ;
        } else {
            let place = (id - 8) as u8;
            lemma_bit_is_a_power(place);
            assert((((high as u16) << 8 | (low as u16)) / (1u16 << id)) % 2 == ((high as u16) / (
            1u16 << place)) % 2) by (bit_vector)
                requires
                    id == place + 8,
                    place < 8,
            ;
        }
    }
}

/// The four forced bits of the button word never read as pressed, whatever the
/// tablet sends.
pub proof fn law_unused_buttons_are_never_down(data: Seq<u8>)
    ensures
        !is_down(packet_tablet_buttons(data), 10),
        !is_down(packet_tablet_buttons(data), 11),
        !is_down(packet_tablet_buttons(data), 14),
        !is_down(packet_tablet_buttons(data), 15),
{
    let raw = word(data[12], data[11]) as u16;
    assert((raw | 0xcc00) & (1u16 << 10u8) != 0) by (bit_vector);
    assert((raw | 0xcc00) & (1u16 << 11u8) != 0) by (bit_vector);
    assert((raw | 0xcc00) & (1u16 << 14u8) != 0) by (bit_vector);
    assert((raw | 0xcc00) & (1u16 << 15u8) != 0) by (bit_vector);
}

/// Any other control reads as pressed exactly where its own bit is low in the
/// bytes that the tablet sends.
pub proof fn law_used_buttons_are_read_as_sent(data: Seq<u8>, id: u8)
    requires
        id < 14,
        id != 10,
        id != 11,
    ensures
        is_down(packet_tablet_buttons(data), id) <==> is_down(word(data[12], data[11]) as u16, id),
{
    let raw = word(data[12], data[11]) as u16;
    assert((raw | 0xcc00) & (1u16 << id) == 0 <==> raw & (1u16 << id) == 0) by (bit_vector)
        requires
            id < 14,
            id != 10,
            id != 11,
    ;
}

/// A tablet at rest sends all ones, and then no control reads as pressed.
pub proof fn law_nothing_is_down_at_rest(data: Seq<u8>, id: u8)
    requires
        data[11] == 0xff,
        data[12] == 0xff,
        id < 16,
    ensures
        packet_tablet_buttons(data) == 0xffff,
        !is_down(packet_tablet_buttons(data), id),
{
    assert(0xffffu16 | 0xcc00 == 0xffff) by (bit_vector);
    assert(0xffffu16 & (1u16 << id) != 0) by (bit_vector)
        requires
            id < 16,
    ;
}

/// Clearing one bit of the word at rest presses that one control.
pub proof fn law_a_cleared_bit_is_one_pressed_control(id: u8, other: u8)
    requires
        id < 16,
        other < 16,
    ensures
        is_down(0xffffu16 & !(1u16 << id), other) <==> other == id,
{
    assert((0xffffu16 & !(1u16 << id)) & (1u16 << other) == 0 <==> other == id) by (bit_vector)
        requires
            id < 16,
            other < 16,
    ;
}

/// A reader holds the bytes in its buffer, no more and no less.
pub proof fn law_reader_holds_its_buffer(reader: RawDataReader)
    ensures
        reader@ == reader.data@,
{
}

/// A reader gives out what its bytes say, each pair of them as one number.
pub proof fn law_reader_gives_out_its_bytes(
    reader: RawDataReader,
    readings: (i32, i32, i32),
    button: u8,
    buttons: u16,
)
    requires
        call_ensures(RawDataReader::x_axis, (&reader,), readings.0),
        call_ensures(RawDataReader::y_axis, (&reader,), readings.1),
        call_ensures(RawDataReader::pressure, (&reader,), readings.2),
        call_ensures(RawDataReader::pen_buttons, (&reader,), button),
        call_ensures(RawDataReader::tablet_buttons_as_binary_flags, (&reader,), buttons),
    ensures
        readings.0 == 256 * reader.data@[1] + reader.data@[2],
        readings.1 == 256 * reader.data@[3] + reader.data@[4],
        readings.2 == 256 * reader.data@[5] + reader.data@[6],
        button == reader.data@[9],
        buttons == packet_tablet_buttons(reader.data@),
{
}

/// Two bytes are joined to the number that has them as its digits.
pub proof fn law_bytes_are_joined(reader: RawDataReader, high: u8, low: u8, value: u16)
    requires
        call_ensures(RawDataReader::u16_from_2_u8, (&reader, high, low), value),
    ensures
        value / 256 == high,
        value % 256 == low,
{
}

/// A new reader has room for one packet of 64 bytes, all zero; a default one has
/// no room at all.
pub proof fn law_new_reader_has_room(reader: RawDataReader, other: RawDataReader)
    requires
        call_ensures(RawDataReader::new, (), reader),
        call_ensures(RawDataReader::default, (), other),
    ensures
        reader.data@.len() == 64,
        forall|i: int| 0 <= i < 64 ==> #[trigger] reader.data@[i] == 0,
        other.data@.len() == 0,
{
}

} // verus!
