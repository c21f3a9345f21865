use vstd::prelude::*;

use crate::error::AduError;
use crate::wire::le_u16;

verus! {

broadcast use vstd::array::group_array_axioms;

fn check_len(buf_len: usize, required: usize) -> (r: Result<(), AduError>)
    ensures
        r == (if buf_len < required {
            Err(AduError::BufferTooShort { need: required, have: buf_len })
        } else {
            Ok(())
        }),
{
    if buf_len < required {
        return Err(AduError::BufferTooShort { need: required, have: buf_len });
    }
    Ok(())
}

/// The raw 16-bit field in bytes `[0..1]`, which encodes `seconds * 1000 + milliseconds`
/// (little-endian). Used by CP16Time2a, CP24Time2a and CP56Time2a.
pub open spec fn ms_field(b: Seq<u8>) -> int {
    le_u16(b[0], b[1])
}

fn ms_raw<const N: usize>(bytes: &[u8; N]) -> (r: u16)
    requires
        N >= 2,
    ensures
        r as int == ms_field(bytes@),
{
    bytes[0] as u16 + (bytes[1] as u16) * 256
}

fn set_ms_raw<const N: usize>(bytes: &mut [u8; N], value: u16)
    requires
        N >= 2,
    ensures
        final(bytes)@ == old(bytes)@.update(0, (value % 256) as u8).update(1, (value / 256) as u8),
        ms_field(final(bytes)@) == value as int,
{
    bytes[0] = (value % 256) as u8;
    bytes[1] = (value / 256) as u8;
}

/// The array of the first 2 elements of a sequence.
pub open spec fn array_from_seq2(s: Seq<u8>) -> [u8; 2] {
    [s[0], s[1]]
}

/// The array of the first 3 elements of a sequence.
pub open spec fn array_from_seq3(s: Seq<u8>) -> [u8; 3] {
    [s[0], s[1], s[2]]
}

/// The array of the first 7 elements of a sequence.
pub open spec fn array_from_seq7(s: Seq<u8>) -> [u8; 7] {
    [s[0], s[1], s[2], s[3], s[4], s[5], s[6]]
}

/// CP16Time2a - Elapsed time, 2 bytes.
///
/// Wire format: `[ms_low, ms_high]` (little-endian milliseconds).
#[derive(Debug, Clone, Copy, PartialEq, Eq)]
pub struct Cp16Time2a {
    pub(crate) bytes: [u8; 2],
}

impl View for Cp16Time2a {
    type V = Seq<u8>;

    /// The 2 wire bytes.
    closed spec fn view(&self) -> Seq<u8> {
        self.bytes@
    }
}

impl Cp16Time2a {
    pub const ENCODED_SIZE: usize = 2;

    /// The value that a buffer decodes to: its first 2 bytes, or an error if it is shorter.
    pub closed spec fn spec_from_bytes(buf: Seq<u8>) -> Result<Cp16Time2a, AduError> {
        if buf.len() < 2 {
            Err(AduError::BufferTooShort { need: 2, have: buf.len() as usize })
        } else {
            Ok(Cp16Time2a { bytes: array_from_seq2(buf) })
        }
    }

    /// All bytes zero.
    pub fn new() -> (r: Self)
        ensures
            r@ == Seq::new(2, |i: int| 0u8),
    {
        let r = Cp16Time2a { bytes: [0u8; 2] };
        assert(r@ =~= Seq::new(2, |i: int| 0u8));
        r
    }

    /// Copies the first 2 bytes of `buf`.
    pub fn from_bytes(buf: &[u8]) -> (r: Result<Self, AduError>)
        ensures
            r == Cp16Time2a::spec_from_bytes(buf@),
            buf@.len() < 2 ==> r == Err::<Self, AduError>(
                AduError::BufferTooShort { need: 2, have: buf@.len() as usize },
            ),
            buf@.len() >= 2 ==> (r matches Ok(t) && t@ == buf@.subrange(0, 2)),
    {
        check_len(buf.len(), Cp16Time2a::ENCODED_SIZE)?;
        let bytes = [buf[0], buf[1]];
        assert(bytes@ =~= buf@.subrange(0, 2));
        assert(bytes =~= array_from_seq2(buf@));
        Ok(Cp16Time2a { bytes })
    }

    /// The 2 wire bytes.
    pub fn as_bytes(&self) -> (r: &[u8; 2])
        ensures
            r@ == self@,
    {
        &self.bytes
    }

    /// The elapsed time in milliseconds.
    pub open spec fn spec_elapsed_time_ms(self) -> u16 {
        ms_field(self@) as u16
    }

    pub fn elapsed_time_ms(&self) -> (r: u16)
        ensures
            r == self.spec_elapsed_time_ms(),
            r as int == ms_field(self@),
    {
        ms_raw(&self.bytes)
    }

    pub fn set_elapsed_time_ms(&mut self, value: u16)
        ensures
            final(self)@ == crate::wire::u16_le_seq(value as int),
            final(self).spec_elapsed_time_ms() == value,
    {
        set_ms_raw(&mut self.bytes, value);
        assert(self.bytes@ =~= crate::wire::u16_le_seq(value as int));
    }
}

impl Default for Cp16Time2a {
    fn default() -> (r: Self)
        ensures
            r@ == Seq::new(2, |i: int| 0u8),
    {
        Cp16Time2a::new()
    }
}

/// CP24Time2a - Three-byte time (ms within minute + minute + quality flags).
///
/// Wire format:
///   `[0..1]` milliseconds within minute (seconds * 1000 + ms, little-endian)
///   `[2]`    bits 0-5: minute, bit 6: substituted, bit 7: invalid
#[derive(Debug, Clone, Copy, PartialEq, Eq)]
pub struct Cp24Time2a {
    pub(crate) bytes: [u8; 3],
}

impl View for Cp24Time2a {
    type V = Seq<u8>;

    /// The 3 wire bytes.
    closed spec fn view(&self) -> Seq<u8> {
        self.bytes@
    }
}

impl Cp24Time2a {
    pub const ENCODED_SIZE: usize = 3;

    /// The value that a buffer decodes to: its first 3 bytes, or an error if it is shorter.
    pub closed spec fn spec_from_bytes(buf: Seq<u8>) -> Result<Cp24Time2a, AduError> {
        if buf.len() < 3 {
            Err(AduError::BufferTooShort { need: 3, have: buf.len() as usize })
        } else {
            Ok(Cp24Time2a { bytes: array_from_seq3(buf) })
        }
    }

    /// All bytes zero.
    pub fn new() -> (r: Self)
        ensures
            r@ == Seq::new(3, |i: int| 0u8),
    {
        let r = Cp24Time2a { bytes: [0u8; 3] };
        assert(r@ =~= Seq::new(3, |i: int| 0u8));
        r
    }

    /// Copies the first 3 bytes of `buf`.
    pub fn from_bytes(buf: &[u8]) -> (r: Result<Self, AduError>)
        ensures
            r == Cp24Time2a::spec_from_bytes(buf@),
            buf@.len() < 3 ==> r == Err::<Self, AduError>(
                AduError::BufferTooShort { need: 3, have: buf@.len() as usize },
            ),
            buf@.len() >= 3 ==> (r matches Ok(t) && t@ == buf@.subrange(0, 3)),
    {
        check_len(buf.len(), Cp24Time2a::ENCODED_SIZE)?;
        let bytes = [buf[0], buf[1], buf[2]];
        assert(bytes@ =~= buf@.subrange(0, 3));
        assert(bytes =~= array_from_seq3(buf@));
        Ok(Cp24Time2a { bytes })
    }

    /// The 3 wire bytes.
    pub fn as_bytes(&self) -> (r: &[u8; 3])
        ensures
            r@ == self@,
    {
        &self.bytes
    }

    /// Milliseconds within the second (0-999 for a well-formed value).
    pub open spec fn spec_millisecond(self) -> u16 {
        (ms_field(self@) % 1000) as u16
    }

    /// Seconds within the minute.
    pub open spec fn spec_second(self) -> u8 {
        (ms_field(self@) / 1000) as u8
    }

    /// Bits 0-5 of byte 2.
    pub open spec fn spec_minute(self) -> u8 {
        self@[2] & 0x3f
    }

    /// Bit 7 of byte 2.
    pub open spec fn spec_is_invalid(self) -> bool {
        self@[2] & 0x80 != 0
    }

    /// Bit 6 of byte 2.
    pub open spec fn spec_is_substituted(self) -> bool {
        self@[2] & 0x40 != 0
    }

    pub fn millisecond(&self) -> (r: u16)
        ensures
            r == self.spec_millisecond(),
    {
        ms_raw(&self.bytes) % 1000
    }

    /// Replaces the milliseconds, keeping the seconds.
    /// The new raw field `seconds * 1000 + value` must fit in 16 bits.
    pub fn set_millisecond(&mut self, value: u16)
        requires
            ms_field(old(self)@) / 1000 * 1000 + value <= u16::MAX,
        ensures
            ms_field(final(self)@) == ms_field(old(self)@) / 1000 * 1000 + value,
            final(self)@.subrange(2, 3) == old(self)@.subrange(2, 3),
            value < 1000 ==> final(self).spec_millisecond() == value,
            value < 1000 ==> final(self).spec_second() == old(self).spec_second(),
            final(self).spec_minute() == old(self).spec_minute(),
            final(self).spec_is_invalid() == old(self).spec_is_invalid(),
            final(self).spec_is_substituted() == old(self).spec_is_substituted(),
    {
        let seconds_part = ms_raw(&self.bytes) / 1000 * 1000;
        set_ms_raw(&mut self.bytes, seconds_part + value);
        assert(self.bytes@.subrange(2, 3) =~= old(self)@.subrange(2, 3));
    }

    pub fn second(&self) -> (r: u8)
        ensures
            r == self.spec_second(),
    {
        (ms_raw(&self.bytes) / 1000) as u8
    }

    /// Replaces the seconds, keeping the milliseconds.
    /// The new raw field `value * 1000 + milliseconds` must fit in 16 bits.
    pub fn set_second(&mut self, value: u8)
        requires
            value * 1000 + ms_field(old(self)@) % 1000 <= u16::MAX,
        ensures
            ms_field(final(self)@) == value * 1000 + ms_field(old(self)@) % 1000,
            final(self)@.subrange(2, 3) == old(self)@.subrange(2, 3),
            final(self).spec_second() == value,
            final(self).spec_millisecond() == old(self).spec_millisecond(),
            final(self).spec_minute() == old(self).spec_minute(),
            final(self).spec_is_invalid() == old(self).spec_is_invalid(),
            final(self).spec_is_substituted() == old(self).spec_is_substituted(),
    {
        let ms_part = ms_raw(&self.bytes) % 1000;
        set_ms_raw(&mut self.bytes, (value as u16) * 1000 + ms_part);
        assert(self.bytes@.subrange(2, 3) =~= old(self)@.subrange(2, 3));
    }

    pub fn minute(&self) -> (r: u8)
        ensures
            r == self.spec_minute(),
    {
        self.bytes[2] & 0x3f
    }

    /// Replaces bits 0-5 of byte 2 with the low six bits of `value`.
    pub fn set_minute(&mut self, value: u8)
        ensures
            final(self)@ == old(self)@.update(2, (old(self)@[2] & 0xc0) | (value & 0x3f)),
            final(self).spec_minute() == value & 0x3f,
            final(self).spec_is_invalid() == old(self).spec_is_invalid(),
            final(self).spec_is_substituted() == old(self).spec_is_substituted(),
            final(self).spec_second() == old(self).spec_second(),
            final(self).spec_millisecond() == old(self).spec_millisecond(),
    {
        let b = self.bytes[2];
        let nb = (b & 0xc0) | (value & 0x3f);
        assert(nb & 0x3f == value & 0x3f && (nb & 0x80 != 0) == (b & 0x80 != 0) && (nb & 0x40 != 0)
            == (b & 0x40 != 0)) by (bit_vector)
            requires
                nb == (b & 0xc0) | (value & 0x3f),
        ;
        self.bytes[2] = nb;
    }

    pub fn is_invalid(&self) -> (r: bool)
        ensures
            r == self.spec_is_invalid(),
    {
        self.bytes[2] & 0x80 != 0
    }

    /// Sets or clears bit 7 of byte 2.
    pub fn set_invalid(&mut self, value: bool)
        ensures
            final(self)@ == old(self)@.update(
                2,
                if value { old(self)@[2] | 0x80 } else { old(self)@[2] & 0x7f },
            ),
            final(self).spec_is_invalid() == value,
            final(self).spec_minute() == old(self).spec_minute(),
            final(self).spec_is_substituted() == old(self).spec_is_substituted(),
            final(self).spec_second() == old(self).spec_second(),
            final(self).spec_millisecond() == old(self).spec_millisecond(),
    {
        let b = self.bytes[2];
        if value {
            assert((b | 0x80) & 0x80 != 0 && (b | 0x80) & 0x3f == b & 0x3f && ((b | 0x80) & 0x40
                != 0) == (b & 0x40 != 0)) by (bit_vector);
            self.bytes[2] = b | 0x80;
        } else {
            assert((b & 0x7f) & 0x80 == 0 && (b & 0x7f) & 0x3f == b & 0x3f && ((b & 0x7f) & 0x40
                != 0) == (b & 0x40 != 0)) by (bit_vector);
            self.bytes[2] = b & 0x7f;
        }
    }

    pub fn is_substituted(&self) -> (r: bool)
        ensures
            r == self.spec_is_substituted(),
    {
        self.bytes[2] & 0x40 != 0
    }

    /// Sets or clears bit 6 of byte 2.
    pub fn set_substituted(&mut self, value: bool)
        ensures
            final(self)@ == old(self)@.update(
                2,
                if value { old(self)@[2] | 0x40 } else { old(self)@[2] & 0xbf },
            ),
            final(self).spec_is_substituted() == value,
            final(self).spec_minute() == old(self).spec_minute(),
            final(self).spec_is_invalid() == old(self).spec_is_invalid(),
            final(self).spec_second() == old(self).spec_second(),
            final(self).spec_millisecond() == old(self).spec_millisecond(),
    {
        let b = self.bytes[2];
        if value {
            assert((b | 0x40) & 0x40 != 0 && (b | 0x40) & 0x3f == b & 0x3f && ((b | 0x40) & 0x80
                != 0) == (b & 0x80 != 0)) by (bit_vector);
            self.bytes[2] = b | 0x40;
        } else {
            assert((b & 0xbf) & 0x40 == 0 && (b & 0xbf) & 0x3f == b & 0x3f && ((b & 0xbf) & 0x80
                != 0) == (b & 0x80 != 0)) by (bit_vector);
            self.bytes[2] = b & 0xbf;
        }
    }
}

impl Default for Cp24Time2a {
    fn default() -> (r: Self)
        ensures
            r@ == Seq::new(3, |i: int| 0u8),
    {
        Cp24Time2a::new()
    }
}

/// CP56Time2a - Seven-byte calendar time (IEC 60870-5-101 section 7.2.6.18).
///
/// Wire format:
///   `[0..1]` milliseconds within minute (seconds * 1000 + ms, little-endian)
///   `[2]`    bits 0-5: minute, bit 6: substituted, bit 7: invalid
///   `[3]`    bits 0-4: hour, bit 7: summer time
///   `[4]`    bits 0-4: day of month, bits 5-7: day of week
///   `[5]`    bits 0-3: month (1-12)
///   `[6]`    bits 0-6: year (0-99, relative to 2000)
#[derive(Debug, Clone, Copy, PartialEq, Eq)]
pub struct Cp56Time2a {
    pub(crate) bytes: [u8; 7],
}

impl View for Cp56Time2a {
    type V = Seq<u8>;

    /// The 7 wire bytes.
    closed spec fn view(&self) -> Seq<u8> {
        self.bytes@
    }
}

impl Cp56Time2a {
    /// Seconds and milliseconds (bytes 0-1) agree.
    pub open spec fn same_clock(self, o: Self) -> bool {
        self.spec_second() == o.spec_second() && self.spec_millisecond() == o.spec_millisecond()
    }

    /// Minute, invalid and substituted (byte 2) agree.
    pub open spec fn same_minute_byte(self, o: Self) -> bool {
        &&& self.spec_minute() == o.spec_minute()
        &&& self.spec_is_invalid() == o.spec_is_invalid()
        &&& self.spec_is_substituted() == o.spec_is_substituted()
    }

    /// Hour and summer time (byte 3) agree.
    pub open spec fn same_hour_byte(self, o: Self) -> bool {
        self.spec_hour() == o.spec_hour() && self.spec_is_summer_time() == o.spec_is_summer_time()
    }

    /// Day of month and day of week (byte 4) agree.
    pub open spec fn same_day_byte(self, o: Self) -> bool {
        self.spec_day_of_month() == o.spec_day_of_month() && self.spec_day_of_week() == o.spec_day_of_week()
    }

    pub const ENCODED_SIZE: usize = 7;

    /// The value that a buffer decodes to: its first 7 bytes, or an error if it is shorter.
    pub closed spec fn spec_from_bytes(buf: Seq<u8>) -> Result<Cp56Time2a, AduError> {
        if buf.len() < 7 {
            Err(AduError::BufferTooShort { need: 7, have: buf.len() as usize })
        } else {
            Ok(Cp56Time2a { bytes: array_from_seq7(buf) })
        }
    }

    /// All bytes zero.
    pub fn new() -> (r: Self)
        ensures
            r@ == Seq::new(7, |i: int| 0u8),
    {
        let r = Cp56Time2a { bytes: [0u8; 7] };
        assert(r@ =~= Seq::new(7, |i: int| 0u8));
        r
    }

    /// Copies the first 7 bytes of `buf`.
    pub fn from_bytes(buf: &[u8]) -> (r: Result<Self, AduError>)
        ensures
            r == Cp56Time2a::spec_from_bytes(buf@),
            buf@.len() < 7 ==> r == Err::<Self, AduError>(
                AduError::BufferTooShort { need: 7, have: buf@.len() as usize },
            ),
            buf@.len() >= 7 ==> (r matches Ok(t) && t@ == buf@.subrange(0, 7)),
    {
        check_len(buf.len(), Cp56Time2a::ENCODED_SIZE)?;
        let bytes = [buf[0], buf[1], buf[2], buf[3], buf[4], buf[5], buf[6]];
        assert(bytes@ =~= buf@.subrange(0, 7));
        assert(bytes =~= array_from_seq7(buf@));
        Ok(Cp56Time2a { bytes })
    }

    /// The 7 wire bytes.
    pub fn as_bytes(&self) -> (r: &[u8; 7])
        ensures
            r@ == self@,
    {
        &self.bytes
    }

    /// Milliseconds within the second (0-999 for a well-formed value).
    pub open spec fn spec_millisecond(self) -> u16 {
        (ms_field(self@) % 1000) as u16
    }

    /// Seconds within the minute.
    pub open spec fn spec_second(self) -> u8 {
        (ms_field(self@) / 1000) as u8
    }

    /// Bits 0-5 of byte 2.
    pub open spec fn spec_minute(self) -> u8 {
        self@[2] & 0x3f
    }

    /// Bit 7 of byte 2.
    pub open spec fn spec_is_invalid(self) -> bool {
        self@[2] & 0x80 != 0
    }

    /// Bit 6 of byte 2.
    pub open spec fn spec_is_substituted(self) -> bool {
        self@[2] & 0x40 != 0
    }

    pub fn millisecond(&self) -> (r: u16)
        ensures
            r == self.spec_millisecond(),
    {
        ms_raw(&self.bytes) % 1000
    }

    /// Replaces the milliseconds, keeping the seconds.
    /// The new raw field `seconds * 1000 + value` must fit in 16 bits.
    pub fn set_millisecond(&mut self, value: u16)
        requires
            ms_field(old(self)@) / 1000 * 1000 + value <= u16::MAX,
        ensures
            ms_field(final(self)@) == ms_field(old(self)@) / 1000 * 1000 + value,
            final(self)@.subrange(2, 7) == old(self)@.subrange(2, 7),
            value < 1000 ==> final(self).spec_millisecond() == value,
            value < 1000 ==> final(self).spec_second() == old(self).spec_second(),
            final(self).same_minute_byte(*old(self)),
            final(self).same_hour_byte(*old(self)),
            final(self).same_day_byte(*old(self)),
            final(self).spec_month() == old(self).spec_month(),
            final(self).spec_year() == old(self).spec_year(),
    {
        let seconds_part = ms_raw(&self.bytes) / 1000 * 1000;
        set_ms_raw(&mut self.bytes, seconds_part + value);
        assert(self.bytes@.subrange(2, 7) =~= old(self)@.subrange(2, 7));
    }

    pub fn second(&self) -> (r: u8)
        ensures
            r == self.spec_second(),
    {
        (ms_raw(&self.bytes) / 1000) as u8
    }

    /// Replaces the seconds, keeping the milliseconds.
    /// The new raw field `value * 1000 + milliseconds` must fit in 16 bits.
    pub fn set_second(&mut self, value: u8)
        requires
            value * 1000 + ms_field(old(self)@) % 1000 <= u16::MAX,
        ensures
            ms_field(final(self)@) == value * 1000 + ms_field(old(self)@) % 1000,
            final(self)@.subrange(2, 7) == old(self)@.subrange(2, 7),
            final(self).spec_second() == value,
            final(self).spec_millisecond() == old(self).spec_millisecond(),
            final(self).same_minute_byte(*old(self)),
            final(self).same_hour_byte(*old(self)),
            final(self).same_day_byte(*old(self)),
            final(self).spec_month() == old(self).spec_month(),
            final(self).spec_year() == old(self).spec_year(),
    {
        let ms_part = ms_raw(&self.bytes) % 1000;
        set_ms_raw(&mut self.bytes, (value as u16) * 1000 + ms_part);
        assert(self.bytes@.subrange(2, 7) =~= old(self)@.subrange(2, 7));
    }

    pub fn minute(&self) -> (r: u8)
        ensures
            r == self.spec_minute(),
    {
        self.bytes[2] & 0x3f
    }

    /// Replaces bits 0-5 of byte 2 with the low six bits of `value`.
    pub fn set_minute(&mut self, value: u8)
        ensures
            final(self)@ == old(self)@.update(2, (old(self)@[2] & 0xc0) | (value & 0x3f)),
            final(self).spec_minute() == value & 0x3f,
            final(self).spec_is_invalid() == old(self).spec_is_invalid(),
            final(self).spec_is_substituted() == old(self).spec_is_substituted(),
            final(self).same_clock(*old(self)),
            final(self).same_hour_byte(*old(self)),
            final(self).same_day_byte(*old(self)),
            final(self).spec_month() == old(self).spec_month(),
            final(self).spec_year() == old(self).spec_year(),
    {
        let b = self.bytes[2];
        let nb = (b & 0xc0) | (value & 0x3f);
        assert(nb & 0x3f == value & 0x3f && (nb & 0x80 != 0) == (b & 0x80 != 0) && (nb & 0x40 != 0)
            == (b & 0x40 != 0)) by (bit_vector)
            requires
                nb == (b & 0xc0) | (value & 0x3f),
        ;
        self.bytes[2] = nb;
    }

    pub fn is_invalid(&self) -> (r: bool)
        ensures
            r == self.spec_is_invalid(),
    {
        self.bytes[2] & 0x80 != 0
    }

    /// Sets or clears bit 7 of byte 2.
    pub fn set_invalid(&mut self, value: bool)
        ensures
            final(self)@ == old(self)@.update(
                2,
                if value { old(self)@[2] | 0x80 } else { old(self)@[2] & 0x7f },
            ),
            final(self).spec_is_invalid() == value,
            final(self).spec_minute() == old(self).spec_minute(),
            final(self).spec_is_substituted() == old(self).spec_is_substituted(),
            final(self).same_clock(*old(self)),
            final(self).same_hour_byte(*old(self)),
            final(self).same_day_byte(*old(self)),
            final(self).spec_month() == old(self).spec_month(),
            final(self).spec_year() == old(self).spec_year(),
    {
        let b = self.bytes[2];
        if value {
            assert((b | 0x80) & 0x80 != 0 && (b | 0x80) & 0x3f == b & 0x3f && ((b | 0x80) & 0x40
                != 0) == (b & 0x40 != 0)) by (bit_vector);
            self.bytes[2] = b | 0x80;
        } else {
            assert((b & 0x7f) & 0x80 == 0 && (b & 0x7f) & 0x3f == b & 0x3f && ((b & 0x7f) & 0x40
                != 0) == (b & 0x40 != 0)) by (bit_vector);
            self.bytes[2] = b & 0x7f;
        }
    }

    pub fn is_substituted(&self) -> (r: bool)
        ensures
            r == self.spec_is_substituted(),
    {
        self.bytes[2] & 0x40 != 0
    }

    /// Sets or clears bit 6 of byte 2.
    pub fn set_substituted(&mut self, value: bool)
        ensures
            final(self)@ == old(self)@.update(
                2,
                if value { old(self)@[2] | 0x40 } else { old(self)@[2] & 0xbf },
            ),
            final(self).spec_is_substituted() == value,
            final(self).spec_minute() == old(self).spec_minute(),
            final(self).spec_is_invalid() == old(self).spec_is_invalid(),
            final(self).same_clock(*old(self)),
            final(self).same_hour_byte(*old(self)),
            final(self).same_day_byte(*old(self)),
            final(self).spec_month() == old(self).spec_month(),
            final(self).spec_year() == old(self).spec_year(),
    {
        let b = self.bytes[2];
        if value {
            assert((b | 0x40) & 0x40 != 0 && (b | 0x40) & 0x3f == b & 0x3f && ((b | 0x40) & 0x80
                != 0) == (b & 0x80 != 0)) by (bit_vector);
            self.bytes[2] = b | 0x40;
        } else {
            assert((b & 0xbf) & 0x40 == 0 && (b & 0xbf) & 0x3f == b & 0x3f && ((b & 0xbf) & 0x80
                != 0) == (b & 0x80 != 0)) by (bit_vector);
            self.bytes[2] = b & 0xbf;
        }
    }

    /// Bits 0-4 of byte 3.
    pub open spec fn spec_hour(self) -> u8 {
        self@[3] & 0x1f
    }

    /// Bit 7 of byte 3.
    pub open spec fn spec_is_summer_time(self) -> bool {
        self@[3] & 0x80 != 0
    }

    /// Bits 0-4 of byte 4.
    pub open spec fn spec_day_of_month(self) -> u8 {
        self@[4] & 0x1f
    }

    /// Bits 5-7 of byte 4.
    pub open spec fn spec_day_of_week(self) -> u8 {
        (self@[4] & 0xe0) >> 5
    }

    /// Bits 0-3 of byte 5.
    pub open spec fn spec_month(self) -> u8 {
        self@[5] & 0x0f
    }

    /// Bits 0-6 of byte 6.
    pub open spec fn spec_year(self) -> u8 {
        self@[6] & 0x7f
    }

    pub fn hour(&self) -> (r: u8)
        ensures
            r == self.spec_hour(),
    {
        self.bytes[3] & 0x1f
    }

    /// Replaces bits 0-4 of byte 3 with the low five bits of `value`.
    pub fn set_hour(&mut self, value: u8)
        ensures
            final(self)@ == old(self)@.update(3, (old(self)@[3] & 0xe0) | (value & 0x1f)),
            final(self).spec_hour() == value & 0x1f,
            final(self).spec_is_summer_time() == old(self).spec_is_summer_time(),
            final(self).same_clock(*old(self)),
            final(self).same_minute_byte(*old(self)),
            final(self).same_day_byte(*old(self)),
            final(self).spec_month() == old(self).spec_month(),
            final(self).spec_year() == old(self).spec_year(),
    {
        let b = self.bytes[3];
        let nb = (b & 0xe0) | (value & 0x1f);
        assert(nb & 0x1f == value & 0x1f && (nb & 0x80 != 0) == (b & 0x80 != 0)) by (bit_vector)
            requires
                nb == (b & 0xe0) | (value & 0x1f),
        ;
        self.bytes[3] = nb;
    }

    pub fn is_summer_time(&self) -> (r: bool)
        ensures
            r == self.spec_is_summer_time(),
    {
        self.bytes[3] & 0x80 != 0
    }

    /// Sets or clears bit 7 of byte 3.
    pub fn set_summer_time(&mut self, value: bool)
        ensures
            final(self)@ == old(self)@.update(
                3,
                if value { old(self)@[3] | 0x80 } else { old(self)@[3] & 0x7f },
            ),
            final(self).spec_is_summer_time() == value,
            final(self).spec_hour() == old(self).spec_hour(),
            final(self).same_clock(*old(self)),
            final(self).same_minute_byte(*old(self)),
            final(self).same_day_byte(*old(self)),
            final(self).spec_month() == old(self).spec_month(),
            final(self).spec_year() == old(self).spec_year(),
    {
        let b = self.bytes[3];
        if value {
            assert((b | 0x80) & 0x80 != 0 && (b | 0x80) & 0x1f == b & 0x1f) by (bit_vector);
            self.bytes[3] = b | 0x80;
        } else {
            assert((b & 0x7f) & 0x80 == 0 && (b & 0x7f) & 0x1f == b & 0x1f) by (bit_vector);
            self.bytes[3] = b & 0x7f;
        }
    }

    pub fn day_of_month(&self) -> (r: u8)
        ensures
            r == self.spec_day_of_month(),
    {
        self.bytes[4] & 0x1f
    }

    /// Replaces bits 0-4 of byte 4 with the low five bits of `value`.
    pub fn set_day_of_month(&mut self, value: u8)
        ensures
            final(self)@ == old(self)@.update(4, (old(self)@[4] & 0xe0) | (value & 0x1f)),
            final(self).spec_day_of_month() == value & 0x1f,
            final(self).spec_day_of_week() == old(self).spec_day_of_week(),
            final(self).same_clock(*old(self)),
            final(self).same_minute_byte(*old(self)),
            final(self).same_hour_byte(*old(self)),
            final(self).spec_month() == old(self).spec_month(),
            final(self).spec_year() == old(self).spec_year(),
    {
        let b = self.bytes[4];
        let nb = (b & 0xe0) | (value & 0x1f);
        assert(nb & 0x1f == value & 0x1f && (nb & 0xe0) >> 5 == (b & 0xe0) >> 5) by (bit_vector)
            requires
                nb == (b & 0xe0) | (value & 0x1f),
        ;
        self.bytes[4] = nb;
    }

    pub fn day_of_week(&self) -> (r: u8)
        ensures
            r == self.spec_day_of_week(),
    {
        (self.bytes[4] & 0xe0) >> 5
    }

    /// Replaces bits 5-7 of byte 4 with the low three bits of `value`.
    pub fn set_day_of_week(&mut self, value: u8)
        ensures
            final(self)@ == old(self)@.update(4, (old(self)@[4] & 0x1f) | ((value & 0x07) << 5)),
            final(self).spec_day_of_week() == value & 0x07,
            final(self).spec_day_of_month() == old(self).spec_day_of_month(),
            final(self).same_clock(*old(self)),
            final(self).same_minute_byte(*old(self)),
            final(self).same_hour_byte(*old(self)),
            final(self).spec_month() == old(self).spec_month(),
            final(self).spec_year() == old(self).spec_year(),
    {
        let b = self.bytes[4];
        let nb = (b & 0x1f) | ((value & 0x07) << 5);
        assert((nb & 0xe0) >> 5 == value & 0x07 && nb & 0x1f == b & 0x1f) by (bit_vector)
            requires
                nb == (b & 0x1f) | ((value & 0x07) << 5),
        ;
        self.bytes[4] = nb;
    }

    pub fn month(&self) -> (r: u8)
        ensures
            r == self.spec_month(),
    {
        self.bytes[5] & 0x0f
    }

    /// Replaces bits 0-3 of byte 5 with the low four bits of `value`.
    pub fn set_month(&mut self, value: u8)
        ensures
            final(self)@ == old(self)@.update(5, (old(self)@[5] & 0xf0) | (value & 0x0f)),
            final(self).spec_month() == value & 0x0f,
            final(self).same_clock(*old(self)),
            final(self).same_minute_byte(*old(self)),
            final(self).same_hour_byte(*old(self)),
            final(self).same_day_byte(*old(self)),
            final(self).spec_year() == old(self).spec_year(),
    {
        let b = self.bytes[5];
        let nb = (b & 0xf0) | (value & 0x0f);
        assert(nb & 0x0f == value & 0x0f) by (bit_vector)
            requires
                nb == (b & 0xf0) | (value & 0x0f),
        ;
        self.bytes[5] = nb;
    }

    pub fn year(&self) -> (r: u8)
        ensures
            r == self.spec_year(),
    {
        self.bytes[6] & 0x7f
    }

    /// Replaces bits 0-6 of byte 6 with `value % 100` (years 0-99 relative to 2000).
    pub fn set_year(&mut self, value: u8)
        ensures
            final(self)@ == old(self)@.update(6, (old(self)@[6] & 0x80) | (value % 100 & 0x7f)),
            final(self).spec_year() == value % 100,
            final(self).same_clock(*old(self)),
            final(self).same_minute_byte(*old(self)),
            final(self).same_hour_byte(*old(self)),
            final(self).same_day_byte(*old(self)),
            final(self).spec_month() == old(self).spec_month(),
    {
        let b = self.bytes[6];
        let y = value % 100;
        let nb = (b & 0x80) | (y & 0x7f);
        assert(nb & 0x7f == y) by (bit_vector)
            requires
                nb == (b & 0x80) | (y & 0x7f),
                y < 100,
        ;
        self.bytes[6] = nb;
    }
}

impl Default for Cp56Time2a {
    fn default() -> (r: Self)
        ensures
            r@ == Seq::new(7, |i: int| 0u8),
    {
        Cp56Time2a::new()
    }
}

/// Decoding the wire bytes of a CP16Time2a value gives it back.
pub proof fn lemma_cp16_bytes_roundtrip(t: Cp16Time2a)
    ensures
        Cp16Time2a::spec_from_bytes(t@) == Ok::<Cp16Time2a, AduError>(t),
        t@.len() == 2,
{
    assert(array_from_seq2(t@) =~= t.bytes);
}

/// Decoding the wire bytes of a CP24Time2a value gives it back.
pub proof fn lemma_cp24_bytes_roundtrip(t: Cp24Time2a)
    ensures
        Cp24Time2a::spec_from_bytes(t@) == Ok::<Cp24Time2a, AduError>(t),
        t@.len() == 3,
{
    assert(array_from_seq3(t@) =~= t.bytes);
}

/// Seven bytes or more always decode to a CP56Time2a.
pub proof fn lemma_cp56_from_bytes_ok(s: Seq<u8>)
    requires
        s.len() >= 7,
    ensures
        Cp56Time2a::spec_from_bytes(s) is Ok,
{
}

/// Decoding the wire bytes of a CP56Time2a value gives it back.
pub proof fn lemma_cp56_bytes_roundtrip(t: Cp56Time2a)
    ensures
        Cp56Time2a::spec_from_bytes(t@) == Ok::<Cp56Time2a, AduError>(t),
        t@.len() == 7,
{
    assert(array_from_seq7(t@) =~= t.bytes);
}

/// The CP16Time2a layout (IEC 60870-5-101 7.2.6.20): the elapsed
/// milliseconds, low byte first.
pub proof fn lemma_cp16_layout(t: Cp16Time2a)
    ensures
        t@.len() == 2,
        t.spec_elapsed_time_ms() as int == t@[0] as int + 256 * t@[1] as int,
{
}

/// The CP24Time2a layout (IEC 60870-5-101 7.2.6.19): bytes 0-1 hold the
/// milliseconds of the minute, low byte first, which are the seconds times
/// 1000 plus the milliseconds; byte 2 holds the minute in bits 0-5, the
/// substituted flag in bit 6 and the invalid flag in bit 7.
pub proof fn lemma_cp24_layout(t: Cp24Time2a)
    ensures
        t@.len() == 3,
        t.spec_millisecond() as int == (t@[0] as int + 256 * t@[1] as int) % 1000,
        t.spec_second() as int == (t@[0] as int + 256 * t@[1] as int) / 1000,
        t.spec_minute() as int == t@[2] % 64,
        t.spec_is_substituted() == ((t@[2] / 64) % 2 == 1),
        t.spec_is_invalid() == (t@[2] >= 128),
{
    crate::wire::lemma_byte_bits(t@[2]);
}

/// The CP56Time2a layout (IEC 60870-5-101 7.2.6.18): bytes 0-2 as in
/// CP24Time2a; byte 3 holds the hour in bits 0-4 and summer time in bit 7;
/// byte 4 the day of month in bits 0-4 and the day of week in bits 5-7;
/// byte 5 the month in bits 0-3; byte 6 the year in bits 0-6.
pub proof fn lemma_cp56_layout(t: Cp56Time2a)
    ensures
        t@.len() == 7,
        t.spec_millisecond() as int == (t@[0] as int + 256 * t@[1] as int) % 1000,
        t.spec_second() as int == (t@[0] as int + 256 * t@[1] as int) / 1000,
        t.spec_minute() as int == t@[2] % 64,
        t.spec_is_substituted() == ((t@[2] / 64) % 2 == 1),
        t.spec_is_invalid() == (t@[2] >= 128),
        t.spec_hour() as int == t@[3] % 32,
        t.spec_is_summer_time() == (t@[3] >= 128),
        t.spec_day_of_month() as int == t@[4] % 32,
        t.spec_day_of_week() as int == t@[4] / 32,
        t.spec_month() as int == t@[5] % 16,
        t.spec_year() as int == t@[6] % 128,
{
    crate::wire::lemma_byte_bits(t@[2]);
    crate::wire::lemma_byte_bits(t@[3]);
    crate::wire::lemma_byte_bits(t@[4]);
    crate::wire::lemma_byte_bits(t@[5]);
    crate::wire::lemma_byte_bits(t@[6]);
}

} // verus!
