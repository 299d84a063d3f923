//! Wall-clock time and the register image of the clock chip.
//!
//! The clock keeps its fields as binary-coded decimals. This module turns a
//! date and time into the bytes to write, the bytes read back into a date
//! and time, and a date and time into the time stamp of a row. The caller
//! moves the bytes over the bus.

use crate::text::append_zero_padded;
use crate::text::zero_padded;
use vstd::prelude::*;
use vstd::string::StringExecFns;

verus! {

/// A date and a time of day.
#[derive(Clone, Copy, Debug, PartialEq, Eq, Structural)]
pub struct RtcDateTime {
    pub year: u16,
    pub month: u8,
    pub day: u8,
    pub hour: u8,
    pub minute: u8,
    pub second: u8,
}

impl RtcDateTime {
    /// The date and time with the given fields.
    pub fn new(year: u16, month: u8, day: u8, hour: u8, minute: u8, second: u8) -> (r: Self)
        ensures
            r == (RtcDateTime { year, month, day, hour, minute, second }),
    {
        RtcDateTime { year, month, day, hour, minute, second }
    }
}

/// The binary-coded decimal of `d`: the tens in the high four bits, the
/// ones in the low four. Tens beyond fifteen lose their high bits.
pub open spec fn bcd_of(d: u8) -> u8 {
    ((d / 10) << 4) | (d % 10)
}

/// The number that the binary-coded decimal `b` stands for.
pub open spec fn dec_of(b: u8) -> u8 {
    ((b >> 4) * 10 + (b & 0x0F)) as u8
}

/// The years since 2000, as the clock counts them in one byte. Years
/// before 2000 and beyond 2255 wrap around.
pub open spec fn year_offset(year: u16) -> u8 {
    ((year - 2000) % 256) as u8
}

/// The bytes that set the clock to `dt`: the address of the first register,
/// then seconds, minutes, hours, the day of the week (unused, zero), day,
/// month and year.
pub open spec fn rtc_frame(dt: RtcDateTime) -> Seq<u8> {
    seq![
        0x00u8,
        bcd_of(dt.second),
        bcd_of(dt.minute),
        bcd_of(dt.hour),
        bcd_of(0),
        bcd_of(dt.day),
        bcd_of(dt.month),
        bcd_of(year_offset(dt.year)),
    ]
}

/// The date and time in the seven registers `buf`, read from the first
/// register on. Control bits in the seconds, hours and month registers are
/// masked out; the day of the week is passed over.
pub open spec fn rtc_decoded(buf: Seq<u8>) -> RtcDateTime {
    RtcDateTime {
        year: (2000 + dec_of(buf[6])) as u16,
        month: dec_of(buf[5] & 0x1F),
        day: dec_of(buf[4]),
        hour: dec_of(buf[2] & 0x3F),
        minute: dec_of(buf[1]),
        second: dec_of(buf[0] & 0x7F),
    }
}

/// The time stamp of `dt`: `YYYY-MM-DD hh:mm:ss`, every field with zeros
/// in front up to its width.
pub open spec fn rtc_text(dt: RtcDateTime) -> Seq<char> {
    zero_padded(dt.year as nat, 4) + seq!['-'] + zero_padded(dt.month as nat, 2) + seq!['-']
        + zero_padded(dt.day as nat, 2) + seq![' '] + zero_padded(dt.hour as nat, 2) + seq![':']
        + zero_padded(dt.minute as nat, 2) + seq![':'] + zero_padded(dt.second as nat, 2)
}

/// Law: a number below one hundred comes back from its binary-coded
/// decimal unchanged.
pub proof fn law_bcd_round_trip(d: u8)
    requires
        d < 100,
    ensures
        dec_of(bcd_of(d)) == d,
{
    let t: u8 = d / 10;
    let o: u8 = d % 10;
    assert(((((t << 4) | o) >> 4) * 10 + (((t << 4) | o) & 0x0F)) == t * 10 + o) by (bit_vector)
        requires
            t < 10,
            o < 10,
    ;
}

/// The clock chip.
#[derive(Clone, Copy, Debug)]
pub struct DS3231 {
    addr: u8,
}

impl DS3231 {
    /// The bus address of the chip.
    pub closed spec fn addr(&self) -> u8 {
        self.addr
    }

    /// A clock chip at the bus address `addr`.
    pub fn new(addr: u8) -> (r: Self)
        ensures
            r.addr() == addr,
    {
        DS3231 { addr }
    }

    /// The bus address of the chip.
    pub fn address(&self) -> (r: u8)
        ensures
            r == self.addr(),
    {
        self.addr
    }

    /// The binary-coded decimal of `d`.
    pub fn dec_to_bcd(d: u8) -> (r: u8)
        ensures
            r == bcd_of(d),
    {
        ((d / 10) << 4) | (d % 10)
    }

    /// The number that the binary-coded decimal `b` stands for.
    pub fn bcd_to_dec(b: u8) -> (r: u8)
        ensures
            r == dec_of(b),
            r <= 165,
    {
        let hi: u8 = b >> 4;
        let lo: u8 = b & 0x0F;
        assert(hi <= 15 && lo <= 15) by (bit_vector)
            requires
                hi == b >> 4,
                lo == b & 0x0F,
        ;
        hi * 10 + lo
    }

    /// The bytes to write to the chip to set it to `dt`.
    pub fn set_rtc(&self, dt: &RtcDateTime) -> (r: [u8; 8])
        ensures
            r@ == rtc_frame(*dt),
    {
        let year: u8 = if dt.year >= 2000 {
            ((dt.year - 2000) % 256) as u8
        } else {
            // 65536 is a multiple of 256, so the wrapped difference keeps its low byte
            ((dt.year + 48) % 256) as u8
        };
        let r: [u8; 8] = [
            0x00,
            Self::dec_to_bcd(dt.second),
            Self::dec_to_bcd(dt.minute),
            Self::dec_to_bcd(dt.hour),
            Self::dec_to_bcd(0),
            Self::dec_to_bcd(dt.day),
            Self::dec_to_bcd(dt.month),
            Self::dec_to_bcd(year),
        ];
        assert(r@ =~= rtc_frame(*dt));
        r
    }

    /// The date and time in the seven registers read from the chip.
    pub fn read_rtc(&self, buf: &[u8; 7]) -> (r: RtcDateTime)
        ensures
            r == rtc_decoded(buf@),
    {
        let second = Self::bcd_to_dec(buf[0] & 0x7F);
        let minute = Self::bcd_to_dec(buf[1]);
        let hour = Self::bcd_to_dec(buf[2] & 0x3F);
        let day = Self::bcd_to_dec(buf[4]);
        let month = Self::bcd_to_dec(buf[5] & 0x1F);
        let year: u16 = 2000 + Self::bcd_to_dec(buf[6]) as u16;
        RtcDateTime::new(year, month, day, hour, minute, second)
    }

    /// The time stamp for the seven registers read from the chip.
    pub fn read_rtc_str(&self, buf: &[u8; 7]) -> (r: String)
        ensures
            r@ == rtc_text(rtc_decoded(buf@)),
    {
        let dt = self.read_rtc(buf);
        let mut out = String::from_str("");
        proof {
            reveal_strlit("");
            reveal_strlit("-");
            reveal_strlit(" ");
            reveal_strlit(":");
        }
        append_zero_padded(&mut out, dt.year as u64, 4);
        out.append("-");
        append_zero_padded(&mut out, dt.month as u64, 2);
        out.append("-");
        append_zero_padded(&mut out, dt.day as u64, 2);
        out.append(" ");
        append_zero_padded(&mut out, dt.hour as u64, 2);
        out.append(":");
        append_zero_padded(&mut out, dt.minute as u64, 2);
        out.append(":");
        append_zero_padded(&mut out, dt.second as u64, 2);
        assert(out@ =~= rtc_text(dt));
        out
    }
}

} // verus!
