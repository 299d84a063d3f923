//! One measurement: smoothing the readings and writing the row.
//!
//! The caller reads the clock and the power monitor, in this order, and
//! stops at the first read that fails. What it got goes through the
//! smoothing filter and, where all reads succeeded, into the log as one
//! row. Power, voltage and current are micro-units; the row gives them in
//! whole units with two, two and three digits behind the point.

use crate::smoothing::mean;
use crate::smoothing::next_window;
use crate::smoothing::RetainedRegion;
use crate::smoothing::SmoothedChannel;
use crate::storage::after_append;
use crate::storage::admitted;
use crate::storage::DataFile;
use crate::storage::LastLine;
use crate::storage::StorageError;
use crate::storage::StorageSpaceInfo;
use crate::text::append_decimal;
use crate::text::append_fixed;
use crate::text::decimal;
use crate::text::fixed_text;
use vstd::prelude::*;
use vstd::string::StringExecFns;

verus! {

/// Smoothing channel of the power readings.
pub const W_CHANNEL: usize = 0;

/// Smoothing channel of the voltage readings.
pub const V_CHANNEL: usize = 1;

/// Smoothing channel of the current readings.
pub const A_CHANNEL: usize = 2;

/// What the reads of one cycle brought: the time stamp of the clock and the
/// raw power, voltage and current, in the order of the reads. A read that
/// failed, and every read after it, is `None`.
#[derive(Clone, Debug)]
pub struct Readings {
    pub rtc_ts: Option<String>,
    pub w: Option<i64>,
    pub v: Option<i64>,
    pub a: Option<i64>,
}

/// A measurement with its values smoothed.
#[derive(Clone, Debug)]
pub struct Measurement {
    pub uptime_ms: u64,
    pub rtc_ts: String,
    pub w: i64,
    pub v: i64,
    pub a: i64,
}

/// The row of a measurement: time stamp, power, voltage, current and
/// uptime, with commas between them.
pub open spec fn csv_line(rtc_ts: Seq<char>, w: int, v: int, a: int, uptime_ms: nat) -> Seq<char> {
    rtc_ts + seq![','] + fixed_text(w, 2) + seq![','] + fixed_text(v, 2) + seq![','] + fixed_text(
        a,
        3,
    ) + seq![','] + decimal(uptime_ms)
}

/// The smoothed value that a channel in the state `before` gives for `val`.
pub open spec fn smoothed_value(before: SmoothedChannel, val: i64) -> int {
    mean(next_window(before.is_initialized(), before.window(), val))
}

/// Whether `after` is the channel `before` once `val` has been fed to it.
pub open spec fn channel_fed(before: SmoothedChannel, after: SmoothedChannel, val: i64) -> bool {
    &&& after.is_initialized()
    &&& after.window() == next_window(before.is_initialized(), before.window(), val)
}

/// Whether `after` is the channel `before` once the reading `val` has been
/// dealt with: fed where the reads got as far as `reached` and `val`, left
/// alone otherwise.
pub open spec fn channel_after(
    before: SmoothedChannel,
    after: SmoothedChannel,
    reached: bool,
    val: Option<i64>,
) -> bool {
    match val {
        Some(x) => if reached {
            channel_fed(before, after, x)
        } else {
            after == before
        },
        None => after == before,
    }
}

impl Readings {
    /// Whether every read succeeded.
    pub open spec fn complete(&self) -> bool {
        self.rtc_ts is Some && self.w is Some && self.v is Some && self.a is Some
    }
}

impl Measurement {
    /// The row of the measurement.
    pub open spec fn line(&self) -> Seq<char> {
        csv_line(self.rtc_ts@, self.w as int, self.v as int, self.a as int, self.uptime_ms as nat)
    }

    /// The row of the measurement, without a line end.
    pub fn csv_line(&self) -> (r: String)
        ensures
            r@ == self.line(),
    {
        let mut out = self.rtc_ts.clone();
        proof {
            reveal_strlit(",");
        }
        out.append(",");
        append_fixed(&mut out, self.w, 2);
        out.append(",");
        append_fixed(&mut out, self.v, 2);
        out.append(",");
        append_fixed(&mut out, self.a, 3);
        out.append(",");
        append_decimal(&mut out, self.uptime_ms);
        assert(out@ =~= self.line());
        out
    }
}

/// Records one measurement. The readings are smoothed in the order of the
/// reads, as far as the reads got. Where a read failed the answer is `None`
/// and the log stays as it was. Otherwise the row of the smoothed
/// measurement is handed to the log, which takes it where `info` admits the
/// write, and the smoothed measurement is the answer; its uptime is
/// `uptime_usec` in whole milliseconds.
pub fn record_measurements(
    region: &mut RetainedRegion,
    uptime_usec: u64,
    readings: &Readings,
    info: Result<StorageSpaceInfo, StorageError>,
    file: &mut DataFile,
    last_line: &mut LastLine,
) -> (r: Option<Measurement>)
    ensures
        channel_after(
            old(region).channel(W_CHANNEL as int),
            final(region).channel(W_CHANNEL as int),
            readings.rtc_ts is Some,
            readings.w,
        ),
        channel_after(
            old(region).channel(V_CHANNEL as int),
            final(region).channel(V_CHANNEL as int),
            readings.rtc_ts is Some && readings.w is Some,
            readings.v,
        ),
        channel_after(
            old(region).channel(A_CHANNEL as int),
            final(region).channel(A_CHANNEL as int),
            readings.rtc_ts is Some && readings.w is Some && readings.v is Some,
            readings.a,
        ),
        r is Some <==> readings.complete(),
        r matches Some(m) ==> {
            &&& m.uptime_ms == uptime_usec / 1000
            &&& m.rtc_ts@ == readings.rtc_ts->0@
            &&& m.w == smoothed_value(old(region).channel(W_CHANNEL as int), readings.w->0)
            &&& m.v == smoothed_value(old(region).channel(V_CHANNEL as int), readings.v->0)
            &&& m.a == smoothed_value(old(region).channel(A_CHANNEL as int), readings.a->0)
            &&& final(file)@ == after_append(old(file)@, info, m.line())
            &&& final(last_line)@ == if admitted(info) is Ok {
                m.line()
            } else {
                old(last_line)@
            }
        },
        r is None ==> final(file)@ == old(file)@ && final(last_line)@ == old(last_line)@,
{
    let rtc_ts = match &readings.rtc_ts {
        Some(t) => t.clone(),
        None => {
            return None;
        },
    };
    let w = match readings.w {
        Some(x) => region.get_smoothed(W_CHANNEL, x),
        None => {
            return None;
        },
    };
    let v = match readings.v {
        Some(x) => region.get_smoothed(V_CHANNEL, x),
        None => {
            return None;
        },
    };
    let a = match readings.a {
        Some(x) => region.get_smoothed(A_CHANNEL, x),
        None => {
            return None;
        },
    };
    let m = Measurement { uptime_ms: uptime_usec / 1000, rtc_ts, w, v, a };
    let line = m.csv_line();
    let _ = file.append_data(info, line.as_str(), last_line);
    Some(m)
}

} // verus!
