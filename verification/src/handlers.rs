//! What the requests of the status server do to the device.
//!
//! The server itself, its routes and the JSON of its bodies belong to the
//! caller. A handler here takes what the caller parsed out of a request,
//! changes the state of the device, and says what to answer.

use crate::rtc::rtc_frame;
use crate::rtc::RtcDateTime;
use crate::rtc::DS3231;
use crate::settings::default_json;
use crate::settings::default_settings;
use crate::settings::settings_json;
use crate::settings::trimmed;
use crate::settings::Settings;
use crate::settings::SettingsFile;
use crate::settings::SettingsView;
use crate::signals::Msg;
use crate::signals::SignalChannel;
use crate::storage::DataFile;
use crate::storage::LastLine;
use crate::storage::StorageError;
use crate::storage::StorageSpaceInfo;
use vstd::prelude::*;
use vstd::string::StringExecFns;
use vstd::utf8::encode_utf8;

verus! {

/// The answer to a request.
#[derive(Clone, Debug)]
pub enum Reply {
    /// Success, with this body.
    Done { body: String },
    /// The request was malformed; the body says why.
    BadRequest { body: String },
    /// The handler could not do its work.
    Failed,
}

/// What a status query reports.
#[derive(Clone, Debug)]
pub struct Status {
    pub uptime_usec: u64,
    pub storage_space_info: StorageSpaceInfo,
    pub rtc_ts: String,
    pub last_line: String,
}

/// The body of the answer to a request whose JSON was refused with the
/// words `error`.
pub open spec fn invalid_json(error: Seq<char>) -> Seq<char> {
    "Invalid JSON: "@ + error
}

/// The answer to a request whose JSON was refused with the words `error`.
pub fn bad_request(error: &str) -> (r: Reply)
    ensures
        r matches Reply::BadRequest { body } && body@ == invalid_json(error@),
{
    let mut body = String::from_str("Invalid JSON: ");
    body.append(error);
    Reply::BadRequest { body }
}

/// A status query. Where the volume reported its space and the clock was
/// read, the answer is the status, with the row that went into the log
/// last, and a keep-alive goes to the control loop. Otherwise there is no
/// status and no signal.
pub fn get_status(
    uptime_usec: u64,
    info: Result<StorageSpaceInfo, StorageError>,
    rtc_ts: Option<String>,
    last_line: &LastLine,
    tx: &mut SignalChannel,
) -> (r: Option<Status>)
    ensures
        r is Some <==> info is Ok && rtc_ts is Some,
        r matches Some(s) ==> {
            &&& s.uptime_usec == uptime_usec
            &&& s.storage_space_info == info->Ok_0
            &&& s.rtc_ts@ == rtc_ts->0@
            &&& s.last_line@ == last_line@
        },
        final(tx)@ == if r is Some {
            old(tx)@.push(Msg::KeepAlive)
        } else {
            old(tx)@
        },
{
    let storage_space_info = match info {
        Ok(i) => i,
        Err(_) => {
            return None;
        },
    };
    let rtc_ts = match rtc_ts {
        Some(t) => t,
        None => {
            return None;
        },
    };
    let status = Status { uptime_usec, storage_space_info, rtc_ts, last_line: last_line.get() };
    tx.send(Msg::KeepAlive);
    Some(status)
}

/// A request to restart: the control loop is signalled.
pub fn restart(tx: &mut SignalChannel) -> (r: Reply)
    ensures
        r matches Reply::Done { body } && body@ == "Restarting"@,
        final(tx)@ == old(tx)@.push(Msg::Restart),
{
    tx.send(Msg::Restart);
    Reply::Done { body: String::from_str("Restarting") }
}

/// A request to set the clock. `parsed` is the date and time found in the
/// body, or the words with which the body was refused. The second part of
/// the answer is the bytes to write to the clock chip, where there are any.
pub fn set_rtc(parsed: Result<RtcDateTime, String>, clock: &DS3231) -> (r: (Reply, Option<[u8; 8]>))
    ensures
        match parsed {
            Ok(dt) => {
                &&& r.0 matches Reply::Done { body } && body@ == "RTC updated"@
                &&& r.1 matches Some(frame) && frame@ == rtc_frame(dt)
            },
            Err(e) => {
                &&& r.0 matches Reply::BadRequest { body } && body@ == invalid_json(e@)
                &&& r.1 is None
            },
        },
{
    match parsed {
        Ok(dt) => {
            let frame = clock.set_rtc(&dt);
            (Reply::Done { body: String::from_str("RTC updated") }, Some(frame))
        },
        Err(e) => (bad_request(e.as_str()), None),
    }
}

/// A request for the whole log.
pub fn get_data(file: &DataFile) -> (r: Vec<u8>)
    ensures
        r@ == file@,
{
    file.read_all()
}

/// A request to clear the log.
pub fn clear_data(file: &mut DataFile) -> (r: Reply)
    ensures
        r matches Reply::Done { body } && body@ == "Cleared data"@,
        final(file)@ == Seq::<u8>::empty(),
{
    file.clear_data();
    Reply::Done { body: String::from_str("Cleared data") }
}

/// A request for the settings. `parsed` is the record that the parser found
/// in the text of the settings file, as for `SettingsFile::get`. The answer
/// carries the record as JSON; a file without a record is overwritten with
/// the default record, which is then the answer.
pub fn get_settings(file: &mut SettingsFile, parsed: Option<Settings>) -> (r: Reply)
    ensures
        final(file)@ == match parsed {
            Some(_) => old(file)@,
            None => Some(encode_utf8(default_json())),
        },
        match settings_json(
            match parsed {
                Some(s) => s@,
                None => default_settings(),
            },
        ) {
            Some(t) => r matches Reply::Done { body } && body@ == t,
            None => r is Failed,
        },
{
    let s = file.get(parsed);
    match s.to_json() {
        Ok(body) => Reply::Done { body },
        Err(_) => Reply::Failed,
    }
}

/// A request to change the settings. `parsed` is the record found in the
/// body, or the words with which the body was refused. A record is
/// trimmed and written to the settings file, and the control loop is
/// signalled to restart, once. A refused body changes nothing and signals
/// nothing, and neither does a record that cannot be written.
pub fn set_settings(
    parsed: Result<Settings, String>,
    file: &mut SettingsFile,
    tx: &mut SignalChannel,
) -> (r: Reply)
    ensures
        match parsed {
            Err(e) => {
                &&& r matches Reply::BadRequest { body } && body@ == invalid_json(e@)
                &&& final(file)@ == old(file)@
                &&& final(tx)@ == old(tx)@
            },
            Ok(s) => match settings_json(
                SettingsView {
                    wifi_pass: trimmed(s@.wifi_pass),
                    wifi_ssid: trimmed(s@.wifi_ssid),
                },
            ) {
                Some(t) => {
                    &&& r matches Reply::Done { body } && body@ == "Settings updated; Restarting"@
                    &&& final(file)@ == Some(encode_utf8(t))
                    &&& final(tx)@ == old(tx)@.push(Msg::Restart)
                },
                None => {
                    &&& r is Failed
                    &&& final(file)@ == old(file)@
                    &&& final(tx)@ == old(tx)@
                },
            },
        },
{
    match parsed {
        Err(e) => bad_request(e.as_str()),
        Ok(s) => match file.set(&s) {
            Ok(_) => {
                tx.send(Msg::Restart);
                Reply::Done { body: String::from_str("Settings updated; Restarting") }
            },
            Err(_) => Reply::Failed,
        },
    }
}

} // verus!
