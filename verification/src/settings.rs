//! The settings record and the file that keeps it.
//!
//! The record is kept as one JSON object. Reading heals the file: a file
//! that is missing, is not text, or does not hold a record is overwritten
//! with the default record before the caller sees anything, so that a caller
//! only ever gets a complete record.

use vstd::prelude::*;
use vstd::slice::slice_to_vec;
use vstd::string::StringExecFns;
use vstd::string::StringSliceAdditionalSpecFns;
use vstd::utf8::decode_utf8;
use vstd::utf8::encode_utf8;
use vstd::utf8::encode_utf8_decode_utf8;
use vstd::utf8::encode_utf8_valid_utf8;
use vstd::utf8::valid_utf8;

verus! {

/// The settings of the device: name and password of its wireless network.
#[derive(Clone, Debug)]
pub struct Settings {
    pub wifi_pass: String,
    pub wifi_ssid: String,
}

/// A settings record as plain text fields.
pub struct SettingsView {
    pub wifi_pass: Seq<char>,
    pub wifi_ssid: Seq<char>,
}

impl View for Settings {
    type V = SettingsView;

    open spec fn view(&self) -> SettingsView {
        SettingsView { wifi_pass: self.wifi_pass@, wifi_ssid: self.wifi_ssid@ }
    }
}

/// The default record.
pub open spec fn default_settings() -> SettingsView {
    SettingsView { wifi_pass: "kspass1234"@, wifi_ssid: "ESP2"@ }
}

impl Default for Settings {
    fn default() -> (r: Self)
        ensures
            r@ == default_settings(),
    {
        Settings { wifi_pass: "kspass1234".to_owned(), wifi_ssid: "ESP2".to_owned() }
    }
}

/// Whether `c` is white space: what `char::is_whitespace` answers for it.
pub uninterp spec fn char_is_whitespace(c: char) -> bool;

/// Calls `char::is_whitespace`, which tells whether a character has the
/// Unicode property White_Space. The answer depends on the character alone.
#[verifier::external_body]
fn is_whitespace(c: char) -> (b: bool)
    ensures
        b == char_is_whitespace(c),
{
    c.is_whitespace()
}

/// `s` without the white space at its beginning.
pub open spec fn trim_start(s: Seq<char>) -> Seq<char>
    decreases s.len(),
{
    if s.len() > 0 && char_is_whitespace(s.first()) {
        trim_start(s.drop_first())
    } else {
        s
    }
}

/// `s` without the white space at its end.
pub open spec fn trim_end(s: Seq<char>) -> Seq<char>
    decreases s.len(),
{
    if s.len() > 0 && char_is_whitespace(s.last()) {
        trim_end(s.drop_last())
    } else {
        s
    }
}

/// `s` without the white space at either end.
pub open spec fn trimmed(s: Seq<char>) -> Seq<char> {
    trim_end(trim_start(s))
}

/// The text of `s` without the white space at either end.
pub fn trim(s: &str) -> (r: String)
    ensures
        r@ == trimmed(s@),
{
    let n = s.unicode_len();
    let mut a: usize = 0;
    assert(s@.subrange(0, n as int) =~= s@);
    while a < n && is_whitespace(s.get_char(a))
        invariant
            a <= n,
            n == s@.len(),
            trim_start(s@) == trim_start(s@.subrange(a as int, n as int)),
        decreases n - a,
    {
        assert(s@.subrange(a as int, n as int).drop_first() =~= s@.subrange(a as int + 1, n as int));
        a = a + 1;
    }
    assert(trim_start(s@) == s@.subrange(a as int, n as int));
    let mut b: usize = n;
    while b > a && is_whitespace(s.get_char(b - 1))
        invariant
            a <= b <= n,
            n == s@.len(),
            trimmed(s@) == trim_end(s@.subrange(a as int, b as int)),
        decreases b - a,
    {
        assert(s@.subrange(a as int, b as int).drop_last() =~= s@.subrange(a as int, b as int - 1));
        b = b - 1;
    }
    s.substring_char(a, b).to_owned()
}

impl Settings {
    /// The record with the white space at both ends of every field removed.
    pub fn trimmed(&self) -> (r: Settings)
        ensures
            r@ == (SettingsView {
                wifi_pass: trimmed(self@.wifi_pass),
                wifi_ssid: trimmed(self@.wifi_ssid),
            }),
    {
        Settings { wifi_pass: trim(self.wifi_pass.as_str()), wifi_ssid: trim(self.wifi_ssid.as_str()) }
    }
}

/// Why the settings file refused.
#[derive(Clone, Copy, Debug, PartialEq, Eq, Structural)]
pub enum SettingsError {
    /// The file does not hold text.
    InvalidUtf8,
    /// A field of the record has no JSON form.
    Encode,
}

/// The error of `serde_json`.
#[verifier::external_type_specification]
#[verifier::external_body]
pub struct ExJsonError(serde_json::Error);

/// The error of `String::from_utf8`.
#[verifier::external_type_specification]
#[verifier::external_body]
pub struct ExFromUtf8Error(std::string::FromUtf8Error);

/// The JSON string for the text `s`, quotes and escapes included: what
/// `serde_json::to_string` makes of a `str`; `None` where it refuses.
pub uninterp spec fn json_quoted(s: Seq<char>) -> Option<Seq<char>>;

/// Calls `serde_json::to_string` on a `str`, which writes the text as one
/// JSON string. What comes back depends on the text alone.
#[verifier::external_body]
fn json_quote(s: &str) -> (r: Result<String, serde_json::Error>)
    ensures
        match r {
            Ok(t) => json_quoted(s@) == Some(t@),
            Err(_) => json_quoted(s@) is None,
        },
{
    serde_json::to_string(s)
}

/// Calls `String::from_utf8`, which turns bytes into text where they are
/// UTF-8 and refuses them where they are not.
#[verifier::external_body]
fn string_from_utf8(bytes: Vec<u8>) -> (r: Result<String, std::string::FromUtf8Error>)
    ensures
        r is Ok <==> valid_utf8(bytes@),
        r matches Ok(s) ==> s@ == decode_utf8(bytes@),
{
    String::from_utf8(bytes)
}

/// The record `s` as the text of the settings file: one JSON object with
/// the two fields in this order; `None` where a field has no JSON form.
pub open spec fn settings_json(s: SettingsView) -> Option<Seq<char>> {
    match (json_quoted(s.wifi_pass), json_quoted(s.wifi_ssid)) {
        (Some(pass), Some(ssid)) => Some(
            "{\"wifi_pass\":"@ + pass + ",\"wifi_ssid\":"@ + ssid + "}"@,
        ),
        _ => None,
    }
}

/// The text of the default record in the settings file.
pub open spec fn default_json() -> Seq<char> {
    "{\"wifi_pass\":\"kspass1234\",\"wifi_ssid\":\"ESP2\"}"@
}

impl Settings {
    /// The record as the text of the settings file.
    pub fn to_json(&self) -> (r: Result<String, SettingsError>)
        ensures
            match settings_json(self@) {
                Some(t) => r matches Ok(text) && text@ == t,
                None => r == Err::<String, SettingsError>(SettingsError::Encode),
            },
    {
        let pass = match json_quote(self.wifi_pass.as_str()) {
            Ok(t) => t,
            Err(_) => {
                return Err(SettingsError::Encode);
            },
        };
        let ssid = match json_quote(self.wifi_ssid.as_str()) {
            Ok(t) => t,
            Err(_) => {
                return Err(SettingsError::Encode);
            },
        };
        let mut text = String::from_str("{\"wifi_pass\":");
        text.append(pass.as_str());
        text.append(",\"wifi_ssid\":");
        text.append(ssid.as_str());
        text.append("}");
        Ok(text)
    }
}

/// The bytes of the settings file; `None` while there is no file.
#[derive(Debug)]
pub struct SettingsFile {
    contents: Option<Vec<u8>>,
}

impl View for SettingsFile {
    type V = Option<Seq<u8>>;

    closed spec fn view(&self) -> Option<Seq<u8>> {
        match self.contents {
            Some(v) => Some(v@),
            None => None,
        }
    }
}

/// The bytes of the file once a missing file has been made up for: what is
/// there, or else the default record.
pub open spec fn or_default(contents: Option<Seq<u8>>) -> Seq<u8> {
    match contents {
        Some(b) => b,
        None => encode_utf8(default_json()),
    }
}

/// The bytes of the file once it has been healed as far as text goes: what
/// is there where that is text, or else the default record.
pub open spec fn healed(contents: Option<Seq<u8>>) -> Seq<u8> {
    if valid_utf8(or_default(contents)) {
        or_default(contents)
    } else {
        encode_utf8(default_json())
    }
}

/// Law: healing leaves text, which the record parser can be given, and
/// healing what has been healed changes nothing.
pub proof fn law_healing_is_idempotent(contents: Option<Seq<u8>>)
    ensures
        valid_utf8(healed(contents)),
        healed(Some(healed(contents))) == healed(contents),
        healed(Some(encode_utf8(default_json()))) == encode_utf8(default_json()),
        decode_utf8(encode_utf8(default_json())) == default_json(),
{
    encode_utf8_valid_utf8(default_json());
    encode_utf8_decode_utf8(default_json());
}

impl SettingsFile {
    /// The text of the default record.
    pub fn default_json_text() -> (r: &'static str)
        ensures
            r@ == default_json(),
    {
        "{\"wifi_pass\":\"kspass1234\",\"wifi_ssid\":\"ESP2\"}"
    }

    /// No file yet.
    pub fn new() -> (r: Self)
        ensures
            r@ is None,
    {
        SettingsFile { contents: None }
    }

    /// The file as found on the volume.
    pub fn from_bytes(contents: Option<Vec<u8>>) -> (r: Self)
        ensures
            r@ == match contents {
                Some(v) => Some(v@),
                None => None,
            },
    {
        SettingsFile { contents }
    }

    /// The bytes to keep on the volume.
    pub fn bytes(&self) -> (r: Option<Vec<u8>>)
        ensures
            match r {
                Some(v) => self@ == Some(v@),
                None => self@ is None,
            },
    {
        match &self.contents {
            Some(v) => Some(slice_to_vec(v.as_slice())),
            None => None,
        }
    }

    /// Overwrites the file with the text `s`.
    pub fn set_str(&mut self, s: &str)
        ensures
            final(self)@ == Some(encode_utf8(s@)),
    {
        self.contents = Some(s.as_bytes_vec());
    }

    /// Writes the default record where there is no file, or where `force`
    /// asks for it.
    pub fn set_default_if_needed(&mut self, force: bool)
        ensures
            final(self)@ == if old(self)@ is None || force {
                Some(encode_utf8(default_json()))
            } else {
                old(self)@
            },
    {
        if self.contents.is_none() || force {
            self.set_str(Self::default_json_text());
        }
    }

    /// Overwrites the file with the record `s`, its fields trimmed. Free
    /// space is not asked for. Where a field has no JSON form the file stays
    /// as it was.
    pub fn set(&mut self, s: &Settings) -> (r: Result<(), SettingsError>)
        ensures
            match settings_json(
                SettingsView {
                    wifi_pass: trimmed(s@.wifi_pass),
                    wifi_ssid: trimmed(s@.wifi_ssid),
                },
            ) {
                Some(t) => r is Ok && final(self)@ == Some(encode_utf8(t)),
                None => r == Err::<(), SettingsError>(SettingsError::Encode) && final(self)@ == old(
                    self,
                )@,
            },
    {
        match s.trimmed().to_json() {
            Ok(text) => {
                self.set_str(text.as_str());
                Ok(())
            },
            Err(e) => Err(e),
        }
    }

    /// The text of the file. A missing file is made up for with the default
    /// record first. Bytes that are no text are refused and stay.
    pub fn get_str_from_utf8(&mut self) -> (r: Result<String, SettingsError>)
        ensures
            final(self)@ == Some(or_default(old(self)@)),
            match r {
                Ok(text) => valid_utf8(or_default(old(self)@)) && text@ == decode_utf8(
                    or_default(old(self)@),
                ),
                Err(e) => !valid_utf8(or_default(old(self)@)) && e == SettingsError::InvalidUtf8,
            },
    {
        self.set_default_if_needed(false);
        let bytes = match &self.contents {
            Some(v) => slice_to_vec(v.as_slice()),
            None => Vec::new(),
        };
        match string_from_utf8(bytes) {
            Ok(text) => Ok(text),
            Err(_) => Err(SettingsError::InvalidUtf8),
        }
    }

    /// The text of the file, healed: a file that is missing or holds no text
    /// is overwritten with the default record, whose text is returned.
    pub fn get_str(&mut self) -> (r: String)
        ensures
            final(self)@ == Some(healed(old(self)@)),
            r@ == decode_utf8(healed(old(self)@)),
            old(self)@ is None || !valid_utf8(or_default(old(self)@)) ==> r@ == default_json(),
    {
        proof {
            encode_utf8_decode_utf8(default_json());
        }
        match self.get_str_from_utf8() {
            Ok(text) => text,
            Err(_) => {
                self.set_default_if_needed(true);
                Self::default_json_text().to_owned()
            },
        }
    }

    /// Settles a read once the record parser has judged the text that
    /// `get_str` returned. `parsed` is the record that the parser found, or
    /// `None` where it found none. A record found is returned and the file
    /// stays. Otherwise the file is overwritten with the default record, and
    /// the default record is returned.
    pub fn get(&mut self, parsed: Option<Settings>) -> (r: Settings)
        ensures
            match parsed {
                Some(s) => r@ == s@ && final(self)@ == old(self)@,
                None => r@ == default_settings() && final(self)@ == Some(
                    encode_utf8(default_json()),
                ),
            },
    {
        match parsed {
            Some(s) => s,
            None => {
                self.set_default_if_needed(true);
                Settings::default()
            },
        }
    }
}

} // verus!
