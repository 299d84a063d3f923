use power_logger::settings::trim;
use power_logger::settings::Settings;
use power_logger::settings::SettingsError;
use power_logger::settings::SettingsFile;

const DEFAULT_JSON: &str = "{\"wifi_pass\":\"kspass1234\",\"wifi_ssid\":\"ESP2\"}";

fn record(pass: &str, ssid: &str) -> Settings {
    Settings { wifi_pass: pass.to_string(), wifi_ssid: ssid.to_string() }
}

fn field(text: &str, name: &str) -> String {
    let v: serde_json::Value = serde_json::from_str(text).expect("the text is JSON");
    v.get(name).and_then(|f| f.as_str()).expect("the field is a string").to_string()
}

#[test]
fn default_record_has_the_factory_credentials() {
    let s = Settings::default();
    assert_eq!(s.wifi_pass, "kspass1234");
    assert_eq!(s.wifi_ssid, "ESP2");
}

#[test]
fn default_text_is_the_json_of_the_default_record() {
    assert_eq!(Settings::default().to_json(), Ok(DEFAULT_JSON.to_string()));
    assert_eq!(SettingsFile::default_json_text(), DEFAULT_JSON);
    assert_eq!(field(DEFAULT_JSON, "wifi_pass"), "kspass1234");
    assert_eq!(field(DEFAULT_JSON, "wifi_ssid"), "ESP2");
}

#[test]
fn json_quotes_and_escapes_the_fields() {
    let s = record("a\"b\\c", "line\nbreak\ttab");
    let text = s.to_json().expect("text has a JSON form");
    assert_eq!(text, "{\"wifi_pass\":\"a\\\"b\\\\c\",\"wifi_ssid\":\"line\\nbreak\\ttab\"}");
    assert_eq!(field(&text, "wifi_pass"), "a\"b\\c");
    assert_eq!(field(&text, "wifi_ssid"), "line\nbreak\ttab");
}

#[test]
fn json_keeps_text_beyond_ascii() {
    let s = record("p\u{e4}ss", "\u{7f51}\u{7edc}");
    let text = s.to_json().expect("text has a JSON form");
    assert_eq!(text, "{\"wifi_pass\":\"p\u{e4}ss\",\"wifi_ssid\":\"\u{7f51}\u{7edc}\"}");
}

#[test]
fn trim_removes_white_space_at_both_ends_only() {
    assert_eq!(trim("  a b \t\n"), "a b");
    assert_eq!(trim("a"), "a");
    assert_eq!(trim(""), "");
    assert_eq!(trim(" \u{a0}\u{2003} "), "");
    assert_eq!(trim("\u{3000}x\u{e9}y\u{3000}"), "x\u{e9}y");
    assert_eq!(trim("\u{200b}x"), "\u{200b}x");
}

#[test]
fn trim_agrees_with_the_standard_library() {
    for s in ["", " ", "x", " x", "x ", "\t x y \r\n", "\u{85}a\u{1680}", "a\u{feff}", "  \u{e9}  "] {
        assert_eq!(trim(s), s.trim());
    }
}

#[test]
fn trimmed_record_has_both_fields_trimmed() {
    let s = record(" secret ", "\tnet\n").trimmed();
    assert_eq!(s.wifi_pass, "secret");
    assert_eq!(s.wifi_ssid, "net");
}

#[test]
fn set_trims_and_overwrites() {
    let mut f = SettingsFile::from_bytes(Some(b"whatever was there".to_vec()));
    assert_eq!(f.set(&record("  pw  ", " home ")), Ok(()));
    assert_eq!(f.bytes(), Some(b"{\"wifi_pass\":\"pw\",\"wifi_ssid\":\"home\"}".to_vec()));
    assert_eq!(f.get_str(), "{\"wifi_pass\":\"pw\",\"wifi_ssid\":\"home\"}");
}

#[test]
fn missing_file_is_made_up_for_with_the_default_record() {
    let mut f = SettingsFile::new();
    assert_eq!(f.bytes(), None);
    assert_eq!(f.get_str(), DEFAULT_JSON);
    assert_eq!(f.bytes(), Some(DEFAULT_JSON.as_bytes().to_vec()));
}

#[test]
fn bytes_that_are_no_text_are_refused_and_then_healed() {
    let mut f = SettingsFile::from_bytes(Some(vec![0xff, 0xfe, 0x00]));
    assert_eq!(f.get_str_from_utf8(), Err(SettingsError::InvalidUtf8));
    assert_eq!(f.bytes(), Some(vec![0xff, 0xfe, 0x00]));
    assert_eq!(f.get_str(), DEFAULT_JSON);
    assert_eq!(f.bytes(), Some(DEFAULT_JSON.as_bytes().to_vec()));
    assert_eq!(f.get_str_from_utf8(), Ok(DEFAULT_JSON.to_string()));
}

#[test]
fn overlong_and_surrogate_encodings_are_no_text() {
    for bad in [vec![0xc0u8, 0x80], vec![0xed, 0xa0, 0x80], vec![0xf4, 0x90, 0x80, 0x80], vec![0xe2, 0x82]] {
        let mut f = SettingsFile::from_bytes(Some(bad));
        assert_eq!(f.get_str_from_utf8(), Err(SettingsError::InvalidUtf8));
    }
    let mut ok = SettingsFile::from_bytes(Some(vec![0xe2, 0x82, 0xac]));
    assert_eq!(ok.get_str_from_utf8(), Ok("\u{20ac}".to_string()));
}

#[test]
fn text_in_the_file_is_returned_as_it_is() {
    let mut f = SettingsFile::new();
    f.set_str("{\"wifi_pass\":\"x\",\"wifi_ssid\":\"y\"}");
    assert_eq!(f.get_str(), "{\"wifi_pass\":\"x\",\"wifi_ssid\":\"y\"}");
    f.set_str("not json at all");
    assert_eq!(f.get_str(), "not json at all");
    assert_eq!(f.bytes(), Some(b"not json at all".to_vec()));
}

#[test]
fn default_is_written_only_where_needed() {
    let mut f = SettingsFile::new();
    f.set_str("kept");
    f.set_default_if_needed(false);
    assert_eq!(f.bytes(), Some(b"kept".to_vec()));
    f.set_default_if_needed(true);
    assert_eq!(f.bytes(), Some(DEFAULT_JSON.as_bytes().to_vec()));
    let mut g = SettingsFile::new();
    g.set_default_if_needed(false);
    assert_eq!(g.bytes(), Some(DEFAULT_JSON.as_bytes().to_vec()));
}

// The record parser of these tests: a JSON object with the two text fields.
fn parse(text: &str) -> Option<Settings> {
    let v: serde_json::Value = serde_json::from_str(text).ok()?;
    let pass = v.get("wifi_pass")?.as_str()?;
    let ssid = v.get("wifi_ssid")?.as_str()?;
    Some(record(pass, ssid))
}

fn get(f: &mut SettingsFile) -> Settings {
    let text = f.get_str();
    f.get(parse(&text))
}

#[test]
fn invalid_payload_yields_the_default_record_and_heals_the_file() {
    let mut f = SettingsFile::new();
    f.set_str("{\"wifi_pass\": ");
    let s = get(&mut f);
    assert_eq!(s.wifi_pass, "kspass1234");
    assert_eq!(s.wifi_ssid, "ESP2");
    let after = String::from_utf8(f.bytes().expect("the file is there")).expect("the file is text");
    assert!(serde_json::from_str::<serde_json::Value>(&after).is_ok());
    assert_eq!(after, DEFAULT_JSON);
}

#[test]
fn healing_works_on_repeated_corruption() {
    let mut f = SettingsFile::new();
    for garbage in ["", "[]", "{\"wifi_ssid\":1}", "\u{0}", "{\"wifi_pass\":\"only\"}"] {
        f.set_str(garbage);
        let s = get(&mut f);
        assert_eq!((s.wifi_pass.as_str(), s.wifi_ssid.as_str()), ("kspass1234", "ESP2"));
        let again = get(&mut f);
        assert_eq!((again.wifi_pass.as_str(), again.wifi_ssid.as_str()), ("kspass1234", "ESP2"));
        assert_eq!(f.bytes(), Some(DEFAULT_JSON.as_bytes().to_vec()));
    }
    let mut g = SettingsFile::from_bytes(Some(vec![0x80]));
    let s = get(&mut g);
    assert_eq!(s.wifi_ssid, "ESP2");
    assert_eq!(g.bytes(), Some(DEFAULT_JSON.as_bytes().to_vec()));
}

#[test]
fn valid_record_is_returned_and_the_file_stays() {
    let mut f = SettingsFile::new();
    assert_eq!(f.set(&record("pw", "home")), Ok(()));
    let before = f.bytes();
    let s = get(&mut f);
    assert_eq!((s.wifi_pass.as_str(), s.wifi_ssid.as_str()), ("pw", "home"));
    assert_eq!(f.bytes(), before);
}

#[test]
fn record_written_is_the_record_read() {
    let mut f = SettingsFile::new();
    assert_eq!(f.set(&record("a \"quoted\" pass", "caf\u{e9} \\ net")), Ok(()));
    let s = get(&mut f);
    assert_eq!(s.wifi_pass, "a \"quoted\" pass");
    assert_eq!(s.wifi_ssid, "caf\u{e9} \\ net");
}
