use power_logger::locked::anyhow_lock;
use power_logger::locked::lock_outcome;
use power_logger::locked::LockedDataFile;
use power_logger::locked::LockedSettingsError;
use power_logger::locked::LockedSettingsFile;
use power_logger::settings::Settings;
use power_logger::settings::SettingsFile;
use power_logger::storage::get_storage_space_info;
use power_logger::storage::AppendOutcome;
use power_logger::storage::DataFile;
use power_logger::storage::LastLine;
use power_logger::storage::StorageError;
use std::sync::Arc;
use std::sync::Mutex;

fn parse(text: &str) -> Option<Settings> {
    let v: serde_json::Value = serde_json::from_str(text).ok()?;
    Some(Settings {
        wifi_pass: v.get("wifi_pass")?.as_str()?.to_string(),
        wifi_ssid: v.get("wifi_ssid")?.as_str()?.to_string(),
    })
}

#[test]
fn lock_gives_what_it_protects() {
    let m = Mutex::new(5u32);
    {
        let mut g = anyhow_lock(&m, "test").expect("nobody failed under the lock");
        *g += 1;
    }
    assert_eq!(*anyhow_lock(&m, "test").expect("nobody failed under the lock"), 6);
}

#[test]
fn locked_log_appends_and_clears() {
    let f = LockedDataFile::new();
    let mut last = LastLine::new();
    let plenty = get_storage_space_info(0, 4 << 20, 0);
    assert_eq!(f.append_data(plenty, "one", &mut last).ok(), Some(AppendOutcome::Appended));
    assert_eq!(f.append_data(plenty, "two", &mut last).ok(), Some(AppendOutcome::Appended));
    assert_eq!(f.read_all().ok(), Some(b"rtc_ts,w,v,a,uptime_ms\none\ntwo\n".to_vec()));
    assert_eq!(last.get(), "two");
    let scarce = get_storage_space_info(0, 4 << 20, 4 << 20);
    assert_eq!(
        f.append_data(scarce, "three", &mut last).ok(),
        Some(AppendOutcome::Skipped { reason: StorageError::NotEnoughFreeSpace })
    );
    assert_eq!(last.get(), "two");
    assert!(f.clear_data().is_ok());
    assert_eq!(f.read_all().ok(), Some(Vec::new()));
}

#[test]
fn lock_of_the_log_gives_the_log() {
    let f = LockedDataFile::with_file(DataFile::from_bytes(b"rtc_ts,w,v,a,uptime_ms\nold\n".to_vec()));
    {
        let mut g = f.lock().ok().expect("the lock is sound");
        g.append_line_raw("new");
    }
    assert_eq!(f.read_all().ok(), Some(b"rtc_ts,w,v,a,uptime_ms\nold\nnew\n".to_vec()));
}

#[test]
fn locked_settings_are_written_and_read() {
    let f = LockedSettingsFile::new();
    let s = Settings { wifi_pass: " pw ".to_string(), wifi_ssid: "home".to_string() };
    assert!(matches!(f.set(&s), Ok(())));
    let got = f.get(parse).ok().expect("the lock is sound");
    assert_eq!((got.wifi_pass.as_str(), got.wifi_ssid.as_str()), ("pw", "home"));
    let g = f.lock().ok().expect("the lock is sound");
    assert_eq!(g.bytes(), Some(b"{\"wifi_pass\":\"pw\",\"wifi_ssid\":\"home\"}".to_vec()));
}

#[test]
fn locked_settings_heal_a_corrupt_file() {
    let f = LockedSettingsFile::with_file(SettingsFile::from_bytes(Some(b"{oops".to_vec())));
    let got = f.get(parse).ok().expect("the lock is sound");
    assert_eq!((got.wifi_pass.as_str(), got.wifi_ssid.as_str()), ("kspass1234", "ESP2"));
    let again = f.get(parse).ok().expect("the lock is sound");
    assert_eq!(again.wifi_ssid, "ESP2");
    let g = f.lock().ok().expect("the lock is sound");
    assert_eq!(g.bytes(), Some(b"{\"wifi_pass\":\"kspass1234\",\"wifi_ssid\":\"ESP2\"}".to_vec()));
}

#[test]
fn appends_of_several_writers_leave_one_header() {
    // eight writers take turns at the lock, in an order that mixes them
    let f = Arc::new(LockedDataFile::new());
    let writers: Vec<Arc<LockedDataFile>> = (0..8).map(|_| f.clone()).collect();
    let mut last = LastLine::new();
    let mut expected = String::from("rtc_ts,w,v,a,uptime_ms\n");
    for step in 0..400usize {
        let t = (step * 5 + step / 8) % 8;
        let row = format!("writer{},{}", t, step);
        let info = get_storage_space_info(0, 4 << 20, 0);
        assert_eq!(writers[t].append_data(info, &row, &mut last).ok(), Some(AppendOutcome::Appended));
        expected.push_str(&row);
        expected.push('\n');
    }
    let all = String::from_utf8(f.read_all().ok().expect("the lock is sound")).expect("the log is text");
    assert_eq!(all, expected);
    assert_eq!(all.lines().filter(|l| *l == "rtc_ts,w,v,a,uptime_ms").count(), 1);
}

#[test]
fn settings_error_of_the_file_is_told_from_one_of_the_lock() {
    let f = LockedSettingsFile::new();
    let s = Settings { wifi_pass: "p".to_string(), wifi_ssid: "s".to_string() };
    match f.set(&s) {
        Ok(()) => {}
        Err(LockedSettingsError::Lock(e)) => panic!("lock error {:?}", e),
        Err(LockedSettingsError::File(e)) => panic!("file error {:?}", e),
    }
}

#[test]
fn refused_lock_is_reported_with_the_place_that_asked() {
    let refused: Result<std::sync::MutexGuard<'_, u32>, String> = Err("poisoned lock".to_string());
    let e = lock_outcome(refused, "record_measurements i2c").err().expect("the lock refused");
    assert_eq!(e.prefix, "record_measurements i2c");
    assert_eq!(e.cause, "poisoned lock");
}

#[test]
fn hold_on_a_lock_is_passed_on_as_it_is() {
    let m = Mutex::new(41u32);
    let held = m.lock().map_err(|e| e.to_string());
    let mut g = lock_outcome(held, "test").ok().expect("the lock is sound");
    *g += 1;
    drop(g);
    assert_eq!(*anyhow_lock(&m, "test").ok().expect("the lock is sound"), 42);
}

#[test]
fn locked_settings_take_every_text() {
    let f = LockedSettingsFile::new();
    for (pass, ssid) in [("", ""), ("  ", "\t"), ("a\"b", "\u{0}\u{1f}"), ("\u{1f600}", "\\")] {
        let s = Settings { wifi_pass: pass.to_string(), wifi_ssid: ssid.to_string() };
        assert!(matches!(f.set(&s), Ok(())));
        let got = f.get(parse).ok().expect("the lock is sound");
        assert_eq!(got.wifi_pass, pass.trim());
        assert_eq!(got.wifi_ssid, ssid.trim());
    }
}
