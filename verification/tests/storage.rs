use power_logger::storage::get_storage_space_info;
use power_logger::storage::is_free_space_ok;
use power_logger::storage::AppendOutcome;
use power_logger::storage::DataFile;
use power_logger::storage::LastLine;
use power_logger::storage::StorageError;
use power_logger::storage::StorageSpaceInfo;
use power_logger::storage::STOR_MIN_FREE;

fn plenty() -> Result<StorageSpaceInfo, StorageError> {
    get_storage_space_info(0, 4 * 1024 * 1024, 1024)
}

fn scarce() -> Result<StorageSpaceInfo, StorageError> {
    get_storage_space_info(0, 4 * 1024 * 1024, 4 * 1024 * 1024 - 1024)
}

fn header_count(contents: &[u8]) -> usize {
    let text = String::from_utf8(contents.to_vec()).expect("the log is text");
    text.lines().filter(|l| *l == "rtc_ts,w,v,a,uptime_ms").count()
}

#[test]
fn space_info_is_total_less_used() {
    assert_eq!(
        get_storage_space_info(0, 1_000_000, 250_000),
        Ok(StorageSpaceInfo { total: 1_000_000, free: 750_000, min_allowed_free: 512 * 1024 })
    );
    assert_eq!(STOR_MIN_FREE, 524_288);
}

#[test]
fn failed_size_query_is_reported_with_its_code() {
    assert_eq!(get_storage_space_info(-1, 0, 0), Err(StorageError::InfoFailed { code: -1 }));
    assert_eq!(get_storage_space_info(261, 10, 20), Err(StorageError::InfoFailed { code: 261 }));
}

#[test]
fn free_space_at_the_minimum_is_enough() {
    let at = StorageSpaceInfo { total: 1 << 20, free: 512 * 1024, min_allowed_free: 512 * 1024 };
    let below = StorageSpaceInfo { total: 1 << 20, free: 512 * 1024 - 1, min_allowed_free: 512 * 1024 };
    assert_eq!(is_free_space_ok(Ok(at)), Ok(()));
    assert_eq!(is_free_space_ok(Ok(below)), Err(StorageError::NotEnoughFreeSpace));
    assert_eq!(
        is_free_space_ok(Err(StorageError::InfoFailed { code: 7 })),
        Err(StorageError::InfoFailed { code: 7 })
    );
}

#[test]
fn store_never_written_reads_as_empty() {
    let f = DataFile::new();
    assert_eq!(f.len(), 0);
    assert_eq!(f.read_all(), Vec::<u8>::new());
}

#[test]
fn first_append_writes_the_header_then_the_row() {
    let mut f = DataFile::new();
    let mut last = LastLine::new();
    assert_eq!(f.append_data(plenty(), "2024-01-02 03:04:05,1.00,12.00,0.100,10", &mut last), AppendOutcome::Appended);
    assert_eq!(
        f.read_all(),
        b"rtc_ts,w,v,a,uptime_ms\n2024-01-02 03:04:05,1.00,12.00,0.100,10\n".to_vec()
    );
    assert_eq!(f.len(), 23 + 40);
}

#[test]
fn header_is_written_once_whatever_the_order_of_appends() {
    let rows = ["a,1", "b,2", "c,3", "d,4"];
    // every order in which four racing appends can take the lock
    let mut orders = Vec::new();
    for a in 0..4 {
        for b in 0..4 {
            for c in 0..4 {
                for d in 0..4 {
                    let o = [a, b, c, d];
                    if (0..4).all(|x| o.contains(&x)) {
                        orders.push(o);
                    }
                }
            }
        }
    }
    assert_eq!(orders.len(), 24);
    for o in orders {
        let mut f = DataFile::new();
        let mut last = LastLine::new();
        for i in o {
            f.append_data(plenty(), rows[i], &mut last);
        }
        let all = f.read_all();
        assert_eq!(header_count(&all), 1);
        assert!(all.starts_with(b"rtc_ts,w,v,a,uptime_ms\n"));
        let expected = format!(
            "rtc_ts,w,v,a,uptime_ms\n{}\n{}\n{}\n{}\n",
            rows[o[0]], rows[o[1]], rows[o[2]], rows[o[3]]
        );
        assert_eq!(all, expected.into_bytes());
        assert_eq!(last.get(), rows[o[3]]);
    }
}

#[test]
fn append_below_the_minimum_succeeds_and_changes_nothing() {
    let mut f = DataFile::new();
    let mut last = LastLine::new();
    assert_eq!(
        f.append_data(scarce(), "row", &mut last),
        AppendOutcome::Skipped { reason: StorageError::NotEnoughFreeSpace }
    );
    assert_eq!(f.read_all(), Vec::<u8>::new());
    assert_eq!(last.get(), "");
    f.append_data(plenty(), "kept", &mut last);
    let before = f.read_all();
    f.append_data(scarce(), "lost", &mut last);
    assert_eq!(f.read_all(), before);
    assert_eq!(last.get(), "kept");
}

#[test]
fn append_without_space_information_is_skipped() {
    let mut f = DataFile::new();
    let mut last = LastLine::new();
    assert_eq!(
        f.append_data(get_storage_space_info(5, 0, 0), "row", &mut last),
        AppendOutcome::Skipped { reason: StorageError::InfoFailed { code: 5 } }
    );
    assert_eq!(f.len(), 0);
}

#[test]
fn clear_then_read_all_is_empty() {
    let mut f = DataFile::new();
    let mut last = LastLine::new();
    f.append_data(plenty(), "row", &mut last);
    f.clear_data();
    assert_eq!(f.read_all(), Vec::<u8>::new());
    // clearing again changes nothing
    f.clear_data();
    assert_eq!(f.len(), 0);
}

#[test]
fn header_comes_back_after_a_clear() {
    let mut f = DataFile::new();
    let mut last = LastLine::new();
    f.append_data(plenty(), "one", &mut last);
    f.clear_data();
    f.append_data(plenty(), "two", &mut last);
    assert_eq!(f.read_all(), b"rtc_ts,w,v,a,uptime_ms\ntwo\n".to_vec());
}

#[test]
fn log_found_on_the_volume_gets_no_second_header() {
    let mut f = DataFile::from_bytes(b"rtc_ts,w,v,a,uptime_ms\nold\n".to_vec());
    let mut last = LastLine::new();
    f.append_data(plenty(), "new", &mut last);
    assert_eq!(f.read_all(), b"rtc_ts,w,v,a,uptime_ms\nold\nnew\n".to_vec());
}

#[test]
fn raw_line_is_appended_with_a_line_feed() {
    let mut f = DataFile::new();
    f.append_line_raw("x");
    f.append_line_raw("");
    f.append_line_raw("\u{e9}");
    assert_eq!(f.read_all(), vec![b'x', b'\n', b'\n', 0xc3, 0xa9, b'\n']);
}

#[test]
fn header_is_written_into_an_empty_log_only() {
    let mut f = DataFile::new();
    f.write_header_if_needed();
    f.write_header_if_needed();
    assert_eq!(f.read_all(), b"rtc_ts,w,v,a,uptime_ms\n".to_vec());
    assert_eq!(DataFile::header_text(), "rtc_ts,w,v,a,uptime_ms");
}

#[test]
fn last_line_holds_what_was_set() {
    let mut l = LastLine::new();
    assert_eq!(l.get(), "");
    l.set("first");
    l.set("second");
    assert_eq!(l.get(), "second");
}
