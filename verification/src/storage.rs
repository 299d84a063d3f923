//! The measurement log and the admission control in front of it.
//!
//! The log is an append-only text file: a header row, then one row for each
//! measurement. `DataFile` holds its bytes and decides what every operation
//! does to them; the caller owns the backing file and the lock around it. A
//! write is refused, without an error, while free space on the volume is
//! below the minimum.

use vstd::prelude::*;
use vstd::slice::slice_to_vec;
use vstd::string::StringSliceAdditionalSpecFns;
use vstd::utf8::encode_utf8;
use vstd::utf8::is_ascii_chars_encode_utf8;

verus! {

/// Least free space on the volume with which the log still takes a row.
pub const STOR_MIN_FREE: usize = 512 * 1024;

/// Space on the storage volume, in bytes.
#[derive(Clone, Copy, Debug, PartialEq, Eq, Structural)]
pub struct StorageSpaceInfo {
    pub total: usize,
    pub free: usize,
    pub min_allowed_free: usize,
}

/// Why storage refused.
#[derive(Clone, Copy, Debug, PartialEq, Eq, Structural)]
pub enum StorageError {
    /// The volume did not report its size; `code` is what it reported instead.
    InfoFailed { code: i32 },
    /// Less space is free than the minimum.
    NotEnoughFreeSpace,
}

/// What became of a row handed to the log.
#[derive(Clone, Copy, Debug, PartialEq, Eq, Structural)]
pub enum AppendOutcome {
    /// The row is in the log.
    Appended,
    /// The row was dropped and the log is as it was.
    Skipped { reason: StorageError },
}

/// The space information that follows from what the volume reported: the
/// status `res` of the query, and the total and used bytes.
pub open spec fn space_info_of(res: i32, total: usize, used: usize) -> Result<
    StorageSpaceInfo,
    StorageError,
> {
    if res != 0 {
        Err(StorageError::InfoFailed { code: res })
    } else {
        Ok(
            StorageSpaceInfo {
                total,
                free: (total - used) as usize,
                min_allowed_free: STOR_MIN_FREE,
            },
        )
    }
}

/// Whether a write is admitted on this space information.
pub open spec fn admitted(info: Result<StorageSpaceInfo, StorageError>) -> Result<(), StorageError> {
    match info {
        Err(e) => Err(e),
        Ok(i) => if i.free < i.min_allowed_free {
            Err(StorageError::NotEnoughFreeSpace)
        } else {
            Ok(())
        },
    }
}

/// Makes the space information out of the volume's answer to a size query.
pub fn get_storage_space_info(res: i32, total: usize, used: usize) -> (r: Result<
    StorageSpaceInfo,
    StorageError,
>)
    requires
        res == 0 ==> used <= total,
    ensures
        r == space_info_of(res, total, used),
{
    if res != 0 {
        Err(StorageError::InfoFailed { code: res })
    } else {
        Ok(StorageSpaceInfo { total, free: total - used, min_allowed_free: STOR_MIN_FREE })
    }
}

/// Admission control: a write is admitted where the volume reported its
/// space and at least the minimum is free.
pub fn is_free_space_ok(info: Result<StorageSpaceInfo, StorageError>) -> (r: Result<
    (),
    StorageError,
>)
    ensures
        r == admitted(info),
{
    match info {
        Err(e) => Err(e),
        Ok(i) => if i.free < i.min_allowed_free {
            Err(StorageError::NotEnoughFreeSpace)
        } else {
            Ok(())
        },
    }
}

/// The row that went into the log last.
#[derive(Debug)]
pub struct LastLine {
    l: String,
}

impl View for LastLine {
    type V = Seq<char>;

    closed spec fn view(&self) -> Seq<char> {
        self.l@
    }
}

impl LastLine {
    /// No row yet.
    pub fn new() -> (r: Self)
        ensures
            r@ == Seq::<char>::empty(),
    {
        LastLine { l: String::new() }
    }

    /// The row.
    pub fn get(&self) -> (r: String)
        ensures
            r@ == self@,
    {
        self.l.clone()
    }

    /// Replaces the row by `s`.
    pub fn set(&mut self, s: &str)
        ensures
            final(self)@ == s@,
    {
        self.l = s.to_owned();
    }
}

/// The header row of the log, without its line end.
pub open spec fn header() -> Seq<char> {
    "rtc_ts,w,v,a,uptime_ms"@
}

/// The byte that ends a row.
pub open spec fn line_feed() -> u8 {
    0x0au8
}

/// The bytes of one row in the file: the text, then a line feed.
pub open spec fn line_bytes(l: Seq<char>) -> Seq<u8> {
    encode_utf8(l).push(line_feed())
}

/// The log with its header: an empty log gets the header row, any other
/// stays as it is.
pub open spec fn with_header(contents: Seq<u8>) -> Seq<u8> {
    if contents.len() == 0 {
        line_bytes(header())
    } else {
        contents
    }
}

/// The log after the row `line` has been admitted.
pub open spec fn appended(contents: Seq<u8>, line: Seq<char>) -> Seq<u8> {
    with_header(contents) + line_bytes(line)
}

/// The log after a row has been handed in on the space information `info`.
pub open spec fn after_append(
    contents: Seq<u8>,
    info: Result<StorageSpaceInfo, StorageError>,
    line: Seq<char>,
) -> Seq<u8> {
    if admitted(info) is Ok {
        appended(contents, line)
    } else {
        contents
    }
}

/// A request to append: the space information it met and its row.
pub struct AppendRequest {
    pub info: Result<StorageSpaceInfo, StorageError>,
    pub line: Seq<char>,
}

/// The log after the requests `reqs` have been served one after the other.
/// Requests that race for the log are served in the order in which they
/// take its lock, so every interleaving is one such sequence.
pub open spec fn after_appends(contents: Seq<u8>, reqs: Seq<AppendRequest>) -> Seq<u8>
    decreases reqs.len(),
{
    if reqs.len() == 0 {
        contents
    } else {
        after_append(after_appends(contents, reqs.drop_last()), reqs.last().info, reqs.last().line)
    }
}

/// The rows of the admitted requests among `reqs`, in order.
pub open spec fn admitted_rows(reqs: Seq<AppendRequest>) -> Seq<u8>
    decreases reqs.len(),
{
    if reqs.len() == 0 {
        Seq::empty()
    } else if admitted(reqs.last().info) is Ok {
        admitted_rows(reqs.drop_last()) + line_bytes(reqs.last().line)
    } else {
        admitted_rows(reqs.drop_last())
    }
}

/// Law: whatever requests an empty log serves, and in whatever order, it
/// stays empty while none is admitted, and from then on it is the header
/// row, written once, followed by the admitted rows and nothing else.
pub proof fn law_header_written_once(reqs: Seq<AppendRequest>)
    ensures
        after_appends(Seq::empty(), reqs) == if admitted_rows(reqs).len() == 0 {
            Seq::<u8>::empty()
        } else {
            line_bytes(header()) + admitted_rows(reqs)
        },
        admitted_rows(reqs).len() == 0 <==> forall|i: int|
            0 <= i < reqs.len() ==> admitted(#[trigger] reqs[i].info) is Err,
    decreases reqs.len(),
{
    if reqs.len() > 0 {
        let before = reqs.drop_last();
        law_header_written_once(before);
        assert(forall|i: int| 0 <= i < before.len() ==> before[i] == reqs[i]);
        if admitted(reqs.last().info) is Ok {
            assert(after_appends(Seq::empty(), reqs) =~= line_bytes(header()) + admitted_rows(reqs));
        } else {
            assert(admitted_rows(reqs) == admitted_rows(before));
            if admitted_rows(before).len() == 0 {
                assert forall|i: int| 0 <= i < reqs.len() implies admitted(
                    #[trigger] reqs[i].info,
                ) is Err by {
                    if i < before.len() {
                        assert(before[i] == reqs[i]);
                    }
                }
            }
        }
    }
}

/// Whether the row with the bytes `row` is a line of the log that ends
/// just before position `end`: the row and its line feed stand there, and
/// the row begins the log or follows a line feed.
pub open spec fn row_ends_at(contents: Seq<u8>, row: Seq<u8>, end: int) -> bool {
    let start = end - row.len() - 1;
    &&& 0 <= start
    &&& end <= contents.len()
    &&& contents.subrange(start, end) == row.push(line_feed())
    &&& (start == 0 || contents[start - 1] == line_feed())
}

/// How many lines of the log are the row with the bytes `row`.
pub open spec fn count_rows(contents: Seq<u8>, row: Seq<u8>) -> nat
    decreases contents.len(),
{
    if contents.len() == 0 {
        0
    } else {
        let here: nat = if row_ends_at(contents, row, contents.len() as int) {
            1
        } else {
            0
        };
        count_rows(contents.drop_last(), row) + here
    }
}

/// Whether `line` can be told from the header in the log: it holds no line
/// feed and is not the text of the header.
pub open spec fn plain_row(line: Seq<char>) -> bool {
    &&& !encode_utf8(line).contains(line_feed())
    &&& encode_utf8(line) != encode_utf8(header())
}

/// The header row holds no line feed.
pub proof fn lemma_header_has_no_line_feed()
    ensures
        !encode_utf8(header()).contains(line_feed()),
        encode_utf8(header()).len() == 22,
{
    reveal_strlit("rtc_ts,w,v,a,uptime_ms");
    let h = header();
    assert(h.len() == 22);
    assert forall|i: int| 0 <= i < h.len() implies '\0' <= #[trigger] h[i] <= '\u{7f}' && h[i]
        != '\n' by {}
    is_ascii_chars_encode_utf8(h);
    assert forall|i: int| 0 <= i < encode_utf8(h).len() implies encode_utf8(h)[i] != line_feed() by {
        assert(h[i] as u8 == encode_utf8(h)[i]);
    }
}

/// Bytes without a line feed, put behind the log, finish no line.
proof fn lemma_count_unfinished(c: Seq<u8>, b: Seq<u8>, row: Seq<u8>, k: int)
    requires
        !b.contains(line_feed()),
        0 <= k <= b.len(),
    ensures
        count_rows(c + b.take(k), row) == count_rows(c, row),
    decreases k,
{
    if k == 0 {
        assert(c + b.take(0) =~= c);
    } else {
        lemma_count_unfinished(c, b, row, k - 1);
        let cur = c + b.take(k);
        assert(cur.drop_last() =~= c + b.take(k - 1));
        assert(cur.last() == b[k - 1]);
        assert(b.contains(b[k - 1]));
        if row_ends_at(cur, row, cur.len() as int) {
            let start = cur.len() - row.len() - 1;
            assert(cur.subrange(start, cur.len() as int)[row.len() as int] == cur.last());
            assert(row.push(line_feed())[row.len() as int] == line_feed());
        }
    }
}

/// A row without a line feed, appended to a log that is empty or ends
/// with a line feed, adds one to the count of `row` where it is `row`, and
/// nothing otherwise.
pub proof fn lemma_count_appended(c: Seq<u8>, b: Seq<u8>, row: Seq<u8>)
    requires
        c.len() == 0 || c.last() == line_feed(),
        !b.contains(line_feed()),
        !row.contains(line_feed()),
    ensures
        count_rows(c + b.push(line_feed()), row) == count_rows(c, row) + if b == row {
            1nat
        } else {
            0nat
        },
{
    let full = c + b.push(line_feed());
    lemma_count_unfinished(c, b, row, b.len() as int);
    assert(b.take(b.len() as int) =~= b);
    assert(full.drop_last() =~= c + b);
    let end = full.len() as int;
    let start = end - row.len() - 1;
    if b.len() == row.len() {
        assert(full.subrange(start, end) =~= b.push(line_feed()));
        if b == row {
            assert(row_ends_at(full, row, end));
        } else {
            if row_ends_at(full, row, end) {
                assert(b.push(line_feed()).drop_last() =~= b);
                assert(row.push(line_feed()).drop_last() =~= row);
            }
        }
    } else if b.len() > row.len() {
        assert(full[start - 1] == b[start - 1 - c.len()]);
        assert(b.contains(b[start - 1 - c.len()]));
        assert(!row_ends_at(full, row, end));
    } else {
        if row_ends_at(full, row, end) {
            // the line feed that ends `c` would stand inside `row`
            let at = c.len() - 1 - start;
            assert(full.subrange(start, end)[at] == full[c.len() - 1]);
            assert(full[c.len() - 1] == c.last());
            assert(row.push(line_feed())[at] == row[at]);
            assert(row.contains(row[at]));
        }
    }
}

/// Law: where the rows admitted hold no line feed and are not themselves
/// the text of the header, the log counts the header row exactly once from
/// the first admitted row on, whatever requests it serves and in whatever
/// order; before that it holds nothing.
pub proof fn law_header_counted_once(reqs: Seq<AppendRequest>)
    requires
        forall|i: int|
            0 <= i < reqs.len() && admitted(#[trigger] reqs[i].info) is Ok ==> plain_row(
                reqs[i].line,
            ),
    ensures
        count_rows(after_appends(Seq::empty(), reqs), encode_utf8(header())) == if admitted_rows(
            reqs,
        ).len() == 0 {
            0nat
        } else {
            1nat
        },
        after_appends(Seq::empty(), reqs).len() == 0 || after_appends(Seq::empty(), reqs).last()
            == line_feed(),
    decreases reqs.len(),
{
    let h = encode_utf8(header());
    if reqs.len() > 0 {
        let before = reqs.drop_last();
        assert(forall|i: int| 0 <= i < before.len() ==> before[i] == reqs[i]);
        law_header_counted_once(before);
        law_header_written_once(before);
        law_header_written_once(reqs);
        let log = after_appends(Seq::empty(), before);
        if admitted(reqs.last().info) is Ok {
            let b = encode_utf8(reqs.last().line);
            assert(plain_row(reqs[reqs.len() - 1].line));
            lemma_header_has_no_line_feed();
            let headed = with_header(log);
            if log.len() == 0 {
                lemma_count_appended(Seq::empty(), h, h);
                assert(Seq::<u8>::empty() + h.push(line_feed()) =~= headed);
            }
            assert(headed.last() == line_feed());
            lemma_count_appended(headed, b, h);
            assert(headed + b.push(line_feed()) =~= after_appends(Seq::empty(), reqs));
        }
    }
}

/// The bytes of the measurement log.
#[derive(Debug)]
pub struct DataFile {
    contents: Vec<u8>,
}

impl View for DataFile {
    type V = Seq<u8>;

    closed spec fn view(&self) -> Seq<u8> {
        self.contents@
    }
}

impl DataFile {
    /// The text of the header row.
    pub fn header_text() -> (r: &'static str)
        ensures
            r@ == header(),
    {
        "rtc_ts,w,v,a,uptime_ms"
    }

    /// A log that has never been written.
    pub fn new() -> (r: Self)
        ensures
            r@ == Seq::<u8>::empty(),
    {
        DataFile { contents: Vec::new() }
    }

    /// A log with the bytes found in the backing file.
    pub fn from_bytes(contents: Vec<u8>) -> (r: Self)
        ensures
            r@ == contents@,
    {
        DataFile { contents }
    }

    /// Length of the log in bytes.
    pub fn len(&self) -> (r: u64)
        ensures
            r == self@.len(),
    {
        self.contents.len() as u64
    }

    /// The whole log. A log that has never been written is empty.
    pub fn read_all(&self) -> (r: Vec<u8>)
        ensures
            r@ == self@,
    {
        slice_to_vec(self.contents.as_slice())
    }

    /// Appends `l` and a line feed, whatever the log holds.
    pub fn append_line_raw(&mut self, l: &str)
        ensures
            final(self)@ == old(self)@ + line_bytes(l@),
    {
        self.contents.extend_from_slice(l.as_bytes());
        self.contents.push(0x0au8);
        assert(self.contents@ =~= old(self)@ + line_bytes(l@));
    }

    /// Writes the header row into an empty log.
    pub fn write_header_if_needed(&mut self)
        ensures
            final(self)@ == with_header(old(self)@),
    {
        if self.len() == 0 {
            self.append_line_raw(Self::header_text());
            assert(self@ =~= line_bytes(header()));
        }
    }

    /// Hands the row `d` to the log. Where `info` admits the write, the log
    /// gets its header if it was empty, then the row, and `last_line`
    /// becomes the row. Otherwise the row is dropped: the log and
    /// `last_line` stay as they were, and the reason is reported.
    pub fn append_data(
        &mut self,
        info: Result<StorageSpaceInfo, StorageError>,
        d: &str,
        last_line: &mut LastLine,
    ) -> (r: AppendOutcome)
        ensures
            final(self)@ == after_append(old(self)@, info, d@),
            r == match admitted(info) {
                Ok(_) => AppendOutcome::Appended,
                Err(e) => AppendOutcome::Skipped { reason: e },
            },
            final(last_line)@ == if admitted(info) is Ok {
                d@
            } else {
                old(last_line)@
            },
    {
        match is_free_space_ok(info) {
            Err(e) => AppendOutcome::Skipped { reason: e },
            Ok(_) => {
                self.write_header_if_needed();
                self.append_line_raw(d);
                last_line.set(d);
                AppendOutcome::Appended
            },
        }
    }

    /// Empties the log. Clearing an empty log changes nothing.
    pub fn clear_data(&mut self)
        ensures
            final(self)@ == Seq::<u8>::empty(),
    {
        self.contents.clear();
    }
}

} // verus!
