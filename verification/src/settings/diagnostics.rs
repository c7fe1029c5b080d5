//! The export of the logs: which files go in, what the archive is called and
//! what its manifest says.

use vstd::prelude::*;

use crate::figures;
use crate::figures::fmt_bytes;
use crate::text;
use crate::text::{blank, chars_of, concat, decimal_text, join, split, string_of};

verus! {

broadcast use vstd::string::group_string_axioms;

// ---------------------------------------------------------------------------
// Lines
// ---------------------------------------------------------------------------

/// `s` without a carriage return at its end.
pub open spec fn without_return(s: Seq<char>) -> Seq<char> {
    if s.len() > 0 && s.last() == '\r' {
        s.drop_last()
    } else {
        s
    }
}

/// The lines of a text. A line ends with a line feed, before which a carriage
/// return may stand; the last one may end with the text, if it is not empty.
pub open spec fn lines_of(s: Seq<char>) -> Seq<Seq<char>> {
    let pieces = text::split_on(s, '\n');
    let ended = Seq::new((pieces.len() - 1) as nat, |i: int| without_return(pieces[i]));
    if pieces.last().len() == 0 {
        ended
    } else {
        ended.push(pieces.last())
    }
}

/// `s` without a carriage return at its end.
fn drop_return(s: &str) -> (r: String)
    ensures
        r@ == without_return(s@),
{
    let chars: Vec<char> = chars_of(s);
    let n: usize = chars.len();
    if n > 0 && chars[n - 1] == '\r' {
        assert(s@.subrange(0, n - 1) =~= s@.drop_last());
        string_of(&chars, 0, n - 1)
    } else {
        assert(s@.subrange(0, n as int) =~= s@);
        string_of(&chars, 0, n)
    }
}

/// The lines of a text.
pub fn log_lines(s: &str) -> (r: Vec<String>)
    ensures
        text::views(r@) == lines_of(s@),
{
    let pieces: Vec<String> = split(s, '\n');
    let ghost all = text::split_on(s@, '\n');
    proof {
        text::lemma_split_nonempty(s@, '\n');
        assert(text::views(pieces@).len() == pieces@.len());
    }
    let last: usize = pieces.len() - 1;
    let mut lines: Vec<String> = Vec::new();
    let mut i: usize = 0;
    while i < last
        invariant
            text::views(pieces@) == all,
            last == pieces@.len() - 1,
            i <= last,
            text::views(lines@) =~= Seq::new(i as nat, |j: int| without_return(all[j])),
        decreases last - i,
    {
        let ghost before = text::views(lines@);
        assert(pieces@[i as int]@ == all[i as int]);
        let line: String = drop_return(pieces[i].as_str());
        let ghost said = line@;
        lines.push(line);
        assert(text::views(lines@) =~= before.push(said));
        i = i + 1;
    }
    assert(pieces@[last as int]@ == all.last());
    if !pieces[last].as_str().is_empty() {
        let ghost before = text::views(lines@);
        lines.push(pieces[last].clone());
        assert(text::views(lines@) =~= before.push(all.last()));
    }
    lines
}

/// The last line that holds more than white space.
pub open spec fn last_said(lines: Seq<Seq<char>>) -> Option<Seq<char>>
    decreases lines.len(),
{
    if lines.len() == 0 {
        None
    } else if !text::is_blank(lines.last()) {
        Some(lines.last())
    } else {
        last_said(lines.drop_last())
    }
}

/// The last line that holds more than white space.
fn last_said_line(lines: &Vec<String>) -> (r: Option<String>)
    ensures
        match r {
            Some(line) => last_said(text::views(lines@)) == Some(line@),
            None => last_said(text::views(lines@)) is None,
        },
{
    let ghost all = text::views(lines@);
    let mut i: usize = lines.len();
    assert(all.take(all.len() as int) =~= all);
    while i > 0
        invariant
            all == text::views(lines@),
            i <= lines@.len(),
            last_said(all) == last_said(all.take(i as int)),
        decreases i,
    {
        proof {
            assert(all.take(i as int).last() == lines@[i - 1]@);
            assert(all.take(i as int).drop_last() =~= all.take(i - 1));
        }
        if !blank(lines[i - 1].as_str()) {
            return Some(lines[i - 1].clone());
        }
        i = i - 1;
    }
    None
}

// ---------------------------------------------------------------------------
// The name of the archive
// ---------------------------------------------------------------------------

/// How many bytes a character takes in UTF-8.
pub open spec fn utf8_len(c: char) -> nat {
    if (c as u32) < 0x80 {
        1
    } else if (c as u32) < 0x800 {
        2
    } else if (c as u32) < 0x1_0000 {
        3
    } else {
        4
    }
}

/// The index of the character that begins `n` bytes behind the beginning of
/// character `k`; the end of the text counts as one. `None` if no character
/// begins there.
pub open spec fn char_at_byte(s: Seq<char>, n: int, k: int) -> Option<int>
    decreases s.len() - k,
{
    if n == 0 {
        Some(k)
    } else if n < 0 || k >= s.len() {
        None
    } else {
        char_at_byte(s, n - utf8_len(s[k]), k + 1)
    }
}

/// `s` without the characters `c`.
pub open spec fn without_char(s: Seq<char>, c: char) -> Seq<char>
    decreases s.len(),
{
    if s.len() == 0 {
        s
    } else if s.last() == c {
        without_char(s.drop_last(), c)
    } else {
        without_char(s.drop_last(), c).push(s.last())
    }
}

/// The name that the time stamp of a log line gives to the archive. The stamp
/// stands in brackets at the beginning of the line: the date in its bytes 0 to
/// 9, the time in its bytes 11 to 18.
pub open spec fn zip_name_of_line(line: Seq<char>) -> Option<Seq<char>> {
    if line.len() == 0 || line[0] != '[' {
        None
    } else {
        let stamp = text::split_on(line.skip(1), ']')[0];
        match (char_at_byte(stamp, 10, 0), char_at_byte(stamp, 11, 0), char_at_byte(stamp, 19, 0)) {
            (Some(a), Some(b), Some(c)) => Some(
                "foxy_logs_"@ + stamp.take(a) + "_"@ + without_char(stamp.subrange(b, c), ':')
                    + ".zip"@,
            ),
            _ => None,
        }
    }
}

/// The name that the end of a log gives to the archive.
pub open spec fn zip_name_of(tail: Seq<char>) -> Option<Seq<char>> {
    match last_said(lines_of(tail)) {
        Some(line) => zip_name_of_line(line),
        None => None,
    }
}

/// What [`char_at_byte`] finds stands between `k` and the end.
proof fn lemma_char_at_byte(s: Seq<char>, n: int, k: int)
    requires
        0 <= k <= s.len(),
    ensures
        char_at_byte(s, n, k) matches Some(a) ==> k <= a <= s.len(),
    decreases s.len() - k,
{
    if n > 0 && k < s.len() {
        lemma_char_at_byte(s, n - utf8_len(s[k]), k + 1);
    }
}

/// What stands further behind begins later.
proof fn lemma_later_byte(s: Seq<char>, n: int, m: int, k: int)
    requires
        0 <= k <= s.len(),
        0 <= n <= m,
    ensures
        char_at_byte(s, n, k) is Some && char_at_byte(s, m, k) is Some ==> char_at_byte(s, n, k)->0
            <= char_at_byte(s, m, k)->0,
    decreases s.len() - k,
{
    if n == 0 {
        lemma_char_at_byte(s, m, k);
    } else if k < s.len() && n >= utf8_len(s[k]) {
        lemma_later_byte(s, n - utf8_len(s[k]), m - utf8_len(s[k]), k + 1);
    }
}

/// The index of the character that begins at byte `n`.
fn index_of_byte(chars: &Vec<char>, n: usize) -> (r: Option<usize>)
    ensures
        match r {
            Some(a) => a <= chars@.len() && char_at_byte(chars@, n as int, 0) == Some(a as int),
            None => char_at_byte(chars@, n as int, 0) is None,
        },
{
    let mut left: usize = n;
    let mut k: usize = 0;
    while left > 0
        invariant
            k <= chars@.len(),
            char_at_byte(chars@, n as int, 0) == char_at_byte(chars@, left as int, k as int),
        decreases left,
    {
        if k >= chars.len() {
            return None;
        }
        let c: u32 = chars[k] as u32;
        let size: usize = if c < 0x80 {
            1
        } else if c < 0x800 {
            2
        } else if c < 0x1_0000 {
            3
        } else {
            4
        };
        if left < size {
            assert(char_at_byte(chars@, left - size, k + 1) is None);
            return None;
        }
        left = left - size;
        k = k + 1;
    }
    Some(k)
}

/// The part of a text between two characters, without the characters `c`.
fn part_without(chars: &Vec<char>, from: usize, to: usize, c: char) -> (r: String)
    requires
        from <= to <= chars@.len(),
    ensures
        r@ == without_char(chars@.subrange(from as int, to as int), c),
{
    let mut s: String = String::new();
    let mut i: usize = from;
    let ghost all = chars@.subrange(from as int, to as int);
    assert(all.take(0) =~= Seq::empty());
    while i < to
        invariant
            from <= i <= to <= chars@.len(),
            all == chars@.subrange(from as int, to as int),
            s@ == without_char(all.take(i - from), c),
        decreases to - i,
    {
        proof {
            assert(all.take(i + 1 - from).drop_last() =~= all.take(i - from));
            assert(all.take(i + 1 - from).last() == chars@[i as int]);
        }
        if chars[i] != c {
            s.push(chars[i]);
        }
        i = i + 1;
    }
    assert(all.take(to - from) =~= all);
    s
}

/// The name that the time stamp of a log line gives to the archive.
fn zip_name_from_line(line: &str) -> (r: Option<String>)
    ensures
        match r {
            Some(name) => zip_name_of_line(line@) == Some(name@),
            None => zip_name_of_line(line@) is None,
        },
{
    let chars: Vec<char> = chars_of(line);
    if chars.len() == 0 || chars[0] != '[' {
        return None;
    }
    assert(line@.subrange(1, line@.len() as int) =~= line@.skip(1));
    let rest: String = string_of(&chars, 1, chars.len());
    let pieces: Vec<String> = split(rest.as_str(), ']');
    proof {
        text::lemma_split_nonempty(rest@, ']');
        assert(text::views(pieces@).len() == pieces@.len());
        assert(text::views(pieces@)[0] == pieces@[0]@);
    }
    let stamp: Vec<char> = chars_of(pieces[0].as_str());
    let date_end: Option<usize> = index_of_byte(&stamp, 10);
    let time_start: Option<usize> = index_of_byte(&stamp, 11);
    let time_end: Option<usize> = index_of_byte(&stamp, 19);
    if let (Some(a), Some(b), Some(c)) = (date_end, time_start, time_end) {
        proof {
            lemma_later_byte(stamp@, 11, 19, 0);
            assert(stamp@.subrange(0, a as int) =~= stamp@.take(a as int));
        }
        let mut name: String = concat("foxy_logs_", string_of(&stamp, 0, a).as_str());
        name.append("_");
        name.append(part_without(&stamp, b, c, ':').as_str());
        name.append(".zip");
        return Some(name);
    }
    None
}

/// The name that the archive gets from the end of the newest log: that of the
/// time stamp of the last line that is not blank. `None` if that line begins
/// with no time stamp.
pub fn zip_name_from_last_log_line(tail: &str) -> (r: Option<String>)
    ensures
        match r {
            Some(name) => zip_name_of(tail@) == Some(name@),
            None => zip_name_of(tail@) is None,
        },
{
    let lines: Vec<String> = log_lines(tail);
    match last_said_line(&lines) {
        Some(line) => zip_name_from_line(line.as_str()),
        None => None,
    }
}

/// The name that the archive is offered under. `tail` is the end of the newest
/// log, if it could be read.
pub fn zip_file_name(tail: &Option<String>) -> (r: String)
    ensures
        r@ == match *tail {
            Some(tail) => match zip_name_of(tail@) {
                Some(name) => name,
                None => "foxy_logs.zip"@,
            },
            None => "foxy_logs.zip"@,
        },
{
    if let Some(tail) = tail {
        if let Some(name) = zip_name_from_last_log_line(tail.as_str()) {
            return name;
        }
    }
    "foxy_logs.zip".to_owned()
}

// ---------------------------------------------------------------------------
// The files
// ---------------------------------------------------------------------------

/// Whether an entry of the log folder goes into the archive: every file does,
/// whatever its name.
pub fn is_log_file(is_file: bool) -> (r: bool)
    ensures
        r == is_file,
{
    is_file
}

/// Whether file `i` stands before file `j`: the one changed earlier does, a
/// file whose time is not known before the others. Files changed at the same
/// time keep their order.
pub open spec fn older(times: Seq<Option<i128>>, i: int, j: int) -> bool {
    match (times[i], times[j]) {
        (None, None) => i < j,
        (None, Some(_)) => true,
        (Some(_), None) => false,
        (Some(a), Some(b)) => a < b || (a == b && i < j),
    }
}

/// Whether `order` holds every file once, the one changed last at the end.
pub open spec fn is_log_order(times: Seq<Option<i128>>, order: Seq<usize>) -> bool {
    &&& order.len() == times.len()
    &&& forall|k: int| 0 <= k < order.len() ==> (#[trigger] order[k]) < times.len()
    &&& forall|k: int, l: int|
        0 <= k < l < order.len() ==> older(
            times,
            #[trigger] order[k] as int,
            #[trigger] order[l] as int,
        )
}

/// Whether file `i` stands before file `j`.
fn is_older(times: &Vec<Option<i128>>, i: usize, j: usize) -> (r: bool)
    requires
        i < times@.len(),
        j < times@.len(),
    ensures
        r == older(times@, i as int, j as int),
{
    match (times[i], times[j]) {
        (None, None) => i < j,
        (None, Some(_)) => true,
        (Some(_), None) => false,
        (Some(a), Some(b)) => a < b || (a == b && i < j),
    }
}

/// The files by the time of their last change, in nanoseconds.
pub fn log_order(times: &Vec<Option<i128>>) -> (order: Vec<usize>)
    ensures
        is_log_order(times@, order@),
{
    let mut order: Vec<usize> = Vec::new();
    let mut i: usize = 0;
    while i < times.len()
        invariant
            i <= times@.len(),
            order@.len() == i,
            forall|k: int| 0 <= k < order@.len() ==> (#[trigger] order@[k]) < i,
            forall|k: int, l: int|
                0 <= k < l < order@.len() ==> older(
                    times@,
                    #[trigger] order@[k] as int,
                    #[trigger] order@[l] as int,
                ),
        decreases times@.len() - i,
    {
        let ghost before = order@;
        let mut at: usize = order.len();
        while at > 0 && is_older(times, i, order[at - 1])
            invariant
                order@ == before,
                i < times@.len(),
                at <= before.len(),
                forall|k: int| 0 <= k < before.len() ==> (#[trigger] before[k]) < i,
                forall|k: int| at <= k < before.len() ==> older(
                    times@,
                    i as int,
                    #[trigger] before[k] as int,
                ),
            decreases at,
        {
            at = at - 1;
        }
        order.insert(at, i);
        proof {
            assert(order@ =~= before.insert(at as int, i));
            assert forall|k: int, l: int| 0 <= k < l < order@.len() implies older(
                times@,
                #[trigger] order@[k] as int,
                #[trigger] order@[l] as int,
            ) by {
                let a = if k < at {
                    k
                } else {
                    k - 1
                };
                let b = if l < at {
                    l
                } else {
                    l - 1
                };
                if k == at {
                    assert(order@[l] == before[b]);
                    assert(older(times@, i as int, before[b] as int));
                } else if l == at {
                    assert(order@[k] == before[a]);
                    if a < at - 1 {
                        assert(older(times@, before[a] as int, before[at - 1] as int));
                    }
                    assert(!older(times@, i as int, before[at - 1] as int));
                } else {
                    assert(order@[k] == before[a]);
                    assert(order@[l] == before[b]);
                    assert(older(times@, before[a] as int, before[b] as int));
                }
            }
        }
        i = i + 1;
    }
    order
}

/// An order holds every file.
pub proof fn law_every_file_has_a_place(times: Seq<Option<i128>>, order: Seq<usize>, i: int)
    requires
        is_log_order(times, order),
        0 <= i < times.len(),
    ensures
        order.contains(i as usize),
{
    let places = order.map_values(|n: usize| n as int);
    let all = vstd::set_lib::set_int_range(0, times.len() as int);
    assert(places.no_duplicates()) by {
        assert forall|k: int, l: int| 0 <= k < l < places.len() implies places[k] != places[l] by {
            assert(older(times, order[k] as int, order[l] as int));
        }
    }
    places.unique_seq_to_set();
    vstd::set_lib::lemma_int_range(0, times.len() as int);
    assert(places.to_set().subset_of(all));
    vstd::set_lib::lemma_subset_equality(places.to_set(), all);
    assert(all.contains(i));
    assert(places.contains(i));
    let k = choose|k: int| 0 <= k < places.len() && places[k] == i;
    assert(order[k] == i as usize);
}

/// An entry of the log folder.
#[derive(Debug, Clone, Copy, PartialEq, Eq, Structural)]
pub struct FolderEntry {
    pub is_file: bool,
    /// When it was changed last, in nanoseconds, if that is known.
    pub modified: Option<i128>,
}

/// When the entries of a folder were changed.
pub open spec fn change_times(entries: Seq<FolderEntry>) -> Seq<Option<i128>> {
    Seq::new(entries.len(), |i: int| entries[i].modified)
}

/// Whether `order` holds the files of a folder, each once, and nothing else, the
/// one changed last at the end.
pub open spec fn is_export_order(entries: Seq<FolderEntry>, order: Seq<usize>) -> bool {
    &&& forall|k: int|
        0 <= k < order.len() ==> (#[trigger] order[k]) < entries.len()
            && entries[order[k] as int].is_file
    &&& forall|i: int|
        0 <= i < entries.len() && (#[trigger] entries[i]).is_file ==> order.contains(i as usize)
    &&& forall|k: int, l: int|
        0 <= k < l < order.len() ==> older(
            change_times(entries),
            #[trigger] order[k] as int,
            #[trigger] order[l] as int,
        )
}

/// Whether an entry of a folder is a file.
pub open spec fn holds_a_file(entries: Seq<FolderEntry>) -> bool {
    exists|i: int| 0 <= i < entries.len() && (#[trigger] entries[i]).is_file
}

/// The files of the log folder that go into the archive, in their order there.
/// Without a file there is nothing to export.
pub fn files_to_export(entries: &Vec<FolderEntry>) -> (r: Result<Vec<usize>, LogExportError>)
    ensures
        match r {
            Ok(order) => order@.len() > 0 && is_export_order(entries@, order@),
            Err(e) => e is NoLogs && forall|i: int|
                0 <= i < entries@.len() ==> !(#[trigger] entries@[i]).is_file,
        },
        r is Ok <==> holds_a_file(entries@),
{
    let mut files: Vec<usize> = Vec::new();
    let mut times: Vec<Option<i128>> = Vec::new();
    let mut i: usize = 0;
    while i < entries.len()
        invariant
            i <= entries@.len(),
            times@.len() == files@.len(),
            forall|k: int|
                0 <= k < files@.len() ==> (#[trigger] files@[k]) < i
                    && entries@[files@[k] as int].is_file && times@[k]
                    == entries@[files@[k] as int].modified,
            forall|k: int, l: int|
                0 <= k < l < files@.len() ==> (#[trigger] files@[k]) < (#[trigger] files@[l]),
            forall|j: int|
                0 <= j < i && (#[trigger] entries@[j]).is_file ==> files@.contains(j as usize),
        decreases entries@.len() - i,
    {
        let ghost before = files@;
        if is_log_file(entries[i].is_file) {
            files.push(i);
            times.push(entries[i].modified);
            proof {
                assert(files@[before.len() as int] == i);
                assert forall|j: int| 0 <= j < i + 1 && (
                #[trigger] entries@[j]).is_file implies files@.contains(j as usize) by {
                    if j < i {
                        let k = choose|k: int| 0 <= k < before.len() && before[k] == j as usize;
                        assert(files@[k] == j as usize);
                    }
                }
            }
        }
        i = i + 1;
    }
    if files.len() == 0 {
        return Err(LogExportError::NoLogs);
    }
    let order: Vec<usize> = log_order(&times);
    let mut out: Vec<usize> = Vec::new();
    let mut n: usize = 0;
    while n < order.len()
        invariant
            n <= order@.len(),
            order@.len() == times@.len(),
            times@.len() == files@.len(),
            is_log_order(times@, order@),
            out@.len() == n,
            forall|k: int| 0 <= k < n ==> (#[trigger] out@[k]) == files@[order@[k] as int],
        decreases order@.len() - n,
    {
        out.push(files[order[n]]);
        n = n + 1;
    }
    proof {
        assert forall|k: int, l: int| 0 <= k < l < out@.len() implies older(
            change_times(entries@),
            #[trigger] out@[k] as int,
            #[trigger] out@[l] as int,
        ) by {
            assert(older(times@, order@[k] as int, order@[l] as int));
            assert(out@[k] == files@[order@[k] as int]);
            assert(out@[l] == files@[order@[l] as int]);
        }
        assert forall|j: int| 0 <= j < entries@.len() && (
        #[trigger] entries@[j]).is_file implies out@.contains(j as usize) by {
            let a = choose|a: int| 0 <= a < files@.len() && files@[a] == j as usize;
            law_every_file_has_a_place(times@, order@, a);
            let k = choose|k: int| 0 <= k < order@.len() && order@[k] == a as usize;
            assert(out@[k] == j as usize);
        }
        assert(entries@[files@[0] as int].is_file);
    }
    Ok(out)
}

/// The text of a file in the archive, of its lines without what should not leave
/// the machine.
pub fn archived_text(redacted_lines: &Vec<String>) -> (r: String)
    ensures
        r@ == text::joined(text::views(redacted_lines@), "\n"@),
{
    join(redacted_lines, "\n")
}

/// Why an export stopped. `cause` is what the outside said.
#[derive(Debug)]
pub enum LogExportError {
    ReadFolder { cause: String },
    NoLogs,
    CreateZip { cause: String },
    StartManifest { cause: String },
    WriteManifest { cause: String },
    StartFile { file_name: String, cause: String },
    ReadFile { file_name: String, cause: String },
    WriteFile { file_name: String, cause: String },
    Finish { cause: String },
}

/// What the user is told.
pub open spec fn export_error_shown(e: LogExportError) -> Seq<char> {
    match e {
        LogExportError::ReadFolder { cause } => "Failed to read log directory: "@ + cause@,
        LogExportError::NoLogs => "No log files found to export."@,
        LogExportError::CreateZip { cause } => "Failed to create ZIP file: "@ + cause@,
        LogExportError::StartManifest { cause } => "ZIP manifest error: "@ + cause@,
        LogExportError::WriteManifest { cause } => "Failed to write ZIP manifest: "@ + cause@,
        LogExportError::StartFile { file_name, cause } => "ZIP error for "@ + file_name@ + ": "@
            + cause@,
        LogExportError::ReadFile { file_name, cause } => "Failed to read "@ + file_name@ + ": "@
            + cause@,
        LogExportError::WriteFile { file_name, cause } => "Failed to write "@ + file_name@
            + " to ZIP: "@ + cause@,
        LogExportError::Finish { cause } => "Failed to finalize ZIP: "@ + cause@,
    }
}

impl LogExportError {
    /// What the user is told.
    pub fn message(&self) -> (r: String)
        ensures
            r@ == export_error_shown(*self),
    {
        match self {
            LogExportError::ReadFolder { cause } => concat(
                "Failed to read log directory: ",
                cause.as_str(),
            ),
            LogExportError::NoLogs => "No log files found to export.".to_owned(),
            LogExportError::CreateZip { cause } => concat(
                "Failed to create ZIP file: ",
                cause.as_str(),
            ),
            LogExportError::StartManifest { cause } => concat(
                "ZIP manifest error: ",
                cause.as_str(),
            ),
            LogExportError::WriteManifest { cause } => concat(
                "Failed to write ZIP manifest: ",
                cause.as_str(),
            ),
            LogExportError::StartFile { file_name, cause } => {
                let mut s: String = concat("ZIP error for ", file_name.as_str());
                s.append(": ");
                s.append(cause.as_str());
                s
            },
            LogExportError::ReadFile { file_name, cause } => {
                let mut s: String = concat("Failed to read ", file_name.as_str());
                s.append(": ");
                s.append(cause.as_str());
                s
            },
            LogExportError::WriteFile { file_name, cause } => {
                let mut s: String = concat("Failed to write ", file_name.as_str());
                s.append(" to ZIP: ");
                s.append(cause.as_str());
                s
            },
            LogExportError::Finish { cause } => concat("Failed to finalize ZIP: ", cause.as_str()),
        }
    }
}

// ---------------------------------------------------------------------------
// The manifest
// ---------------------------------------------------------------------------

/// A log in the archive. The size is `None` if it could not be read.
#[derive(Debug)]
pub struct LogFile {
    pub name: String,
    pub size: Option<u64>,
}

/// A part of the memory that Foxy keeps track of.
#[derive(Debug)]
pub struct MemoryBucket {
    pub label: String,
    pub bytes: u64,
    pub detail: String,
}

/// What the system says of the memory of the process.
#[derive(Debug)]
pub struct ProcessMemory {
    pub task_manager_bytes: Option<u64>,
    pub working_set_bytes: Option<u64>,
    pub peak_working_set_bytes: Option<u64>,
    pub private_bytes: Option<u64>,
    pub virtual_bytes: Option<u64>,
    pub page_fault_count: Option<u64>,
}

/// The sizes of the files that Foxy keeps.
#[derive(Debug)]
pub struct StoredSizes {
    pub database_db: Option<u64>,
    pub database_wal: Option<u64>,
    pub database_shm: Option<u64>,
    pub settings_json: Option<u64>,
    pub repositories_json: Option<u64>,
    pub repository_spaces_json: Option<u64>,
}

/// How much the application holds.
#[derive(Debug)]
pub struct AppCounts {
    pub repositories: usize,
    pub repository_spaces: usize,
    pub activity_log_entries: usize,
    pub progress_events: usize,
    pub memory_diagnostic_samples: usize,
    pub cached_textures: usize,
    pub current_sync_mode: Option<String>,
    pub queued_startup_rechecks: usize,
    pub queued_quick_scans: usize,
}

/// What a manifest reports.
#[derive(Debug)]
pub struct DiagnosticsFacts {
    pub version: String,
    pub logs: Vec<LogFile>,
    pub system_lines: Vec<String>,
    pub storage_lines: Vec<String>,
    pub process: ProcessMemory,
    pub tracked_total_bytes: u64,
    /// The estimate of what is not tracked, as text.
    pub untracked: Option<String>,
    pub buckets: Vec<MemoryBucket>,
    pub stored: StoredSizes,
    pub app: AppCounts,
}

/// A size, or zero if it is not known.
pub open spec fn known_size(size: Option<u64>) -> nat {
    match size {
        Some(n) => n as nat,
        None => 0,
    }
}

/// The size of the logs together.
pub open spec fn logs_size(logs: Seq<LogFile>) -> nat
    decreases logs.len(),
{
    if logs.len() == 0 {
        0
    } else {
        logs_size(logs.drop_last()) + known_size(logs.last().size)
    }
}

/// The size of the database, with what is not yet written back.
pub open spec fn database_size(stored: StoredSizes) -> nat {
    known_size(stored.database_db) + known_size(stored.database_wal) + known_size(
        stored.database_shm,
    )
}

/// A size that may not be known. That "n/a" stands for one that is not is the
/// convention of this library.
pub open spec fn optional_bytes_shown(size: Option<u64>) -> Seq<char> {
    match size {
        Some(n) => figures::bytes_shown(n as nat),
        None => "n/a"@,
    }
}

/// A number that may not be known. That "n/a" stands for one that is not is the
/// convention of this library.
pub open spec fn optional_count_shown(count: Option<u64>) -> Seq<char> {
    match count {
        Some(n) => text::decimal(n as nat),
        None => "n/a"@,
    }
}

/// A text that may be missing.
pub open spec fn text_or(t: Option<String>, other: Seq<char>) -> Seq<char> {
    match t {
        Some(t) => t@,
        None => other,
    }
}

/// `head` with one more line, which names a value.
pub open spec fn with_entry(head: Seq<char>, key: Seq<char>, value: Seq<char>) -> Seq<char> {
    head + key + "="@ + value + "\n"@
}

/// `head` with more lines.
pub open spec fn with_lines(head: Seq<char>, lines: Seq<Seq<char>>) -> Seq<char>
    decreases lines.len(),
{
    if lines.len() == 0 {
        head
    } else {
        with_lines(head, lines.drop_last()) + lines.last() + "\n"@
    }
}

/// The line of a part of the memory.
pub open spec fn bucket_line(b: MemoryBucket) -> Seq<char> {
    "tracked_bucket="@ + b.label@ + " bytes="@ + figures::bytes_shown(b.bytes as nat) + " detail="@
        + b.detail@
}

/// The line of a log.
pub open spec fn log_line(log: LogFile) -> Seq<char> {
    "log_file="@ + log.name@ + " size="@ + optional_bytes_shown(log.size)
}

/// How many parts of the memory a manifest lists at most.
pub const BUCKETS_LISTED: usize = 8;

/// The parts of the memory that a manifest lists.
pub open spec fn bucket_lines(buckets: Seq<MemoryBucket>) -> Seq<Seq<char>> {
    Seq::new(
        if buckets.len() < BUCKETS_LISTED {
            buckets.len()
        } else {
            BUCKETS_LISTED as nat
        },
        |i: int| bucket_line(buckets[i]),
    )
}

/// The logs that a manifest lists.
pub open spec fn log_lines_listed(logs: Seq<LogFile>) -> Seq<Seq<char>> {
    Seq::new(logs.len(), |i: int| log_line(logs[i]))
}

/// The opening of a manifest.
pub open spec fn opening(at: Seq<char>, f: DiagnosticsFacts) -> Seq<char> {
    let s = "Foxy diagnostics export\n"@;
    let s = with_entry(s, "generated_at"@, at);
    let s = with_entry(s, "version"@, f.version@);
    let s = with_entry(s, "retained_log_files"@, text::decimal(f.logs@.len()));
    with_entry(s, "retained_log_bytes"@, figures::bytes_shown(logs_size(f.logs@)))
}

/// The section on the memory.
pub open spec fn memory_section(s: Seq<char>, f: DiagnosticsFacts) -> Seq<char> {
    let p = f.process;
    let s = s + "\n[process_memory]\n"@;
    let s = with_entry(s, "task_manager_memory"@, optional_bytes_shown(p.task_manager_bytes));
    let s = with_entry(s, "working_set"@, optional_bytes_shown(p.working_set_bytes));
    let s = with_entry(s, "peak_working_set"@, optional_bytes_shown(p.peak_working_set_bytes));
    let s = with_entry(s, "private_bytes"@, optional_bytes_shown(p.private_bytes));
    let s = with_entry(s, "virtual_bytes"@, optional_bytes_shown(p.virtual_bytes));
    let s = with_entry(s, "page_faults"@, optional_count_shown(p.page_fault_count));
    let s = with_entry(
        s,
        "tracked_foxy_allocations"@,
        figures::bytes_shown(f.tracked_total_bytes as nat),
    );
    let s = with_entry(s, "untracked_estimate"@, text_or(f.untracked, "n/a"@));
    with_lines(s, bucket_lines(f.buckets@))
}

/// The section on the files.
pub open spec fn database_section(s: Seq<char>, d: StoredSizes) -> Seq<char> {
    let s = s + "\n[database]\n"@;
    let s = with_entry(s, "database_db"@, optional_bytes_shown(d.database_db));
    let s = with_entry(s, "database_wal"@, optional_bytes_shown(d.database_wal));
    let s = with_entry(s, "database_shm"@, optional_bytes_shown(d.database_shm));
    let s = with_entry(s, "database_total"@, figures::bytes_shown(database_size(d)));
    let s = with_entry(s, "settings_json"@, optional_bytes_shown(d.settings_json));
    let s = with_entry(s, "repositories_json"@, optional_bytes_shown(d.repositories_json));
    with_entry(s, "repository_spaces_json"@, optional_bytes_shown(d.repository_spaces_json))
}

/// The section on the application.
pub open spec fn app_section(s: Seq<char>, a: AppCounts) -> Seq<char> {
    let s = s + "\n[app_state]\n"@;
    let s = with_entry(s, "repositories"@, text::decimal(a.repositories as nat));
    let s = with_entry(s, "repository_spaces"@, text::decimal(a.repository_spaces as nat));
    let s = with_entry(s, "activity_log_entries"@, text::decimal(a.activity_log_entries as nat));
    let s = with_entry(s, "progress_events"@, text::decimal(a.progress_events as nat));
    let s = with_entry(
        s,
        "memory_diagnostic_samples"@,
        text::decimal(a.memory_diagnostic_samples as nat),
    );
    let s = with_entry(s, "cached_textures"@, text::decimal(a.cached_textures as nat));
    let s = with_entry(s, "current_sync_mode"@, text_or(a.current_sync_mode, "none"@));
    let s = with_entry(
        s,
        "queued_startup_rechecks"@,
        text::decimal(a.queued_startup_rechecks as nat),
    );
    with_entry(s, "queued_quick_scans"@, text::decimal(a.queued_quick_scans as nat))
}

/// The manifest that is written at the time `at`.
pub open spec fn manifest_text(at: Seq<char>, f: DiagnosticsFacts) -> Seq<char> {
    let s = opening(at, f);
    let s = with_lines(s + "\n[system]\n"@, text::views(f.system_lines@));
    let s = with_lines(s + "\n[storage_devices]\n"@, text::views(f.storage_lines@));
    let s = memory_section(s, f);
    let s = database_section(s, f.stored);
    let s = app_section(s, f.app);
    with_lines(s + "\n[zip_contents]\n"@, log_lines_listed(f.logs@))
}

/// Whether the sums that a manifest reports fit their type.
pub open spec fn sums_fit(f: DiagnosticsFacts) -> bool {
    &&& logs_size(f.logs@) <= u64::MAX
    &&& database_size(f.stored) <= u64::MAX
}

/// A size, or zero if it is not known.
fn size_or_zero(size: Option<u64>) -> (r: u64)
    ensures
        r == known_size(size),
{
    match size {
        Some(n) => n,
        None => 0,
    }
}

/// The logs at the front are no larger than all of them.
proof fn lemma_logs_size_mono(logs: Seq<LogFile>, i: int)
    requires
        0 <= i <= logs.len(),
    ensures
        logs_size(logs.take(i)) <= logs_size(logs),
    decreases logs.len() - i,
{
    if i == logs.len() {
        assert(logs.take(i) =~= logs);
    } else {
        lemma_logs_size_mono(logs, i + 1);
        assert(logs.take(i + 1).drop_last() =~= logs.take(i));
    }
}

/// The size of the logs together.
fn total_log_bytes(logs: &Vec<LogFile>) -> (r: u64)
    requires
        logs_size(logs@) <= u64::MAX,
    ensures
        r == logs_size(logs@),
{
    let mut total: u64 = 0;
    let mut i: usize = 0;
    assert(logs@.take(0) =~= Seq::empty());
    while i < logs.len()
        invariant
            logs_size(logs@) <= u64::MAX,
            i <= logs@.len(),
            total == logs_size(logs@.take(i as int)),
        decreases logs@.len() - i,
    {
        proof {
            lemma_logs_size_mono(logs@, i + 1);
            assert(logs@.take(i + 1).drop_last() =~= logs@.take(i as int));
            assert(logs@.take(i + 1).last() == logs@[i as int]);
        }
        total = total + size_or_zero(logs[i].size);
        i = i + 1;
    }
    assert(logs@.take(logs@.len() as int) =~= logs@);
    total
}

/// Whether the sums that a manifest reports fit their type.
pub fn manifest_fits(facts: &DiagnosticsFacts) -> (r: bool)
    ensures
        r == sums_fit(*facts),
{
    let mut total: u64 = 0;
    let mut i: usize = 0;
    assert(facts.logs@.take(0) =~= Seq::empty());
    while i < facts.logs.len()
        invariant
            i <= facts.logs@.len(),
            total == logs_size(facts.logs@.take(i as int)),
        decreases facts.logs@.len() - i,
    {
        proof {
            lemma_logs_size_mono(facts.logs@, i + 1);
            assert(facts.logs@.take(i + 1).drop_last() =~= facts.logs@.take(i as int));
            assert(facts.logs@.take(i + 1).last() == facts.logs@[i as int]);
        }
        match total.checked_add(size_or_zero(facts.logs[i].size)) {
            Some(sum) => total = sum,
            None => return false,
        }
        i = i + 1;
    }
    assert(facts.logs@.take(facts.logs@.len() as int) =~= facts.logs@);
    let db: u128 = size_or_zero(facts.stored.database_db) as u128;
    let wal: u128 = size_or_zero(facts.stored.database_wal) as u128;
    let shm: u128 = size_or_zero(facts.stored.database_shm) as u128;
    db + wal + shm <= u64::MAX as u128
}

/// A size that may not be known.
fn optional_bytes_text(size: Option<u64>) -> (r: String)
    ensures
        r@ == optional_bytes_shown(size),
{
    match size {
        Some(n) => fmt_bytes(n),
        None => "n/a".to_owned(),
    }
}

/// A number that may not be known.
fn optional_count_text(count: Option<u64>) -> (r: String)
    ensures
        r@ == optional_count_shown(count),
{
    match count {
        Some(n) => decimal_text(n as u128),
        None => "n/a".to_owned(),
    }
}

/// Adds a line that names a value.
fn add_entry(s: &mut String, key: &str, value: &str)
    ensures
        final(s)@ == with_entry(old(s)@, key@, value@),
{
    s.append(key);
    s.append("=");
    s.append(value);
    s.append("\n");
}

/// Adds a line that names a number.
fn add_count(s: &mut String, key: &str, value: usize)
    ensures
        final(s)@ == with_entry(old(s)@, key@, text::decimal(value as nat)),
{
    add_entry(s, key, decimal_text(value as u128).as_str());
}

/// Adds a line that names a size.
fn add_size(s: &mut String, key: &str, value: Option<u64>)
    ensures
        final(s)@ == with_entry(old(s)@, key@, optional_bytes_shown(value)),
{
    add_entry(s, key, optional_bytes_text(value).as_str());
}

/// Adds lines.
fn add_lines(s: &mut String, lines: &Vec<String>)
    ensures
        final(s)@ == with_lines(old(s)@, text::views(lines@)),
{
    let ghost head = s@;
    let ghost all = text::views(lines@);
    let mut i: usize = 0;
    assert(all.take(0).len() == 0);
    while i < lines.len()
        invariant
            all == text::views(lines@),
            i <= lines@.len(),
            s@ == with_lines(head, all.take(i as int)),
        decreases lines@.len() - i,
    {
        proof {
            assert(all.take(i + 1).drop_last() =~= all.take(i as int));
            assert(all.take(i + 1).last() == lines@[i as int]@);
        }
        s.append(lines[i].as_str());
        s.append("\n");
        i = i + 1;
    }
    assert(all.take(all.len() as int) =~= all);
}

/// The parts of the memory that a manifest lists.
fn list_buckets(buckets: &Vec<MemoryBucket>) -> (r: Vec<String>)
    ensures
        text::views(r@) == bucket_lines(buckets@),
{
    let mut lines: Vec<String> = Vec::new();
    let mut i: usize = 0;
    while i < buckets.len() && i < BUCKETS_LISTED
        invariant
            i <= buckets@.len(),
            i <= BUCKETS_LISTED,
            text::views(lines@) =~= Seq::new(i as nat, |j: int| bucket_line(buckets@[j])),
        decreases buckets@.len() - i,
    {
        let ghost before = text::views(lines@);
        let b: &MemoryBucket = &buckets[i];
        let mut s: String = concat("tracked_bucket=", b.label.as_str());
        s.append(" bytes=");
        s.append(fmt_bytes(b.bytes).as_str());
        s.append(" detail=");
        s.append(b.detail.as_str());
        let ghost said = s@;
        lines.push(s);
        assert(text::views(lines@) =~= before.push(said));
        i = i + 1;
    }
    assert(text::views(lines@) =~= bucket_lines(buckets@));
    lines
}

/// The logs that a manifest lists.
fn list_logs(logs: &Vec<LogFile>) -> (r: Vec<String>)
    ensures
        text::views(r@) == log_lines_listed(logs@),
{
    let mut lines: Vec<String> = Vec::new();
    let mut i: usize = 0;
    while i < logs.len()
        invariant
            i <= logs@.len(),
            text::views(lines@) =~= Seq::new(i as nat, |j: int| log_line(logs@[j])),
        decreases logs@.len() - i,
    {
        let ghost before = text::views(lines@);
        let mut s: String = concat("log_file=", logs[i].name.as_str());
        s.append(" size=");
        s.append(optional_bytes_text(logs[i].size).as_str());
        let ghost said = s@;
        lines.push(s);
        assert(text::views(lines@) =~= before.push(said));
        i = i + 1;
    }
    assert(text::views(lines@) =~= log_lines_listed(logs@));
    lines
}

/// Adds the section on the memory.
fn add_memory_section(s: &mut String, f: &DiagnosticsFacts)
    ensures
        final(s)@ == memory_section(old(s)@, *f),
{
    s.append("\n[process_memory]\n");
    add_size(s, "task_manager_memory", f.process.task_manager_bytes);
    add_size(s, "working_set", f.process.working_set_bytes);
    add_size(s, "peak_working_set", f.process.peak_working_set_bytes);
    add_size(s, "private_bytes", f.process.private_bytes);
    add_size(s, "virtual_bytes", f.process.virtual_bytes);
    add_entry(s, "page_faults", optional_count_text(f.process.page_fault_count).as_str());
    add_entry(s, "tracked_foxy_allocations", fmt_bytes(f.tracked_total_bytes).as_str());
    match &f.untracked {
        Some(t) => add_entry(s, "untracked_estimate", t.as_str()),
        None => add_entry(s, "untracked_estimate", "n/a"),
    }
    add_lines(s, &list_buckets(&f.buckets));
}

/// Adds the section on the files.
fn add_database_section(s: &mut String, d: &StoredSizes)
    requires
        database_size(*d) <= u64::MAX,
    ensures
        final(s)@ == database_section(old(s)@, *d),
{
    let total: u64 = size_or_zero(d.database_db) + size_or_zero(d.database_wal) + size_or_zero(
        d.database_shm,
    );
    s.append("\n[database]\n");
    add_size(s, "database_db", d.database_db);
    add_size(s, "database_wal", d.database_wal);
    add_size(s, "database_shm", d.database_shm);
    add_entry(s, "database_total", fmt_bytes(total).as_str());
    add_size(s, "settings_json", d.settings_json);
    add_size(s, "repositories_json", d.repositories_json);
    add_size(s, "repository_spaces_json", d.repository_spaces_json);
}

/// Adds the section on the application.
fn add_app_section(s: &mut String, a: &AppCounts)
    ensures
        final(s)@ == app_section(old(s)@, *a),
{
    s.append("\n[app_state]\n");
    add_count(s, "repositories", a.repositories);
    add_count(s, "repository_spaces", a.repository_spaces);
    add_count(s, "activity_log_entries", a.activity_log_entries);
    add_count(s, "progress_events", a.progress_events);
    add_count(s, "memory_diagnostic_samples", a.memory_diagnostic_samples);
    add_count(s, "cached_textures", a.cached_textures);
    match &a.current_sync_mode {
        Some(t) => add_entry(s, "current_sync_mode", t.as_str()),
        None => add_entry(s, "current_sync_mode", "none"),
    }
    add_count(s, "queued_startup_rechecks", a.queued_startup_rechecks);
    add_count(s, "queued_quick_scans", a.queued_quick_scans);
}

/// The manifest that is written at the time `generated_at`.
pub fn diagnostics_manifest_at(generated_at: &str, facts: &DiagnosticsFacts) -> (r: String)
    requires
        sums_fit(*facts),
    ensures
        r@ == manifest_text(generated_at@, *facts),
{
    let mut s: String = "Foxy diagnostics export\n".to_owned();
    add_entry(&mut s, "generated_at", generated_at);
    add_entry(&mut s, "version", facts.version.as_str());
    add_count(&mut s, "retained_log_files", facts.logs.len());
    add_entry(&mut s, "retained_log_bytes", fmt_bytes(total_log_bytes(&facts.logs)).as_str());
    s.append("\n[system]\n");
    add_lines(&mut s, &facts.system_lines);
    s.append("\n[storage_devices]\n");
    add_lines(&mut s, &facts.storage_lines);
    add_memory_section(&mut s, facts);
    add_database_section(&mut s, &facts.stored);
    add_app_section(&mut s, &facts.app);
    s.append("\n[zip_contents]\n");
    add_lines(&mut s, &list_logs(&facts.logs));
    s
}

/// The time of day as `chrono::Local::now` gives it, in the form of
/// `chrono::DateTime::to_rfc3339`: a date and a time of at least 19 characters
/// and an offset of six. What they say is decided by the clock and the time zone
/// and is not stated.
#[verifier::external_body]
fn now_rfc3339() -> (r: String)
    ensures
        r@.len() >= 25,
{
    chrono::Local::now().to_rfc3339()
}

/// The manifest that is written now.
pub fn build_diagnostics_manifest(facts: &DiagnosticsFacts) -> (r: String)
    requires
        sums_fit(*facts),
    ensures
        exists|at: Seq<char>| at.len() >= 25 && r@ == #[trigger] manifest_text(at, *facts),
{
    let at: String = now_rfc3339();
    let s: String = diagnostics_manifest_at(at.as_str(), facts);
    assert(s@ == manifest_text(at@, *facts));
    s
}

} // verus!
