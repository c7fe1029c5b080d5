//! What holds of the export of the logs.

use vstd::prelude::*;

use crate::figures;
use crate::settings::diagnostics;
use crate::settings::diagnostics::{
    archived_text, files_to_export, zip_file_name, AppCounts, DiagnosticsFacts, FolderEntry, LogExportError, LogFile,
    MemoryBucket, StoredSizes,
};
use crate::text;
use crate::text_laws;

verus! {

broadcast use vstd::string::group_string_axioms;

// ---------------------------------------------------------------------------
// Lines
// ---------------------------------------------------------------------------

/// The lines of a text: the first one ends with the first line feed, with or
/// without a carriage return before that, and behind it come the lines of the
/// rest.
pub proof fn law_line_ends_with_a_line_feed(line: Seq<char>, rest: Seq<char>)
    requires
        !line.contains('\n'),
        line.len() == 0 || line.last() != '\r',
    ensures
        diagnostics::lines_of(line + seq!['\n'] + rest) == seq![line] + diagnostics::lines_of(
            rest,
        ),
        diagnostics::lines_of(line + seq!['\r'] + seq!['\n'] + rest) == seq![line]
            + diagnostics::lines_of(rest),
{
    lemma_first_line(line, rest);
    let returned = line + seq!['\r'];
    assert(!returned.contains('\n')) by {
        if returned.contains('\n') {
            let k = choose|k: int| 0 <= k < returned.len() && returned[k] == '\n';
            if k < line.len() {
                assert(line[k] == '\n');
            }
        }
    }
    lemma_first_line(returned, rest);
    assert(returned.drop_last() =~= line);
}

proof fn lemma_first_line(line: Seq<char>, rest: Seq<char>)
    requires
        !line.contains('\n'),
    ensures
        diagnostics::lines_of(line + seq!['\n'] + rest) == seq![diagnostics::without_return(line)]
            + diagnostics::lines_of(rest),
{
    let whole = line + seq!['\n'] + rest;
    text_laws::law_pieces_follow_each_other(line, rest, '\n');
    text_laws::law_text_without_a_separator_is_one_piece(line, '\n');
    let tail = text::split_on(rest, '\n');
    text::lemma_split_nonempty(rest, '\n');
    let pieces = text::split_on(whole, '\n');
    assert(pieces == seq![line] + tail);
    assert(pieces.last() == tail.last());
    assert forall|i: int| 0 < i < pieces.len() implies pieces[i] == tail[i - 1] by {}
    assert(diagnostics::lines_of(whole) =~= seq![diagnostics::without_return(line)]
        + diagnostics::lines_of(rest));
}

/// The last line may lack its line feed; an empty text has no lines.
pub proof fn law_last_line_may_end_with_the_text(line: Seq<char>)
    requires
        !line.contains('\n'),
    ensures
        line.len() > 0 ==> diagnostics::lines_of(line) == seq![line],
        line.len() == 0 ==> diagnostics::lines_of(line).len() == 0,
{
    text_laws::law_text_without_a_separator_is_one_piece(line, '\n');
    if line.len() > 0 {
        assert(diagnostics::lines_of(line) =~= seq![line]);
    }
}

/// The line that is read of a log is the last one that is not blank.
pub proof fn law_last_line_that_says_something(
    before: Seq<Seq<char>>,
    line: Seq<char>,
    behind: Seq<Seq<char>>,
)
    requires
        !text::is_blank(line),
        forall|i: int| 0 <= i < behind.len() ==> text::is_blank(#[trigger] behind[i]),
    ensures
        diagnostics::last_said(before + seq![line] + behind) == Some(line),
        diagnostics::last_said(behind) is None,
    decreases behind.len(),
{
    let all = before + seq![line] + behind;
    if behind.len() == 0 {
        assert(all.last() == line);
    } else {
        assert(text::is_blank(behind[behind.len() - 1]));
        law_last_line_that_says_something(before, line, behind.drop_last());
        assert(all.drop_last() =~= before + seq![line] + behind.drop_last());
        assert(all.last() == behind.last());
    }
}

// ---------------------------------------------------------------------------
// The name of the archive
// ---------------------------------------------------------------------------

/// Taking a character out of two texts takes it out of either; a text without it
/// stays as it is, and nothing of it is left.
pub proof fn law_taking_a_character_out(a: Seq<char>, b: Seq<char>, c: char)
    ensures
        diagnostics::without_char(a + b, c) == diagnostics::without_char(a, c)
            + diagnostics::without_char(b, c),
        !a.contains(c) ==> diagnostics::without_char(a, c) == a,
        diagnostics::without_char(seq![c], c).len() == 0,
    decreases a.len() + b.len(),
{
    reveal_with_fuel(diagnostics::without_char, 2);
    assert(seq![c].drop_last() =~= Seq::empty());
    if b.len() > 0 {
        law_taking_a_character_out(a, b.drop_last(), c);
        assert((a + b).drop_last() =~= a + b.drop_last());
        assert(diagnostics::without_char(a + b, c) =~= diagnostics::without_char(a, c)
            + diagnostics::without_char(b, c));
    } else {
        assert(a + b =~= a);
        assert(diagnostics::without_char(b, c) =~= Seq::empty());
        assert(diagnostics::without_char(a, c) + diagnostics::without_char(b, c)
            =~= diagnostics::without_char(a, c));
        if a.len() > 0 {
            law_taking_a_character_out(a.drop_last(), b, c);
            assert(a[a.len() - 1] == a.last());
            if !a.contains(c) {
                assert(!a.drop_last().contains(c)) by {
                    if a.drop_last().contains(c) {
                        let k = choose|k: int|
                            0 <= k < a.drop_last().len() && a.drop_last()[k] == c;
                        assert(a[k] == c);
                    }
                }
                assert(a.drop_last().push(a.last()) =~= a);
            }
        }
    }
}

/// Whether every character of a text takes one byte.
pub open spec fn all_ascii(s: Seq<char>) -> bool {
    forall|i: int| 0 <= i < s.len() ==> ((#[trigger] s[i]) as u32) < 0x80
}

proof fn lemma_byte_of_ascii(s: Seq<char>, n: int, k: int)
    requires
        0 <= k,
        0 <= n,
        k + n <= s.len(),
        forall|i: int| k <= i < k + n ==> ((#[trigger] s[i]) as u32) < 0x80,
    ensures
        diagnostics::char_at_byte(s, n, k) == Some(k + n),
    decreases n,
{
    if n > 0 {
        assert((s[k] as u32) < 0x80);
        lemma_byte_of_ascii(s, n - 1, k + 1);
    }
}

/// A line that begins with a time stamp names the archive after its date and its
/// time, without the colons; what follows in the stamp or behind it does not
/// matter.
pub proof fn law_archive_is_named_after_the_stamp(
    date: Seq<char>,
    between: char,
    time: Seq<char>,
    more: Seq<char>,
    behind: Seq<char>,
)
    requires
        date.len() == 10,
        time.len() == 8,
        all_ascii(date),
        all_ascii(time),
        (between as u32) < 0x80,
        !(date + seq![between] + time + more).contains(']'),
    ensures
        diagnostics::zip_name_of_line(
            seq!['['] + (date + seq![between] + time + more) + seq![']'] + behind,
        ) == Some(
            "foxy_logs_"@ + date + "_"@ + diagnostics::without_char(time, ':') + ".zip"@,
        ),
{
    let stamp = date + seq![between] + time + more;
    let line = seq!['['] + stamp + seq![']'] + behind;
    assert(line.skip(1) =~= stamp + seq![']'] + behind);
    text_laws::law_pieces_follow_each_other(stamp, behind, ']');
    text_laws::law_text_without_a_separator_is_one_piece(stamp, ']');
    assert(text::split_on(line.skip(1), ']')[0] == stamp);
    assert forall|i: int| 0 <= i < 19 implies ((#[trigger] stamp[i]) as u32) < 0x80 by {
        if i < 10 {
            assert(stamp[i] == date[i]);
        } else if i == 10 {
            assert(stamp[i] == between);
        } else {
            assert(stamp[i] == time[i - 11]);
        }
    }
    lemma_byte_of_ascii(stamp, 10, 0);
    lemma_byte_of_ascii(stamp, 11, 0);
    lemma_byte_of_ascii(stamp, 19, 0);
    assert(stamp.take(10) =~= date);
    assert(stamp.subrange(11, 19) =~= time);
}

/// A line that does not begin with a bracket names nothing.
pub proof fn law_line_without_a_stamp_names_nothing(line: Seq<char>)
    requires
        line.len() == 0 || line[0] != '[',
    ensures
        diagnostics::zip_name_of_line(line) is None,
{
}

// ---------------------------------------------------------------------------
// The files
// ---------------------------------------------------------------------------

/// The files of an export: each file of the folder and nothing else, none twice;
/// those of unknown age first, the one changed last at the end.
pub proof fn law_files_are_exported_by_age(
    entries: Vec<FolderEntry>,
    r: Result<Vec<usize>, LogExportError>,
    k: int,
    l: int,
)
    requires
        call_ensures(files_to_export, (&entries,), r),
    ensures
        r matches Ok(order) ==> {
            &&& order@.len() > 0
            &&& 0 <= k < l < order@.len() ==> {
                let a = entries@[order@[k] as int];
                let b = entries@[order@[l] as int];
                &&& order@[k] != order@[l]
                &&& a.is_file && b.is_file
                &&& b.modified is None ==> a.modified is None
                &&& a.modified is Some && b.modified is Some ==> a.modified->0 <= b.modified->0
            }
        },
{
    match r {
        Ok(order) => if 0 <= k < l < order@.len() {
            assert(order@[k] < entries@.len() && order@[l] < entries@.len());
            assert(diagnostics::older(
                diagnostics::change_times(entries@),
                order@[k] as int,
                order@[l] as int,
            ));
        },
        Err(_) => {},
    }
}

/// Every file of the folder is exported, so that an export fails only if there is
/// none.
pub proof fn law_every_file_is_exported(
    entries: Vec<FolderEntry>,
    r: Result<Vec<usize>, LogExportError>,
    i: usize,
)
    requires
        call_ensures(files_to_export, (&entries,), r),
        i < entries@.len(),
        entries@[i as int].is_file,
    ensures
        r is Ok,
        r->Ok_0@.contains(i),
{
    assert(entries@[i as int].is_file);
    assert(diagnostics::holds_a_file(entries@));
}

/// What is told of a failure ends in its cause, and names the file it is about.
pub proof fn law_failure_of_an_export_is_told(e: LogExportError)
    ensures
        ({
            let told = diagnostics::export_error_shown(e);
            &&& e matches LogExportError::ReadFolder { cause } ==> told
                == "Failed to read log directory: "@ + cause@
            &&& e matches LogExportError::CreateZip { cause } ==> told
                == "Failed to create ZIP file: "@ + cause@
            &&& e matches LogExportError::StartManifest { cause } ==> told
                == "ZIP manifest error: "@ + cause@
            &&& e matches LogExportError::WriteManifest { cause } ==> told
                == "Failed to write ZIP manifest: "@ + cause@
            &&& e matches LogExportError::StartFile { file_name, cause } ==> told
                == "ZIP error for "@ + file_name@ + ": "@ + cause@
            &&& e matches LogExportError::ReadFile { file_name, cause } ==> told
                == "Failed to read "@ + file_name@ + ": "@ + cause@
            &&& e matches LogExportError::WriteFile { file_name, cause } ==> told
                == "Failed to write "@ + file_name@ + " to ZIP: "@ + cause@
            &&& e matches LogExportError::Finish { cause } ==> told
                == "Failed to finalize ZIP: "@ + cause@
            &&& e is NoLogs ==> told == "No log files found to export."@
        }),
{
}

// ---------------------------------------------------------------------------
// The manifest
// ---------------------------------------------------------------------------

/// The size of two lists of logs is the size of the one and of the other; a log
/// whose size is not known has none.
pub proof fn law_log_sizes_add_up(a: Seq<LogFile>, b: Seq<LogFile>, one: LogFile)
    ensures
        diagnostics::logs_size(a + b) == diagnostics::logs_size(a) + diagnostics::logs_size(b),
        one.size matches Some(n) ==> diagnostics::logs_size(seq![one]) == n,
        one.size is None ==> diagnostics::logs_size(seq![one]) == 0,
    decreases b.len(),
{
    reveal_with_fuel(diagnostics::logs_size, 2);
    assert(seq![one].drop_last() =~= Seq::empty());
    if b.len() == 0 {
        assert(a + b =~= a);
    } else {
        law_log_sizes_add_up(a, b.drop_last(), one);
        assert((a + b).drop_last() =~= a + b.drop_last());
    }
}

/// Whether a text ends with a line feed.
pub open spec fn ends_a_line(s: Seq<char>) -> bool {
    s.len() > 0 && s.last() == '\n'
}

/// Whether a line of a text, other than its first, is `line`.
#[verifier::opaque]
pub open spec fn has_line(s: Seq<char>, line: Seq<char>) -> bool {
    text::text_contains(s, seq!['\n'] + line + seq!['\n'])
}

/// Whether a line of a text gives a name a value.
pub open spec fn says(s: Seq<char>, key: Seq<char>, value: Seq<char>) -> bool {
    has_line(s, key + "="@ + value)
}

proof fn lemma_line_stays(s: Seq<char>, t: Seq<char>, line: Seq<char>)
    requires
        s.is_prefix_of(t),
        has_line(s, line),
    ensures
        has_line(t, line),
{
    reveal(has_line);
    let pat = seq!['\n'] + line + seq!['\n'];
    let i = choose|i: int| text::occurs_at(s, pat, i);
    assert(t.subrange(i, i + pat.len()) =~= s.subrange(i, i + pat.len()));
    assert(text::occurs_at(t, pat, i));
}

proof fn lemma_line(s: Seq<char>, line: Seq<char>)
    requires
        ends_a_line(s),
    ensures
        has_line(s + line + "\n"@, line),
        ends_a_line(s + line + "\n"@),
        s.is_prefix_of(s + line + "\n"@),
{
    reveal(has_line);
    reveal_strlit("\n");
    let pat = seq!['\n'] + line + seq!['\n'];
    let t = s + line + "\n"@;
    let at = s.len() - 1;
    assert(t.subrange(at, at + pat.len()) =~= pat);
    assert(text::occurs_at(t, pat, at));
}

proof fn lemma_entry(s: Seq<char>, key: Seq<char>, value: Seq<char>)
    requires
        ends_a_line(s),
    ensures
        says(diagnostics::with_entry(s, key, value), key, value),
        ends_a_line(diagnostics::with_entry(s, key, value)),
        s.is_prefix_of(diagnostics::with_entry(s, key, value)),
{
    lemma_line(s, key + "="@ + value);
    assert(diagnostics::with_entry(s, key, value) =~= s + (key + "="@ + value) + "\n"@);
}

proof fn lemma_lines(s: Seq<char>, lines: Seq<Seq<char>>, i: int)
    requires
        ends_a_line(s),
    ensures
        ends_a_line(diagnostics::with_lines(s, lines)),
        s.is_prefix_of(diagnostics::with_lines(s, lines)),
        0 <= i < lines.len() ==> has_line(diagnostics::with_lines(s, lines), lines[i]),
    decreases lines.len(),
{
    if lines.len() > 0 {
        let before = diagnostics::with_lines(s, lines.drop_last());
        lemma_lines(s, lines.drop_last(), i);
        lemma_line(before, lines.last());
        if 0 <= i < lines.len() - 1 {
            lemma_line_stays(before, diagnostics::with_lines(s, lines), lines[i]);
        }
    }
}

/// The opening of a manifest tells the time, the version, how many logs there
/// are and how large they are together, each under its name.
pub proof fn law_opening_tells_its_figures(at: Seq<char>, f: DiagnosticsFacts)
    ensures
        ({
            let s = diagnostics::opening(at, f);
            &&& ends_a_line(s)
            &&& says(s, "generated_at"@, at)
            &&& says(s, "version"@, f.version@)
            &&& says(s, "retained_log_files"@, text::decimal(f.logs@.len()))
            &&& says(
                s,
                "retained_log_bytes"@,
                figures::bytes_shown(diagnostics::logs_size(f.logs@)),
            )
        }),
{
    reveal_strlit("Foxy diagnostics export\n");
    let a = "generated_at"@ + "="@ + at;
    let b = "version"@ + "="@ + f.version@;
    let c = "retained_log_files"@ + "="@ + text::decimal(f.logs@.len());
    let s0 = "Foxy diagnostics export\n"@;
    let s1 = diagnostics::with_entry(s0, "generated_at"@, at);
    let s2 = diagnostics::with_entry(s1, "version"@, f.version@);
    let s3 = diagnostics::with_entry(s2, "retained_log_files"@, text::decimal(f.logs@.len()));
    let bytes = figures::bytes_shown(diagnostics::logs_size(f.logs@));
    let s4 = diagnostics::with_entry(s3, "retained_log_bytes"@, bytes);
    lemma_entry(s0, "generated_at"@, at);
    lemma_entry(s1, "version"@, f.version@);
    lemma_entry(s2, "retained_log_files"@, text::decimal(f.logs@.len()));
    lemma_entry(s3, "retained_log_bytes"@, bytes);
    lemma_line_stays(s1, s4, a);
    lemma_line_stays(s2, s4, b);
    lemma_line_stays(s3, s4, c);
}

/// The section on the memory tells each figure under its name, and the largest
/// parts that are kept track of, eight of them at most.
pub proof fn law_memory_section_tells_its_figures(s: Seq<char>, f: DiagnosticsFacts, i: int)
    requires
        ends_a_line(s),
    ensures
        ({
            let r = diagnostics::memory_section(s, f);
            let p = f.process;
            &&& ends_a_line(r)
            &&& s.is_prefix_of(r)
            &&& says(
                r,
                "task_manager_memory"@,
                diagnostics::optional_bytes_shown(p.task_manager_bytes),
            )
            &&& says(r, "working_set"@, diagnostics::optional_bytes_shown(p.working_set_bytes))
            &&& says(
                r,
                "peak_working_set"@,
                diagnostics::optional_bytes_shown(p.peak_working_set_bytes),
            )
            &&& says(r, "private_bytes"@, diagnostics::optional_bytes_shown(p.private_bytes))
            &&& says(r, "virtual_bytes"@, diagnostics::optional_bytes_shown(p.virtual_bytes))
            &&& says(r, "page_faults"@, diagnostics::optional_count_shown(p.page_fault_count))
            &&& says(
                r,
                "tracked_foxy_allocations"@,
                figures::bytes_shown(f.tracked_total_bytes as nat),
            )
            &&& says(
                r,
                "untracked_estimate"@,
                diagnostics::text_or(f.untracked, "n/a"@),
            )
            &&& 0 <= i < f.buckets@.len() && i < 8 ==> has_line(
                r,
                diagnostics::bucket_line(f.buckets@[i]),
            )
        }),
{
    reveal_strlit("\n[process_memory]\n");
    let p = f.process;
    let names = seq![
        ("task_manager_memory"@, diagnostics::optional_bytes_shown(p.task_manager_bytes)),
        ("working_set"@, diagnostics::optional_bytes_shown(p.working_set_bytes)),
        ("peak_working_set"@, diagnostics::optional_bytes_shown(p.peak_working_set_bytes)),
        ("private_bytes"@, diagnostics::optional_bytes_shown(p.private_bytes)),
        ("virtual_bytes"@, diagnostics::optional_bytes_shown(p.virtual_bytes)),
        ("page_faults"@, diagnostics::optional_count_shown(p.page_fault_count)),
        ("tracked_foxy_allocations"@, figures::bytes_shown(f.tracked_total_bytes as nat)),
        ("untracked_estimate"@, diagnostics::text_or(f.untracked, "n/a"@)),
    ];
    let s0 = s + "\n[process_memory]\n"@;
    lemma_entries(s0, names);
    let s1 = with_entries(s0, names);
    lemma_eight(s0, names);
    let lines = diagnostics::bucket_lines(f.buckets@);
    lemma_lines(s1, lines, i);
    let r = diagnostics::memory_section(s, f);
    assert(r == diagnostics::with_lines(s1, lines));
    assert forall|k: int| 0 <= k < names.len() implies says(
        r,
        (#[trigger] names[k]).0,
        names[k].1,
    ) by {
        assert(says(s1, names[k].0, names[k].1));
        lemma_line_stays(s1, r, names[k].0 + "="@ + names[k].1);
    }
    assert(names[0] == names[0] && names[1] == names[1] && names[2] == names[2] && names[3]
        == names[3] && names[4] == names[4] && names[5] == names[5] && names[6] == names[6]
        && names[7] == names[7]);
    if 0 <= i < f.buckets@.len() && i < 8 {
        assert(lines[i] == diagnostics::bucket_line(f.buckets@[i]));
    }
}

/// `head` with one more line for each of a list of named values.
spec fn with_entries(head: Seq<char>, entries: Seq<(Seq<char>, Seq<char>)>) -> Seq<char>
    decreases entries.len(),
{
    if entries.len() == 0 {
        head
    } else {
        diagnostics::with_entry(
            with_entries(head, entries.drop_last()),
            entries.last().0,
            entries.last().1,
        )
    }
}

proof fn lemma_entries(s: Seq<char>, entries: Seq<(Seq<char>, Seq<char>)>)
    requires
        ends_a_line(s),
    ensures
        ends_a_line(with_entries(s, entries)),
        s.is_prefix_of(with_entries(s, entries)),
        forall|k: int|
            0 <= k < entries.len() ==> says(
                with_entries(s, entries),
                (#[trigger] entries[k]).0,
                entries[k].1,
            ),
    decreases entries.len(),
{
    if entries.len() > 0 {
        let head = entries.drop_last();
        let before = with_entries(s, head);
        let after = with_entries(s, entries);
        lemma_entries(s, head);
        lemma_entry(before, entries.last().0, entries.last().1);
        assert forall|k: int| 0 <= k < entries.len() implies says(
            after,
            (#[trigger] entries[k]).0,
            entries[k].1,
        ) by {
            if k < head.len() {
                assert(says(before, head[k].0, head[k].1));
                lemma_line_stays(before, after, head[k].0 + "="@ + head[k].1);
            }
        }
    }
}

proof fn lemma_eight(s: Seq<char>, e: Seq<(Seq<char>, Seq<char>)>)
    requires
        e.len() == 8,
    ensures
        ({
            let a = diagnostics::with_entry(s, e[0].0, e[0].1);
            let a = diagnostics::with_entry(a, e[1].0, e[1].1);
            let a = diagnostics::with_entry(a, e[2].0, e[2].1);
            let a = diagnostics::with_entry(a, e[3].0, e[3].1);
            let a = diagnostics::with_entry(a, e[4].0, e[4].1);
            let a = diagnostics::with_entry(a, e[5].0, e[5].1);
            let a = diagnostics::with_entry(a, e[6].0, e[6].1);
            with_entries(s, e) == diagnostics::with_entry(a, e[7].0, e[7].1)
        }),
{
    lemma_prefix(s, e, 1);
    lemma_prefix(s, e, 2);
    lemma_prefix(s, e, 3);
    lemma_prefix(s, e, 4);
    lemma_prefix(s, e, 5);
    lemma_prefix(s, e, 6);
    lemma_prefix(s, e, 7);
    lemma_prefix(s, e, 8);
    assert(e.take(0) =~= Seq::empty());
    assert(e.take(8) =~= e);
}

proof fn lemma_prefix(s: Seq<char>, e: Seq<(Seq<char>, Seq<char>)>, n: int)
    requires
        0 < n <= e.len(),
    ensures
        with_entries(s, e.take(n)) == diagnostics::with_entry(
            with_entries(s, e.take(n - 1)),
            e[n - 1].0,
            e[n - 1].1,
        ),
{
    assert(e.take(n).drop_last() =~= e.take(n - 1));
}

/// The section on the files tells each size under its name, and of the database
/// the size of its three files together.
pub proof fn law_file_section_tells_its_figures(s: Seq<char>, d: StoredSizes)
    requires
        ends_a_line(s),
    ensures
        ({
            let r = diagnostics::database_section(s, d);
            &&& ends_a_line(r)
            &&& s.is_prefix_of(r)
            &&& says(r, "database_db"@, diagnostics::optional_bytes_shown(d.database_db))
            &&& says(r, "database_wal"@, diagnostics::optional_bytes_shown(d.database_wal))
            &&& says(r, "database_shm"@, diagnostics::optional_bytes_shown(d.database_shm))
            &&& says(
                r,
                "database_total"@,
                figures::bytes_shown(diagnostics::database_size(d)),
            )
            &&& says(r, "settings_json"@, diagnostics::optional_bytes_shown(d.settings_json))
            &&& says(
                r,
                "repositories_json"@,
                diagnostics::optional_bytes_shown(d.repositories_json),
            )
            &&& says(
                r,
                "repository_spaces_json"@,
                diagnostics::optional_bytes_shown(d.repository_spaces_json),
            )
        }),
        d.database_db matches Some(x) ==> (d.database_wal matches Some(y) ==> (
        d.database_shm matches Some(z) ==> diagnostics::database_size(d) == x + y + z)),
        d.database_wal is None && d.database_shm is None ==> (d.database_db matches Some(x)
            ==> diagnostics::database_size(d) == x),
{
    reveal_strlit("\n[database]\n");
    let e = seq![
        ("database_db"@, diagnostics::optional_bytes_shown(d.database_db)),
        ("database_wal"@, diagnostics::optional_bytes_shown(d.database_wal)),
        ("database_shm"@, diagnostics::optional_bytes_shown(d.database_shm)),
        ("database_total"@, figures::bytes_shown(diagnostics::database_size(d))),
        ("settings_json"@, diagnostics::optional_bytes_shown(d.settings_json)),
        ("repositories_json"@, diagnostics::optional_bytes_shown(d.repositories_json)),
        (
            "repository_spaces_json"@,
            diagnostics::optional_bytes_shown(d.repository_spaces_json),
        ),
    ];
    let s0 = s + "\n[database]\n"@;
    lemma_entries(s0, e);
    lemma_prefix(s0, e, 1);
    lemma_prefix(s0, e, 2);
    lemma_prefix(s0, e, 3);
    lemma_prefix(s0, e, 4);
    lemma_prefix(s0, e, 5);
    lemma_prefix(s0, e, 6);
    lemma_prefix(s0, e, 7);
    assert(e.take(0) =~= Seq::empty());
    assert(e.take(7) =~= e);
    assert(diagnostics::database_section(s, d) == with_entries(s0, e));
    assert(e[0] == e[0] && e[1] == e[1] && e[2] == e[2] && e[3] == e[3] && e[4] == e[4] && e[5]
        == e[5] && e[6] == e[6]);
}

/// The section on the application tells each number under its name.
pub proof fn law_application_section_tells_its_figures(s: Seq<char>, a: AppCounts)
    requires
        ends_a_line(s),
    ensures
        ({
            let r = diagnostics::app_section(s, a);
            &&& ends_a_line(r)
            &&& s.is_prefix_of(r)
            &&& says(r, "repositories"@, text::decimal(a.repositories as nat))
            &&& says(r, "repository_spaces"@, text::decimal(a.repository_spaces as nat))
            &&& says(r, "activity_log_entries"@, text::decimal(a.activity_log_entries as nat))
            &&& says(r, "progress_events"@, text::decimal(a.progress_events as nat))
            &&& says(
                r,
                "memory_diagnostic_samples"@,
                text::decimal(a.memory_diagnostic_samples as nat),
            )
            &&& says(r, "cached_textures"@, text::decimal(a.cached_textures as nat))
            &&& says(
                r,
                "queued_startup_rechecks"@,
                text::decimal(a.queued_startup_rechecks as nat),
            )
            &&& says(r, "queued_quick_scans"@, text::decimal(a.queued_quick_scans as nat))
            &&& a.current_sync_mode matches Some(mode) ==> says(r, "current_sync_mode"@, mode@)
            &&& a.current_sync_mode is None ==> says(r, "current_sync_mode"@, "none"@)
        }),
{
    reveal_strlit("\n[app_state]\n");
    let e = seq![
        ("repositories"@, text::decimal(a.repositories as nat)),
        ("repository_spaces"@, text::decimal(a.repository_spaces as nat)),
        ("activity_log_entries"@, text::decimal(a.activity_log_entries as nat)),
        ("progress_events"@, text::decimal(a.progress_events as nat)),
        ("memory_diagnostic_samples"@, text::decimal(a.memory_diagnostic_samples as nat)),
        ("cached_textures"@, text::decimal(a.cached_textures as nat)),
        ("current_sync_mode"@, diagnostics::text_or(a.current_sync_mode, "none"@)),
        ("queued_startup_rechecks"@, text::decimal(a.queued_startup_rechecks as nat)),
        ("queued_quick_scans"@, text::decimal(a.queued_quick_scans as nat)),
    ];
    let s0 = s + "\n[app_state]\n"@;
    lemma_entries(s0, e);
    lemma_prefix(s0, e, 1);
    lemma_prefix(s0, e, 2);
    lemma_prefix(s0, e, 3);
    lemma_prefix(s0, e, 4);
    lemma_prefix(s0, e, 5);
    lemma_prefix(s0, e, 6);
    lemma_prefix(s0, e, 7);
    lemma_prefix(s0, e, 8);
    lemma_prefix(s0, e, 9);
    assert(e.take(0) =~= Seq::empty());
    assert(e.take(9) =~= e);
    assert(diagnostics::app_section(s, a) == with_entries(s0, e));
    assert(e[0] == e[0] && e[1] == e[1] && e[2] == e[2] && e[3] == e[3] && e[4] == e[4] && e[5]
        == e[5] && e[6] == e[6] && e[7] == e[7] && e[8] == e[8]);
}

proof fn lemma_longer(a: Seq<char>, b: Seq<char>, c: Seq<char>)
    requires
        a.is_prefix_of(b),
        b.is_prefix_of(c),
    ensures
        a.is_prefix_of(c),
{
    assert(c.subrange(0, a.len() as int) =~= b.subrange(0, a.len() as int));
}

proof fn lemma_heading(s: Seq<char>, heading: Seq<char>)
    requires
        ends_a_line(heading),
    ensures
        ends_a_line(s + heading),
        s.is_prefix_of(s + heading),
{
}

proof fn lemma_section(s: Seq<char>, heading: Seq<char>, lines: Seq<Seq<char>>, i: int)
    requires
        ends_a_line(heading),
    ensures
        ends_a_line(diagnostics::with_lines(s + heading, lines)),
        s.is_prefix_of(diagnostics::with_lines(s + heading, lines)),
        0 <= i < lines.len() ==> has_line(diagnostics::with_lines(s + heading, lines), lines[i]),
{
    lemma_heading(s, heading);
    lemma_lines(s + heading, lines, i);
    lemma_longer(s, s + heading, diagnostics::with_lines(s + heading, lines));
}

#[verifier::opaque]
spec fn after_system(at: Seq<char>, f: DiagnosticsFacts) -> Seq<char> {
    diagnostics::with_lines(
        diagnostics::opening(at, f) + "\n[system]\n"@,
        text::views(f.system_lines@),
    )
}

#[verifier::opaque]
spec fn after_devices(at: Seq<char>, f: DiagnosticsFacts) -> Seq<char> {
    diagnostics::with_lines(
        after_system(at, f) + "\n[storage_devices]\n"@,
        text::views(f.storage_lines@),
    )
}

#[verifier::opaque]
spec fn after_memory(at: Seq<char>, f: DiagnosticsFacts) -> Seq<char> {
    diagnostics::memory_section(after_devices(at, f), f)
}

#[verifier::opaque]
spec fn after_files(at: Seq<char>, f: DiagnosticsFacts) -> Seq<char> {
    diagnostics::database_section(after_memory(at, f), f.stored)
}

#[verifier::opaque]
spec fn after_application(at: Seq<char>, f: DiagnosticsFacts) -> Seq<char> {
    diagnostics::app_section(after_files(at, f), f.app)
}

proof fn lemma_front(at: Seq<char>, f: DiagnosticsFacts, system: int, device: int)
    ensures
        ends_a_line(after_devices(at, f)),
        diagnostics::opening(at, f).is_prefix_of(after_devices(at, f)),
        0 <= system < f.system_lines@.len() ==> has_line(
            after_devices(at, f),
            f.system_lines@[system]@,
        ),
        0 <= device < f.storage_lines@.len() ==> has_line(
            after_devices(at, f),
            f.storage_lines@[device]@,
        ),
{
    reveal_strlit("\n[system]\n");
    reveal_strlit("\n[storage_devices]\n");
    reveal(after_system);
    reveal(after_devices);
    let systems = text::views(f.system_lines@);
    let devices = text::views(f.storage_lines@);
    lemma_section(diagnostics::opening(at, f), "\n[system]\n"@, systems, system);
    lemma_section(after_system(at, f), "\n[storage_devices]\n"@, devices, device);
    lemma_longer(diagnostics::opening(at, f), after_system(at, f), after_devices(at, f));
    if 0 <= system < f.system_lines@.len() {
        assert(systems[system] == f.system_lines@[system]@);
        lemma_line_stays(after_system(at, f), after_devices(at, f), systems[system]);
    }
}

proof fn lemma_memory(at: Seq<char>, f: DiagnosticsFacts)
    ensures
        ends_a_line(after_memory(at, f)),
        after_devices(at, f).is_prefix_of(after_memory(at, f)),
{
    reveal(after_memory);
    lemma_front(at, f, 0, 0);
    law_memory_section_tells_its_figures(after_devices(at, f), f, 0);
}

proof fn lemma_files(at: Seq<char>, f: DiagnosticsFacts)
    ensures
        ends_a_line(after_files(at, f)),
        after_memory(at, f).is_prefix_of(after_files(at, f)),
{
    reveal(after_files);
    lemma_memory(at, f);
    law_file_section_tells_its_figures(after_memory(at, f), f.stored);
}

proof fn lemma_application(at: Seq<char>, f: DiagnosticsFacts)
    ensures
        ends_a_line(after_application(at, f)),
        after_files(at, f).is_prefix_of(after_application(at, f)),
{
    reveal(after_application);
    lemma_files(at, f);
    law_application_section_tells_its_figures(after_files(at, f), f.app);
}

proof fn lemma_whole(at: Seq<char>, f: DiagnosticsFacts)
    ensures
        diagnostics::manifest_text(at, f) == diagnostics::with_lines(
            after_application(at, f) + "\n[zip_contents]\n"@,
            diagnostics::log_lines_listed(f.logs@),
        ),
{
    reveal(after_system);
    reveal(after_devices);
    reveal(after_memory);
    reveal(after_files);
    reveal(after_application);
}

proof fn lemma_back(at: Seq<char>, f: DiagnosticsFacts, log: int)
    ensures
        after_devices(at, f).is_prefix_of(diagnostics::manifest_text(at, f)),
        after_memory(at, f).is_prefix_of(diagnostics::manifest_text(at, f)),
        after_files(at, f).is_prefix_of(diagnostics::manifest_text(at, f)),
        after_application(at, f).is_prefix_of(diagnostics::manifest_text(at, f)),
        0 <= log < f.logs@.len() ==> has_line(
            diagnostics::manifest_text(at, f),
            diagnostics::log_line(f.logs@[log]),
        ),
{
    reveal_strlit("\n[zip_contents]\n");
    let logs = diagnostics::log_lines_listed(f.logs@);
    lemma_whole(at, f);
    let whole = diagnostics::with_lines(
        after_application(at, f) + "\n[zip_contents]\n"@,
        logs,
    );
    lemma_section(after_application(at, f), "\n[zip_contents]\n"@, logs, log);
    lemma_memory(at, f);
    lemma_files(at, f);
    lemma_application(at, f);
    lemma_longer(after_files(at, f), after_application(at, f), whole);
    lemma_longer(after_memory(at, f), after_files(at, f), whole);
    lemma_longer(after_devices(at, f), after_memory(at, f), whole);
    if 0 <= log < f.logs@.len() {
        assert(logs[log] == diagnostics::log_line(f.logs@[log]));
    }
}

/// The whole manifest: it begins with its opening, and has every line on the
/// system, on the storage devices and on the logs.
pub proof fn law_manifest_has_every_line(
    at: Seq<char>,
    f: DiagnosticsFacts,
    system: int,
    device: int,
    log: int,
)
    ensures
        ({
            let r = diagnostics::manifest_text(at, f);
            &&& diagnostics::opening(at, f).is_prefix_of(r)
            &&& 0 <= system < f.system_lines@.len() ==> has_line(r, f.system_lines@[system]@)
            &&& 0 <= device < f.storage_lines@.len() ==> has_line(r, f.storage_lines@[device]@)
            &&& 0 <= log < f.logs@.len() ==> has_line(
                r,
                "log_file="@ + f.logs@[log].name@ + " size="@
                    + diagnostics::optional_bytes_shown(f.logs@[log].size),
            )
        }),
{
    lemma_front(at, f, system, device);
    lemma_back(at, f, log);
    let r = diagnostics::manifest_text(at, f);
    lemma_longer(diagnostics::opening(at, f), after_devices(at, f), r);
    if 0 <= system < f.system_lines@.len() {
        lemma_line_stays(after_devices(at, f), r, f.system_lines@[system]@);
    }
    if 0 <= device < f.storage_lines@.len() {
        lemma_line_stays(after_devices(at, f), r, f.storage_lines@[device]@);
    }
}

/// What the sections on the memory, on the files and on the application tell
/// stands in the manifest: a line of one of them, whatever it follows, is a line
/// of the whole.
pub proof fn law_manifest_holds_its_sections(at: Seq<char>, f: DiagnosticsFacts, line: Seq<char>)
    requires
        forall|s: Seq<char>|
            ends_a_line(s) ==> has_line(#[trigger] diagnostics::memory_section(s, f), line) || (
            forall|s: Seq<char>|
                ends_a_line(s) ==> has_line(
                    #[trigger] diagnostics::database_section(s, f.stored),
                    line,
                )) || (forall|s: Seq<char>|
                ends_a_line(s) ==> has_line(
                    #[trigger] diagnostics::app_section(s, f.app),
                    line,
                )),
    ensures
        has_line(diagnostics::manifest_text(at, f), line),
{
    lemma_front(at, f, 0, 0);
    lemma_memory(at, f);
    lemma_files(at, f);
    lemma_back(at, f, 0);
    reveal(after_memory);
    reveal(after_files);
    reveal(after_application);
    let r = diagnostics::manifest_text(at, f);
    if has_line(after_memory(at, f), line) {
        lemma_line_stays(after_memory(at, f), r, line);
    } else if has_line(after_files(at, f), line) {
        lemma_line_stays(after_files(at, f), r, line);
    } else {
        assert(has_line(after_application(at, f), line));
        lemma_line_stays(after_application(at, f), r, line);
    }
}

/// The line of a part of the memory tells its label, its size and its detail.
pub proof fn law_line_of_a_part(b: MemoryBucket)
    ensures
        diagnostics::bucket_line(b) == "tracked_bucket="@ + b.label@ + " bytes="@
            + figures::bytes_shown(b.bytes as nat) + " detail="@ + b.detail@,
{
}

/// A size or a number that is known is shown as it is, one that is not as such.
pub proof fn law_unknown_figures_are_shown_as_such(n: u64)
    ensures
        diagnostics::optional_bytes_shown(Some(n)) == figures::bytes_shown(n as nat),
        diagnostics::optional_count_shown(Some(n)) == text::decimal(n as nat),
        diagnostics::optional_bytes_shown(None) == "n/a"@,
        diagnostics::optional_count_shown(None) == "n/a"@,
{
}

/// The archive is named after the last line of the log that says something, and
/// has a name of its own if that line has no stamp or there is no log.
pub proof fn law_archive_has_a_name(tail: Option<String>, r: String)
    requires
        call_ensures(zip_file_name, (&tail,), r),
    ensures
        tail is None ==> r@ == "foxy_logs.zip"@,
        tail matches Some(log) ==> match diagnostics::last_said(diagnostics::lines_of(log@)) {
            Some(line) => match diagnostics::zip_name_of_line(line) {
                Some(name) => r@ == name,
                None => r@ == "foxy_logs.zip"@,
            },
            None => r@ == "foxy_logs.zip"@,
        },
{
}

/// An archived text has the lines it was made of, in their order, with a line
/// feed between each two.
pub proof fn law_archived_lines_are_joined(lines: Vec<String>, r: String)
    requires
        call_ensures(archived_text, (&lines,), r),
        lines@.len() > 0,
        forall|i: int| 0 <= i < lines@.len() ==> !(#[trigger] lines@[i])@.contains('\n'),
    ensures
        text::split_on(r@, '\n') == text::views(lines@),
{
    reveal_strlit("\n");
    assert("\n"@ =~= seq!['\n']);
    let parts = text::views(lines@);
    assert forall|i: int| 0 <= i < parts.len() implies !(#[trigger] parts[i]).contains('\n') by {
        assert(parts[i] == lines@[i]@);
    }
    text_laws::law_splitting_undoes_joining(parts, '\n');
}

} // verus!
