//! Side-by-side comparison of two benchmarks, and the fill below a line.

use vstd::prelude::*;

use crate::repository;
use crate::settings::benchmarks::list;
use crate::settings::benchmarks::record::BenchmarkRecord;
use crate::settings::benchmarks::series;
use crate::settings::benchmarks::series::{ChartDef, ChartSeries, SeriesModel, YUnit};
use crate::text;
use crate::text::{concat, decimal_text, same_text};

verus! {

broadcast use vstd::string::group_string_axioms;

// ---------------------------------------------------------------------------
// Cards
// ---------------------------------------------------------------------------

/// The rows of the card of a compared record.
pub open spec fn card_rows_of(r: BenchmarkRecord) -> Seq<(Seq<char>, Seq<char>)> {
    seq![
        ("Repository"@, r.repository.name@),
        ("Build"@, r.build.version@ + " "@ + r.build.commit@),
        ("Repository storage"@, r.machine.repository_storage_class@),
        ("Hash profile"@, r.machine.hash_io_profile@),
        ("CPU"@, r.machine.cpu@ + " x"@ + text::decimal(r.machine.cpu_cores as nat)),
    ]
}

/// The rows of the card of a compared record.
pub fn card_rows(record: &BenchmarkRecord) -> (rows: Vec<(&'static str, String)>)
    ensures
        list::chip_models(rows@) == card_rows_of(*record),
{
    let mut build: String = concat(record.build.version.as_str(), " ");
    build.append(record.build.commit.as_str());
    let mut cpu: String = concat(record.machine.cpu.as_str(), " x");
    cpu.append(decimal_text(record.machine.cpu_cores as u128).as_str());
    let mut rows: Vec<(&'static str, String)> = Vec::new();
    rows.push(("Repository", record.repository.name.clone()));
    rows.push(("Build", build));
    rows.push(("Repository storage", record.machine.repository_storage_class.clone()));
    rows.push(("Hash profile", record.machine.hash_io_profile.clone()));
    rows.push(("CPU", cpu));
    assert(list::chip_models(rows@) =~= card_rows_of(*record));
    rows
}

/// Whether two compared records have stages to show.
pub fn stages_compare(a: &BenchmarkRecord, b: &BenchmarkRecord) -> (r: bool)
    ensures
        r == (a.stages@.len() > 0 || b.stages@.len() > 0),
{
    a.stages.len() > 0 || b.stages.len() > 0
}

// ---------------------------------------------------------------------------
// Speed of light
// ---------------------------------------------------------------------------

/// An operation of a record and the names of its parts.
#[derive(Debug)]
pub struct SolOperation {
    pub op: String,
    pub sub_parts: Vec<String>,
}

/// A row of the comparison: an operation as a whole, or a part of it.
pub type SolRow = (String, Option<String>);

/// What a row of the comparison is.
pub open spec fn row_model(r: SolRow) -> (Seq<char>, Option<Seq<char>>) {
    (r.0@, repository::opt_view(r.1))
}

/// What rows of the comparison are.
pub open spec fn row_models(v: Seq<SolRow>) -> Seq<(Seq<char>, Option<Seq<char>>)> {
    Seq::new(v.len(), |i: int| row_model(v[i]))
}

/// The rows of an operation: the operation, then its parts.
pub open spec fn operation_rows(s: SolOperation) -> Seq<(Seq<char>, Option<Seq<char>>)> {
    Seq::new(
        s.sub_parts@.len() + 1,
        |i: int|
            (
                s.op@,
                if i == 0 {
                    None
                } else {
                    Some(s.sub_parts@[i - 1]@)
                },
            ),
    )
}

/// The rows of the first `n` operations, one after the other.
pub open spec fn all_rows(s: Seq<SolOperation>, n: int) -> Seq<(Seq<char>, Option<Seq<char>>)>
    decreases n,
{
    if n <= 0 {
        Seq::empty()
    } else {
        all_rows(s, n - 1) + operation_rows(s[n - 1])
    }
}

/// Rows in the order in which they are first seen.
pub open spec fn first_seen(rows: Seq<(Seq<char>, Option<Seq<char>>)>) -> Seq<
    (Seq<char>, Option<Seq<char>>),
>
    decreases rows.len(),
{
    if rows.len() == 0 {
        Seq::empty()
    } else {
        let head = first_seen(rows.drop_last());
        if head.contains(rows.last()) {
            head
        } else {
            head.push(rows.last())
        }
    }
}

/// Whether two parts are the same.
fn same_part(a: &Option<String>, b: &Option<String>) -> (r: bool)
    ensures
        r == (repository::opt_view(*a) == repository::opt_view(*b)),
{
    match (a, b) {
        (Some(a), Some(b)) => same_text(a.as_str(), b.as_str()),
        (None, None) => true,
        _ => false,
    }
}

/// Adds a row that was not seen before.
fn see_row(rows: &mut Vec<SolRow>, op: &String, part: Option<String>)
    ensures
        row_models(final(rows)@) == if row_models(old(rows)@).contains(
            (op@, repository::opt_view(part)),
        ) {
            row_models(old(rows)@)
        } else {
            row_models(old(rows)@).push((op@, repository::opt_view(part)))
        },
{
    let ghost all = row_models(rows@);
    let ghost wanted = (op@, repository::opt_view(part));
    let mut i: usize = 0;
    while i < rows.len()
        invariant
            all == row_models(rows@),
            wanted == (op@, repository::opt_view(part)),
            i <= rows@.len(),
            forall|j: int| 0 <= j < i ==> all[j] != wanted,
            *rows == *old(rows),
        decreases rows@.len() - i,
    {
        assert(all[i as int] == row_model(rows@[i as int]));
        if same_text(rows[i].0.as_str(), op.as_str()) && same_part(&rows[i].1, &part) {
            assert(all.contains(wanted));
            return;
        }
        i = i + 1;
    }
    rows.push((op.clone(), part));
    assert(row_models(rows@) =~= all.push(wanted));
}

/// Adds the rows of operations that were not seen before.
fn see_operations(rows: &mut Vec<SolRow>, operations: &Vec<SolOperation>, Ghost(earlier): Ghost<
    Seq<(Seq<char>, Option<Seq<char>>)>,
>)
    requires
        row_models(old(rows)@) == first_seen(earlier),
    ensures
        row_models(final(rows)@) == first_seen(
            earlier + all_rows(operations@, operations@.len() as int),
        ),
{
    let mut n: usize = 0;
    assert(earlier + all_rows(operations@, 0) =~= earlier);
    while n < operations.len()
        invariant
            n <= operations@.len(),
            row_models(rows@) == first_seen(earlier + all_rows(operations@, n as int)),
        decreases operations@.len() - n,
    {
        let s: &SolOperation = &operations[n];
        let ghost before = earlier + all_rows(operations@, n as int);
        let ghost own = operation_rows(*s);
        proof {
            let now = before + own.take(1);
            assert(now.drop_last() =~= before);
            assert(now.last() == own[0]);
        }
        see_row(rows, &s.op, None);
        let mut i: usize = 0;
        while i < s.sub_parts.len()
            invariant
                i <= s.sub_parts@.len(),
                own == operation_rows(*s),
                row_models(rows@) == first_seen(before + own.take(i + 1)),
            decreases s.sub_parts@.len() - i,
        {
            proof {
                let now = before + own.take(i + 2);
                assert(now.drop_last() =~= before + own.take(i + 1));
                assert(now.last() == own[i + 1]);
            }
            see_row(rows, &s.op, Some(s.sub_parts[i].clone()));
            i = i + 1;
        }
        proof {
            assert(own.take(own.len() as int) =~= own);
            assert(before + own =~= earlier + all_rows(operations@, n + 1));
        }
        n = n + 1;
    }
}

/// The rows of the comparison: the operations and parts of both records, in
/// the order in which they are first seen.
pub fn comparison_rows(a: &Vec<SolOperation>, b: &Vec<SolOperation>) -> (rows: Vec<SolRow>)
    ensures
        row_models(rows@) == first_seen(
            all_rows(a@, a@.len() as int) + all_rows(b@, b@.len() as int),
        ),
{
    let mut rows: Vec<SolRow> = Vec::new();
    let ghost none = Seq::<(Seq<char>, Option<Seq<char>>)>::empty();
    assert(row_models(rows@) =~= first_seen(none));
    see_operations(&mut rows, a, Ghost(none));
    assert(none + all_rows(a@, a@.len() as int) =~= all_rows(a@, a@.len() as int));
    see_operations(&mut rows, b, Ghost(all_rows(a@, a@.len() as int)));
    rows
}

/// The first operation with a name, from `i` on.
pub open spec fn operation_at(s: Seq<SolOperation>, op: Seq<char>, i: int) -> Option<int>
    decreases s.len() - i,
{
    if i >= s.len() {
        None
    } else if s[i].op@ == op {
        Some(i)
    } else {
        operation_at(s, op, i + 1)
    }
}

/// The first part with a name, from `i` on.
pub open spec fn part_at(parts: Seq<String>, name: Seq<char>, i: int) -> Option<int>
    decreases parts.len() - i,
{
    if i >= parts.len() {
        None
    } else if parts[i]@ == name {
        Some(i)
    } else {
        part_at(parts, name, i + 1)
    }
}

/// Where a record has what a row compares: the operation, and the part if the
/// row is one of a part.
pub open spec fn cell_at(
    s: Seq<SolOperation>,
    row: (Seq<char>, Option<Seq<char>>),
) -> Option<(int, Option<int>)> {
    match operation_at(s, row.0, 0) {
        None => None,
        Some(i) => match row.1 {
            None => Some((i, None)),
            Some(name) => match part_at(s[i].sub_parts@, name, 0) {
                Some(j) => Some((i, Some(j))),
                None => None,
            },
        },
    }
}

/// Where a record has what a row compares.
pub fn comparison_cell(operations: &Vec<SolOperation>, row: &SolRow) -> (r: Option<
    (usize, Option<usize>),
>)
    ensures
        match r {
            Some((i, Some(j))) => cell_at(operations@, row_model(*row)) == Some(
                (i as int, Some(j as int)),
            ),
            Some((i, None)) => cell_at(operations@, row_model(*row)) == Some((i as int, None::<int>)),
            None => cell_at(operations@, row_model(*row)) is None,
        },
{
    let ghost op = row.0@;
    let mut i: usize = 0;
    while i < operations.len()
        invariant
            op == row.0@,
            i <= operations@.len(),
            operation_at(operations@, op, 0) == operation_at(operations@, op, i as int),
        decreases operations@.len() - i,
    {
        if same_text(operations[i].op.as_str(), row.0.as_str()) {
            let parts: &Vec<String> = &operations[i].sub_parts;
            match &row.1 {
                None => return Some((i, None)),
                Some(name) => {
                    let mut j: usize = 0;
                    while j < parts.len()
                        invariant
                            i < operations@.len(),
                            *parts == operations@[i as int].sub_parts,
                            operation_at(operations@, op, 0) == Some(i as int),
                            op == row.0@,
                            row.1 == Some(*name),
                            j <= parts@.len(),
                            part_at(parts@, name@, 0) == part_at(parts@, name@, j as int),
                        decreases parts@.len() - j,
                    {
                        if same_text(parts[j].as_str(), name.as_str()) {
                            return Some((i, Some(j)));
                        }
                        j = j + 1;
                    }
                    return None;
                },
            }
        }
        i = i + 1;
    }
    None
}

/// The label of a row: its operation, or its operation and the translated name
/// of a part.
pub open spec fn row_label_of(op: Seq<char>, part: Option<Seq<char>>) -> Seq<char> {
    match part {
        Some(name) => op + " / "@ + name,
        None => op,
    }
}

/// The label of a row: its operation, or its operation and the translated name
/// of a part.
pub fn row_label(op: &str, part: &Option<String>) -> (r: String)
    ensures
        r@ == row_label_of(op@, repository::opt_view(*part)),
{
    match part {
        Some(name) => {
            let mut s: String = concat(op, " / ");
            s.append(name.as_str());
            s
        },
        None => op.to_owned(),
    }
}

/// What is said of a ratio that is known: its kind and where its light comes
/// from.
pub fn ratio_source(kind: &str, light_source: &str) -> (r: String)
    ensures
        r@ == kind@ + " \u{00B7} "@ + light_source@,
{
    let mut s: String = concat(kind, " \u{00B7} ");
    s.append(light_source);
    s
}

/// What is said of a ratio that is not known: why, and what it would be.
pub open spec fn missing_ratio_of(reason: Seq<char>, raw: Option<Seq<char>>) -> Seq<char> {
    reason + " \u{00B7} raw "@ + match raw {
        Some(raw) => raw,
        None => "n/a"@,
    }
}

/// What is said of a ratio that is not known. `raw` is what it would be, as
/// text.
pub fn missing_ratio(reason: &str, raw: &Option<String>) -> (r: String)
    ensures
        r@ == missing_ratio_of(reason@, repository::opt_view(*raw)),
{
    let mut s: String = concat(reason, " \u{00B7} raw ");
    match raw {
        Some(raw) => s.append(raw.as_str()),
        None => s.append("n/a"),
    }
    s
}

/// What is said of the kinds of two ratios, given what is said of each.
pub open spec fn kind_text_of(a: Seq<char>, b: Seq<char>) -> Seq<char> {
    if a == b || b.len() == 0 {
        a
    } else if a.len() == 0 {
        b
    } else {
        "A "@ + a + "; B "@ + b
    }
}

/// What is said of the kinds of two ratios: once if they agree or only one of
/// them is known.
pub fn kind_text(a: &str, b: &str) -> (r: String)
    ensures
        r@ == kind_text_of(a@, b@),
{
    if same_text(a, b) || b.is_empty() {
        a.to_owned()
    } else if a.is_empty() {
        b.to_owned()
    } else {
        let mut s: String = concat("A ", a);
        s.append("; B ");
        s.append(b);
        s
    }
}

/// Every row of the comparison is one of an operation or a part of one of the
/// records, each stands there once, and none is missing.
pub proof fn law_comparison_has_every_row(rows: Seq<(Seq<char>, Option<Seq<char>>)>)
    ensures
        forall|r: (Seq<char>, Option<Seq<char>>)|
            rows.contains(r) <==> #[trigger] first_seen(rows).contains(r),
        first_seen(rows).no_duplicates(),
    decreases rows.len(),
{
    if rows.len() > 0 {
        let before = rows.drop_last();
        let head = first_seen(before);
        law_comparison_has_every_row(before);
        assert forall|r: (Seq<char>, Option<Seq<char>>)|
            rows.contains(r) <==> #[trigger] first_seen(rows).contains(r) by {
            if rows.contains(r) {
                let k = choose|k: int| 0 <= k < rows.len() && rows[k] == r;
                if k < before.len() {
                    assert(before[k] == r);
                    assert(before.contains(r));
                    assert(head.contains(r));
                    let h = choose|h: int| 0 <= h < head.len() && head[h] == r;
                    assert(first_seen(rows)[h] == r);
                } else if !head.contains(r) {
                    assert(first_seen(rows).last() == r);
                }
            }
            if first_seen(rows).contains(r) {
                let h = choose|h: int| 0 <= h < first_seen(rows).len() && first_seen(rows)[h] == r;
                if h < head.len() {
                    assert(head[h] == r);
                    assert(head.contains(r));
                    assert(before.contains(r));
                    let k = choose|k: int| 0 <= k < before.len() && before[k] == r;
                    assert(rows[k] == r);
                } else {
                    assert(rows.last() == r);
                }
            }
        }
    }
}

// ---------------------------------------------------------------------------
// Charts of both records
// ---------------------------------------------------------------------------

/// A chart with the lines of both records.
#[derive(Debug)]
pub struct MergedChart {
    pub title: &'static str,
    pub unit: YUnit,
    pub series: Vec<ChartSeries>,
}

/// What a chart with the lines of both records is.
#[verifier::ext_equal]
pub struct MergedModel {
    pub title: Seq<char>,
    pub unit: YUnit,
    pub series: Seq<SeriesModel>,
}

/// What charts with the lines of both records are.
pub open spec fn merged_models(v: Seq<MergedChart>) -> Seq<MergedModel> {
    Seq::new(
        v.len(),
        |i: int|
            MergedModel {
                title: v[i].title@,
                unit: v[i].unit,
                series: series::series_models(v[i].series@),
            },
    )
}

/// The keys of the charts of both records: those of the first, then those that
/// only the second has.
pub open spec fn merged_keys(a: Seq<ChartDef>, b: Seq<ChartDef>) -> Seq<Seq<char>>
    decreases b.len(),
{
    if b.len() == 0 {
        Seq::new(a.len(), |i: int| a[i].key@)
    } else {
        let head = merged_keys(a, b.drop_last());
        if head.contains(b.last().key@) {
            head
        } else {
            head.push(b.last().key@)
        }
    }
}

/// The first chart with a key, from `i` on.
pub open spec fn chart_with(charts: Seq<ChartDef>, key: Seq<char>, i: int) -> Option<int>
    decreases charts.len() - i,
{
    if i >= charts.len() {
        None
    } else if charts[i].key@ == key {
        Some(i)
    } else {
        chart_with(charts, key, i + 1)
    }
}

/// The lines of the chart with a key; none if there is no such chart.
pub open spec fn lines_with(charts: Seq<ChartDef>, key: Seq<char>) -> Seq<SeriesModel> {
    match chart_with(charts, key, 0) {
        Some(i) => charts[i]@.series,
        None => Seq::empty(),
    }
}

/// The chart of both records with a key, titled as in the record that has it.
pub open spec fn merged_chart(a: Seq<ChartDef>, b: Seq<ChartDef>, key: Seq<char>) -> MergedModel {
    let reference = match chart_with(a, key, 0) {
        Some(i) => a[i]@,
        None => b[chart_with(b, key, 0)->0]@,
    };
    MergedModel {
        title: reference.title,
        unit: reference.unit,
        series: lines_with(a, key) + lines_with(b, key),
    }
}

/// The position of the first chart with a key.
fn find_chart(charts: &Vec<ChartDef>, key: &str) -> (r: Option<usize>)
    ensures
        match r {
            Some(i) => i < charts@.len() && chart_with(charts@, key@, 0) == Some(i as int),
            None => chart_with(charts@, key@, 0) is None,
        },
{
    let mut i: usize = 0;
    while i < charts.len()
        invariant
            i <= charts@.len(),
            chart_with(charts@, key@, 0) == chart_with(charts@, key@, i as int),
        decreases charts@.len() - i,
    {
        if same_text(charts[i].key, key) {
            return Some(i);
        }
        i = i + 1;
    }
    None
}

/// The texts of keys.
pub open spec fn key_views(v: Seq<&'static str>) -> Seq<Seq<char>> {
    Seq::new(v.len(), |i: int| v[i]@)
}

/// The keys of the charts of both records.
fn collect_keys(a: &Vec<ChartDef>, b: &Vec<ChartDef>) -> (r: Vec<&'static str>)
    ensures
        key_views(r@) == merged_keys(a@, b@),
{
    let mut keys: Vec<&'static str> = Vec::new();
    let mut i: usize = 0;
    while i < a.len()
        invariant
            i <= a@.len(),
            key_views(keys@) =~= Seq::new(i as nat, |j: int| a@[j].key@),
        decreases a@.len() - i,
    {
        let ghost before = key_views(keys@);
        keys.push(a[i].key);
        assert(key_views(keys@) =~= before.push(a@[i as int].key@));
        i = i + 1;
    }
    let mut n: usize = 0;
    assert(b@.take(0) =~= Seq::empty());
    while n < b.len()
        invariant
            n <= b@.len(),
            key_views(keys@) == merged_keys(a@, b@.take(n as int)),
        decreases b@.len() - n,
    {
        let ghost before = key_views(keys@);
        proof {
            assert(b@.take(n + 1).drop_last() =~= b@.take(n as int));
            assert(b@.take(n + 1).last() == b@[n as int]);
        }
        let mut known: bool = false;
        let mut k: usize = 0;
        while k < keys.len()
            invariant
                n < b@.len(),
                before == key_views(keys@),
                k <= keys@.len(),
                known == before.take(k as int).contains(b@[n as int].key@),
            decreases keys@.len() - k,
        {
            let same: bool = same_text(keys[k], b[n].key);
            proof {
                let now = before.take(k + 1);
                let head = before.take(k as int);
                assert(now[k as int] == keys@[k as int]@);
                if head.contains(b@[n as int].key@) {
                    let h = choose|h: int| 0 <= h < head.len() && head[h] == b@[n as int].key@;
                    assert(now[h] == b@[n as int].key@);
                }
                if now.contains(b@[n as int].key@) && !same {
                    let h = choose|h: int| 0 <= h < now.len() && now[h] == b@[n as int].key@;
                    assert(head[h] == b@[n as int].key@);
                }
            }
            known = known || same;
            k = k + 1;
        }
        assert(before.take(before.len() as int) =~= before);
        if !known {
            keys.push(b[n].key);
            assert(key_views(keys@) =~= before.push(b@[n as int].key@));
        }
        n = n + 1;
    }
    assert(b@.take(b@.len() as int) =~= b@);
    keys
}

/// Adds the lines of a chart.
fn add_lines(series: &mut Vec<ChartSeries>, lines: &Vec<ChartSeries>)
    ensures
        series::series_models(final(series)@) == series::series_models(old(series)@)
            + series::series_models(lines@),
{
    let ghost before = series::series_models(series@);
    let ghost all = series::series_models(lines@);
    let mut i: usize = 0;
    assert(before + all.take(0) =~= before);
    while i < lines.len()
        invariant
            all == series::series_models(lines@),
            i <= lines@.len(),
            series::series_models(series@) == before + all.take(i as int),
        decreases lines@.len() - i,
    {
        let ghost now = series::series_models(series@);
        let line: ChartSeries = lines[i].clone();
        let ghost made = line@;
        series.push(line);
        proof {
            assert(series::series_models(series@) =~= now.push(made));
            assert(before + all.take(i + 1) =~= (before + all.take(i as int)).push(made));
        }
        i = i + 1;
    }
    assert(all.take(all.len() as int) =~= all);
}

/// A key of both records is the key of a chart of one of them.
proof fn lemma_key_is_somewhere(a: Seq<ChartDef>, b: Seq<ChartDef>, k: int)
    requires
        0 <= k < merged_keys(a, b).len(),
    ensures
        chart_with(a, merged_keys(a, b)[k], 0) is Some || chart_with(
            b,
            merged_keys(a, b)[k],
            0,
        ) is Some,
    decreases b.len(),
{
    if b.len() == 0 {
        lemma_chart_found(a, merged_keys(a, b)[k], 0, k);
    } else {
        let head = merged_keys(a, b.drop_last());
        if k < head.len() {
            lemma_key_is_somewhere(a, b.drop_last(), k);
            if chart_with(b.drop_last(), head[k], 0) is Some {
                let i = chart_with(b.drop_last(), head[k], 0)->0;
                lemma_chart_at(b.drop_last(), head[k], 0);
                assert(b[i] == b.drop_last()[i]);
                lemma_chart_found(b, head[k], 0, i);
            }
        } else {
            lemma_chart_found(b, b.last().key@, 0, b.len() - 1);
        }
    }
}

/// What [`chart_with`] finds has the key.
proof fn lemma_chart_at(charts: Seq<ChartDef>, key: Seq<char>, i: int)
    requires
        0 <= i,
    ensures
        chart_with(charts, key, i) matches Some(k) ==> i <= k < charts.len() && charts[k].key@
            == key,
    decreases charts.len() - i,
{
    if i < charts.len() && charts[i].key@ != key {
        lemma_chart_at(charts, key, i + 1);
    }
}

/// A chart with the key is found.
proof fn lemma_chart_found(charts: Seq<ChartDef>, key: Seq<char>, i: int, k: int)
    requires
        0 <= i <= k < charts.len(),
        charts[k].key@ == key,
    ensures
        chart_with(charts, key, i) is Some,
    decreases k - i,
{
    if charts[i].key@ != key {
        lemma_chart_found(charts, key, i + 1, k);
    }
}

/// The charts of both records, with the lines of both in each.
pub fn merge_charts(a: &Vec<ChartDef>, b: &Vec<ChartDef>) -> (r: Vec<MergedChart>)
    ensures
        merged_models(r@) == Seq::new(
            merged_keys(a@, b@).len(),
            |k: int| merged_chart(a@, b@, merged_keys(a@, b@)[k]),
        ),
{
    let keys: Vec<&'static str> = collect_keys(a, b);
    let ghost all = merged_keys(a@, b@);
    let mut merged: Vec<MergedChart> = Vec::new();
    let mut k: usize = 0;
    while k < keys.len()
        invariant
            key_views(keys@) == all,
            all == merged_keys(a@, b@),
            k <= keys@.len(),
            merged_models(merged@) =~= Seq::new(
                k as nat,
                |j: int| merged_chart(a@, b@, all[j]),
            ),
        decreases keys@.len() - k,
    {
        let ghost before = merged_models(merged@);
        let key: &'static str = keys[k];
        proof {
            assert(key@ == all[k as int]);
            lemma_key_is_somewhere(a@, b@, k as int);
        }
        let in_a: Option<usize> = find_chart(a, key);
        let in_b: Option<usize> = find_chart(b, key);
        let mut lines: Vec<ChartSeries> = Vec::new();
        assert(series::series_models(lines@) =~= Seq::empty());
        if let Some(i) = in_a {
            add_lines(&mut lines, &a[i].series);
        }
        proof {
            assert(series::series_models(lines@) =~= lines_with(a@, key@));
        }
        if let Some(i) = in_b {
            add_lines(&mut lines, &b[i].series);
        }
        proof {
            assert(series::series_models(lines@) =~= lines_with(a@, key@) + lines_with(b@, key@));
        }
        let (title, unit): (&'static str, YUnit) = match in_a {
            Some(i) => (a[i].title, a[i].unit),
            None => match in_b {
                Some(i) => (b[i].title, b[i].unit),
                None => {
                    assert(false);
                    ("", YUnit::Count)
                },
            },
        };
        merged.push(MergedChart { title, unit, series: lines });
        assert(merged_models(merged@) =~= before.push(merged_chart(a@, b@, key@)));
        k = k + 1;
    }
    assert(key_views(keys@).len() == keys@.len());
    merged
}

// ---------------------------------------------------------------------------
// Fill
// ---------------------------------------------------------------------------

/// The triangles between a line of `n` points and the floor. Corner `2 i` is
/// point `i`, corner `2 i + 1` the floor below it.
pub open spec fn fill_triangles(n: int) -> Seq<(u32, u32, u32)>
    decreases n,
{
    if n <= 1 {
        Seq::empty()
    } else {
        let top = 2 * (n - 1);
        fill_triangles(n - 1).push(
            ((top - 2) as u32, (top - 1) as u32, top as u32),
        ).push(((top - 1) as u32, (top + 1) as u32, top as u32))
    }
}

/// The triangles between a line of `points` points and the floor.
pub fn area_triangles(points: u32) -> (r: Vec<(u32, u32, u32)>)
    requires
        points <= 0x7fff_ffff,
    ensures
        r@ == fill_triangles(points as int),
{
    let mut triangles: Vec<(u32, u32, u32)> = Vec::new();
    let mut index: u32 = 1;
    while index < points
        invariant
            points <= 0x7fff_ffff,
            1 <= index,
            index <= points || points == 0,
            triangles@ == fill_triangles(
                if points == 0 {
                    0
                } else {
                    index as int
                },
            ),
        decreases points - index,
    {
        let top: u32 = index * 2;
        let bottom: u32 = index * 2 + 1;
        triangles.push((top - 2, bottom - 2, top));
        triangles.push((bottom - 2, bottom, top));
        index = index + 1;
    }
    triangles
}

/// The fill covers every piece of the line with two triangles, and uses no
/// corner that is not there.
pub proof fn law_fill_covers_the_line(n: int)
    requires
        1 <= n <= 0x7fff_ffff,
    ensures
        fill_triangles(n).len() == 2 * (n - 1),
        forall|t: int|
            0 <= t < fill_triangles(n).len() ==> (#[trigger] fill_triangles(n)[t]).0 < 2 * n
                && fill_triangles(n)[t].1 < 2 * n && fill_triangles(n)[t].2 < 2 * n,
        forall|i: int|
            1 <= i < n ==> #[trigger] fill_triangles(n)[2 * i - 2] == (
                (2 * i - 2) as u32,
                (2 * i - 1) as u32,
                (2 * i) as u32,
            ) && fill_triangles(n)[2 * i - 1] == (
                (2 * i - 1) as u32,
                (2 * i + 1) as u32,
                (2 * i) as u32,
            ),
    decreases n,
{
    if n > 1 {
        law_fill_covers_the_line(n - 1);
        let before = fill_triangles(n - 1);
        let all = fill_triangles(n);
        assert forall|i: int| 1 <= i < n implies #[trigger] all[2 * i - 2] == (
            (2 * i - 2) as u32,
            (2 * i - 1) as u32,
            (2 * i) as u32,
        ) && all[2 * i - 1] == ((2 * i - 1) as u32, (2 * i + 1) as u32, (2 * i) as u32) by {
            if i < n - 1 {
                assert(all[2 * i - 2] == before[2 * i - 2]);
                assert(all[2 * i - 1] == before[2 * i - 1]);
            }
        }
        assert forall|t: int| 0 <= t < all.len() implies (#[trigger] all[t]).0 < 2 * n && all[t].1
            < 2 * n && all[t].2 < 2 * n by {
            if t < before.len() {
                assert(all[t] == before[t]);
            }
        }
    }
}

} // verus!
