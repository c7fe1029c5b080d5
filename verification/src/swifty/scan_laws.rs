//! What a scan of Swifty settings files gives back of them, and what a
//! launch-parameter line means.

use vstd::prelude::*;

use crate::repository::{LaunchFlag, LaunchFlags, RepositoryModel};
use crate::swifty::places;
use crate::swifty::places::{Platform, UserFolders};
use crate::swifty::scanner;
use crate::swifty::scanner::{SettingsFile, SwiftyRepoEntry, SwiftySettings};
use crate::swifty::types::DetectedModel;
use crate::text;

verus! {

broadcast use vstd::string::group_string_axioms;

// ---------------------------------------------------------------------------
// Settings files
// ---------------------------------------------------------------------------

/// Whether `folder` is the first of some folders that is not blank, or nothing
/// if all are.
pub open spec fn is_first_usable(folder: Seq<char>, paths: Seq<String>) -> bool {
    ||| folder.len() == 0 && forall|i: int|
        0 <= i < paths.len() ==> text::is_blank((#[trigger] paths[i])@)
    ||| exists|i: int|
        {
            &&& 0 <= i < paths.len()
            &&& (#[trigger] paths[i])@ == folder
            &&& !text::is_blank(folder)
            &&& forall|j: int| 0 <= j < i ==> text::is_blank((#[trigger] paths[j])@)
        }
}

/// Whether a detected repository is what an entry of some settings says. What
/// the entry leaves blank is filled in: the name from the address, the folder
/// from the addon folders of the settings.
pub open spec fn stands_for(d: DetectedModel, s: SwiftySettings, e: SwiftyRepoEntry) -> bool {
    &&& d.address == e.address@
    &&& d.parameters == e.parameters@
    &&& d.autocheck == e.autocheck
    &&& d.selected
    &&& !text::is_blank(e.name@) ==> d.name == e.name@
    &&& text::is_blank(e.name@) ==> d.name == scanner::name_of(e.address@)
    &&& !text::is_blank(e.mod_folder@) ==> d.mod_folder == e.mod_folder@
    &&& text::is_blank(e.mod_folder@) ==> is_first_usable(d.mod_folder, s.addons_paths@)
}

/// What fills in for a missing folder is the first addon folder that is not
/// blank.
pub proof fn law_fallback_is_the_first_usable_folder(paths: Seq<String>)
    ensures
        is_first_usable(scanner::first_folder(paths), paths),
    decreases paths.len(),
{
    let folder = scanner::first_folder(paths);
    if paths.len() > 0 {
        if !text::is_blank(paths[0]@) {
            assert(paths[0]@ == folder);
        } else {
            let rest = paths.skip(1);
            law_fallback_is_the_first_usable_folder(rest);
            if forall|i: int| 0 <= i < rest.len() ==> text::is_blank((#[trigger] rest[i])@) {
                assert forall|i: int| 0 <= i < paths.len() implies text::is_blank(
                    (#[trigger] paths[i])@,
                ) by {
                    if i > 0 {
                        assert(rest[i - 1] == paths[i]);
                    }
                }
                if folder.len() > 0 {
                    let i = choose|i: int|
                        {
                            &&& 0 <= i < rest.len()
                            &&& (#[trigger] rest[i])@ == folder
                            &&& !text::is_blank(folder)
                            &&& forall|j: int|
                                0 <= j < i ==> text::is_blank((#[trigger] rest[j])@)
                        };
                    assert(text::is_blank(rest[i]@));
                }
            } else {
                let i = choose|i: int|
                    {
                        &&& 0 <= i < rest.len()
                        &&& (#[trigger] rest[i])@ == folder
                        &&& !text::is_blank(folder)
                        &&& forall|j: int| 0 <= j < i ==> text::is_blank((#[trigger] rest[j])@)
                    };
                assert(paths[i + 1] == rest[i]);
                assert forall|j: int| 0 <= j < i + 1 implies text::is_blank(
                    (#[trigger] paths[j])@,
                ) by {
                    if j > 0 {
                        assert(rest[j - 1] == paths[j]);
                    }
                }
            }
        }
    }
}

/// A repository that names a folder keeps it, whatever the addon folders are;
/// one that names none gets the first addon folder that is not blank. All else
/// that an entry says is taken over as it stands.
pub proof fn law_entry_is_taken_over(s: SwiftySettings, e: SwiftyRepoEntry)
    ensures
        stands_for(scanner::detected(e, scanner::first_folder(s.addons_paths@)), s, e),
{
    law_fallback_is_the_first_usable_folder(s.addons_paths@);
}

/// How many entries have an address.
pub open spec fn addressed(entries: Seq<SwiftyRepoEntry>) -> nat
    decreases entries.len(),
{
    if entries.len() == 0 {
        0
    } else {
        addressed(entries.skip(1)) + if text::is_blank(entries[0].address@) {
            0nat
        } else {
            1nat
        }
    }
}

proof fn lemma_addressed_last(entries: Seq<SwiftyRepoEntry>)
    requires
        entries.len() > 0,
    ensures
        addressed(entries) == addressed(entries.drop_last()) + if text::is_blank(
            entries.last().address@,
        ) {
            0nat
        } else {
            1nat
        },
    decreases entries.len(),
{
    reveal_with_fuel(addressed, 2);
    if entries.len() > 1 {
        lemma_addressed_last(entries.skip(1));
        assert(entries.skip(1).last() == entries.last());
        assert(entries.drop_last()[0] == entries[0]);
        assert(entries.skip(1).drop_last() =~= entries.drop_last().skip(1));
    } else {
        assert(entries.skip(1).len() == 0);
        assert(entries.drop_last().len() == 0);
    }
}

/// The settings of a file: every entry with an address gives one repository, at
/// the place that the number of such entries before it says.
pub proof fn law_every_addressed_entry_is_detected(s: SwiftySettings, i: int)
    requires
        0 <= i < s.repositories@.len(),
        !text::is_blank(s.repositories@[i].address@),
    ensures
        ({
            let found = scanner::detected_entries(
                s.repositories@,
                scanner::first_folder(s.addons_paths@),
            );
            let at = addressed(s.repositories@.take(i)) as int;
            &&& found.len() == addressed(s.repositories@)
            &&& 0 <= at < found.len()
            &&& stands_for(found[at], s, s.repositories@[i])
        }),
{
    let e = s.repositories@;
    let fallback = scanner::first_folder(s.addons_paths@);
    lemma_detected_count(e, fallback);
    lemma_detected_at(e, fallback, i);
    law_entry_is_taken_over(s, e[i]);
}

proof fn lemma_detected_count(entries: Seq<SwiftyRepoEntry>, fallback: Seq<char>)
    ensures
        scanner::detected_entries(entries, fallback).len() == addressed(entries),
    decreases entries.len(),
{
    if entries.len() > 0 {
        lemma_detected_count(entries.drop_last(), fallback);
        lemma_addressed_last(entries);
    }
}

proof fn lemma_detected_at(entries: Seq<SwiftyRepoEntry>, fallback: Seq<char>, i: int)
    requires
        0 <= i < entries.len(),
        !text::is_blank(entries[i].address@),
    ensures
        ({
            let found = scanner::detected_entries(entries, fallback);
            let at = addressed(entries.take(i)) as int;
            0 <= at < found.len() && found[at] == scanner::detected(entries[i], fallback)
        }),
    decreases entries.len(),
{
    let head = entries.drop_last();
    lemma_detected_count(head, fallback);
    if i < head.len() {
        lemma_detected_at(head, fallback, i);
        assert(head.take(i) =~= entries.take(i));
    } else {
        assert(entries.take(i) =~= head);
    }
}

/// A scan reads its files one after the other: what the files of two lists
/// describe is what the first describe, followed by what the second describe.
pub proof fn law_scans_add_up(a: Seq<SettingsFile>, b: Seq<SettingsFile>)
    ensures
        scanner::detected_in(a + b) == scanner::detected_in(a) + scanner::detected_in(b),
    decreases b.len(),
{
    if b.len() == 0 {
        assert(a + b =~= a);
        assert(scanner::detected_in(a) + scanner::detected_in(b) =~= scanner::detected_in(a));
    } else {
        law_scans_add_up(a, b.drop_last());
        assert((a + b).drop_last() =~= a + b.drop_last());
        assert((a + b).last() == b.last());
        assert(scanner::detected_in(a + b) =~= scanner::detected_in(a) + scanner::detected_in(b));
    }
}

/// Nothing that a settings file describes is lost, whatever the other files
/// are: each entry with an address is among the repositories of the scan.
pub proof fn law_scan_finds_every_repository(
    files: Seq<SettingsFile>,
    f: int,
    s: SwiftySettings,
    i: int,
)
    requires
        0 <= f < files.len(),
        files[f] == SettingsFile::Parsed(s),
        0 <= i < s.repositories@.len(),
        !text::is_blank(s.repositories@[i].address@),
    ensures
        exists|k: int|
            0 <= k < scanner::detected_in(files).len() && stands_for(
                #[trigger] scanner::detected_in(files)[k],
                s,
                s.repositories@[i],
            ),
{
    let before = files.take(f);
    let one = seq![files[f]];
    let after = files.skip(f + 1);
    assert(files =~= before + one + after);
    law_scans_add_up(before + one, after);
    law_scans_add_up(before, one);
    assert(one.drop_last() =~= Seq::empty());
    assert(scanner::detected_in(one.drop_last()).len() == 0);
    law_every_addressed_entry_is_detected(s, i);
    let own = scanner::detected_entries(s.repositories@, scanner::first_folder(s.addons_paths@));
    assert(scanner::detected_in(one) =~= own);
    let k = scanner::detected_in(before).len() + addressed(s.repositories@.take(i)) as int;
    assert(scanner::detected_in(files)[k] == own[addressed(s.repositories@.take(i)) as int]);
}

/// A scan makes nothing up: each repository of it is an entry of one of the
/// files.
pub proof fn law_scan_makes_nothing_up(files: Seq<SettingsFile>, k: int)
    requires
        0 <= k < scanner::detected_in(files).len(),
    ensures
        exists|f: int, i: int|
            {
                &&& 0 <= f < files.len()
                &&& files[f] matches SettingsFile::Parsed(s)
                &&& 0 <= i < s.repositories@.len()
                &&& !text::is_blank(s.repositories@[i].address@)
                &&& #[trigger] entry_of(files, f, i, scanner::detected_in(files)[k])
            },
    decreases files.len(),
{
    let head = scanner::detected_in(files.drop_last());
    if k < head.len() {
        law_scan_makes_nothing_up(files.drop_last(), k);
        let (f, i) = choose|f: int, i: int|
            {
                &&& 0 <= f < files.drop_last().len()
                &&& files.drop_last()[f] matches SettingsFile::Parsed(s)
                &&& 0 <= i < s.repositories@.len()
                &&& !text::is_blank(s.repositories@[i].address@)
                &&& #[trigger] entry_of(files.drop_last(), f, i, head[k])
            };
        assert(files[f] == files.drop_last()[f]);
        assert(entry_of(files, f, i, scanner::detected_in(files)[k]));
    } else {
        match files.last() {
            SettingsFile::Parsed(s) => {
                let fallback = scanner::first_folder(s.addons_paths@);
                let own = scanner::detected_entries(s.repositories@, fallback);
                assert(scanner::detected_in(files)[k] == own[k - head.len()]);
                let i = lemma_detected_from(s.repositories@, fallback, k - head.len());
                law_entry_is_taken_over(s, s.repositories@[i]);
                assert(entry_of(files, files.len() - 1, i, scanner::detected_in(files)[k]));
            },
            _ => {},
        }
    }
}

/// Whether a detected repository is the entry `i` of the file `f`.
pub open spec fn entry_of(files: Seq<SettingsFile>, f: int, i: int, d: DetectedModel) -> bool {
    files[f] matches SettingsFile::Parsed(s) && stands_for(d, s, s.repositories@[i])
}

proof fn lemma_detected_from(
    entries: Seq<SwiftyRepoEntry>,
    fallback: Seq<char>,
    k: int,
) -> (i: int)
    requires
        0 <= k < scanner::detected_entries(entries, fallback).len(),
    ensures
        0 <= i < entries.len(),
        !text::is_blank(entries[i].address@),
        scanner::detected_entries(entries, fallback)[k] == scanner::detected(entries[i], fallback),
    decreases entries.len(),
{
    let head = scanner::detected_entries(entries.drop_last(), fallback);
    if k < head.len() {
        lemma_detected_from(entries.drop_last(), fallback, k)
    } else {
        entries.len() - 1
    }
}

/// Whether a file names an Arma 3 directory.
pub open spec fn names_arma(file: SettingsFile) -> bool {
    file matches SettingsFile::Parsed(s) && !text::is_blank(s.arma_path@)
}

/// Whether a file names a temporary directory.
pub open spec fn names_temp(file: SettingsFile) -> bool {
    file matches SettingsFile::Parsed(s) && !text::is_blank(s.temp_path@)
}

/// The directories that a scan reports are those of the first file that names
/// one, without the white space around them, each its own.
pub proof fn law_first_directories_win(files: Seq<SettingsFile>, f: int, s: SwiftySettings)
    requires
        0 <= f < files.len(),
        files[f] == SettingsFile::Parsed(s),
    ensures
        names_arma(files[f]) && (forall|j: int| 0 <= j < f ==> !names_arma(#[trigger] files[j]))
            ==> scanner::first_arma_path(files) == text::trimmed(s.arma_path@),
        names_temp(files[f]) && (forall|j: int| 0 <= j < f ==> !names_temp(#[trigger] files[j]))
            ==> scanner::first_temp_path(files) == text::trimmed(s.temp_path@),
    decreases files.len(),
{
    let head = files.drop_last();
    assert(forall|j: int| 0 <= j < head.len() ==> #[trigger] head[j] == files[j]);
    if f < files.len() - 1 {
        law_first_directories_win(head, f, s);
        if names_arma(files[f]) && (forall|j: int| 0 <= j < f ==> !names_arma(#[trigger] files[j])) {
            assert(scanner::first_arma_path(head) == text::trimmed(s.arma_path@));
        }
        if names_temp(files[f]) && (forall|j: int| 0 <= j < f ==> !names_temp(#[trigger] files[j])) {
            assert(scanner::first_temp_path(head) == text::trimmed(s.temp_path@));
        }
    } else {
        law_no_directory_is_made_up(head);
    }
}

/// Without a file that names a directory, a scan reports none.
pub proof fn law_no_directory_is_made_up(files: Seq<SettingsFile>)
    ensures
        (forall|j: int| 0 <= j < files.len() ==> !names_arma(#[trigger] files[j]))
            ==> scanner::first_arma_path(files).len() == 0,
        (forall|j: int| 0 <= j < files.len() ==> !names_temp(#[trigger] files[j]))
            ==> scanner::first_temp_path(files).len() == 0,
    decreases files.len(),
{
    if files.len() > 0 {
        let head = files.drop_last();
        law_no_directory_is_made_up(head);
        assert(forall|j: int| 0 <= j < head.len() ==> #[trigger] head[j] == files[j]);
        assert(files.last() == files[files.len() - 1]);
    }
}

/// A scan fails exactly if there is no settings file, be it readable or not.
pub proof fn law_scan_fails_without_a_file(files: Seq<SettingsFile>)
    ensures
        scanner::scan_error(files) is Some <==> forall|i: int|
            0 <= i < files.len() ==> (#[trigger] files[i]) is Missing,
        scanner::scan_error(files) is Some ==> scanner::detected_in(files).len() == 0,
    decreases files.len(),
{
    if files.len() > 0 {
        let head = files.drop_last();
        law_scan_fails_without_a_file(head);
        if forall|i: int| 0 <= i < files.len() ==> (#[trigger] files[i]) is Missing {
            assert forall|i: int| 0 <= i < head.len() implies (#[trigger] head[i]) is Missing by {
                assert(files[i] is Missing);
            }
            assert(files[files.len() - 1] is Missing);
        }
    }
}

// ---------------------------------------------------------------------------
// Addresses
// ---------------------------------------------------------------------------

/// The name of a repository is the last segment of its address: the address
/// ends with it, a slash comes before it, and there is no slash in it.
pub proof fn law_name_is_the_last_segment(address: Seq<char>)
    ensures
        ({
            let t = scanner::bare_address(address);
            let name = scanner::name_of(address);
            &&& name.len() <= t.len()
            &&& t.skip(t.len() - name.len()) == name
            &&& !name.contains('/')
            &&& name.len() < t.len() ==> t[t.len() - name.len() - 1] == '/'
        }),
{
    let t = scanner::bare_address(address);
    let name = scanner::name_of(address);
    text::lemma_last_char_in(t, '/', 0, t.len() as int);
    assert(t.skip(t.len() - name.len()) =~= name);
    match text::last_char_in(t, '/', 0, t.len() as int) {
        Some(pos) => {
            assert forall|j: int| 0 <= j < name.len() implies name[j] != '/' by {
                assert(name[j] == t[pos + 1 + j]);
            }
        },
        None => {},
    }
}

/// The parent of an address ends in a slash, and without it the address begins
/// with it; behind the parent there is no slash. An address without a path is
/// its own parent.
pub proof fn law_parent_ends_in_a_slash(address: Seq<char>)
    ensures
        ({
            let t = scanner::bare_address(address);
            let base = scanner::base_of(address);
            &&& base.len() >= 1
            &&& base.last() == '/'
            &&& base.len() <= t.len() + 1
            &&& base.drop_last() == t.take(base.len() - 1)
            &&& scanner::last_path_slash(t) is None ==> base == t.push('/')
            &&& scanner::last_path_slash(t) is Some ==> base == t.take(base.len() as int)
            &&& forall|j: int| base.len() <= j < t.len() ==> t[j] != '/'
        }),
{
    let t = scanner::bare_address(address);
    let base = scanner::base_of(address);
    text::lemma_found_from(t, "://"@, 0);
    text::lemma_last_char_in(t, '/', scanner::scheme_end(t), t.len() as int);
    assert(base.drop_last() =~= t.take(base.len() - 1));
    if scanner::last_path_slash(t) is Some {
        assert(base =~= t.take(base.len() as int));
    }
}

/// What is left of an address is a piece of it that has no white space at
/// either end and no slash at its end.
pub proof fn law_bare_address_is_clean(address: Seq<char>)
    ensures
        ({
            let t = scanner::bare_address(address);
            &&& t.len() > 0 ==> t.last() != '/' && !text::is_whitespace(t[0])
            &&& exists|from: int|
                0 <= from && from + t.len() <= address.len() && #[trigger] address.subrange(
                    from,
                    from + t.len(),
                ) == t
        }),
{
    let s = text::trimmed(address);
    let t = scanner::bare_address(address);
    let from = lemma_trimmed_is_a_piece(address);
    lemma_without_trailing(s, '/');
    assert(address.subrange(from, from + t.len()) =~= t);
}

proof fn lemma_without_trailing(s: Seq<char>, c: char)
    ensures
        text::without_trailing(s, c).len() <= s.len(),
        text::without_trailing(s, c) == s.take(text::without_trailing(s, c).len() as int),
        text::without_trailing(s, c).len() > 0 ==> text::without_trailing(s, c).last() != c,
        forall|i: int| text::without_trailing(s, c).len() <= i < s.len() ==> s[i] == c,
    decreases s.len(),
{
    if s.len() > 0 && s.last() == c {
        lemma_without_trailing(s.drop_last(), c);
        let r = text::without_trailing(s, c);
        assert(s.drop_last().take(r.len() as int) =~= s.take(r.len() as int));
        assert forall|i: int| r.len() <= i < s.len() implies s[i] == c by {
            if i < s.len() - 1 {
                assert(s.drop_last()[i] == c);
            }
        }
    } else {
        assert(s.take(s.len() as int) =~= s);
    }
}

/// What is left of a text after trimming is a piece of it, which has no white
/// space at either end, and nothing but white space lies around it.
pub proof fn lemma_trimmed_is_a_piece(s: Seq<char>) -> (from: int)
    ensures
        ({
            let t = text::trimmed(s);
            &&& 0 <= from
            &&& from + t.len() <= s.len()
            &&& s.subrange(from, from + t.len()) == t
            &&& t.len() > 0 ==> !text::is_whitespace(t[0]) && !text::is_whitespace(t.last())
            &&& forall|i: int| 0 <= i < from ==> text::is_whitespace(#[trigger] s[i])
            &&& forall|i: int| from + t.len() <= i < s.len() ==> text::is_whitespace(#[trigger] s[i])
        }),
    decreases s.len(),
{
    if s.len() > 0 && text::is_whitespace(s[0]) {
        let rest = s.skip(1);
        let at = lemma_trimmed_is_a_piece(rest);
        let t = text::trimmed(s);
        assert(rest.subrange(at, at + t.len()) =~= s.subrange(at + 1, at + 1 + t.len()));
        assert forall|i: int| 0 <= i < at + 1 implies text::is_whitespace(#[trigger] s[i]) by {
            if i > 0 {
                assert(text::is_whitespace(rest[i - 1]));
            }
        }
        assert forall|i: int| at + 1 + t.len() <= i < s.len() implies text::is_whitespace(
            #[trigger] s[i],
        ) by {
            assert(text::is_whitespace(rest[i - 1]));
        }
        at + 1
    } else {
        lemma_trimmed_end_is_a_piece(s);
        let t = text::trimmed(s);
        assert(s.subrange(0, t.len() as int) =~= t);
        0
    }
}

proof fn lemma_trimmed_end_is_a_piece(s: Seq<char>)
    ensures
        ({
            let t = text::trimmed_end(s);
            &&& t.len() <= s.len()
            &&& t == s.take(t.len() as int)
            &&& t.len() > 0 ==> !text::is_whitespace(t.last())
            &&& forall|i: int| t.len() <= i < s.len() ==> text::is_whitespace(#[trigger] s[i])
        }),
    decreases s.len(),
{
    let t = text::trimmed_end(s);
    if s.len() > 0 && text::is_whitespace(s.last()) {
        let head = s.drop_last();
        lemma_trimmed_end_is_a_piece(head);
        assert(head.take(t.len() as int) =~= s.take(t.len() as int));
        assert forall|i: int| t.len() <= i < s.len() implies text::is_whitespace(
            #[trigger] s[i],
        ) by {
            if i < head.len() {
                assert(text::is_whitespace(head[i]));
            }
        }
    } else {
        assert(s.take(s.len() as int) =~= s);
    }
}

// ---------------------------------------------------------------------------
// Launch parameters
// ---------------------------------------------------------------------------

/// Whether a box is ticked.
pub open spec fn is_ticked(flags: LaunchFlags, f: LaunchFlag) -> bool {
    match f {
        LaunchFlag::Csla => flags.csla,
        LaunchFlag::Ef => flags.ef,
        LaunchFlag::Gm => flags.gm,
        LaunchFlag::Rf => flags.rf,
        LaunchFlag::Spe => flags.spe,
        LaunchFlag::Vn => flags.vn,
        LaunchFlag::Ws => flags.ws,
        LaunchFlag::SkipIntro => flags.skip_intro,
        LaunchFlag::NoSplash => flags.no_splash,
        LaunchFlag::WorldEmpty => flags.world_empty,
        LaunchFlag::LoadMissionToMemory => flags.load_mission_to_memory,
        LaunchFlag::EnableHt => flags.enable_ht,
        LaunchFlag::HugePages => flags.huge_pages,
        LaunchFlag::NoLogs => flags.no_logs,
    }
}

/// The spelling of the box in lower case: that of its option, or the code of
/// its DLC.
pub open spec fn spelling(f: LaunchFlag) -> Seq<char> {
    match f {
        LaunchFlag::Csla => "csla"@,
        LaunchFlag::Ef => "ef"@,
        LaunchFlag::Gm => "gm"@,
        LaunchFlag::Rf => "rf"@,
        LaunchFlag::Spe => "spe"@,
        LaunchFlag::Vn => "vn"@,
        LaunchFlag::Ws => "ws"@,
        LaunchFlag::SkipIntro => "-skipintro"@,
        LaunchFlag::NoSplash => "-nosplash"@,
        LaunchFlag::WorldEmpty => "-world=empty"@,
        LaunchFlag::LoadMissionToMemory => "-loadmissiontomemory"@,
        LaunchFlag::EnableHt => "-enableht"@,
        LaunchFlag::HugePages => "-hugepages"@,
        LaunchFlag::NoLogs => "-nologs"@,
    }
}

/// Whether a box stands for a creator DLC.
pub open spec fn is_dlc(f: LaunchFlag) -> bool {
    f == LaunchFlag::Csla || f == LaunchFlag::Ef || f == LaunchFlag::Gm || f == LaunchFlag::Rf || f
        == LaunchFlag::Spe || f == LaunchFlag::Vn || f == LaunchFlag::Ws
}

/// Whether an argument is the option of a box. `-noLand` is another spelling of
/// `-world=empty`.
pub open spec fn is_option(arg: Seq<char>, f: LaunchFlag) -> bool {
    let lower = text::lowered(arg);
    !is_dlc(f) && (lower == spelling(f) || (f == LaunchFlag::WorldEmpty && lower == "-noland"@))
}

/// Whether an argument is a list of mods with the code of a DLC in it and only
/// codes of DLCs before that.
pub open spec fn lists_dlc(arg: Seq<char>, f: LaunchFlag) -> bool {
    let lower = text::lowered(arg);
    let codes = text::split_on(text::without_leading(lower, "-mod="@), ';');
    &&& is_dlc(f)
    &&& text::text_starts_with(lower, "-mod="@)
    &&& exists|k: int|
        {
            &&& 0 <= k < codes.len()
            &&& text::trimmed(#[trigger] codes[k]) == spelling(f)
            &&& forall|j: int| 0 <= j < k ==> is_dlc_code(text::trimmed(#[trigger] codes[j]))
        }
}

/// Whether a text is the code of a DLC.
pub open spec fn is_dlc_code(s: Seq<char>) -> bool {
    exists|f: LaunchFlag| is_dlc(f) && s == #[trigger] spelling(f)
}

/// Whether an argument says nothing but which boxes to tick.
pub open spec fn says_only_boxes(arg: Seq<char>) -> bool {
    let lower = text::lowered(arg);
    let codes = text::split_on(text::without_leading(lower, "-mod="@), ';');
    ||| exists|f: LaunchFlag| #[trigger] is_option(arg, f)
    ||| text::text_starts_with(lower, "-mod="@) && forall|j: int|
        0 <= j < codes.len() ==> is_dlc_code(text::trimmed(#[trigger] codes[j]))
}

proof fn lemma_spellings()
    ensures
        forall|f: LaunchFlag, g: LaunchFlag| #[trigger]
            spelling(f) == #[trigger] spelling(g) ==> f == g,
        forall|f: LaunchFlag| #[trigger] spelling(f) != "-noland"@,
        forall|f: LaunchFlag| is_dlc(f) ==> !text::text_starts_with(#[trigger] spelling(f), "-"@),
        !text::text_starts_with("-noland"@, "-mod="@),
        forall|f: LaunchFlag| !text::text_starts_with(#[trigger] spelling(f), "-mod="@),
{
    reveal_strlit("csla");
    reveal_strlit("ef");
    reveal_strlit("gm");
    reveal_strlit("rf");
    reveal_strlit("spe");
    reveal_strlit("vn");
    reveal_strlit("ws");
    reveal_strlit("-skipintro");
    reveal_strlit("-nosplash");
    reveal_strlit("-world=empty");
    reveal_strlit("-loadmissiontomemory");
    reveal_strlit("-enableht");
    reveal_strlit("-hugepages");
    reveal_strlit("-nologs");
    reveal_strlit("-noland");
    reveal_strlit("-mod=");
    reveal_strlit("-");
    assert forall|f: LaunchFlag, g: LaunchFlag| #[trigger] spelling(f) == #[trigger] spelling(
        g,
    ) implies f == g by {
        assert(spelling(f).len() == spelling(g).len());
        assert(spelling(f)[0] == spelling(g)[0] && spelling(f)[1] == spelling(g)[1]);
        if spelling(f).len() > 3 {
            assert(spelling(f)[3] == spelling(g)[3]);
        }
    }
    assert forall|f: LaunchFlag| #[trigger] spelling(f) != "-noland"@ by {
        if spelling(f) == "-noland"@ {
            assert(spelling(f).len() == "-noland"@.len());
            assert(spelling(f)[4] == "-noland"@[4]);
        }
    }
    assert forall|f: LaunchFlag| is_dlc(f) implies !text::text_starts_with(
        #[trigger] spelling(f),
        "-"@,
    ) by {
        if text::text_starts_with(spelling(f), "-"@) {
            assert(spelling(f).subrange(0, 1)[0] == "-"@[0]);
        }
    }
    assert("-mod="@.len() == 5);
    if text::text_starts_with("-noland"@, "-mod="@) {
        assert("-noland"@.subrange(0, 5)[1] == "-mod="@[1]);
    }
    assert forall|f: LaunchFlag| !text::text_starts_with(#[trigger] spelling(f), "-mod="@) by {
        if text::text_starts_with(spelling(f), "-mod="@) {
            assert(spelling(f).subrange(0, 5)[0] == "-mod="@[0]);
            assert(spelling(f).subrange(0, 5)[1] == "-mod="@[1]);
        }
    }
}

proof fn lemma_option_flag(arg: Seq<char>, f: LaunchFlag)
    ensures
        scanner::option_flag(text::lowered(arg)) == Some(f) <==> is_option(arg, f),
{
    lemma_spellings();
    let lower = text::lowered(arg);
    assert(forall|g: LaunchFlag| lower == #[trigger] spelling(g) ==> lower != "-noland"@);
    assert(spelling(LaunchFlag::SkipIntro) == "-skipintro"@);
    assert(spelling(LaunchFlag::NoSplash) == "-nosplash"@);
    assert(spelling(LaunchFlag::WorldEmpty) == "-world=empty"@);
    assert(spelling(LaunchFlag::LoadMissionToMemory) == "-loadmissiontomemory"@);
    assert(spelling(LaunchFlag::EnableHt) == "-enableht"@);
    assert(spelling(LaunchFlag::HugePages) == "-hugepages"@);
    assert(spelling(LaunchFlag::NoLogs) == "-nologs"@);
}

proof fn lemma_dlc_flag(s: Seq<char>, f: LaunchFlag)
    ensures
        scanner::dlc_flag(s) == Some(f) <==> is_dlc(f) && s == spelling(f),
        scanner::dlc_flag(s) is Some <==> is_dlc_code(s),
{
    lemma_spellings();
    assert(spelling(LaunchFlag::Csla) == "csla"@);
    assert(spelling(LaunchFlag::Ef) == "ef"@);
    assert(spelling(LaunchFlag::Gm) == "gm"@);
    assert(spelling(LaunchFlag::Rf) == "rf"@);
    assert(spelling(LaunchFlag::Spe) == "spe"@);
    assert(spelling(LaunchFlag::Vn) == "vn"@);
    assert(spelling(LaunchFlag::Ws) == "ws"@);
}

proof fn lemma_arg_sets(arg: Seq<char>, f: LaunchFlag)
    ensures
        scanner::arg_sets(arg, f) <==> is_option(arg, f) || lists_dlc(arg, f),
        scanner::arg_known(arg) <==> says_only_boxes(arg),
{
    let lower = text::lowered(arg);
    let codes = scanner::mod_codes(lower);
    lemma_spellings();
    assert forall|g: LaunchFlag| #[trigger] is_option(arg, g) <==> scanner::option_flag(lower)
        == Some(g) by {
        lemma_option_flag(arg, g);
    }
    assert forall|k: int, g: LaunchFlag|
        #![trigger text::trimmed(codes[k]), spelling(g)]
        scanner::dlc_flag(text::trimmed(codes[k])) == Some(g) <==> is_dlc(g) && text::trimmed(
            codes[k],
        ) == spelling(g) by {
        lemma_dlc_flag(text::trimmed(codes[k]), g);
    }
    assert forall|k: int|
        #![trigger text::trimmed(codes[k])]
        scanner::dlc_flag(text::trimmed(codes[k])) is Some <==> is_dlc_code(
            text::trimmed(codes[k]),
        ) by {
        lemma_dlc_flag(text::trimmed(codes[k]), LaunchFlag::Csla);
    }
    if scanner::option_flag(lower) is Some {
        let g = scanner::option_flag(lower)->0;
        assert(is_option(arg, g));
        assert(!text::text_starts_with(lower, "-mod="@));
    } else {
        assert(forall|g: LaunchFlag| !(#[trigger] is_option(arg, g)));
        if lists_dlc(arg, f) {
            let k = choose|k: int|
                {
                    &&& 0 <= k < codes.len()
                    &&& text::trimmed(#[trigger] codes[k]) == spelling(f)
                    &&& forall|j: int|
                        0 <= j < k ==> is_dlc_code(text::trimmed(#[trigger] codes[j]))
                };
            assert(scanner::all_dlc(codes, k));
            assert(scanner::codes_name(codes, f));
        }
        if scanner::arg_sets(arg, f) {
            let k = choose|k: int|
                0 <= k < codes.len() && scanner::all_dlc(codes, k) && scanner::dlc_flag(
                    text::trimmed(#[trigger] codes[k]),
                ) == Some(f);
            assert(text::trimmed(codes[k]) == spelling(f));
            assert forall|j: int| 0 <= j < k implies is_dlc_code(
                text::trimmed(#[trigger] codes[j]),
            ) by {
                assert(scanner::dlc_flag(text::trimmed(codes[j])) is Some);
            }
        }
    }
}

/// A box is ticked after a launch-parameter line was applied exactly if it was
/// before, or if an argument of the line is its option or lists its DLC.
pub proof fn law_arguments_tick_their_boxes(
    repo: RepositoryModel,
    params: Seq<char>,
    f: LaunchFlag,
)
    ensures
        is_ticked(scanner::with_parameters(repo, params).flags, f) <==> is_ticked(repo.flags, f)
            || exists|i: int|
            0 <= i < scanner::launch_args(params).len() && (is_option(
                #[trigger] scanner::launch_args(params)[i],
                f,
            ) || lists_dlc(scanner::launch_args(params)[i], f)),
{
    reveal(scanner::any_sets);
    let args = scanner::launch_args(params);
    assert forall|i: int| 0 <= i < args.len() implies scanner::arg_sets(#[trigger] args[i], f)
        == (is_option(args[i], f) || lists_dlc(args[i], f)) by {
        lemma_arg_sets(args[i], f);
    }
}

/// The arguments of a line that say more than which boxes to tick are kept, in
/// their order and as they stand, separated by blanks; if there is none, the
/// additional parameters stay. Nothing else of the repository changes.
pub proof fn law_other_arguments_are_kept(repo: RepositoryModel, params: Seq<char>)
    ensures
        ({
            let after = scanner::with_parameters(repo, params);
            let kept = scanner::launch_args(params).filter(|a: Seq<char>| !says_only_boxes(a));
            &&& kept.len() > 0 ==> after.additional_params == text::joined(kept, " "@)
            &&& kept.len() == 0 ==> after.additional_params == repo.additional_params
            &&& after == (RepositoryModel {
                flags: after.flags,
                additional_params: after.additional_params,
                ..repo
            })
        }),
{
    let args = scanner::launch_args(params);
    assert forall|a: Seq<char>| scanner::arg_known(a) == says_only_boxes(a) by {
        lemma_arg_sets(a, LaunchFlag::Csla);
    }
    lemma_same_filter(
        args,
        |a: Seq<char>| !scanner::arg_known(a),
        |a: Seq<char>| !says_only_boxes(a),
    );
}

proof fn lemma_same_filter(
    s: Seq<Seq<char>>,
    p: spec_fn(Seq<char>) -> bool,
    q: spec_fn(Seq<char>) -> bool,
)
    requires
        forall|a: Seq<char>| #[trigger] p(a) == q(a),
    ensures
        s.filter(p) == s.filter(q),
    decreases s.len(),
{
    reveal(Seq::filter);
    if s.len() > 0 {
        lemma_same_filter(s.drop_last(), p, q);
    }
}

/// White space outside a quotation separates arguments: what stands before it
/// and what stands behind it are read on their own.
pub proof fn law_white_space_separates_arguments(s: Seq<char>, c: char, t: Seq<char>)
    requires
        text::is_whitespace(c),
        !scanner::split_state(s).quoted,
    ensures
        scanner::launch_args(s.push(c) + t) == scanner::launch_args(s) + scanner::launch_args(t),
{
    lemma_split_behind(s, c, t);
    assert(scanner::launch_args(s.push(c) + t) =~= scanner::launch_args(s) + scanner::launch_args(
        t,
    ));
}

proof fn lemma_split_behind(s: Seq<char>, c: char, t: Seq<char>)
    requires
        text::is_whitespace(c),
        !scanner::split_state(s).quoted,
    ensures
        ({
            let all = scanner::split_state(s.push(c) + t);
            let own = scanner::split_state(t);
            &&& all.done == scanner::launch_args(s) + own.done
            &&& all.cur == own.cur
            &&& all.quoted == own.quoted
        }),
    decreases t.len(),
{
    let all = s.push(c) + t;
    if t.len() == 0 {
        assert(all =~= s.push(c));
        assert(all.drop_last() =~= s);
        assert(c != '"');
        assert(scanner::launch_args(s) + scanner::split_state(t).done =~= scanner::launch_args(s));
        assert(scanner::split_state(all).done =~= scanner::launch_args(s));
    } else {
        lemma_split_behind(s, c, t.drop_last());
        assert(all.drop_last() =~= s.push(c) + t.drop_last());
        assert(all.last() == t.last());
        let own = scanner::split_state(t.drop_last());
        assert(scanner::launch_args(s) + own.done.push(own.cur) =~= (scanner::launch_args(s)
            + own.done).push(own.cur));
    }
}

/// A word without white space and quotation marks is one argument, and so is a
/// text between quotation marks, whatever white space it holds.
pub proof fn law_words_and_quotations_are_arguments(w: Seq<char>)
    requires
        w.len() > 0,
        !w.contains('"'),
    ensures
        (forall|i: int| 0 <= i < w.len() ==> !text::is_whitespace(#[trigger] w[i]))
            ==> scanner::launch_args(w) == seq![w],
        scanner::launch_args(seq!['"'] + w.push('"')) == seq![w],
{
    if forall|i: int| 0 <= i < w.len() ==> !text::is_whitespace(#[trigger] w[i]) {
        lemma_plain_word(w);
        assert(scanner::launch_args(w) =~= seq![w]);
    }
    let q = seq!['"'] + w.push('"');
    lemma_quoted_word(w);
    assert(q.drop_last() =~= seq!['"'] + w);
    assert(q.last() == '"');
    assert(scanner::launch_args(q) =~= seq![w]);
}

proof fn lemma_plain_word(w: Seq<char>)
    requires
        !w.contains('"'),
        forall|i: int| 0 <= i < w.len() ==> !text::is_whitespace(#[trigger] w[i]),
    ensures
        scanner::split_state(w).done.len() == 0,
        scanner::split_state(w).cur == w,
        !scanner::split_state(w).quoted,
    decreases w.len(),
{
    if w.len() > 0 {
        let head = w.drop_last();
        assert forall|i: int| 0 <= i < head.len() implies !text::is_whitespace(
            #[trigger] head[i],
        ) && head[i] != '"' by {
            assert(head[i] == w[i]);
        }
        lemma_plain_word(head);
        assert(!text::is_whitespace(w[w.len() - 1]) && w[w.len() - 1] != '"');
        assert(head.push(w.last()) =~= w);
    }
}

proof fn lemma_quoted_word(w: Seq<char>)
    requires
        !w.contains('"'),
    ensures
        scanner::split_state(seq!['"'] + w).done.len() == 0,
        scanner::split_state(seq!['"'] + w).cur == w,
        scanner::split_state(seq!['"'] + w).quoted,
    decreases w.len(),
{
    let q = seq!['"'] + w;
    reveal_with_fuel(scanner::split_state, 2);
    if w.len() == 0 {
        assert(q.drop_last() =~= Seq::empty());
        assert(q.last() == '"');
        assert(scanner::split_state(q).cur =~= w);
    } else {
        let head = w.drop_last();
        assert forall|i: int| 0 <= i < head.len() implies head[i] != '"' by {
            assert(head[i] == w[i]);
        }
        lemma_quoted_word(head);
        assert(q.drop_last() =~= seq!['"'] + head);
        assert(q.last() == w.last());
        assert(w[w.len() - 1] != '"');
        assert(head.push(w.last()) =~= w);
    }
}

// ---------------------------------------------------------------------------
// Places
// ---------------------------------------------------------------------------

/// Where a configuration is looked for on Windows: below each of the two folders
/// for application data that the system names, and nowhere else.
pub proof fn law_windows_places(f: UserFolders, dir: Seq<Seq<char>>)
    ensures
        places::candidates(Platform::Windows, f).contains(dir) <==> {
            ||| f.appdata matches Some(base) && dir == seq![base@, "Swifty"@]
            ||| f.local_appdata matches Some(base) && dir == seq![base@, "Swifty"@]
        },
{
    let all = places::candidates(Platform::Windows, f);
    if let Some(base) = f.appdata {
        assert(all[0] == seq![base@, "Swifty"@]);
        if let Some(local) = f.local_appdata {
            assert(all[1] == seq![local@, "Swifty"@]);
        }
    } else {
        if let Some(local) = f.local_appdata {
            assert(all[0] == seq![local@, "Swifty"@]);
        }
    }
}

/// Where a configuration is looked for on Linux: in the places below the home
/// folder, in the Wine prefix of the user, and below the folder for
/// configurations that the system names.
pub proof fn law_linux_places(f: UserFolders, home: String)
    requires
        f.home == Some(home),
    ensures
        ({
            let all = places::candidates(Platform::Linux, f);
            &&& all.contains(seq![home@, ".config/Swifty"@])
            &&& all.contains(seq![home@, ".local/share/Swifty"@])
            &&& all.contains(seq![home@, ".swifty"@])
            &&& f.user matches Some(user) ==> all.contains(
                seq![home@, ".wine/drive_c/users"@, user@, "AppData/Roaming/Swifty"@],
            )
            &&& f.user is None ==> (f.logname matches Some(name) ==> all.contains(
                seq![home@, ".wine/drive_c/users"@, name@, "AppData/Roaming/Swifty"@],
            ))
            &&& f.xdg_config_home matches Some(xdg) ==> all.last() == seq![xdg@, "Swifty"@]
            &&& all.len() == if f.xdg_config_home is Some {
                5
            } else {
                4nat
            }
        }),
{
    let all = places::candidates(Platform::Linux, f);
    assert(all[0] == seq![home@, ".config/Swifty"@]);
    assert(all[1] == seq![home@, ".local/share/Swifty"@]);
    assert(all[2] == seq![home@, ".swifty"@]);
    assert(all[3] == seq![
        home@,
        ".wine/drive_c/users"@,
        places::wine_user(f),
        "AppData/Roaming/Swifty"@,
    ]);
}

} // verus!
