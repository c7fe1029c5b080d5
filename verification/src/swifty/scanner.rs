//! Reading Swifty addresses, launch parameters and configuration files.

use vstd::prelude::*;

use crate::repository;
use crate::repository::{LaunchFlag, LaunchFlags, Repository, RepositoryModel};
use crate::swifty::types;
use crate::swifty::types::{DerivedUrls, DetectedModel, SwiftyDetectedRepo, SwiftyGlobalSettings};
use crate::text;
use crate::text::{
    blank, char_is_whitespace, chars_of, concat, find, find_last_char, join, same_text, split,
    starts_with, string_of, to_ascii_lowercase, trim, trim_end_char, trim_start_text,
};

verus! {

broadcast use vstd::string::group_string_axioms;

// ---------------------------------------------------------------------------
// Addresses
// ---------------------------------------------------------------------------

/// An address without the white space around it and the slashes at its end.
pub open spec fn bare_address(address: Seq<char>) -> Seq<char> {
    text::without_trailing(text::trimmed(address), '/')
}

/// Where the scheme of a URL (`http://`) ends.
pub open spec fn scheme_end(t: Seq<char>) -> int {
    match text::found_from(t, "://"@, 0) {
        Some(i) => i + 3,
        None => 0,
    }
}

/// The last slash behind the scheme of a URL.
pub open spec fn last_path_slash(t: Seq<char>) -> Option<int> {
    text::last_char_in(t, '/', scheme_end(t), t.len() as int)
}

/// The parent of an address, with a slash at its end; an address without a
/// path is its own parent.
pub open spec fn base_of(address: Seq<char>) -> Seq<char> {
    let t = bare_address(address);
    match last_path_slash(t) {
        Some(pos) => t.take(pos).push('/'),
        None => t.push('/'),
    }
}

/// The last segment of an address.
pub open spec fn name_of(address: Seq<char>) -> Seq<char> {
    let t = bare_address(address);
    match text::last_char_in(t, '/', 0, t.len() as int) {
        Some(pos) => t.skip(pos + 1),
        None => t,
    }
}

/// Derive base, updater, and repository-space URLs from a Swifty repository address.
///
/// For `http://a3.tfrod.cz:8080/mody/TFR_Main`:
///   base     = `http://a3.tfrod.cz:8080/mody/`
///   updater  = `http://a3.tfrod.cz:8080/mody/Foxy`
///   space    = `http://a3.tfrod.cz:8080/mody/repository_space.json`
pub fn derive_urls(address: &str) -> (r: Option<DerivedUrls>)
    ensures
        r is None <==> bare_address(address@).len() == 0,
        r matches Some(urls) ==> {
            &&& urls.base_url@ == base_of(address@)
            &&& urls.updater_url@ == base_of(address@) + "Foxy"@
            &&& urls.space_url@ == base_of(address@) + "repository_space.json"@
        },
{
    let trimmed: String = trim_end_char(trim(address).as_str(), '/');
    if trimmed.as_str().is_empty() {
        return None;
    }
    let t: Vec<char> = chars_of(trimmed.as_str());
    let mark: Vec<char> = chars_of("://");
    let from: usize = match find(&t, &mark) {
        Some(i) => {
            proof {
                reveal_strlit("://");
                text::lemma_found_from(t@, mark@, 0);
                assert(i + 3 <= t.len());
            }
            i + 3
        },
        None => 0,
    };
    let slash: Option<usize> = find_last_char(&t, '/', from, t.len());
    let mut base_url: String = match slash {
        Some(pos) => {
            proof {
                text::lemma_last_char_in(t@, '/', from as int, t@.len() as int);
                assert(t@.take(pos as int) =~= t@.subrange(0, pos as int));
            }
            string_of(&t, 0, pos)
        },
        None => trimmed,
    };
    base_url.push('/');
    Some(
        DerivedUrls {
            updater_url: concat(base_url.as_str(), "Foxy"),
            space_url: concat(base_url.as_str(), "repository_space.json"),
            base_url,
        },
    )
}

/// Extract a human-readable name from the last path segment of a URL.
pub fn repo_name_from_address(address: &str) -> (r: String)
    ensures
        r@ == name_of(address@),
{
    let trimmed: String = trim_end_char(trim(address).as_str(), '/');
    let t: Vec<char> = chars_of(trimmed.as_str());
    match find_last_char(&t, '/', 0, t.len()) {
        Some(pos) => {
            proof {
                text::lemma_last_char_in(t@, '/', 0, t@.len() as int);
                assert(t@.skip(pos + 1) =~= t@.subrange(pos + 1, t@.len() as int));
            }
            string_of(&t, pos + 1, t.len())
        },
        None => trimmed,
    }
}

// ---------------------------------------------------------------------------
// Launch parameters
// ---------------------------------------------------------------------------

/// The state of splitting a parameter line: the finished arguments, the one
/// being read, and whether a quotation is open.
pub struct SplitState {
    pub done: Seq<Seq<char>>,
    pub cur: Seq<char>,
    pub quoted: bool,
}

/// The state after reading `s`: a quotation mark opens or closes a quotation,
/// white space outside one ends an argument.
pub open spec fn split_state(s: Seq<char>) -> SplitState
    decreases s.len(),
{
    if s.len() == 0 {
        SplitState { done: Seq::empty(), cur: Seq::empty(), quoted: false }
    } else {
        let st = split_state(s.drop_last());
        let c = s.last();
        if c == '"' {
            SplitState { quoted: !st.quoted, ..st }
        } else if text::is_whitespace(c) && !st.quoted {
            if st.cur.len() == 0 {
                st
            } else {
                SplitState { done: st.done.push(st.cur), cur: Seq::empty(), ..st }
            }
        } else {
            SplitState { cur: st.cur.push(c), ..st }
        }
    }
}

/// The arguments of a launch-parameter line.
pub open spec fn launch_args(params: Seq<char>) -> Seq<Seq<char>> {
    let st = split_state(params);
    if st.cur.len() == 0 {
        st.done
    } else {
        st.done.push(st.cur)
    }
}

/// Split a launch-parameter line at white space. Double quotes keep an
/// argument together and are dropped.
pub fn split_additional_launch_params(params: &str) -> (r: Vec<String>)
    ensures
        text::views(r@) == launch_args(params@),
{
    let chars: Vec<char> = chars_of(params);
    let mut done: Vec<String> = Vec::new();
    let mut cur: String = String::new();
    let mut quoted: bool = false;
    let mut i: usize = 0;
    assert(text::views(done@) =~= Seq::empty());
    while i < chars.len()
        invariant
            chars@ == params@,
            i <= chars@.len(),
            split_state(params@.take(i as int)) == (SplitState {
                done: text::views(done@),
                cur: cur@,
                quoted,
            }),
        decreases chars@.len() - i,
    {
        let c: char = chars[i];
        let ghost before = text::views(done@);
        proof {
            assert(params@.take(i + 1).drop_last() =~= params@.take(i as int));
            assert(params@.take(i + 1).last() == c);
        }
        if c == '"' {
            quoted = !quoted;
        } else if char_is_whitespace(c) && !quoted {
            if !cur.as_str().is_empty() {
                let ghost word = cur@;
                done.push(cur);
                cur = String::new();
                assert(text::views(done@) =~= before.push(word));
            }
        } else {
            cur.push(c);
        }
        i = i + 1;
    }
    assert(params@.take(params@.len() as int) =~= params@);
    if !cur.as_str().is_empty() {
        let ghost before = text::views(done@);
        let ghost word = cur@;
        done.push(cur);
        assert(text::views(done@) =~= before.push(word));
    }
    done
}

/// The tick box of a launch option, spelled in lower case.
pub open spec fn option_flag(s: Seq<char>) -> Option<LaunchFlag> {
    if s == "-skipintro"@ {
        Some(LaunchFlag::SkipIntro)
    } else if s == "-nosplash"@ {
        Some(LaunchFlag::NoSplash)
    } else if s == "-world=empty"@ || s == "-noland"@ {
        Some(LaunchFlag::WorldEmpty)
    } else if s == "-loadmissiontomemory"@ {
        Some(LaunchFlag::LoadMissionToMemory)
    } else if s == "-enableht"@ {
        Some(LaunchFlag::EnableHt)
    } else if s == "-hugepages"@ {
        Some(LaunchFlag::HugePages)
    } else if s == "-nologs"@ {
        Some(LaunchFlag::NoLogs)
    } else {
        None
    }
}

/// The tick box of a creator DLC, by its code in lower case.
pub open spec fn dlc_flag(s: Seq<char>) -> Option<LaunchFlag> {
    if s == "csla"@ {
        Some(LaunchFlag::Csla)
    } else if s == "ef"@ {
        Some(LaunchFlag::Ef)
    } else if s == "gm"@ {
        Some(LaunchFlag::Gm)
    } else if s == "rf"@ {
        Some(LaunchFlag::Rf)
    } else if s == "spe"@ {
        Some(LaunchFlag::Spe)
    } else if s == "vn"@ {
        Some(LaunchFlag::Vn)
    } else if s == "ws"@ {
        Some(LaunchFlag::Ws)
    } else {
        None
    }
}

/// The codes that a `-mod=` argument lists.
pub open spec fn mod_codes(lower: Seq<char>) -> Seq<Seq<char>> {
    text::split_on(text::without_leading(lower, "-mod="@), ';')
}

/// Whether the first `n` codes of a list all name a DLC.
pub open spec fn all_dlc(codes: Seq<Seq<char>>, n: int) -> bool {
    forall|j: int| 0 <= j < n ==> dlc_flag(text::trimmed(#[trigger] codes[j])) is Some
}

/// Whether a list of codes names the DLC `f` before any code that names none.
pub open spec fn codes_name(codes: Seq<Seq<char>>, f: LaunchFlag) -> bool {
    exists|k: int|
        0 <= k < codes.len() && all_dlc(codes, k) && dlc_flag(
            text::trimmed(#[trigger] codes[k]),
        ) == Some(f)
}

/// Whether an argument ticks the box `f`.
pub open spec fn arg_sets(arg: Seq<char>, f: LaunchFlag) -> bool {
    let lower = text::lowered(arg);
    match option_flag(lower) {
        Some(g) => g == f,
        None => text::text_starts_with(lower, "-mod="@) && codes_name(mod_codes(lower), f),
    }
}

/// Whether all that an argument says went into tick boxes.
pub open spec fn arg_known(arg: Seq<char>) -> bool {
    let lower = text::lowered(arg);
    option_flag(lower) is Some || (text::text_starts_with(lower, "-mod="@) && all_dlc(
        mod_codes(lower),
        mod_codes(lower).len() as int,
    ))
}

/// Whether one of the arguments ticks the box `f`.
#[verifier::opaque]
pub open spec fn any_sets(args: Seq<Seq<char>>, f: LaunchFlag) -> bool {
    exists|i: int| 0 <= i < args.len() && arg_sets(#[trigger] args[i], f)
}

/// The arguments that no tick box stands for, in their order.
pub open spec fn unknown_args(args: Seq<Seq<char>>) -> Seq<Seq<char>> {
    args.filter(|a: Seq<char>| !arg_known(a))
}

/// The boxes of `flags` with those that `args` tick.
pub open spec fn flags_with(flags: LaunchFlags, args: Seq<Seq<char>>) -> LaunchFlags {
    LaunchFlags {
        csla: flags.csla || any_sets(args, LaunchFlag::Csla),
        ef: flags.ef || any_sets(args, LaunchFlag::Ef),
        gm: flags.gm || any_sets(args, LaunchFlag::Gm),
        rf: flags.rf || any_sets(args, LaunchFlag::Rf),
        spe: flags.spe || any_sets(args, LaunchFlag::Spe),
        vn: flags.vn || any_sets(args, LaunchFlag::Vn),
        ws: flags.ws || any_sets(args, LaunchFlag::Ws),
        skip_intro: flags.skip_intro || any_sets(args, LaunchFlag::SkipIntro),
        no_splash: flags.no_splash || any_sets(args, LaunchFlag::NoSplash),
        world_empty: flags.world_empty || any_sets(args, LaunchFlag::WorldEmpty),
        load_mission_to_memory: flags.load_mission_to_memory || any_sets(
            args,
            LaunchFlag::LoadMissionToMemory,
        ),
        enable_ht: flags.enable_ht || any_sets(args, LaunchFlag::EnableHt),
        huge_pages: flags.huge_pages || any_sets(args, LaunchFlag::HugePages),
        no_logs: flags.no_logs || any_sets(args, LaunchFlag::NoLogs),
    }
}

/// A repository after a launch-parameter line was applied to it: the boxes that
/// the line ticks are ticked, and what is left over, if anything is, replaces
/// the additional parameters.
pub open spec fn with_parameters(repo: RepositoryModel, params: Seq<char>) -> RepositoryModel {
    let args = launch_args(params);
    RepositoryModel {
        flags: flags_with(repo.flags, args),
        additional_params: if unknown_args(args).len() > 0 {
            text::joined(unknown_args(args), " "@)
        } else {
            repo.additional_params
        },
        ..repo
    }
}

/// The tick box of a launch option, spelled in lower case.
fn read_option(s: &str) -> (r: Option<LaunchFlag>)
    ensures
        r == option_flag(s@),
{
    if same_text(s, "-skipintro") {
        Some(LaunchFlag::SkipIntro)
    } else if same_text(s, "-nosplash") {
        Some(LaunchFlag::NoSplash)
    } else if same_text(s, "-world=empty") || same_text(s, "-noland") {
        Some(LaunchFlag::WorldEmpty)
    } else if same_text(s, "-loadmissiontomemory") {
        Some(LaunchFlag::LoadMissionToMemory)
    } else if same_text(s, "-enableht") {
        Some(LaunchFlag::EnableHt)
    } else if same_text(s, "-hugepages") {
        Some(LaunchFlag::HugePages)
    } else if same_text(s, "-nologs") {
        Some(LaunchFlag::NoLogs)
    } else {
        None
    }
}

/// The tick box of a creator DLC, by its code in lower case.
fn read_dlc(s: &str) -> (r: Option<LaunchFlag>)
    ensures
        r == dlc_flag(s@),
{
    if same_text(s, "csla") {
        Some(LaunchFlag::Csla)
    } else if same_text(s, "ef") {
        Some(LaunchFlag::Ef)
    } else if same_text(s, "gm") {
        Some(LaunchFlag::Gm)
    } else if same_text(s, "rf") {
        Some(LaunchFlag::Rf)
    } else if same_text(s, "spe") {
        Some(LaunchFlag::Spe)
    } else if same_text(s, "vn") {
        Some(LaunchFlag::Vn)
    } else if same_text(s, "ws") {
        Some(LaunchFlag::Ws)
    } else {
        None
    }
}

/// What one argument says: the boxes that it ticks, and whether that is all.
struct ArgMeaning {
    flags: Vec<LaunchFlag>,
    known: bool,
}

/// Reads one argument.
fn read_arg(arg: &str) -> (r: ArgMeaning)
    ensures
        r.known == arg_known(arg@),
        forall|f: LaunchFlag| r.flags@.contains(f) <==> arg_sets(arg@, f),
{
    let lower: String = to_ascii_lowercase(arg);
    let mut flags: Vec<LaunchFlag> = Vec::new();
    if let Some(f) = read_option(lower.as_str()) {
        flags.push(f);
        proof {
            assert(flags@ =~= seq![f]);
            assert(flags@[0] == f);
        }
        return ArgMeaning { flags, known: true };
    }
    if !starts_with(lower.as_str(), "-mod=") {
        return ArgMeaning { flags, known: false };
    }
    proof {
        reveal_strlit("-mod=");
    }
    let codes: Vec<String> = split(trim_start_text(lower.as_str(), "-mod=").as_str(), ';');
    let ghost all = mod_codes(lower@);
    let mut k: usize = 0;
    while k < codes.len()
        invariant
            text::views(codes@) == all,
            all == mod_codes(text::lowered(arg@)),
            option_flag(text::lowered(arg@)) is None,
            text::text_starts_with(text::lowered(arg@), "-mod="@),
            k <= codes@.len(),
            all_dlc(all, k as int),
            flags@.len() == k,
            forall|j: int|
                0 <= j < k ==> dlc_flag(text::trimmed(all[j])) == Some(#[trigger] flags@[j]),
        decreases codes@.len() - k,
    {
        assert(codes@[k as int]@ == all[k as int]);
        match read_dlc(trim(codes[k].as_str()).as_str()) {
            Some(f) => {
                flags.push(f);
            },
            None => {
                proof {
                    assert forall|f: LaunchFlag| flags@.contains(f) implies arg_sets(arg@, f) by {
                        let j = choose|j: int| 0 <= j < flags@.len() && flags@[j] == f;
                        assert(dlc_flag(text::trimmed(all[j])) == Some(flags@[j]));
                    }
                    assert forall|f: LaunchFlag| arg_sets(arg@, f) implies flags@.contains(f) by {
                        let j = choose|j: int|
                            0 <= j < all.len() && all_dlc(all, j) && dlc_flag(
                                text::trimmed(#[trigger] all[j]),
                            ) == Some(f);
                        assert(j < k);
                        assert(flags@[j] == f);
                    }
                }
                return ArgMeaning { flags, known: false };
            },
        }
        k = k + 1;
    }
    proof {
        assert forall|f: LaunchFlag| flags@.contains(f) implies arg_sets(arg@, f) by {
            let j = choose|j: int| 0 <= j < flags@.len() && flags@[j] == f;
            assert(dlc_flag(text::trimmed(all[j])) == Some(flags@[j]));
        }
        assert forall|f: LaunchFlag| arg_sets(arg@, f) implies flags@.contains(f) by {
            let j = choose|j: int|
                0 <= j < all.len() && all_dlc(all, j) && dlc_flag(
                    text::trimmed(#[trigger] all[j]),
                ) == Some(f);
            assert(flags@[j] == f);
        }
    }
    ArgMeaning { flags, known: true }
}

/// Whether the boxes collected so far hold `f`.
#[verifier::opaque]
spec fn collected(ticks: Seq<LaunchFlag>, f: LaunchFlag) -> bool {
    ticks.contains(f)
}

/// Whether `flags` holds `f`.
fn has_flag(flags: &Vec<LaunchFlag>, f: LaunchFlag) -> (r: bool)
    ensures
        r == collected(flags@, f),
{
    reveal(collected);
    let mut i: usize = 0;
    while i < flags.len()
        invariant
            i <= flags@.len(),
            forall|j: int| 0 <= j < i ==> flags@[j] != f,
        decreases flags@.len() - i,
    {
        if flags[i] == f {
            proof {
                reveal(collected);
                assert(flags@[i as int] == f);
            }
            return true;
        }
        i = i + 1;
    }
    false
}

/// The boxes of `flags` with those in `ticks`.
#[verifier::opaque]
spec fn flags_and(flags: LaunchFlags, ticks: Seq<LaunchFlag>) -> LaunchFlags {
    LaunchFlags {
        csla: flags.csla || collected(ticks, LaunchFlag::Csla),
        ef: flags.ef || collected(ticks, LaunchFlag::Ef),
        gm: flags.gm || collected(ticks, LaunchFlag::Gm),
        rf: flags.rf || collected(ticks, LaunchFlag::Rf),
        spe: flags.spe || collected(ticks, LaunchFlag::Spe),
        vn: flags.vn || collected(ticks, LaunchFlag::Vn),
        ws: flags.ws || collected(ticks, LaunchFlag::Ws),
        skip_intro: flags.skip_intro || collected(ticks, LaunchFlag::SkipIntro),
        no_splash: flags.no_splash || collected(ticks, LaunchFlag::NoSplash),
        world_empty: flags.world_empty || collected(ticks, LaunchFlag::WorldEmpty),
        load_mission_to_memory: flags.load_mission_to_memory || collected(ticks, LaunchFlag::LoadMissionToMemory),
        enable_ht: flags.enable_ht || collected(ticks, LaunchFlag::EnableHt),
        huge_pages: flags.huge_pages || collected(ticks, LaunchFlag::HugePages),
        no_logs: flags.no_logs || collected(ticks, LaunchFlag::NoLogs),
    }
}

/// The boxes of `flags` with those in `ticks`.
fn ticked(flags: &LaunchFlags, ticks: &Vec<LaunchFlag>) -> (r: LaunchFlags)
    ensures
        r == flags_and(*flags, ticks@),
{
    reveal(flags_and);
    let csla: bool = has_flag(ticks, LaunchFlag::Csla);
    let ef: bool = has_flag(ticks, LaunchFlag::Ef);
    let gm: bool = has_flag(ticks, LaunchFlag::Gm);
    let rf: bool = has_flag(ticks, LaunchFlag::Rf);
    let spe: bool = has_flag(ticks, LaunchFlag::Spe);
    let vn: bool = has_flag(ticks, LaunchFlag::Vn);
    let ws: bool = has_flag(ticks, LaunchFlag::Ws);
    let skip_intro: bool = has_flag(ticks, LaunchFlag::SkipIntro);
    let no_splash: bool = has_flag(ticks, LaunchFlag::NoSplash);
    let world_empty: bool = has_flag(ticks, LaunchFlag::WorldEmpty);
    let load_mission_to_memory: bool = has_flag(ticks, LaunchFlag::LoadMissionToMemory);
    let enable_ht: bool = has_flag(ticks, LaunchFlag::EnableHt);
    let huge_pages: bool = has_flag(ticks, LaunchFlag::HugePages);
    let no_logs: bool = has_flag(ticks, LaunchFlag::NoLogs);
    LaunchFlags {
        csla: flags.csla || csla,
        ef: flags.ef || ef,
        gm: flags.gm || gm,
        rf: flags.rf || rf,
        spe: flags.spe || spe,
        vn: flags.vn || vn,
        ws: flags.ws || ws,
        skip_intro: flags.skip_intro || skip_intro,
        no_splash: flags.no_splash || no_splash,
        world_empty: flags.world_empty || world_empty,
        load_mission_to_memory: flags.load_mission_to_memory || load_mission_to_memory,
        enable_ht: flags.enable_ht || enable_ht,
        huge_pages: flags.huge_pages || huge_pages,
        no_logs: flags.no_logs || no_logs,
    }
}

/// Ticking the boxes that the arguments ask for is ticking those that were collected.
proof fn lemma_ticks(flags: LaunchFlags, ticks: Seq<LaunchFlag>, args: Seq<Seq<char>>)
    requires
        forall|f: LaunchFlag| #[trigger] collected(ticks, f) == any_sets(args, f),
    ensures
        flags_and(flags, ticks) == flags_with(flags, args),
{
    reveal(flags_and);
}

/// Parse a Swifty launch-parameter string and apply recognised flags to a
/// [`Repository`].  Unknown tokens are collected into `additional_params`.
pub fn apply_swifty_parameters(repo: &mut Repository, params: &str)
    ensures
        final(repo)@ == with_parameters(old(repo)@, params@),
{
    let args: Vec<String> = split_additional_launch_params(params);
    let ghost all = launch_args(params@);
    let mut flags: Vec<LaunchFlag> = Vec::new();
    let mut additional: Vec<String> = Vec::new();
    let mut i: usize = 0;
    proof {
        reveal(Seq::filter);
        reveal(any_sets);
        reveal(collected);
        assert(all.take(0) =~= Seq::empty());
        assert(text::views(additional@) =~= unknown_args(all.take(0)));
    }
    while i < args.len()
        invariant
            text::views(args@) == all,
            i <= args@.len(),
            text::views(additional@) == unknown_args(all.take(i as int)),
            forall|f: LaunchFlag| #[trigger]
                collected(flags@, f) == any_sets(all.take(i as int), f),
        decreases args@.len() - i,
    {
        let arg: &String = &args[i];
        let ghost before = all.take(i as int);
        let ghost after = all.take(i + 1);
        let ghost had = flags@;
        let ghost kept = text::views(additional@);
        proof {
            assert(arg@ == all[i as int]);
            assert(after =~= before.push(arg@));
            reveal(Seq::filter);
            reveal(any_sets);
            reveal(collected);
            assert(after.drop_last() =~= before);
            assert(after.last() == arg@);
        }
        let mut meaning: ArgMeaning = read_arg(arg.as_str());
        let ghost new = meaning.flags@;
        flags.append(&mut meaning.flags);
        if !meaning.known {
            additional.push(arg.clone());
            assert(text::views(additional@) =~= kept.push(arg@));
        }
        proof {
            assert(flags@ =~= had + new);
            assert forall|f: LaunchFlag| collected(flags@, f) implies any_sets(after, f) by {
                let k = choose|k: int| 0 <= k < flags@.len() && flags@[k] == f;
                if k < had.len() {
                    assert(had[k] == f);
                    assert(collected(had, f));
                    assert(any_sets(before, f));
                    let j = choose|j: int| 0 <= j < before.len() && arg_sets(#[trigger] before[j], f);
                    assert(after[j] == before[j]);
                } else {
                    assert(new[k - had.len()] == f);
                    assert(arg_sets(after[i as int], f));
                }
            }
            assert forall|f: LaunchFlag| any_sets(after, f) implies collected(flags@, f) by {
                let j = choose|j: int| 0 <= j < after.len() && arg_sets(#[trigger] after[j], f);
                if j < i {
                    assert(before[j] == after[j]);
                    assert(collected(had, f));
                    let k = choose|k: int| 0 <= k < had.len() && had[k] == f;
                    assert(flags@[k] == f);
                } else {
                    assert(new.contains(f));
                    let k = choose|k: int| 0 <= k < new.len() && new[k] == f;
                    assert(flags@[had.len() + k] == f);
                }
            }
        }
        i = i + 1;
    }
    assert(all.take(all.len() as int) =~= all);
    proof {
        lemma_ticks(repo.flags, flags@, all);
    }
    repo.flags = ticked(&repo.flags, &flags);
    if !additional.is_empty() {
        repo.additional_params = join(&additional, " ");
    }
}

// ---------------------------------------------------------------------------
// Configuration files
// ---------------------------------------------------------------------------

/// One entry of the `repositories` list of a Swifty `settings.json`.
#[derive(Debug)]
pub struct SwiftyRepoEntry {
    pub name: String,
    pub address: String,
    pub mod_folder: String,
    pub parameters: String,
    pub autocheck: bool,
}

/// The part of a Swifty `settings.json` that the migration reads.
#[derive(Debug)]
pub struct SwiftySettings {
    pub repositories: Vec<SwiftyRepoEntry>,
    /// Addon folders that serve repositories without a folder of their own.
    pub addons_paths: Vec<String>,
    pub arma_path: String,
    pub temp_path: String,
}

/// What a candidate directory holds under `settings.json`.
#[derive(Debug)]
pub enum SettingsFile {
    /// There is no such file.
    Missing,
    /// There is one, but it cannot be read or is not valid.
    Unreadable,
    /// There is one, and this is what it says.
    Parsed(SwiftySettings),
}

/// What a scan over all candidate directories found.
#[derive(Debug)]
pub struct SwiftyScan {
    pub repos: Vec<SwiftyDetectedRepo>,
    pub global: SwiftyGlobalSettings,
    pub error: Option<String>,
}

/// The first folder of a list that is not blank; nothing if there is none.
pub open spec fn first_folder(paths: Seq<String>) -> Seq<char>
    decreases paths.len(),
{
    if paths.len() == 0 {
        Seq::empty()
    } else if !text::is_blank(paths[0]@) {
        paths[0]@
    } else {
        first_folder(paths.skip(1))
    }
}

/// The repository that an entry describes, with the defaults filled in.
pub open spec fn detected(entry: SwiftyRepoEntry, fallback: Seq<char>) -> DetectedModel {
    DetectedModel {
        name: if text::is_blank(entry.name@) {
            name_of(entry.address@)
        } else {
            entry.name@
        },
        address: entry.address@,
        mod_folder: if text::is_blank(entry.mod_folder@) {
            fallback
        } else {
            entry.mod_folder@
        },
        parameters: entry.parameters@,
        autocheck: entry.autocheck,
        selected: true,
    }
}

/// The repositories that a list of entries describes, in their order; an entry
/// without an address describes none.
pub open spec fn detected_entries(
    entries: Seq<SwiftyRepoEntry>,
    fallback: Seq<char>,
) -> Seq<DetectedModel>
    decreases entries.len(),
{
    if entries.len() == 0 {
        Seq::empty()
    } else {
        let head = detected_entries(entries.drop_last(), fallback);
        if text::is_blank(entries.last().address@) {
            head
        } else {
            head.push(detected(entries.last(), fallback))
        }
    }
}

/// The repositories that the files of all directories describe.
pub open spec fn detected_in(files: Seq<SettingsFile>) -> Seq<DetectedModel>
    decreases files.len(),
{
    if files.len() == 0 {
        Seq::empty()
    } else {
        let head = detected_in(files.drop_last());
        match files.last() {
            SettingsFile::Parsed(settings) => head + detected_entries(
                settings.repositories@,
                first_folder(settings.addons_paths@),
            ),
            _ => head,
        }
    }
}

/// The Arma 3 directory of the first file that names one.
pub open spec fn first_arma_path(files: Seq<SettingsFile>) -> Seq<char>
    decreases files.len(),
{
    if files.len() == 0 {
        Seq::empty()
    } else {
        let head = first_arma_path(files.drop_last());
        match files.last() {
            SettingsFile::Parsed(settings) if head.len() == 0 => text::trimmed(
                settings.arma_path@,
            ),
            _ => head,
        }
    }
}

/// The temporary directory of the first file that names one.
pub open spec fn first_temp_path(files: Seq<SettingsFile>) -> Seq<char>
    decreases files.len(),
{
    if files.len() == 0 {
        Seq::empty()
    } else {
        let head = first_temp_path(files.drop_last());
        match files.last() {
            SettingsFile::Parsed(settings) if head.len() == 0 => text::trimmed(
                settings.temp_path@,
            ),
            _ => head,
        }
    }
}

/// Whether one of the directories holds a settings file.
pub open spec fn any_file(files: Seq<SettingsFile>) -> bool {
    exists|i: int| 0 <= i < files.len() && !(#[trigger] files[i] is Missing)
}

/// Why a scan found no installation, if it found none.
pub open spec fn scan_error(files: Seq<SettingsFile>) -> Option<Seq<char>> {
    if files.len() == 0 {
        Some("No candidate Swifty directories found"@)
    } else if !any_file(files) {
        Some("No Swifty installation found on this system"@)
    } else {
        None
    }
}

/// The first folder of a list that is not blank.
fn first_usable_folder(paths: &Vec<String>) -> (r: String)
    ensures
        r@ == first_folder(paths@),
{
    let mut i: usize = 0;
    assert(paths@.skip(0) =~= paths@);
    while i < paths.len()
        invariant
            i <= paths@.len(),
            first_folder(paths@) == first_folder(paths@.skip(i as int)),
        decreases paths@.len() - i,
    {
        assert(paths@.skip(i as int)[0] == paths@[i as int]);
        assert(paths@.skip(i as int).skip(1) =~= paths@.skip(i + 1));
        if !blank(paths[i].as_str()) {
            return paths[i].clone();
        }
        i = i + 1;
    }
    String::new()
}

/// The repository that an entry describes, with the defaults filled in.
fn detect(entry: &SwiftyRepoEntry, fallback: &String) -> (r: SwiftyDetectedRepo)
    ensures
        r@ == detected(*entry, fallback@),
{
    let name: String = if blank(entry.name.as_str()) {
        repo_name_from_address(entry.address.as_str())
    } else {
        entry.name.clone()
    };
    let mod_folder: String = if blank(entry.mod_folder.as_str()) {
        fallback.clone()
    } else {
        entry.mod_folder.clone()
    };
    SwiftyDetectedRepo {
        name,
        address: entry.address.clone(),
        mod_folder,
        parameters: entry.parameters.clone(),
        autocheck: entry.autocheck,
        selected: true,
    }
}

/// Adds the repositories that a list of entries describes.
fn detect_entries(
    entries: &Vec<SwiftyRepoEntry>,
    fallback: &String,
    repos: &mut Vec<SwiftyDetectedRepo>,
)
    ensures
        types::detected_models(final(repos)@) == types::detected_models(old(repos)@) + detected_entries(
            entries@,
            fallback@,
        ),
{
    let ghost start = types::detected_models(repos@);
    let mut i: usize = 0;
    proof {
        assert(entries@.take(0) =~= Seq::empty());
        assert(start =~= start + detected_entries(entries@.take(0), fallback@));
    }
    while i < entries.len()
        invariant
            i <= entries@.len(),
            types::detected_models(repos@) == start + detected_entries(
                entries@.take(i as int),
                fallback@,
            ),
        decreases entries@.len() - i,
    {
        let ghost so_far = types::detected_models(repos@);
        proof {
            assert(entries@.take(i + 1).drop_last() =~= entries@.take(i as int));
            assert(entries@.take(i + 1).last() == entries@[i as int]);
        }
        if !blank(entries[i].address.as_str()) {
            let repo: SwiftyDetectedRepo = detect(&entries[i], fallback);
            repos.push(repo);
            assert(types::detected_models(repos@) =~= so_far.push(repo@));
            assert(types::detected_models(repos@) =~= start + detected_entries(
                entries@.take(i + 1),
                fallback@,
            ));
        }
        i = i + 1;
    }
    assert(entries@.take(entries@.len() as int) =~= entries@);
}

/// Gathers what the settings files of the candidate directories describe.
pub fn scan_swifty_repositories(files: &Vec<SettingsFile>) -> (r: SwiftyScan)
    ensures
        types::detected_models(r.repos@) == detected_in(files@),
        r.global.arma_path@ == first_arma_path(files@),
        r.global.temp_path@ == first_temp_path(files@),
        repository::opt_view(r.error) == scan_error(files@),
{
    if files.len() == 0 {
        let repos: Vec<SwiftyDetectedRepo> = Vec::new();
        assert(types::detected_models(repos@) =~= detected_in(files@));
        return SwiftyScan {
            repos,
            global: SwiftyGlobalSettings::default(),
            error: Some("No candidate Swifty directories found".to_owned()),
        };
    }
    let mut repos: Vec<SwiftyDetectedRepo> = Vec::new();
    let mut global: SwiftyGlobalSettings = SwiftyGlobalSettings::default();
    let mut found: bool = false;
    let mut i: usize = 0;
    proof {
        assert(files@.take(0) =~= Seq::empty());
        assert(types::detected_models(repos@) =~= detected_in(files@.take(0)));
    }
    while i < files.len()
        invariant
            i <= files@.len(),
            types::detected_models(repos@) == detected_in(files@.take(i as int)),
            global.arma_path@ == first_arma_path(files@.take(i as int)),
            global.temp_path@ == first_temp_path(files@.take(i as int)),
            found == exists|j: int| 0 <= j < i && !(#[trigger] files@[j] is Missing),
            !found ==> detected_in(files@.take(i as int)).len() == 0,
        decreases files@.len() - i,
    {
        proof {
            assert(files@.take(i + 1).drop_last() =~= files@.take(i as int));
            assert(files@.take(i + 1).last() == files@[i as int]);
        }
        match &files[i] {
            SettingsFile::Missing => {},
            SettingsFile::Unreadable => {
                assert(!(files@[i as int] is Missing));
                found = true;
            },
            SettingsFile::Parsed(settings) => {
                assert(!(files@[i as int] is Missing));
                found = true;
                if global.arma_path.as_str().is_empty() {
                    global.arma_path = trim(settings.arma_path.as_str());
                }
                if global.temp_path.as_str().is_empty() {
                    global.temp_path = trim(settings.temp_path.as_str());
                }
                let fallback: String = first_usable_folder(&settings.addons_paths);
                detect_entries(&settings.repositories, &fallback, &mut repos);
            },
        }
        i = i + 1;
    }
    assert(files@.take(files@.len() as int) =~= files@);
    let error: Option<String> = if found {
        None
    } else {
        Some("No Swifty installation found on this system".to_owned())
    };
    SwiftyScan { repos, global, error }
}

} // verus!
