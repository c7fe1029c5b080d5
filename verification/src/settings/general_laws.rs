//! What holds of the general settings: languages, limits and switches.

use vstd::prelude::*;

use crate::settings::general;
use crate::settings::general::{export_toast, GeneralSettings};
use crate::settings::switches;
use crate::settings::switches::{Switch, SwitchSettings};
use crate::text;

verus! {

broadcast use vstd::string::group_string_axioms;

// ---------------------------------------------------------------------------
// Languages
// ---------------------------------------------------------------------------

proof fn lemma_entry_of(locale: Seq<char>, i: int)
    requires
        0 <= i <= 42,
    ensures
        ({
            let e = general::entry_of(locale, i);
            ||| i <= e < 42 && general::language_row(e).0 == locale && forall|j: int|
                i <= j < e ==> (#[trigger] general::language_row(j)).0 != locale
            ||| e == 6 && forall|j: int|
                i <= j < 42 ==> (#[trigger] general::language_row(j)).0 != locale
        }),
    decreases 42 - i,
{
    if i < 42 {
        lemma_entry_of(locale, i + 1);
    }
}

/// The entry that is selected has the code of the locale, if an entry has it; a
/// locale that no entry has selects English.
pub proof fn law_selected_entry_has_the_code(locale: Seq<char>, i: int)
    ensures
        0 <= i < 42 && general::language_row(i).0 == locale ==> general::language_row(
            general::entry_of(locale, 0),
        ).0 == locale && 0 <= general::entry_of(locale, 0) <= i,
        (forall|j: int| 0 <= j < 42 ==> (#[trigger] general::language_row(j)).0 != locale)
            ==> general::language_row(general::entry_of(locale, 0)).1 == "English"@,
{
    lemma_entry_of(locale, 0);
    if 0 <= i < 42 && general::language_row(i).0 == locale {
        assert(general::language_row(i).0 == locale);
    }
    let e = general::entry_of(locale, 0);
    if 0 <= e < 42 && general::language_row(e).0 == locale {
        assert(general::language_row(e).0 == locale);
    }
}

/// A label is the translated name and, behind it in brackets, the English one;
/// the entry that follows the system has no English one.
pub proof fn law_label_of_a_language(i: int, translated: Seq<char>)
    ensures
        general::language_label(0, translated) == translated,
        0 < i < 42 ==> general::language_label(i, translated) == translated + " ("@
            + general::language_row(i).1 + ")"@,
{
}

/// The entries that a search finds: each whose translated or English name holds
/// what is searched for, whatever the case of ASCII letters and the white space
/// around it; all of them if nothing is. They keep their order.
pub proof fn law_search_finds_languages(
    filter: Seq<char>,
    translated: Seq<Seq<char>>,
    n: int,
    i: int,
)
    requires
        0 <= n <= 42,
        0 <= i < 42,
    ensures
        ({
            let wanted = text::lowered(text::trimmed(filter));
            let found = general::languages_shown(translated, general::search_text(filter), n);
            &&& found.contains(i as usize) <==> i < n && (wanted.len() == 0
                || text::text_contains(text::lowered(translated[i]), wanted)
                || text::text_contains(text::lowered(general::language_row(i).1), wanted))
            &&& forall|k: int| 0 <= k < found.len() ==> (#[trigger] found[k]) < n
            &&& forall|k: int, l: int|
                0 <= k < l < found.len() ==> (#[trigger] found[k]) < (#[trigger] found[l])
        }),
    decreases n,
{
    let wanted = general::search_text(filter);
    let found = general::languages_shown(translated, wanted, n);
    if n > 0 {
        law_search_finds_languages(filter, translated, n - 1, i);
        let head = general::languages_shown(translated, wanted, n - 1);
        if found.contains(i as usize) {
            let k = choose|k: int| 0 <= k < found.len() && found[k] == i as usize;
            if k < head.len() {
                assert(head[k] == i as usize);
            }
        }
        if head.contains(i as usize) {
            let k = choose|k: int| 0 <= k < head.len() && head[k] == i as usize;
            assert(found[k] == i as usize);
        }
        if i == n - 1 && general::language_shows(i, translated[i], wanted) {
            assert(found[head.len() as int] == i as usize);
        }
    }
}

/// Picking a language takes its code and nothing else, and changes something
/// exactly if the code was another.
pub proof fn law_picked_language_is_taken(s: &mut GeneralSettings, i: usize, changed: bool)
    requires
        i < 42,
        call_ensures(GeneralSettings::pick_language, (s, i), changed),
    ensures
        final(s).locale@ == general::language_row(i as int).0,
        changed <==> final(s).locale@ != old(s).locale@,
        *final(s) == (GeneralSettings { locale: final(s).locale, ..*old(s) }),
{
}

// ---------------------------------------------------------------------------
// Limits and ways out
// ---------------------------------------------------------------------------

/// Without a limit there is none; a limit begins with the slowest one.
pub proof fn law_limit_begins_slowest(s: &mut GeneralSettings, unlimited: bool)
    requires
        call_ensures(GeneralSettings::set_unlimited, (s, unlimited), ()),
    ensures
        final(s).download_speed_limit_mbps is None <==> unlimited,
        !unlimited ==> final(s).download_speed_limit_mbps == Some(1u32),
        final(s).locale == old(s).locale,
        final(s).hash_io_profile == old(s).hash_io_profile,
{
}

/// A limit that is shown is never zero, and any other limit is shown as it is.
pub proof fn law_limit_is_never_zero(s: &mut GeneralSettings, r: Option<u32>)
    requires
        call_ensures(GeneralSettings::limit_shown, (s,), r),
    ensures
        r is Some <==> old(s).download_speed_limit_mbps is Some,
        r is Some ==> r->0 >= 1,
        old(s).download_speed_limit_mbps matches Some(n) ==> (n > 0 ==> r == Some(n)),
        old(s).download_speed_limit_mbps == Some(0u32) ==> r == Some(1u32),
        final(s).download_speed_limit_mbps == r,
{
}

/// Hiding the icon closes its window; showing it opens none.
pub proof fn law_no_window_without_the_icon(s: &mut GeneralSettings, shown: bool)
    requires
        call_ensures(GeneralSettings::set_memory_icon, (s, shown), ()),
    ensures
        final(s).show_memory_diagnostics_icon == shown,
        !shown ==> !final(s).show_memory_diagnostics_window,
        shown ==> final(s).show_memory_diagnostics_window == old(
            s).show_memory_diagnostics_window,
{
}

/// Closing after a launch ends hiding; not closing leaves hiding as it was.
pub proof fn law_closing_ends_hiding(s: &mut GeneralSettings, on: bool)
    requires
        call_ensures(GeneralSettings::set_close_after_launch, (s, on), ()),
    ensures
        final(s).close_after_launch == on,
        on ==> !final(s).hide_to_tray_after_launch,
        !on ==> final(s).hide_to_tray_after_launch == old(s).hide_to_tray_after_launch,
{
}

/// Hiding can be switched only where there is a tray and Foxy does not close.
pub proof fn law_hiding_needs_a_tray(
    s: &mut GeneralSettings,
    on: bool,
    tray: bool,
)
    requires
        call_ensures(GeneralSettings::set_hide_to_tray, (s, on, tray), ()),
    ensures
        tray && !old(s).close_after_launch ==> final(s).hide_to_tray_after_launch == on,
        !tray || old(s).close_after_launch ==> *final(s) == *old(s),
        final(s).close_after_launch == old(s).close_after_launch,
{
}

/// Where there is no tray nothing hides, and that is told exactly if it changes
/// something.
pub proof fn law_nothing_hides_without_a_tray(
    s: &mut GeneralSettings,
    tray: bool,
    changed: bool,
)
    requires
        call_ensures(GeneralSettings::check_tray, (s, tray), changed),
    ensures
        !tray ==> !final(s).hide_to_tray_after_launch,
        tray ==> *final(s) == *old(s),
        changed <==> final(s).hide_to_tray_after_launch != old(s).hide_to_tray_after_launch,
{
}

/// Everything is reset only if that was asked and answered with yes; the
/// question is asked once.
pub proof fn law_reset_is_confirmed(s: &mut GeneralSettings, yes: bool, reset: bool)
    requires
        call_ensures(GeneralSettings::answer_reset, (s, yes), reset),
    ensures
        reset <==> yes && old(s).pending_reset_confirmation,
        !final(s).pending_reset_confirmation,
{
}

/// The database is wiped only if that was asked and answered with yes while
/// nothing is synchronised. A yes that does not count leaves the question open,
/// a no closes it.
pub proof fn law_wipe_is_confirmed(
    s: &mut GeneralSettings,
    yes: bool,
    syncing: bool,
    wipe: bool,
)
    requires
        call_ensures(GeneralSettings::answer_wipe, (s, yes, syncing), wipe),
    ensures
        wipe <==> yes && old(s).show_wipe_db_confirmation && !syncing,
        wipe || !yes ==> !final(s).show_wipe_db_confirmation,
        yes && syncing ==> final(s).show_wipe_db_confirmation == old(
            s).show_wipe_db_confirmation,
{
}

/// The question before a wipe opens only while nothing is synchronised.
pub proof fn law_wipe_is_asked_in_peace(s: &mut GeneralSettings, syncing: bool)
    requires
        call_ensures(GeneralSettings::request_wipe, (s, syncing), ()),
    ensures
        !syncing ==> final(s).show_wipe_db_confirmation,
        syncing ==> *final(s) == *old(s),
{
}

// ---------------------------------------------------------------------------
// Switches
// ---------------------------------------------------------------------------

/// Each switch is kept under its own name.
pub proof fn law_switches_are_kept_under_their_names(s: SwitchSettings)
    ensures
        switches::on_in(s, Switch::AutoBackup) == s.auto_backup_on_update,
        switches::on_in(s, Switch::ClientParameters) == s.apply_repo_json_client_parameters,
        switches::on_in(s, Switch::DlcContent) == s.apply_repo_json_dlc_content,
        switches::on_in(s, Switch::EditorWarning) == s.warn_editor_external_addons,
        switches::on_in(s, Switch::MissionList) == s.enable_editor_mission_list,
        switches::on_in(s, Switch::ServerList) == s.enable_server_list,
        switches::on_in(s, Switch::ServerAddonCheck) == s.check_server_addons_before_join,
        switches::on_in(s, Switch::TeamSpeakCheck) == s.check_ts3_running_before_join,
        switches::on_in(s, Switch::SteamCheck) == s.check_steam_running_before_launch,
        switches::on_in(s, Switch::RecheckOnLaunch) == s.auto_recheck_on_launch,
        switches::on_in(s, Switch::ScanOnLaunch) == s.auto_quick_scan_on_launch,
        switches::on_in(s, Switch::DebugWindows) == s.show_debug_windows,
        switches::on_in(s, Switch::FpsCounter) == s.show_fps_counter,
        switches::on_in(s, Switch::HideImage) == s.hide_repository_image,
{
}

/// Turning a switch says whether it was turned the other way before.
pub proof fn law_turned_switch_says_whether_it_changed(
    s: &mut SwitchSettings,
    which: Switch,
    on: bool,
    changed: bool,
)
    requires
        call_ensures(SwitchSettings::set, (s, which, on), changed),
    ensures
        changed <==> switches::on_in(*old(s), which) != on,
        *final(s) == switches::switched(*old(s), which, on),
{
}

/// No switch stands in two rows.
pub proof fn law_no_switch_stands_twice(i: int, j: int)
    requires
        0 <= i < j < 14,
    ensures
        switches::switch_row(i) != switches::switch_row(j),
{
}

/// Hiding can be switched exactly if there is a tray and Foxy does not close.
pub proof fn law_when_hiding_can_be_switched(s: GeneralSettings, tray: bool, r: bool)
    requires
        call_ensures(GeneralSettings::tray_switch_enabled, (&s, tray), r),
    ensures
        !r <==> s.close_after_launch || !tray,
{
}

/// A reset is asked for before it is made, and changes nothing by that.
pub proof fn law_reset_is_asked_for(s: &mut GeneralSettings)
    requires
        call_ensures(GeneralSettings::request_reset, (s,), ()),
    ensures
        final(s).pending_reset_confirmation,
        *final(s) == (GeneralSettings { pending_reset_confirmation: true, ..*old(s) }),
{
}

/// An export of the logs that was called off is not told, one that failed is
/// told as such.
pub proof fn law_end_of_an_export_is_told(
    written: Option<bool>,
    r: Option<(&'static str, bool)>,
)
    requires
        call_ensures(export_toast, (written,), r),
    ensures
        r is None <==> written == Some(false),
        written == Some(true) ==> (r->0).1 && (r->0).0@ == "Logs exported successfully."@,
        written is None ==> !(r->0).1 && (r->0).0@ == "Failed to export logs."@,
{
}

} // verus!
