//! What holds of TeamSpeak 3 plugins: rows, scans and offers.

use vstd::prelude::*;

use crate::repository::Repository;
use crate::settings::ts3_plugins;
use crate::settings::ts3_plugins::{
    install_label, status_label, PluginModel, ScanFollowUp, ScanPoll, Ts3PluginRowStatus,
    Ts3PluginState, Ts3TabNotes,
};
use crate::text;

verus! {

broadcast use vstd::string::group_string_axioms;

// ---------------------------------------------------------------------------
// Rows
// ---------------------------------------------------------------------------

/// When a plugin is presented how: current if TeamSpeak has it in its current
/// form, to be updated if TeamSpeak has another form, pending if it was only
/// opened for installation, and not installed otherwise.
pub proof fn law_how_a_plugin_is_presented(installed: bool, current: bool, opened: bool)
    ensures
        ({
            let status = ts3_plugins::status_of(installed, current, opened);
            &&& status is UpToDate <==> current
            &&& status is UpdateAvailable <==> installed && !current
            &&& status is InstallPending <==> opened && !installed && !current
            &&& status is NotInstalled <==> !opened && !installed && !current
        }),
{
}

/// There is a row for each plugin of this session's scan, and if there was none,
/// for each one of the records. It tells the name, the path and the hash of its
/// plugin, and is verified exactly if it comes from the scan.
pub proof fn law_rows_are_those_of_the_scan(state: Ts3PluginState, i: int)
    ensures
        ({
            let rows = ts3_plugins::rows_of(state);
            &&& state.cache matches Some(found) ==> rows.len() == found@.len() && (0 <= i
                < found@.len() ==> {
                &&& rows[i].addon_name == found@[i].addon_name@
                &&& rows[i].path_key == found@[i].plugin_path@
                &&& rows[i].file_hash == found@[i].file_hash@
                &&& rows[i].verified_now
                &&& rows[i].status is UpToDate <==> found@[i].is_up_to_date
            })
            &&& state.cache is None ==> rows.len() == state.statuses@.len() && (0 <= i
                < state.statuses@.len() ==> {
                &&& rows[i].addon_name == state.statuses@[i].addon_name@
                &&& rows[i].path_key == state.statuses@[i].plugin_path@
                &&& rows[i].file_hash == state.statuses@[i].package_hash@
                &&& !rows[i].verified_now
                &&& rows[i].status is UpToDate <==> state.statuses@[i].is_up_to_date
            })
        }),
{
}

/// A plugin that TeamSpeak does not have is pending exactly if its own hash was
/// noted for its own path.
pub proof fn law_pending_is_what_was_opened(state: Ts3PluginState, i: int)
    requires
        state.cache matches Some(found) && 0 <= i < found@.len() && !found@[i].is_installed
            && !found@[i].is_up_to_date,
    ensures
        ({
            let plugin = state.cache->0@[i];
            let hashes = state.installed_hashes@;
            ts3_plugins::rows_of(state)[i].status is InstallPending <==> hashes.dom().contains(
                plugin.plugin_path@,
            ) && hashes[plugin.plugin_path@] == plugin.file_hash@
        }),
{
}

// ---------------------------------------------------------------------------
// Scans
// ---------------------------------------------------------------------------

/// A scan looks into the folders of the one list of repositories and then into
/// those of the other; into that of one repository if it has one.
pub proof fn law_scanned_folders_add_up(a: Seq<Repository>, b: Seq<Repository>, one: Repository)
    ensures
        ts3_plugins::scan_folders(a + b) == ts3_plugins::scan_folders(a)
            + ts3_plugins::scan_folders(b),
        one.path@.len() > 0 ==> ts3_plugins::scan_folders(seq![one]) == seq![one.path@],
        one.path@.len() == 0 ==> ts3_plugins::scan_folders(seq![one]).len() == 0,
    decreases b.len(),
{
    reveal_with_fuel(ts3_plugins::scan_folders, 2);
    assert(seq![one].drop_last() =~= Seq::empty());
    if one.path@.len() > 0 {
        assert(ts3_plugins::scan_folders(seq![one]) =~= seq![one.path@]);
    }
    if b.len() == 0 {
        assert(a + b =~= a);
        assert(ts3_plugins::scan_folders(b) =~= Seq::empty());
        assert(ts3_plugins::scan_folders(a) + ts3_plugins::scan_folders(b)
            =~= ts3_plugins::scan_folders(a));
    } else {
        law_scanned_folders_add_up(a, b.drop_last(), one);
        assert((a + b).drop_last() =~= a + b.drop_last());
        assert(ts3_plugins::scan_folders(a + b) =~= ts3_plugins::scan_folders(a)
            + ts3_plugins::scan_folders(b));
    }
}

/// Whether the update of a plugin can be offered: TeamSpeak has it or it was
/// noted before, and it is not current.
pub open spec fn can_be_offered(hashes: Map<Seq<char>, Seq<char>>, p: PluginModel) -> bool {
    !p.is_up_to_date && (p.is_installed || hashes.dom().contains(p.path))
}

proof fn lemma_notes_of_others(
    hashes: Map<Seq<char>, Seq<char>>,
    found: Seq<PluginModel>,
    n: int,
    prompt: bool,
    path: Seq<char>,
)
    requires
        0 <= n <= found.len(),
        forall|i: int| 0 <= i < n && (#[trigger] found[i]).path == path ==> !found[i].is_up_to_date,
    ensures
        ({
            let after = ts3_plugins::taken_over(hashes, found, n, prompt).hashes;
            &&& after.dom().contains(path) <==> hashes.dom().contains(path)
            &&& hashes.dom().contains(path) ==> after[path] == hashes[path]
        }),
    decreases n,
{
    if n > 0 {
        lemma_notes_of_others(hashes, found, n - 1, prompt, path);
        assert(found[n - 1].path == path ==> !found[n - 1].is_up_to_date);
    }
}

/// A note changes only for a plugin that is current: every other path keeps its
/// hash or stays without one.
pub proof fn law_only_current_plugins_are_noted(
    hashes: Map<Seq<char>, Seq<char>>,
    found: Seq<PluginModel>,
    prompt: bool,
    path: Seq<char>,
)
    requires
        forall|i: int|
            0 <= i < found.len() && (#[trigger] found[i]).path == path
                ==> !found[i].is_up_to_date,
    ensures
        ({
            let after = ts3_plugins::taken_over(hashes, found, found.len() as int, prompt).hashes;
            &&& after.dom().contains(path) <==> hashes.dom().contains(path)
            &&& hashes.dom().contains(path) ==> after[path] == hashes[path]
        }),
{
    lemma_notes_of_others(hashes, found, found.len() as int, prompt, path);
}

proof fn lemma_offer(
    hashes: Map<Seq<char>, Seq<char>>,
    found: Seq<PluginModel>,
    n: int,
    prompt: bool,
)
    requires
        0 <= n <= found.len(),
        ts3_plugins::distinct_paths(found),
    ensures
        match ts3_plugins::taken_over(hashes, found, n, prompt).offer {
            Some(k) => prompt && 0 <= k < n && can_be_offered(hashes, found[k]) && forall|i: int|
                0 <= i < k ==> !can_be_offered(hashes, #[trigger] found[i]),
            None => prompt ==> forall|i: int|
                0 <= i < n ==> !can_be_offered(hashes, #[trigger] found[i]),
        },
    decreases n,
{
    if n > 0 {
        lemma_offer(hashes, found, n - 1, prompt);
        let p = found[n - 1];
        assert forall|i: int| 0 <= i < n - 1 && (#[trigger] found[i]).path
            == p.path implies !found[i].is_up_to_date by {
            assert(found[i].path != found[n - 1].path);
        }
        lemma_notes_of_others(hashes, found, n - 1, prompt, p.path);
    }
}

/// The first plugin that TeamSpeak has or that was noted, and that is not
/// current, is offered, if the scan may offer anything; otherwise none is.
pub proof fn law_first_outdated_plugin_is_offered(
    hashes: Map<Seq<char>, Seq<char>>,
    found: Seq<PluginModel>,
    prompt: bool,
    k: int,
)
    requires
        ts3_plugins::distinct_paths(found),
    ensures
        ({
            let offer = ts3_plugins::taken_over(
                hashes,
                found,
                found.len() as int,
                prompt,
            ).offer;
            &&& !prompt ==> offer is None
            &&& prompt && 0 <= k < found.len() && can_be_offered(hashes, found[k]) && (forall|
                i: int,
            |
                0 <= i < k ==> !can_be_offered(hashes, #[trigger] found[i])) ==> offer == Some(k)
            &&& (forall|i: int|
                0 <= i < found.len() ==> !can_be_offered(hashes, #[trigger] found[i]))
                ==> offer is None
        }),
{
    lemma_offer(hashes, found, found.len() as int, prompt);
    let offer = ts3_plugins::taken_over(hashes, found, found.len() as int, prompt).offer;
    if offer is Some {
        assert(can_be_offered(hashes, found[offer->0]));
    }
}

/// A scan begins at once unless one runs. Then it is noted and begins as soon as
/// the one that runs is done; whether it may offer an update is not forgotten.
pub proof fn law_scan_begins_or_is_noted(
    state: &mut Ts3PluginState,
    repositories: Vec<Repository>,
    prompt: bool,
    r: Option<Vec<String>>,
)
    requires
        call_ensures(
            Ts3PluginState::start_ts3_plugin_scan,
            (state, &repositories, prompt),
            r,
        ),
    ensures
        final(state).scanning,
        !old(state).scanning ==> r is Some && text::views(r->0@) == ts3_plugins::scan_folders(
            repositories@,
        ) && final(state).prompt_on_update == prompt && !final(state).requeued,
        old(state).scanning ==> r is None && final(state).requeued && (final(
            state).prompt_on_update <==> old(state).prompt_on_update || prompt),
        final(state).cache == old(state).cache,
        final(state).statuses == old(state).statuses,
        final(state).installed_hashes == old(state).installed_hashes,
{
}

/// The scan of a launch begins once, for a space of the game alone, and offers
/// nothing.
pub proof fn law_scan_of_a_launch(
    state: &mut Ts3PluginState,
    repositories: Vec<Repository>,
    arma3_space: bool,
    r: Option<Vec<String>>,
)
    requires
        call_ensures(
            Ts3PluginState::start_startup_ts3_plugin_scan,
            (state, &repositories, arma3_space),
            r,
        ),
    ensures
        !arma3_space || old(state).cache is Some || old(state).scanning ==> r is None && *final(
            state) == *old(state),
        arma3_space && old(state).cache is None && !old(state).scanning ==> r is Some && final(
            state).scanning && !final(state).prompt_on_update && text::views(r->0@)
            == ts3_plugins::scan_folders(repositories@),
{
}

/// A scan that is done is what the tab shows from then on, and what is recorded:
/// each plugin with its name, path, hash and state. Another scan begins exactly
/// if it was asked for meanwhile. A worker that was lost ends the scan and
/// changes nothing else that is shown.
pub proof fn law_result_of_a_scan_is_kept(
    state: &mut Ts3PluginState,
    repositories: Vec<Repository>,
    poll: ScanPoll,
    r: ScanFollowUp,
    i: int,
)
    requires
        call_ensures(Ts3PluginState::poll_ts3_plugin_scan, (state, &repositories, poll), r),
    ensures
        poll is Waiting ==> *final(state) == *old(state) && !r.save_settings && r.scan is None,
        poll is Lost ==> !final(state).scanning && final(state).cache == old(state).cache
            && final(state).statuses == old(state).statuses && final(state).installed_hashes
            == old(state).installed_hashes && !r.save_settings && r.scan is None,
        poll matches ScanPoll::Done { statuses, ts3_running, prompt_on_update } ==> {
            &&& final(state).cache == Some(statuses)
            &&& final(state).running == Some(ts3_running)
            &&& final(state).scanning <==> old(state).requeued
            &&& r.scan is Some <==> old(state).requeued
            &&& !final(state).requeued
            &&& final(state).statuses@.len() == statuses@.len()
            &&& 0 <= i < statuses@.len() ==> {
                let kept = final(state).statuses@[i];
                &&& kept.addon_name@ == statuses@[i].addon_name@
                &&& kept.plugin_path@ == statuses@[i].plugin_path@
                &&& kept.package_hash@ == statuses@[i].file_hash@
                &&& kept.is_installed == statuses@[i].is_installed
                &&& kept.is_up_to_date == statuses@[i].is_up_to_date
            }
            &&& !prompt_on_update ==> final(state).prompt == old(state).prompt
        },
{
    if let ScanPoll::Done { statuses, ts3_running, prompt_on_update } = poll {
        let found = ts3_plugins::scanned_all(statuses@);
        let kept = ts3_plugins::recorded_all(final(state).statuses@);
        assert(kept.len() == found.len());
        if 0 <= i < statuses@.len() {
            assert(kept[i] == found[i]);
        }
        if !prompt_on_update {
            lemma_no_offer(old(state).installed_hashes@, found, found.len() as int);
        }
    }
}

proof fn lemma_no_offer(hashes: Map<Seq<char>, Seq<char>>, found: Seq<PluginModel>, n: int)
    ensures
        ts3_plugins::taken_over(hashes, found, n, false).offer is None,
    decreases n,
{
    if n > 0 {
        lemma_no_offer(hashes, found, n - 1);
    }
}

// ---------------------------------------------------------------------------
// The tab and the banner
// ---------------------------------------------------------------------------

/// While a scan runs the tab says so and starts no other; while TeamSpeak runs
/// nothing can be installed; rows of an earlier launch are marked as such.
pub proof fn law_notes_of_the_tab(state: Ts3PluginState, r: Ts3TabNotes)
    requires
        call_ensures(Ts3PluginState::tab_notes, (&state,), r),
    ensures
        r.checking <==> state.scanning,
        r.can_recheck <==> !state.scanning,
        r.start_scan <==> state.cache is None && !state.scanning,
        r.close_teamspeak <==> state.running == Some(true),
        r.can_install <==> !r.close_teamspeak,
        state.scanning ==> !r.last_known && !r.nothing_found && !r.start_scan,
        !state.scanning && state.cache is None ==> (r.last_known <==> state.statuses@.len() > 0),
        state.cache is Some ==> !r.last_known,
        !state.scanning && state.cache is Some ==> (r.nothing_found <==> state.cache->0@.len()
            == 0),
{
}

/// An install is noted exactly if the plugin was opened, under its own path and
/// with its own hash; nothing else changes.
pub proof fn law_opened_plugin_is_noted(
    state: &mut Ts3PluginState,
    path: String,
    hash: String,
    opened: bool,
    r: &'static str,
    other: Seq<char>,
)
    requires
        call_ensures(Ts3PluginState::note_install, (state, &path, &hash, opened), r),
    ensures
        !opened ==> *final(state) == *old(state),
        opened ==> final(state).installed_hashes@.dom().contains(path@) && final(
            state).installed_hashes@[path@] == hash@,
        other != path@ ==> (final(state).installed_hashes@.dom().contains(other) <==> old(
            state).installed_hashes@.dom().contains(other)),
        other != path@ && old(state).installed_hashes@.dom().contains(other) ==> final(
            state).installed_hashes@[other] == old(state).installed_hashes@[other],
        final(state).cache == old(state).cache,
        final(state).prompt == old(state).prompt,
{
}

/// An offer is gone once it was answered. It is noted as installed exactly if it
/// was accepted and could be opened; what is told says whether it could.
pub proof fn law_answered_offer_is_gone(
    state: &mut Ts3PluginState,
    install: bool,
    opened: bool,
    r: Option<&'static str>,
)
    requires
        call_ensures(Ts3PluginState::answer_prompt, (state, install, opened), r),
    ensures
        final(state).prompt is None,
        r is Some <==> install && old(state).prompt is Some,
        !install || !opened || old(state).prompt is None ==> final(state).installed_hashes@
            == old(state).installed_hashes@,
        install && opened ==> (old(state).prompt matches Some(p) ==> final(
            state).installed_hashes@.dom().contains(p.plugin_path@) && final(
            state).installed_hashes@[p.plugin_path@] == p.file_hash@ && r->0@
            == "TS3 plugin opened for installation."@),
        install && !opened && old(state).prompt is Some ==> r->0@
            == "Failed to open TS3 plugin for installation."@,
        final(state).cache == old(state).cache,
{
}

/// Only a plugin that is current asks for no attention and is reinstalled.
pub proof fn law_only_current_plugins_are_reinstalled(
    status: Ts3PluginRowStatus,
    label: (&'static str, bool),
    button: &'static str,
)
    requires
        call_ensures(status_label, (status,), label),
        call_ensures(install_label, (status,), button),
    ensures
        !label.1 <==> status is UpToDate,
        status is UpToDate ==> button@ == "Reinstall"@,
        !(status is UpToDate) ==> button@ == "Install"@,
{
}

} // verus!
