//! TeamSpeak 3 plugins found in repositories.

use vstd::prelude::*;

use crate::repository::Repository;
use crate::text;
use crate::text_map::TextMap;

verus! {

broadcast use vstd::string::group_string_axioms;

// ---------------------------------------------------------------------------
// Types
// ---------------------------------------------------------------------------

/// How a plugin is presented in the settings tab.
#[derive(Debug, Clone, Copy, PartialEq, Eq, Structural)]
pub enum Ts3PluginRowStatus {
    UpToDate,
    UpdateAvailable,
    /// Opened for installation through Foxy, but TeamSpeak has not applied it yet.
    InstallPending,
    NotInstalled,
}

/// What a scan found of one plugin.
#[derive(Debug)]
pub struct Ts3PluginStatus {
    pub addon_name: String,
    pub plugin_path: String,
    pub file_hash: String,
    pub is_installed: bool,
    pub is_up_to_date: bool,
}

/// What is kept of one plugin between launches.
#[derive(Debug)]
pub struct Ts3PluginStatusRecord {
    pub plugin_path: String,
    pub addon_name: String,
    pub package_hash: String,
    pub is_installed: bool,
    pub is_up_to_date: bool,
}

/// A plugin whose update is offered.
#[derive(Debug)]
pub struct Ts3PluginUpdatePrompt {
    pub plugin_path: String,
    pub addon_name: String,
    pub file_hash: String,
}

/// One rendered plugin entry, built either from the live scan or from the
/// persisted state of the last verified check.
#[derive(Debug)]
pub struct Ts3PluginRow {
    pub addon_name: String,
    pub path_key: String,
    pub file_hash: String,
    pub status: Ts3PluginRowStatus,
    /// False when the row comes from persisted state rather than this session's scan.
    pub verified_now: bool,
}

/// What the plugin tab knows.
#[derive(Debug)]
pub struct Ts3PluginState {
    /// What this session's scan found.
    pub cache: Option<Vec<Ts3PluginStatus>>,
    /// Whether TeamSpeak ran at the last scan.
    pub running: Option<bool>,
    pub scanning: bool,
    /// Whether the scan that runs may offer an update.
    pub prompt_on_update: bool,
    /// Whether another scan was asked for while one ran.
    pub requeued: bool,
    pub prompt: Option<Ts3PluginUpdatePrompt>,
    /// The hash of each plugin that was installed, by its path.
    pub installed_hashes: TextMap,
    pub statuses: Vec<Ts3PluginStatusRecord>,
}

/// Texts of a plugin entry.
#[verifier::ext_equal]
pub struct PluginModel {
    pub path: Seq<char>,
    pub addon_name: Seq<char>,
    pub hash: Seq<char>,
    pub is_installed: bool,
    pub is_up_to_date: bool,
}

/// What a scan says of a plugin.
pub open spec fn scanned(s: Ts3PluginStatus) -> PluginModel {
    PluginModel {
        path: s.plugin_path@,
        addon_name: s.addon_name@,
        hash: s.file_hash@,
        is_installed: s.is_installed,
        is_up_to_date: s.is_up_to_date,
    }
}

/// What a record says of a plugin.
pub open spec fn recorded(r: Ts3PluginStatusRecord) -> PluginModel {
    PluginModel {
        path: r.plugin_path@,
        addon_name: r.addon_name@,
        hash: r.package_hash@,
        is_installed: r.is_installed,
        is_up_to_date: r.is_up_to_date,
    }
}

/// What a scan says of its plugins.
pub open spec fn scanned_all(v: Seq<Ts3PluginStatus>) -> Seq<PluginModel> {
    Seq::new(v.len(), |i: int| scanned(v[i]))
}

/// What the records of a list say.
pub open spec fn recorded_all(v: Seq<Ts3PluginStatusRecord>) -> Seq<PluginModel> {
    Seq::new(v.len(), |i: int| recorded(v[i]))
}

// ---------------------------------------------------------------------------
// Rows
// ---------------------------------------------------------------------------

/// How a plugin is presented: what TeamSpeak says counts first, what was opened
/// for installation only after that.
pub open spec fn status_of(
    is_installed: bool,
    is_up_to_date: bool,
    foxy_hash_matches: bool,
) -> Ts3PluginRowStatus {
    if is_up_to_date {
        Ts3PluginRowStatus::UpToDate
    } else if is_installed {
        Ts3PluginRowStatus::UpdateAvailable
    } else if foxy_hash_matches {
        Ts3PluginRowStatus::InstallPending
    } else {
        Ts3PluginRowStatus::NotInstalled
    }
}

/// How a plugin is presented.
pub fn row_status(is_installed: bool, is_up_to_date: bool, foxy_hash_matches: bool) -> (r:
    Ts3PluginRowStatus)
    ensures
        r == status_of(is_installed, is_up_to_date, foxy_hash_matches),
{
    if is_up_to_date {
        Ts3PluginRowStatus::UpToDate
    } else if is_installed {
        Ts3PluginRowStatus::UpdateAvailable
    } else if foxy_hash_matches {
        Ts3PluginRowStatus::InstallPending
    } else {
        Ts3PluginRowStatus::NotInstalled
    }
}

/// What a row says.
#[verifier::ext_equal]
pub struct RowModel {
    pub addon_name: Seq<char>,
    pub path_key: Seq<char>,
    pub file_hash: Seq<char>,
    pub status: Ts3PluginRowStatus,
    pub verified_now: bool,
}

/// What the rows of a list say.
pub open spec fn row_models(v: Seq<Ts3PluginRow>) -> Seq<RowModel> {
    Seq::new(
        v.len(),
        |i: int|
            RowModel {
                addon_name: v[i].addon_name@,
                path_key: v[i].path_key@,
                file_hash: v[i].file_hash@,
                status: v[i].status,
                verified_now: v[i].verified_now,
            },
    )
}

/// Whether a map of hashes holds the hash of a plugin.
pub open spec fn hash_matches(hashes: Map<Seq<char>, Seq<char>>, p: PluginModel) -> bool {
    hashes.dom().contains(p.path) && hashes[p.path] == p.hash
}

/// The row of a plugin.
pub open spec fn row_of(
    hashes: Map<Seq<char>, Seq<char>>,
    p: PluginModel,
    verified_now: bool,
) -> RowModel {
    RowModel {
        addon_name: p.addon_name,
        path_key: p.path,
        file_hash: p.hash,
        status: status_of(p.is_installed, p.is_up_to_date, hash_matches(hashes, p)),
        verified_now,
    }
}

/// The rows of the tab: from this session's scan, or else from the records.
pub open spec fn rows_of(state: Ts3PluginState) -> Seq<RowModel> {
    let hashes = state.installed_hashes@;
    match state.cache {
        Some(found) => Seq::new(
            found@.len(),
            |i: int| row_of(hashes, scanned(found@[i]), true),
        ),
        None => Seq::new(
            state.statuses@.len(),
            |i: int| row_of(hashes, recorded(state.statuses@[i]), false),
        ),
    }
}

impl Ts3PluginState {
    /// Build the rows to render, preferring this session's verified scan and
    /// falling back to the persisted state of the last check.
    pub fn ts3_plugin_rows(&self) -> (r: Vec<Ts3PluginRow>)
        ensures
            row_models(r@) == rows_of(*self),
    {
        let mut out: Vec<Ts3PluginRow> = Vec::new();
        let ghost want = rows_of(*self);
        let mut i: usize = 0;
        match &self.cache {
            Some(found) => {
                while i < found.len()
                    invariant
                        self.cache is Some,
                        *found == self.cache->0,
                        want == rows_of(*self),
                        i <= found@.len(),
                        row_models(out@) =~= want.take(i as int),
                    decreases found@.len() - i,
                {
                    let s: &Ts3PluginStatus = &found[i];
                    let matches: bool = self.installed_hashes.holds(&s.plugin_path, &s.file_hash);
                    let ghost before = row_models(out@);
                    out.push(
                        Ts3PluginRow {
                            addon_name: s.addon_name.clone(),
                            path_key: s.plugin_path.clone(),
                            file_hash: s.file_hash.clone(),
                            status: row_status(s.is_installed, s.is_up_to_date, matches),
                            verified_now: true,
                        },
                    );
                    assert(row_models(out@) =~= before.push(want[i as int]));
                    i = i + 1;
                }
                assert(want.take(found@.len() as int) =~= want);
            },
            None => {
                while i < self.statuses.len()
                    invariant
                        self.cache is None,
                        want == rows_of(*self),
                        i <= self.statuses@.len(),
                        row_models(out@) =~= want.take(i as int),
                    decreases self.statuses@.len() - i,
                {
                    let s: &Ts3PluginStatusRecord = &self.statuses[i];
                    let matches: bool = self.installed_hashes.holds(
                        &s.plugin_path,
                        &s.package_hash,
                    );
                    let ghost before = row_models(out@);
                    out.push(
                        Ts3PluginRow {
                            addon_name: s.addon_name.clone(),
                            path_key: s.plugin_path.clone(),
                            file_hash: s.package_hash.clone(),
                            status: row_status(s.is_installed, s.is_up_to_date, matches),
                            verified_now: false,
                        },
                    );
                    assert(row_models(out@) =~= before.push(want[i as int]));
                    i = i + 1;
                }
                assert(want.take(self.statuses@.len() as int) =~= want);
            },
        }
        out
    }
}

// ---------------------------------------------------------------------------
// Scans
// ---------------------------------------------------------------------------

/// The folders that a scan looks into: those of the repositories that have one.
pub open spec fn scan_folders(repos: Seq<Repository>) -> Seq<Seq<char>>
    decreases repos.len(),
{
    if repos.len() == 0 {
        Seq::empty()
    } else {
        let head = scan_folders(repos.drop_last());
        if repos.last().path@.len() > 0 {
            head.push(repos.last().path@)
        } else {
            head
        }
    }
}

/// The folders that a scan looks into.
fn folders_to_scan(repos: &Vec<Repository>) -> (r: Vec<String>)
    ensures
        text::views(r@) == scan_folders(repos@),
{
    let mut out: Vec<String> = Vec::new();
    let mut i: usize = 0;
    proof {
        assert(repos@.take(0) =~= Seq::empty());
        assert(text::views(out@) =~= scan_folders(repos@.take(0)));
    }
    while i < repos.len()
        invariant
            i <= repos@.len(),
            text::views(out@) == scan_folders(repos@.take(i as int)),
        decreases repos@.len() - i,
    {
        let ghost before = text::views(out@);
        proof {
            assert(repos@.take(i + 1).drop_last() =~= repos@.take(i as int));
            assert(repos@.take(i + 1).last() == repos@[i as int]);
        }
        if !repos[i].path.as_str().is_empty() {
            out.push(repos[i].path.clone());
            assert(text::views(out@) =~= before.push(repos@[i as int].path@));
        }
        i = i + 1;
    }
    assert(repos@.take(repos@.len() as int) =~= repos@);
    out
}

/// What looking for the result of a scan found.
#[derive(Debug)]
pub enum ScanPoll {
    /// No scan runs, or it is not done.
    Waiting,
    /// The worker ended without a result.
    Lost,
    Done { statuses: Vec<Ts3PluginStatus>, ts3_running: bool, prompt_on_update: bool },
}

/// What has to be done after the result of a scan was taken over.
#[derive(Debug)]
pub struct ScanFollowUp {
    pub save_settings: bool,
    /// The folders of a scan that begins, because it was asked for meanwhile.
    pub scan: Option<Vec<String>>,
}

/// Whether nothing has to be done.
pub open spec fn nothing_follows(f: ScanFollowUp) -> bool {
    !f.save_settings && f.scan is None
}

/// What taking over a scan has come to after some of its plugins: the hashes,
/// whether they changed, and the plugin whose update is offered.
pub struct TakeOver {
    pub hashes: Map<Seq<char>, Seq<char>>,
    pub changed: bool,
    pub offer: Option<int>,
}

/// Taking over the first `n` plugins of a scan. A plugin that TeamSpeak has in
/// its current form is noted as installed; the first one that was installed and
/// is not current is offered.
pub open spec fn taken_over(
    hashes: Map<Seq<char>, Seq<char>>,
    found: Seq<PluginModel>,
    n: int,
    prompt_on_update: bool,
) -> TakeOver
    decreases n,
{
    if n <= 0 {
        TakeOver { hashes, changed: false, offer: None }
    } else {
        let so_far = taken_over(hashes, found, n - 1, prompt_on_update);
        let p = found[n - 1];
        let known = so_far.hashes.dom().contains(p.path);
        let note = p.is_up_to_date && !hash_matches(so_far.hashes, p);
        TakeOver {
            hashes: if note {
                so_far.hashes.insert(p.path, p.hash)
            } else {
                so_far.hashes
            },
            changed: so_far.changed || note,
            offer: if so_far.offer is None && prompt_on_update && (known || p.is_installed)
                && !p.is_up_to_date {
                Some(n - 1)
            } else {
                so_far.offer
            },
        }
    }
}

/// Whether a prompt offers a plugin.
pub open spec fn offers(prompt: Option<Ts3PluginUpdatePrompt>, p: PluginModel) -> bool {
    prompt matches Some(q) && q.plugin_path@ == p.path && q.addon_name@ == p.addon_name
        && q.file_hash@ == p.hash
}

/// Whether two lists of records say the same.
fn same_records(a: &Vec<Ts3PluginStatusRecord>, b: &Vec<Ts3PluginStatusRecord>) -> (r: bool)
    ensures
        r == (recorded_all(a@) == recorded_all(b@)),
{
    if a.len() != b.len() {
        assert(recorded_all(a@).len() != recorded_all(b@).len());
        return false;
    }
    let mut i: usize = 0;
    while i < a.len()
        invariant
            a@.len() == b@.len(),
            i <= a@.len(),
            forall|j: int| 0 <= j < i ==> recorded(#[trigger] a@[j]) == recorded(b@[j]),
        decreases a@.len() - i,
    {
        let x: &Ts3PluginStatusRecord = &a[i];
        let y: &Ts3PluginStatusRecord = &b[i];
        if x.plugin_path != y.plugin_path || x.addon_name != y.addon_name || x.package_hash
            != y.package_hash || x.is_installed != y.is_installed || x.is_up_to_date
            != y.is_up_to_date {
            proof {
                assert(recorded_all(a@)[i as int] == recorded(*x));
                assert(recorded_all(b@)[i as int] == recorded(*y));
            }
            return false;
        }
        i = i + 1;
    }
    assert(recorded_all(a@) =~= recorded_all(b@));
    true
}

impl Ts3PluginState {
    /// Asks for a scan. While one runs, the request is only noted; otherwise
    /// the scan looks into the folders that come back.
    pub fn start_ts3_plugin_scan(
        &mut self,
        repositories: &Vec<Repository>,
        prompt_on_update: bool,
    ) -> (r: Option<Vec<String>>)
        ensures
            r is None <==> old(self).scanning,
            r is None ==> *final(self) == (Ts3PluginState {
                prompt_on_update: old(self).prompt_on_update || prompt_on_update,
                requeued: true,
                ..*old(self)
            }),
            r matches Some(folders) ==> {
                &&& text::views(folders@) == scan_folders(repositories@)
                &&& *final(self) == (Ts3PluginState {
                    scanning: true,
                    prompt_on_update,
                    requeued: false,
                    ..*old(self)
                })
            },
    {
        if self.scanning {
            self.prompt_on_update = self.prompt_on_update || prompt_on_update;
            self.requeued = true;
            return None;
        }
        self.scanning = true;
        self.prompt_on_update = prompt_on_update;
        self.requeued = false;
        Some(folders_to_scan(repositories))
    }

    /// Asks for the scan that verifies the records once per launch. Only Arma 3
    /// spaces have the tab, and a session that scans or has scanned needs none.
    pub fn start_startup_ts3_plugin_scan(
        &mut self,
        repositories: &Vec<Repository>,
        arma3_space: bool,
    ) -> (r: Option<Vec<String>>)
        ensures
            r is Some <==> arma3_space && old(self).cache is None && !old(self).scanning,
            r is None ==> *final(self) == *old(self),
            r matches Some(folders) ==> {
                &&& text::views(folders@) == scan_folders(repositories@)
                &&& *final(self) == (Ts3PluginState {
                    scanning: true,
                    prompt_on_update: false,
                    requeued: false,
                    ..*old(self)
                })
            },
    {
        if !arma3_space || self.cache.is_some() || self.scanning {
            return None;
        }
        self.start_ts3_plugin_scan(repositories, false)
    }

    /// Takes over what looking for the result of a scan found.
    pub fn poll_ts3_plugin_scan(&mut self, repositories: &Vec<Repository>, poll: ScanPoll) -> (r:
        ScanFollowUp)
        ensures
            match poll {
                ScanPoll::Waiting => nothing_follows(r) && *final(self) == *old(self),
                ScanPoll::Lost => nothing_follows(r) && *final(self) == (Ts3PluginState {
                    scanning: false,
                    prompt_on_update: false,
                    ..*old(self)
                }),
                ScanPoll::Done { statuses, ts3_running, prompt_on_update } => scan_applied(
                    *old(self),
                    *final(self),
                    repositories@,
                    statuses,
                    ts3_running,
                    prompt_on_update,
                    r,
                ),
            },
    {
        match poll {
            ScanPoll::Waiting => ScanFollowUp { save_settings: false, scan: None },
            ScanPoll::Lost => {
                self.scanning = false;
                self.prompt_on_update = false;
                ScanFollowUp { save_settings: false, scan: None }
            },
            ScanPoll::Done { statuses, ts3_running, prompt_on_update } =>
                self.apply_ts3_plugin_scan_result(
                    repositories,
                    statuses,
                    ts3_running,
                    prompt_on_update,
                ),
        }
    }

    /// Takes over the result of a scan: the hashes of what is installed, the
    /// records, and the offer of an update. A scan that was asked for meanwhile
    /// begins: it looks into the folders that come back.
    pub fn apply_ts3_plugin_scan_result(
        &mut self,
        repositories: &Vec<Repository>,
        statuses: Vec<Ts3PluginStatus>,
        ts3_running: bool,
        prompt_on_update: bool,
    ) -> (r: ScanFollowUp)
        ensures
            scan_applied(
                *old(self),
                *final(self),
                repositories@,
                statuses,
                ts3_running,
                prompt_on_update,
                r,
            ),
    {
        let ghost before = *self;
        let ghost found = scanned_all(statuses@);
        let mut prompt: Option<Ts3PluginUpdatePrompt> = None;
        let mut records: Vec<Ts3PluginStatusRecord> = Vec::new();
        let mut changed: bool = false;
        let mut i: usize = 0;
        assert(recorded_all(records@) =~= found.take(0));
        while i < statuses.len()
            invariant
                found == scanned_all(statuses@),
                i <= statuses@.len(),
                recorded_all(records@) == found.take(i as int),
                ({
                    let t = taken_over(
                        before.installed_hashes@,
                        found,
                        i as int,
                        prompt_on_update,
                    );
                    &&& self.installed_hashes@ == t.hashes
                    &&& changed == t.changed
                    &&& prompt is None <==> t.offer is None
                    &&& t.offer matches Some(k) ==> 0 <= k < i && offers(prompt, found[k])
                }),
                *self == (Ts3PluginState { installed_hashes: self.installed_hashes, ..before }),
            decreases statuses@.len() - i,
        {
            let s: &Ts3PluginStatus = &statuses[i];
            assert(found[i as int] == scanned(*s));
            let known: bool = self.installed_hashes.contains_key(&s.plugin_path);
            let matches: bool = self.installed_hashes.holds(&s.plugin_path, &s.file_hash);
            let ghost list = recorded_all(records@);
            records.push(
                Ts3PluginStatusRecord {
                    plugin_path: s.plugin_path.clone(),
                    addon_name: s.addon_name.clone(),
                    package_hash: s.file_hash.clone(),
                    is_installed: s.is_installed,
                    is_up_to_date: s.is_up_to_date,
                },
            );
            proof {
                assert(recorded_all(records@) =~= list.push(scanned(*s)));
                assert(found.take(i + 1) =~= found.take(i as int).push(found[i as int]));
            }
            if !matches && s.is_up_to_date {
                self.installed_hashes.insert(s.plugin_path.clone(), s.file_hash.clone());
                changed = true;
            }
            if prompt_on_update && prompt.is_none() && (known || s.is_installed)
                && !s.is_up_to_date {
                prompt = Some(
                    Ts3PluginUpdatePrompt {
                        plugin_path: s.plugin_path.clone(),
                        addon_name: s.addon_name.clone(),
                        file_hash: s.file_hash.clone(),
                    },
                );
            }
            i = i + 1;
        }
        assert(found.take(found.len() as int) =~= found);
        if prompt.is_some() {
            self.prompt = prompt;
        }
        if !same_records(&self.statuses, &records) {
            self.statuses = records;
            changed = true;
        }
        self.cache = Some(statuses);
        self.running = Some(ts3_running);
        self.scanning = false;
        self.prompt_on_update = false;
        let scan: Option<Vec<String>> = if self.requeued {
            self.requeued = false;
            self.start_ts3_plugin_scan(repositories, false)
        } else {
            None
        };
        ScanFollowUp { save_settings: changed, scan }
    }
}

/// How taking over the result of a scan changes the state.
pub open spec fn scan_applied(
    before: Ts3PluginState,
    after: Ts3PluginState,
    repositories: Seq<Repository>,
    statuses: Vec<Ts3PluginStatus>,
    ts3_running: bool,
    prompt_on_update: bool,
    follow_up: ScanFollowUp,
) -> bool {
    let found = scanned_all(statuses@);
    let t = taken_over(
        before.installed_hashes@,
        found,
        found.len() as int,
        prompt_on_update,
    );
    &&& after.installed_hashes@ == t.hashes
    &&& recorded_all(after.statuses@) == found
    &&& match t.offer {
        Some(k) => 0 <= k < found.len() && offers(after.prompt, found[k]),
        None => after.prompt == before.prompt,
    }
    &&& follow_up.save_settings == (t.changed || recorded_all(before.statuses@) != found)
    &&& follow_up.scan is Some <==> before.requeued
    &&& follow_up.scan matches Some(folders) ==> text::views(folders@) == scan_folders(repositories)
    &&& after == (Ts3PluginState {
        cache: Some(statuses),
        running: Some(ts3_running),
        scanning: before.requeued,
        prompt_on_update: false,
        requeued: false,
        prompt: after.prompt,
        installed_hashes: after.installed_hashes,
        statuses: after.statuses,
    })
}

// ---------------------------------------------------------------------------
// The tab and the banner
// ---------------------------------------------------------------------------

/// What the tab shows above and in place of its rows.
#[derive(Debug, Clone, Copy, PartialEq, Eq, Structural)]
pub struct Ts3TabNotes {
    /// A scan has to be started because none was made and none runs.
    pub start_scan: bool,
    pub checking: bool,
    /// The rows are those of an earlier launch.
    pub last_known: bool,
    /// TeamSpeak runs, so nothing can be installed.
    pub close_teamspeak: bool,
    pub nothing_found: bool,
    pub can_recheck: bool,
    pub can_install: bool,
}

impl Ts3PluginState {
    /// What the tab shows above and in place of its rows.
    pub fn tab_notes(&self) -> (r: Ts3TabNotes)
        ensures
            ({
                let rows = rows_of(*self);
                let running = self.running == Some(true);
                r == Ts3TabNotes {
                    start_scan: self.cache is None && !self.scanning,
                    checking: self.scanning,
                    last_known: !self.scanning && rows.len() > 0 && self.cache is None,
                    close_teamspeak: running,
                    nothing_found: rows.len() == 0 && !self.scanning,
                    can_recheck: !self.scanning,
                    can_install: !running,
                }
            }),
    {
        let n: usize = match &self.cache {
            Some(found) => found.len(),
            None => self.statuses.len(),
        };
        let running: bool = match self.running {
            Some(b) => b,
            None => false,
        };
        Ts3TabNotes {
            start_scan: self.cache.is_none() && !self.scanning,
            checking: self.scanning,
            last_known: !self.scanning && n > 0 && self.cache.is_none(),
            close_teamspeak: running,
            nothing_found: n == 0 && !self.scanning,
            can_recheck: !self.scanning,
            can_install: !running,
        }
    }

    /// Notes that a plugin was opened for installation, if opening it worked.
    pub fn note_install(&mut self, path_key: &String, hash: &String, opened: bool) -> (message:
        &'static str)
        ensures
            opened ==> final(self).installed_hashes@ == old(self).installed_hashes@.insert(
                path_key@,
                hash@,
            ) && message@ == "TS3 plugin opened for installation."@,
            !opened ==> *final(self) == *old(self) && message@
                == "Failed to open TS3 plugin for installation."@,
            *final(self) == (Ts3PluginState {
                installed_hashes: final(self).installed_hashes,
                ..*old(self)
            }),
    {
        if opened {
            self.installed_hashes.insert(path_key.clone(), hash.clone());
            "TS3 plugin opened for installation."
        } else {
            "Failed to open TS3 plugin for installation."
        }
    }

    /// Answers the offer of an update. Dismissing it drops the offer; so does
    /// accepting it, after what opening the plugin came to was noted.
    pub fn answer_prompt(&mut self, install: bool, opened: bool) -> (message: Option<&'static str>)
        ensures
            final(self).prompt is None,
            message is Some <==> old(self).prompt is Some && install,
            message matches Some(m) ==> m@ == if opened {
                "TS3 plugin opened for installation."@
            } else {
                "Failed to open TS3 plugin for installation."@
            },
            final(self).installed_hashes@ == if old(self).prompt is Some && install && opened {
                old(self).installed_hashes@.insert(
                    old(self).prompt->0.plugin_path@,
                    old(self).prompt->0.file_hash@,
                )
            } else {
                old(self).installed_hashes@
            },
            *final(self) == (Ts3PluginState {
                prompt: None,
                installed_hashes: final(self).installed_hashes,
                ..*old(self)
            }),
    {
        match self.prompt.take() {
            Some(prompt) => if install {
                let m: &'static str = self.note_install(
                    &prompt.plugin_path,
                    &prompt.file_hash,
                    opened,
                );
                Some(m)
            } else {
                None
            },
            None => None,
        }
    }
}

/// The text of a status, and whether it asks for attention.
pub fn status_label(status: Ts3PluginRowStatus) -> (r: (&'static str, bool))
    ensures
        r.0@ == match status {
            Ts3PluginRowStatus::UpToDate => "Up to date"@,
            Ts3PluginRowStatus::UpdateAvailable => "Update available"@,
            Ts3PluginRowStatus::InstallPending => "Waiting for TeamSpeak to finish installing"@,
            Ts3PluginRowStatus::NotInstalled => "Not installed"@,
        },
        r.1 == !(status is UpToDate),
{
    match status {
        Ts3PluginRowStatus::UpToDate => ("Up to date", false),
        Ts3PluginRowStatus::UpdateAvailable => ("Update available", true),
        Ts3PluginRowStatus::InstallPending => ("Waiting for TeamSpeak to finish installing", true),
        Ts3PluginRowStatus::NotInstalled => ("Not installed", true),
    }
}

/// The text of the button of a row.
pub fn install_label(status: Ts3PluginRowStatus) -> (r: &'static str)
    ensures
        r@ == if status is UpToDate {
            "Reinstall"@
        } else {
            "Install"@
        },
{
    match status {
        Ts3PluginRowStatus::UpToDate => "Reinstall",
        _ => "Install",
    }
}

// ---------------------------------------------------------------------------
// Laws
// ---------------------------------------------------------------------------

/// What TeamSpeak says of a plugin wins over what was opened for installation:
/// only a plugin that it does not have at all is presented by the latter.
pub proof fn law_teamspeak_state_wins(is_installed: bool, is_up_to_date: bool, a: bool, b: bool)
    requires
        is_installed || is_up_to_date,
    ensures
        status_of(is_installed, is_up_to_date, a) == status_of(is_installed, is_up_to_date, b),
{
}

/// Whether no two plugins of a scan have one path.
pub open spec fn distinct_paths(found: Seq<PluginModel>) -> bool {
    forall|i: int, j: int|
        0 <= i < j < found.len() ==> (#[trigger] found[i]).path != (#[trigger] found[j]).path
}

/// After a scan was taken over, each plugin that TeamSpeak has in its current
/// form is noted with its hash.
pub proof fn law_current_plugins_are_noted(
    hashes: Map<Seq<char>, Seq<char>>,
    found: Seq<PluginModel>,
    n: int,
    prompt_on_update: bool,
)
    requires
        0 <= n <= found.len(),
        distinct_paths(found),
    ensures
        forall|i: int|
            0 <= i < n && (#[trigger] found[i]).is_up_to_date ==> hash_matches(
                taken_over(hashes, found, n, prompt_on_update).hashes,
                found[i],
            ),
    decreases n,
{
    if n > 0 {
        law_current_plugins_are_noted(hashes, found, n - 1, prompt_on_update);
        let before = taken_over(hashes, found, n - 1, prompt_on_update);
        let after = taken_over(hashes, found, n, prompt_on_update);
        assert forall|i: int| 0 <= i < n && (#[trigger] found[i]).is_up_to_date implies hash_matches(
            after.hashes,
            found[i],
        ) by {
            if i < n - 1 {
                assert(found[i].path != found[n - 1].path);
                assert(hash_matches(before.hashes, found[i]));
            }
        }
    }
}

/// Taking over the same scan again changes no hash.
pub proof fn law_same_scan_changes_nothing(
    hashes: Map<Seq<char>, Seq<char>>,
    found: Seq<PluginModel>,
    first_prompt: bool,
    second_prompt: bool,
)
    requires
        distinct_paths(found),
    ensures
        ({
            let once = taken_over(hashes, found, found.len() as int, first_prompt).hashes;
            let twice = taken_over(once, found, found.len() as int, second_prompt);
            twice.hashes == once && !twice.changed
        }),
{
    let once = taken_over(hashes, found, found.len() as int, first_prompt).hashes;
    law_current_plugins_are_noted(hashes, found, found.len() as int, first_prompt);
    lemma_nothing_to_note(once, found, found.len() as int, second_prompt);
}

/// Where every current plugin is noted already, taking over a scan notes none.
proof fn lemma_nothing_to_note(
    hashes: Map<Seq<char>, Seq<char>>,
    found: Seq<PluginModel>,
    n: int,
    prompt_on_update: bool,
)
    requires
        0 <= n <= found.len(),
        forall|i: int|
            0 <= i < found.len() && (#[trigger] found[i]).is_up_to_date ==> hash_matches(
                hashes,
                found[i],
            ),
    ensures
        taken_over(hashes, found, n, prompt_on_update).hashes == hashes,
        !taken_over(hashes, found, n, prompt_on_update).changed,
    decreases n,
{
    if n > 0 {
        lemma_nothing_to_note(hashes, found, n - 1, prompt_on_update);
        assert(found[n - 1].is_up_to_date ==> hash_matches(hashes, found[n - 1]));
    }
}

} // verus!
