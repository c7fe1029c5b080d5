//! Types of the Swifty migration wizard.

use vstd::prelude::*;

verus! {

/// A single repository discovered in a Swifty configuration file.
#[derive(Debug)]
pub struct SwiftyDetectedRepo {
    /// Human-readable name from the Swifty config.
    pub name: String,
    /// Original remote address (e.g. `http://server:8080/mods/RepoName`).
    pub address: String,
    /// Local mod folder that Swifty used for this repository.
    pub mod_folder: String,
    /// Raw launch-parameter string from Swifty (e.g. `"-skipIntro -noSplash -world=empty"`).
    pub parameters: String,
    /// Whether Swifty was set to auto-check this repository.
    pub autocheck: bool,
    /// Whether the user wants to import this repository.
    pub selected: bool,
}

impl Clone for SwiftyDetectedRepo {
    fn clone(&self) -> (r: Self)
        ensures
            r == *self,
    {
        SwiftyDetectedRepo {
            name: self.name.clone(),
            address: self.address.clone(),
            mod_folder: self.mod_folder.clone(),
            parameters: self.parameters.clone(),
            autocheck: self.autocheck,
            selected: self.selected,
        }
    }
}

/// What a detected repository says.
#[verifier::ext_equal]
pub struct DetectedModel {
    pub name: Seq<char>,
    pub address: Seq<char>,
    pub mod_folder: Seq<char>,
    pub parameters: Seq<char>,
    pub autocheck: bool,
    pub selected: bool,
}

impl View for SwiftyDetectedRepo {
    type V = DetectedModel;

    open spec fn view(&self) -> DetectedModel {
        DetectedModel {
            name: self.name@,
            address: self.address@,
            mod_folder: self.mod_folder@,
            parameters: self.parameters@,
            autocheck: self.autocheck,
            selected: self.selected,
        }
    }
}

/// What the detected repositories of a list say.
pub open spec fn detected_models(v: Seq<SwiftyDetectedRepo>) -> Seq<DetectedModel> {
    Seq::new(v.len(), |i: int| v[i]@)
}

/// Global Swifty settings that are not per-repository.
#[derive(Debug)]
pub struct SwiftyGlobalSettings {
    /// Arma 3 installation directory configured in Swifty.
    pub arma_path: String,
    /// Temporary download directory configured in Swifty.
    pub temp_path: String,
}

impl Clone for SwiftyGlobalSettings {
    fn clone(&self) -> (r: Self)
        ensures
            r == *self,
    {
        SwiftyGlobalSettings { arma_path: self.arma_path.clone(), temp_path: self.temp_path.clone() }
    }
}

impl Default for SwiftyGlobalSettings {
    fn default() -> (r: Self)
        ensures
            r.arma_path@ == Seq::<char>::empty(),
            r.temp_path@ == Seq::<char>::empty(),
    {
        SwiftyGlobalSettings { arma_path: String::new(), temp_path: String::new() }
    }
}

/// Derived URL set produced from a Swifty repository address.
#[derive(Debug)]
pub struct DerivedUrls {
    /// Base URL up to and including the parent path segment
    /// (e.g. `http://server:8080/mods/`).
    pub base_url: String,
    /// Candidate updater endpoint (`{base_url}Foxy`).
    pub updater_url: String,
    /// Candidate repository-space manifest (`{base_url}repository_space.json`).
    pub space_url: String,
}

/// Transient state that lives only while the migration view is open.
#[derive(Debug)]
pub struct SwiftyMigrationState {
    /// Repositories detected from Swifty data files.
    pub detected_repos: Vec<SwiftyDetectedRepo>,
    /// Whether scanning has been attempted.
    pub scan_complete: bool,
    /// Human-readable scan error, if any.
    pub scan_error: Option<String>,
    /// Whether the import operation has been executed in this session.
    pub import_done: bool,
    /// Number of repositories successfully imported in the last run.
    pub imported_count: usize,
    /// Auto-detected updater URL (editable by the user before import).
    pub detected_updater_url: String,
    /// Auto-detected repository-space manifest URL (editable by the user before import).
    pub detected_space_url: String,
    /// Whether the repository-space import was attempted and failed.
    pub space_import_failed: bool,
    /// Global Swifty settings (Arma path, temp path) - editable before import.
    pub global_settings: SwiftyGlobalSettings,
}

impl Default for SwiftyMigrationState {
    fn default() -> (r: Self)
        ensures
            r.detected_repos@ == Seq::<SwiftyDetectedRepo>::empty(),
            !r.scan_complete,
            r.scan_error is None,
            !r.import_done,
            r.imported_count == 0,
            r.detected_updater_url@ == Seq::<char>::empty(),
            r.detected_space_url@ == Seq::<char>::empty(),
            !r.space_import_failed,
            r.global_settings.arma_path@ == Seq::<char>::empty(),
            r.global_settings.temp_path@ == Seq::<char>::empty(),
    {
        SwiftyMigrationState {
            detected_repos: Vec::new(),
            scan_complete: false,
            scan_error: None,
            import_done: false,
            imported_count: 0,
            detected_updater_url: String::new(),
            detected_space_url: String::new(),
            space_import_failed: false,
            global_settings: SwiftyGlobalSettings::default(),
        }
    }
}

} // verus!
