//! The application state that several views share.

use vstd::prelude::*;

use crate::repository::{Repository, RepositorySpace};
use crate::swifty::types::SwiftyMigrationState;

verus! {

/// The views between which the window switches.
#[derive(Debug, Clone, Copy, PartialEq, Eq, Structural)]
pub enum FoxyView {
    RepositoryList,
    RepositoryUpdate,
    Settings,
    SwiftyMigration,
    VersionBrowser,
    Workshop,
}

/// The settings that an import can fill in.
#[derive(Debug)]
pub struct SettingsViewState {
    pub app_update_url: String,
    /// Whether the user typed the update URL, so that nothing else may set it.
    pub app_update_url_user_override: bool,
    pub arma3_directory: String,
    pub temp_directory: String,
    /// Whether the migration wizard has been shown.
    pub swifty_migration_offered: bool,
}

/// The application state.
#[derive(Debug)]
pub struct Foxy {
    pub current_view: FoxyView,
    pub last_view: FoxyView,
    pub swifty_migration_state: SwiftyMigrationState,
    pub repositories: Vec<Repository>,
    pub repository_spaces: Vec<RepositorySpace>,
    /// Whether the manifest of a repository space is being fetched.
    pub repository_space_import_in_flight: bool,
    pub settings_view_state: SettingsViewState,
}

} // verus!
