//! Repositories, their launch profiles and the repository spaces that group them.

use vstd::prelude::*;

use crate::text;

verus! {

/// A launch option that a repository or a profile carries as a tick box.
#[derive(Debug, Clone, Copy, PartialEq, Eq, Structural)]
pub enum LaunchFlag {
    /// CSLA Iron Curtain content.
    Csla,
    /// Expeditionary Forces content.
    Ef,
    /// Global Mobilization content.
    Gm,
    /// Reaction Forces content.
    Rf,
    /// Spearhead 1944 content.
    Spe,
    /// S.O.G. Prairie Fire content.
    Vn,
    /// Western Sahara content.
    Ws,
    /// `-skipIntro`.
    SkipIntro,
    /// `-noSplash`.
    NoSplash,
    /// `-world=empty`.
    WorldEmpty,
    /// `-loadMissionToMemory`.
    LoadMissionToMemory,
    /// `-enableHT`.
    EnableHt,
    /// `-hugePages`.
    HugePages,
    /// `-noLogs`.
    NoLogs,
}

/// The tick boxes of a repository or a profile, side by side.
#[derive(Debug, Clone, Copy, PartialEq, Eq, Structural)]
pub struct LaunchFlags {
    pub csla: bool,
    pub ef: bool,
    pub gm: bool,
    pub rf: bool,
    pub spe: bool,
    pub vn: bool,
    pub ws: bool,
    pub skip_intro: bool,
    pub no_splash: bool,
    pub world_empty: bool,
    pub load_mission_to_memory: bool,
    pub enable_ht: bool,
    pub huge_pages: bool,
    pub no_logs: bool,
}

impl LaunchFlags {
    /// No box is ticked.
    pub open spec fn none() -> LaunchFlags {
        LaunchFlags {
            csla: false,
            ef: false,
            gm: false,
            rf: false,
            spe: false,
            vn: false,
            ws: false,
            skip_intro: false,
            no_splash: false,
            world_empty: false,
            load_mission_to_memory: false,
            enable_ht: false,
            huge_pages: false,
            no_logs: false,
        }
    }
}

impl Default for LaunchFlags {
    fn default() -> (r: Self)
        ensures
            r == LaunchFlags::none(),
    {
        LaunchFlags {
            csla: false,
            ef: false,
            gm: false,
            rf: false,
            spe: false,
            vn: false,
            ws: false,
            skip_intro: false,
            no_splash: false,
            world_empty: false,
            load_mission_to_memory: false,
            enable_ht: false,
            huge_pages: false,
            no_logs: false,
        }
    }
}

/// The text inside an optional string.
pub open spec fn opt_view(o: Option<String>) -> Option<Seq<char>> {
    match o {
        Some(s) => Some(s@),
        None => None,
    }
}

/// A named set of launch options of a repository.
#[derive(Debug, Clone)]
pub struct RepositoryProfile {
    pub name: String,
    pub flags: LaunchFlags,
    pub include_steam_addons: bool,
    pub additional_params: String,
    pub addons: Vec<String>,
    pub optional_addons: Vec<String>,
    pub optional_addon_favorites: Vec<String>,
    pub optional_addon_client_side: Vec<String>,
    pub external_addons: Vec<String>,
    pub external_addon_favorites: Vec<String>,
    pub external_addon_client_side: Vec<String>,
}

/// What a profile says, with its tick boxes side by side.
#[verifier::ext_equal]
pub struct ProfileModel {
    pub name: Seq<char>,
    pub flags: LaunchFlags,
    pub include_steam_addons: bool,
    pub additional_params: Seq<char>,
    pub addons: Seq<Seq<char>>,
    pub optional_addons: Seq<Seq<char>>,
    pub optional_addon_favorites: Seq<Seq<char>>,
    pub optional_addon_client_side: Seq<Seq<char>>,
    pub external_addons: Seq<Seq<char>>,
    pub external_addon_favorites: Seq<Seq<char>>,
    pub external_addon_client_side: Seq<Seq<char>>,
}

impl View for RepositoryProfile {
    type V = ProfileModel;

    open spec fn view(&self) -> ProfileModel {
        ProfileModel {
            name: self.name@,
            flags: self.flags,
            include_steam_addons: self.include_steam_addons,
            additional_params: self.additional_params@,
            addons: text::views(self.addons@),
            optional_addons: text::views(self.optional_addons@),
            optional_addon_favorites: text::views(self.optional_addon_favorites@),
            optional_addon_client_side: text::views(self.optional_addon_client_side@),
            external_addons: text::views(self.external_addons@),
            external_addon_favorites: text::views(self.external_addon_favorites@),
            external_addon_client_side: text::views(self.external_addon_client_side@),
        }
    }
}

impl ProfileModel {
    /// The profile that a repository starts with.
    pub open spec fn initial() -> ProfileModel {
        ProfileModel {
            name: "Default"@,
            flags: LaunchFlags::none(),
            include_steam_addons: false,
            additional_params: Seq::empty(),
            addons: Seq::empty(),
            optional_addons: Seq::empty(),
            optional_addon_favorites: Seq::empty(),
            optional_addon_client_side: Seq::empty(),
            external_addons: Seq::empty(),
            external_addon_favorites: Seq::empty(),
            external_addon_client_side: Seq::empty(),
        }
    }
}

impl Default for RepositoryProfile {
    fn default() -> (r: Self)
        ensures
            r@ == ProfileModel::initial(),
    {
        RepositoryProfile {
            name: "Default".to_owned(),
            flags: LaunchFlags::default(),
            include_steam_addons: false,
            additional_params: String::new(),
            addons: Vec::new(),
            optional_addons: Vec::new(),
            optional_addon_favorites: Vec::new(),
            optional_addon_client_side: Vec::new(),
            external_addons: Vec::new(),
            external_addon_favorites: Vec::new(),
            external_addon_client_side: Vec::new(),
        }
    }
}

/// A mod repository with its launch options.
#[derive(Debug, Clone)]
pub struct Repository {
    pub name: String,
    pub address: String,
    /// The normal form of `address`, under which repositories are matched.
    pub key: String,
    pub path: String,
    pub flags: LaunchFlags,
    pub include_steam_addons: bool,
    pub additional_params: String,
    pub addons: Vec<String>,
    pub optional_addons: Vec<String>,
    pub external_addons: Vec<String>,
    pub profiles: Vec<RepositoryProfile>,
    pub servers: Vec<String>,
    pub auto_recheck_on_launch: Option<bool>,
    pub app_update_url: String,
    pub repository_space_id: Option<String>,
    pub repository_space_entry_address: Option<String>,
    pub arma3_profile: Option<String>,
}

/// What a repository says, with its tick boxes side by side.
#[verifier::ext_equal]
pub struct RepositoryModel {
    pub name: Seq<char>,
    pub address: Seq<char>,
    pub key: Seq<char>,
    pub path: Seq<char>,
    pub flags: LaunchFlags,
    pub include_steam_addons: bool,
    pub additional_params: Seq<char>,
    pub addons: Seq<Seq<char>>,
    pub optional_addons: Seq<Seq<char>>,
    pub external_addons: Seq<Seq<char>>,
    pub profiles: Seq<ProfileModel>,
    pub servers: Seq<Seq<char>>,
    pub auto_recheck_on_launch: Option<bool>,
    pub app_update_url: Seq<char>,
    pub repository_space_id: Option<Seq<char>>,
    pub repository_space_entry_address: Option<Seq<char>>,
    pub arma3_profile: Option<Seq<char>>,
}

/// What the profiles of a list say.
pub open spec fn profile_models(v: Seq<RepositoryProfile>) -> Seq<ProfileModel> {
    Seq::new(v.len(), |i: int| v[i]@)
}

/// What the repositories of a list say.
pub open spec fn repository_models(v: Seq<Repository>) -> Seq<RepositoryModel> {
    Seq::new(v.len(), |i: int| v[i]@)
}

impl View for Repository {
    type V = RepositoryModel;

    open spec fn view(&self) -> RepositoryModel {
        RepositoryModel {
            name: self.name@,
            address: self.address@,
            key: self.key@,
            path: self.path@,
            flags: self.flags,
            include_steam_addons: self.include_steam_addons,
            additional_params: self.additional_params@,
            addons: text::views(self.addons@),
            optional_addons: text::views(self.optional_addons@),
            external_addons: text::views(self.external_addons@),
            profiles: profile_models(self.profiles@),
            servers: text::views(self.servers@),
            auto_recheck_on_launch: self.auto_recheck_on_launch,
            app_update_url: self.app_update_url@,
            repository_space_id: opt_view(self.repository_space_id),
            repository_space_entry_address: opt_view(self.repository_space_entry_address),
            arma3_profile: opt_view(self.arma3_profile),
        }
    }
}

impl RepositoryModel {
    /// A repository with nothing filled in.
    pub open spec fn initial() -> RepositoryModel {
        RepositoryModel {
            name: Seq::empty(),
            address: Seq::empty(),
            key: Seq::empty(),
            path: Seq::empty(),
            flags: LaunchFlags::none(),
            include_steam_addons: false,
            additional_params: Seq::empty(),
            addons: Seq::empty(),
            optional_addons: Seq::empty(),
            external_addons: Seq::empty(),
            profiles: Seq::empty(),
            servers: Seq::empty(),
            auto_recheck_on_launch: None,
            app_update_url: Seq::empty(),
            repository_space_id: None,
            repository_space_entry_address: None,
            arma3_profile: None,
        }
    }

    /// The names of the profiles.
    pub open spec fn profile_names(self) -> Seq<Seq<char>> {
        Seq::new(self.profiles.len(), |i: int| self.profiles[i].name)
    }
}

impl Default for Repository {
    fn default() -> (r: Self)
        ensures
            r@ == RepositoryModel::initial(),
    {
        Repository {
            name: String::new(),
            address: String::new(),
            key: String::new(),
            path: String::new(),
            flags: LaunchFlags::default(),
            include_steam_addons: false,
            additional_params: String::new(),
            addons: Vec::new(),
            optional_addons: Vec::new(),
            external_addons: Vec::new(),
            profiles: Vec::new(),
            servers: Vec::new(),
            auto_recheck_on_launch: None,
            app_update_url: String::new(),
            repository_space_id: None,
            repository_space_entry_address: None,
            arma3_profile: None,
        }
    }
}

/// One repository that a space offers. `key` is the normal form of `address`
/// under which repositories are matched.
#[derive(Debug, Clone)]
pub struct RepositorySpaceEntry {
    pub address: String,
    pub key: String,
}

/// A group of repositories that share a folder. `base_key` is the normal form
/// of the URL from which the space was read.
#[derive(Debug, Clone)]
pub struct RepositorySpace {
    pub id: String,
    pub shared_path: String,
    pub base_key: String,
    pub entries: Vec<RepositorySpaceEntry>,
}

/// What one entry of a space says.
#[verifier::ext_equal]
pub struct SpaceEntryModel {
    pub address: Seq<char>,
    pub key: Seq<char>,
}

/// What a space says.
#[verifier::ext_equal]
pub struct SpaceModel {
    pub id: Seq<char>,
    pub shared_path: Seq<char>,
    pub base_key: Seq<char>,
    pub entries: Seq<SpaceEntryModel>,
}

impl View for RepositorySpaceEntry {
    type V = SpaceEntryModel;

    open spec fn view(&self) -> SpaceEntryModel {
        SpaceEntryModel { address: self.address@, key: self.key@ }
    }
}

impl View for RepositorySpace {
    type V = SpaceModel;

    open spec fn view(&self) -> SpaceModel {
        SpaceModel {
            id: self.id@,
            shared_path: self.shared_path@,
            base_key: self.base_key@,
            entries: Seq::new(self.entries@.len(), |i: int| self.entries@[i]@),
        }
    }
}

/// What the spaces of a list say.
pub open spec fn space_models(v: Seq<RepositorySpace>) -> Seq<SpaceModel> {
    Seq::new(v.len(), |i: int| v[i]@)
}

} // verus!
