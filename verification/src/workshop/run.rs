//! Running a Workshop task step by step.
//!
//! A task alternates between decisions and work that only the outside can do:
//! asking Steam, starting the helper, writing the store. The decisions are
//! here. [`begin`] and [`TaskState::step`] say what to do next; the caller does
//! it and hands back what came of it.

use vstd::prelude::*;

use crate::repository;
use crate::text;
use crate::workshop::tasks::SharedItem;
use crate::workshop::view::StateChecksum;

verus! {

broadcast use vstd::string::group_string_axioms;

/// One mod in the store of a game space.
#[derive(Debug)]
pub struct StoreEntry {
    pub app_id: u32,
    pub item_id: String,
    pub enabled: bool,
}

impl Clone for StoreEntry {
    fn clone(&self) -> (r: Self)
        ensures
            r == *self,
    {
        StoreEntry { app_id: self.app_id, item_id: self.item_id.clone(), enabled: self.enabled }
    }
}

/// What freezing all mods came to.
#[derive(Debug)]
pub struct FreezeSummary {
    pub frozen: u64,
    pub skipped: u64,
    /// The mods that could not be frozen, each with the reason.
    pub failed: Vec<(String, String)>,
}

/// What reading a bundle came to.
#[derive(Debug)]
pub struct BundleSummary {
    pub added: u64,
    pub updated: u64,
    pub restored: u64,
    pub needs_download: Vec<String>,
}

/// What the caller has to do next.
#[derive(Debug)]
pub enum TaskAction {
    /// Ask Steam for the details of these items. Answered by `Details`.
    FetchDetails { ids: Vec<String> },
    /// Check that the details are those of the game. Answered by `Done`.
    ValidateDetails,
    /// Let the Steam helper install an item. Answered by `Done`.
    Install { item_id: String },
    /// Store an item with the details that Steam gave and, if `downloaded`,
    /// with what the helper reported. Answered by `Done`.
    Upsert { item_id: String, name: Option<String>, downloaded: bool, enabled: bool },
    /// Store the load order of an item. Answered by `Done`.
    SetLoadOrder { item_id: String, load_order: u32 },
    /// Freeze an item. Answered by `Done`.
    FreezeItem { item_id: String },
    /// Read the store. Answered by `Store`.
    LoadStore,
    /// Freeze the items, with `every_mod` all of them, and with `refresh` also
    /// those that are frozen already. Answered by `Frozen`.
    FreezeAll { every_mod: bool, refresh: bool },
    /// Unsubscribe an item through the Steam helper. Answered by `Done`.
    Unsubscribe { item_id: String },
    /// Remove an item from the store. Answered by `Done`.
    RemoveItem { item_id: String, delete_data: bool },
    /// Compute the state checksum. Answered by `Checksum`.
    Checksum,
    /// Write a bundle that carries a state checksum. Answered by `Written`.
    WriteBundle {
        path: String,
        include_disabled: bool,
        include_frozen_payloads: bool,
        checksum: StateChecksum,
    },
    /// Read a bundle, with `restore_payloads` also the frozen copies in it.
    /// Answered by `Read`.
    ReadBundle { path: String, restore_payloads: bool },
    /// The task is over.
    Finish { message: Result<String, String> },
}

/// What came of an action.
#[derive(Debug)]
pub enum TaskEvent {
    /// How many items Steam gave details of.
    Details(Result<usize, String>),
    Done(Result<(), String>),
    Store(Result<Vec<StoreEntry>, String>),
    Frozen(Result<FreezeSummary, String>),
    Checksum(Result<StateChecksum, String>),
    /// The number of mods and of frozen copies in the bundle.
    Written(Result<(u64, u64), String>),
    Read(Result<BundleSummary, String>),
}

/// Where in its treatment an item of an import is.
#[derive(Debug, Clone, Copy, PartialEq, Eq, Structural)]
pub enum ItemStage {
    Install,
    Upsert,
    LoadOrder,
    Freeze,
}

/// A task that waits for what comes of its last action.
#[derive(Debug)]
pub enum TaskState {
    ImportDetails { items: Vec<SharedItem>, download: bool, freeze: bool },
    ImportCheck { items: Vec<SharedItem>, download: bool, freeze: bool },
    ImportItem {
        items: Vec<SharedItem>,
        download: bool,
        freeze: bool,
        at: usize,
        stage: ItemStage,
        failures: Vec<String>,
    },
    RefreshStore { app_id: u32 },
    RefreshDetails { entries: Vec<StoreEntry> },
    RefreshItem { entries: Vec<StoreEntry>, at: usize },
    FreezeOne { item_id: String },
    FreezeMany,
    Unsubscribe { item_id: String, delete_data: bool },
    Remove { item_id: String },
    Checksum { path: String, include_disabled: bool },
    Export,
    ReadBundle { download: bool },
    BundleInstall {
        mods: u128,
        restored: u64,
        queue: Vec<String>,
        at: usize,
        failures: Vec<String>,
    },
    Finished,
}

/// What an action says.
#[verifier::ext_equal]
pub enum ActionModel {
    FetchDetails { ids: Seq<Seq<char>> },
    ValidateDetails,
    Install { item_id: Seq<char> },
    Upsert { item_id: Seq<char>, name: Option<Seq<char>>, downloaded: bool, enabled: bool },
    SetLoadOrder { item_id: Seq<char>, load_order: u32 },
    FreezeItem { item_id: Seq<char> },
    LoadStore,
    FreezeAll { every_mod: bool, refresh: bool },
    Unsubscribe { item_id: Seq<char> },
    RemoveItem { item_id: Seq<char>, delete_data: bool },
    Checksum,
    WriteBundle {
        path: Seq<char>,
        include_disabled: bool,
        include_frozen_payloads: bool,
        checksum: StateChecksum,
    },
    ReadBundle { path: Seq<char>, restore_payloads: bool },
    Finish { message: Result<Seq<char>, Seq<char>> },
}

/// What a state says.
#[verifier::ext_equal]
pub enum StateModel {
    ImportDetails { items: Seq<SharedItem>, download: bool, freeze: bool },
    ImportCheck { items: Seq<SharedItem>, download: bool, freeze: bool },
    ImportItem {
        items: Seq<SharedItem>,
        download: bool,
        freeze: bool,
        at: int,
        stage: ItemStage,
        failures: Seq<Seq<char>>,
    },
    RefreshStore { app_id: u32 },
    RefreshDetails { entries: Seq<StoreEntry> },
    RefreshItem { entries: Seq<StoreEntry>, at: int },
    FreezeOne { item_id: Seq<char> },
    FreezeMany,
    Unsubscribe { item_id: Seq<char>, delete_data: bool },
    Remove { item_id: Seq<char> },
    Checksum { path: Seq<char>, include_disabled: bool },
    Export,
    ReadBundle { download: bool },
    BundleInstall {
        mods: nat,
        restored: nat,
        queue: Seq<Seq<char>>,
        at: int,
        failures: Seq<Seq<char>>,
    },
    Finished,
}

/// The texts of a result.
pub open spec fn result_view(r: Result<String, String>) -> Result<Seq<char>, Seq<char>> {
    match r {
        Ok(s) => Ok(s@),
        Err(e) => Err(e@),
    }
}

impl View for TaskAction {
    type V = ActionModel;

    open spec fn view(&self) -> ActionModel {
        match *self {
            TaskAction::FetchDetails { ids } => ActionModel::FetchDetails { ids: text::views(ids@) },
            TaskAction::ValidateDetails => ActionModel::ValidateDetails,
            TaskAction::Install { item_id } => ActionModel::Install { item_id: item_id@ },
            TaskAction::Upsert { item_id, name, downloaded, enabled } => ActionModel::Upsert {
                item_id: item_id@,
                name: repository::opt_view(name),
                downloaded,
                enabled,
            },
            TaskAction::SetLoadOrder { item_id, load_order } => ActionModel::SetLoadOrder {
                item_id: item_id@,
                load_order,
            },
            TaskAction::FreezeItem { item_id } => ActionModel::FreezeItem { item_id: item_id@ },
            TaskAction::LoadStore => ActionModel::LoadStore,
            TaskAction::FreezeAll { every_mod, refresh } => ActionModel::FreezeAll {
                every_mod,
                refresh,
            },
            TaskAction::Unsubscribe { item_id } => ActionModel::Unsubscribe { item_id: item_id@ },
            TaskAction::RemoveItem { item_id, delete_data } => ActionModel::RemoveItem {
                item_id: item_id@,
                delete_data,
            },
            TaskAction::Checksum => ActionModel::Checksum,
            TaskAction::WriteBundle {
                path,
                include_disabled,
                include_frozen_payloads,
                checksum,
            } => ActionModel::WriteBundle {
                path: path@,
                include_disabled,
                include_frozen_payloads,
                checksum,
            },
            TaskAction::ReadBundle { path, restore_payloads } => ActionModel::ReadBundle {
                path: path@,
                restore_payloads,
            },
            TaskAction::Finish { message } => ActionModel::Finish { message: result_view(message) },
        }
    }
}

impl View for TaskState {
    type V = StateModel;

    open spec fn view(&self) -> StateModel {
        match *self {
            TaskState::ImportDetails { items, download, freeze } => StateModel::ImportDetails {
                items: items@,
                download,
                freeze,
            },
            TaskState::ImportCheck { items, download, freeze } => StateModel::ImportCheck {
                items: items@,
                download,
                freeze,
            },
            TaskState::ImportItem { items, download, freeze, at, stage, failures } =>
                StateModel::ImportItem {
                items: items@,
                download,
                freeze,
                at: at as int,
                stage,
                failures: text::views(failures@),
            },
            TaskState::RefreshStore { app_id } => StateModel::RefreshStore { app_id },
            TaskState::RefreshDetails { entries } => StateModel::RefreshDetails {
                entries: entries@,
            },
            TaskState::RefreshItem { entries, at } => StateModel::RefreshItem {
                entries: entries@,
                at: at as int,
            },
            TaskState::FreezeOne { item_id } => StateModel::FreezeOne { item_id: item_id@ },
            TaskState::FreezeMany => StateModel::FreezeMany,
            TaskState::Unsubscribe { item_id, delete_data } => StateModel::Unsubscribe {
                item_id: item_id@,
                delete_data,
            },
            TaskState::Remove { item_id } => StateModel::Remove { item_id: item_id@ },
            TaskState::Checksum { path, include_disabled } => StateModel::Checksum {
                path: path@,
                include_disabled,
            },
            TaskState::Export => StateModel::Export,
            TaskState::ReadBundle { download } => StateModel::ReadBundle { download },
            TaskState::BundleInstall { mods, restored, queue, at, failures } =>
                StateModel::BundleInstall {
                mods: mods as nat,
                restored: restored as nat,
                queue: text::views(queue@),
                at: at as int,
                failures: text::views(failures@),
            },
            TaskState::Finished => StateModel::Finished,
        }
    }
}

/// A state together with the action that led to it.
#[derive(Debug)]
pub struct TaskStep {
    pub state: TaskState,
    pub action: TaskAction,
}

/// What a step says.
#[verifier::ext_equal]
pub struct StepModel {
    pub state: StateModel,
    pub action: ActionModel,
}

impl View for TaskStep {
    type V = StepModel;

    open spec fn view(&self) -> StepModel {
        StepModel { state: self.state@, action: self.action@ }
    }
}

} // verus!
