//! The Workshop tab and the tasks that it starts.

use foxy_views::workshop::comparison::RemarkColor;
use foxy_views::workshop::run::{
    BundleSummary, FreezeSummary, StoreEntry, TaskAction, TaskEvent, TaskState,
};
use foxy_views::workshop::steps::begin;
use foxy_views::workshop::tasks::{
    failure_entry, summarize, workshop_task_timeout_seconds, SharedItem, WorkshopTask,
};
use foxy_views::workshop::view::{
    filter_passes, row_detail, start_refusal, workshop_pin_badge, PinState, PinStatus,
    PollFollowUp, ShareComparison, StateChecksum, TaskPoll, TaskStart, WorkshopViewState,
};

fn shared(id: &str, resolvable: bool, load_order: Option<u32>) -> SharedItem {
    SharedItem {
        item_id: id.to_string(),
        name: Some(format!("Mod {id}")),
        load_order,
        version: None,
        resolvable,
    }
}

fn pin(id: &str, title: Option<&str>, enabled: bool) -> PinStatus {
    PinStatus {
        item_id: id.to_string(),
        title: title.map(str::to_string),
        enabled,
        frozen: false,
        state: PinState::NotFrozen,
        load_order: Some(1),
        pinned_version: None,
        url: String::new(),
    }
}

fn finished(action: &TaskAction) -> Option<Result<String, String>> {
    match action {
        TaskAction::Finish { message } => Some(message.clone()),
        _ => None,
    }
}

/// Runs a task, answering each action, and returns what it said at the end.
fn run(task: WorkshopTask, answer: fn(&TaskAction) -> TaskEvent) -> (Vec<String>, Result<String, String>) {
    let mut step = begin(task, 107410);
    let mut seen = Vec::new();
    loop {
        if let Some(message) = finished(&step.action) {
            assert!(matches!(step.state, TaskState::Finished));
            return (seen, message);
        }
        seen.push(format!("{:?}", step.action));
        let event = answer(&step.action);
        assert!(step.state.accepts(&event));
        step = step.state.step(event);
        assert!(seen.len() < 1000);
    }
}

fn all_well(action: &TaskAction) -> TaskEvent {
    match action {
        TaskAction::FetchDetails { ids } => TaskEvent::Details(Ok(ids.len())),
        TaskAction::LoadStore => TaskEvent::Store(Ok(vec![
            StoreEntry { app_id: 107410, item_id: "1".to_string(), enabled: true },
            StoreEntry { app_id: 5, item_id: "2".to_string(), enabled: true },
            StoreEntry { app_id: 107410, item_id: "3".to_string(), enabled: false },
        ])),
        TaskAction::FreezeAll { .. } => TaskEvent::Frozen(Ok(FreezeSummary {
            frozen: 2,
            skipped: 1,
            failed: vec![("9".to_string(), "locked".to_string())],
        })),
        TaskAction::Checksum => TaskEvent::Checksum(Ok(StateChecksum {
            checksum: "abc".to_string(),
            mods: vec!["1".to_string()],
        })),
        TaskAction::WriteBundle { .. } => TaskEvent::Written(Ok((4, 2))),
        TaskAction::ReadBundle { .. } => TaskEvent::Read(Ok(BundleSummary {
            added: 1,
            updated: 2,
            restored: 3,
            needs_download: vec!["7".to_string()],
        })),
        _ => TaskEvent::Done(Ok(())),
    }
}

fn nothing_works(action: &TaskAction) -> TaskEvent {
    let cause = "no".to_string();
    match action {
        TaskAction::FetchDetails { .. } => TaskEvent::Details(Err(cause)),
        TaskAction::LoadStore => TaskEvent::Store(Err(cause)),
        TaskAction::FreezeAll { .. } => TaskEvent::Frozen(Err(cause)),
        TaskAction::Checksum => TaskEvent::Checksum(Err(cause)),
        TaskAction::WriteBundle { .. } => TaskEvent::Written(Err(cause)),
        TaskAction::ReadBundle { .. } => TaskEvent::Read(Err(cause)),
        _ => TaskEvent::Done(Err(cause)),
    }
}

fn installs_fail(action: &TaskAction) -> TaskEvent {
    match action {
        TaskAction::Install { .. } | TaskAction::Unsubscribe { .. } => {
            TaskEvent::Done(Err("Steam".to_string()))
        }
        _ => all_well(action),
    }
}

#[test]
fn import_installs_stores_orders_and_freezes() {
    let task = WorkshopTask::Import {
        items: vec![shared("1", true, Some(4)), shared("x", false, None), shared("2", true, None)],
        download: true,
        freeze: true,
    };
    let (seen, message) = run(task, all_well);
    let kinds: Vec<&str> =
        seen.iter().map(|a| a.split([' ', '{']).next().unwrap()).collect();
    assert_eq!(
        kinds,
        vec![
            "FetchDetails",
            "ValidateDetails",
            "Install",
            "Upsert",
            "SetLoadOrder",
            "FreezeItem",
            "Install",
            "Upsert",
            "FreezeItem"
        ]
    );
    assert_eq!(message, Ok("Imported 2 Workshop mod(s)".to_string()));
}

#[test]
fn import_goes_on_when_installing_fails() {
    let task = WorkshopTask::Import {
        items: vec![shared("1", true, None)],
        download: true,
        freeze: false,
    };
    let (_, message) = run(task, installs_fail);
    assert_eq!(message, Ok("Imported 1 Workshop mod(s) (1 failed: 1: Steam)".to_string()));
}

#[test]
fn import_without_usable_ids_fails() {
    let task = WorkshopTask::Import {
        items: vec![shared("x", false, None)],
        download: false,
        freeze: false,
    };
    let (seen, message) = run(task, all_well);
    assert!(seen.is_empty());
    assert_eq!(
        message,
        Err("The shared list has no Steam Workshop ids Foxy can import".to_string())
    );
}

#[test]
fn import_without_details_is_not_checked() {
    let task = WorkshopTask::Import {
        items: vec![shared("1", true, None)],
        download: false,
        freeze: false,
    };
    let (seen, message) = run(task, nothing_works);
    assert_eq!(seen.len(), 2);
    assert!(seen[1].starts_with("Upsert"));
    assert_eq!(message, Err("no".to_string()));
}

#[test]
fn refreshing_treats_the_mods_of_the_game() {
    let (seen, message) = run(WorkshopTask::RefreshMetadata, all_well);
    assert_eq!(seen.len(), 4);
    assert!(seen[3].contains("enabled: false"));
    assert_eq!(message, Ok("Refreshed 2 Workshop mod(s)".to_string()));
    assert_eq!(run(WorkshopTask::RefreshMetadata, nothing_works).1, Err("no".to_string()));
}

#[test]
fn other_tasks_report_what_they_did() {
    let (_, message) = run(WorkshopTask::Freeze { item_id: "1".to_string() }, all_well);
    assert_eq!(message, Ok("Froze the current version of 1".to_string()));
    let (_, message) = run(WorkshopTask::FreezeAll { refresh: true }, all_well);
    assert_eq!(
        message,
        Ok("Froze 2 mod(s), skipped 1 already frozen (1 failed: 9: locked)".to_string())
    );
    let remove = WorkshopTask::Remove { item_id: "1".to_string(), delete_data: true };
    assert_eq!(run(remove, installs_fail).1, Ok("Removed 1".to_string()));
    let export =
        WorkshopTask::ExportBundle { path: "b.zip".to_string(), include_disabled: false };
    assert_eq!(
        run(export, all_well).1,
        Ok("Wrote 4 mod(s) and 2 frozen copy(ies)".to_string())
    );
    let import = WorkshopTask::ImportBundle { path: "b.zip".to_string(), download: true };
    let (seen, message) = run(import, installs_fail);
    assert_eq!(seen.len(), 2);
    assert_eq!(
        message,
        Ok("Imported 3 mod(s) and restored 3 frozen copy(ies) (1 failed: 7: Steam)".to_string())
    );
    assert_eq!(workshop_task_timeout_seconds(), 600);
}

#[test]
fn bundles_carry_the_checksum_and_the_frozen_copies() {
    let task = WorkshopTask::ExportBundle { path: "b.zip".to_string(), include_disabled: false };
    let first = begin(task, 107410);
    assert!(matches!(first.action, TaskAction::Checksum));
    let next = first.state.step(all_well(&first.action));
    match next.action {
        TaskAction::WriteBundle { path, include_disabled, include_frozen_payloads, checksum } => {
            assert_eq!(path, "b.zip");
            assert!(!include_disabled && include_frozen_payloads);
            assert_eq!(checksum.checksum, "abc");
            assert_eq!(checksum.mods, vec!["1".to_string()]);
        }
        other => panic!("{other:?}"),
    }
    let import = WorkshopTask::ImportBundle { path: "b.zip".to_string(), download: false };
    let read = begin(import, 107410).action;
    assert!(matches!(read, TaskAction::ReadBundle { restore_payloads: true, .. }));
    let freeze = begin(WorkshopTask::FreezeAll { refresh: false }, 107410).action;
    assert!(matches!(freeze, TaskAction::FreezeAll { every_mod: true, refresh: false }));
}

#[test]
fn summaries_show_three_failures() {
    assert_eq!(summarize("Done".to_string(), &vec![]), "Done");
    let failures: Vec<String> = (0..4).map(|i| format!("f{i}")).collect();
    assert_eq!(summarize("Done".to_string(), &failures), "Done (4 failed: f0; f1; f2)");
    assert_eq!(failure_entry(&"1".to_string(), &"e".to_string()), "1: e");
}

#[test]
fn filter_ignores_case_of_any_language() {
    let mut state = WorkshopViewState::default();
    state.items = vec![pin("1", Some("ÉTUDE"), true), pin("22", None, true), pin("3", Some("b"), true)];
    state.filter = " étu ".to_string();
    assert_eq!(state.shown(), vec![0]);
    state.filter = "2".to_string();
    assert_eq!(state.shown(), vec![1]);
    state.filter = "  ".to_string();
    assert_eq!(state.shown(), vec![0, 1, 2]);
    assert!(filter_passes("b", "abc", "1"));
    assert!(!filter_passes("z", "abc", "1"));
}

#[test]
fn reload_reports_what_is_missing() {
    let mut state = WorkshopViewState::default();
    state.items = vec![pin("1", None, true)];
    assert!(!state.begin_reload(None));
    assert!(state.items.is_empty() && state.load_error.is_some() && !state.loaded);
    assert!(state.begin_reload(Some(1)));
    let sum = StateChecksum { checksum: "c".to_string(), mods: vec![] };
    state.finish_reload(Ok(vec![pin("1", None, true)]), Some(sum));
    assert!(state.loaded && state.load_error.is_none() && state.items.len() == 1);
    state.finish_reload(Err("disk".to_string()), None);
    assert_eq!(state.load_error.as_deref(), Some("disk"));
    assert!(state.items.is_empty());
}

#[test]
fn one_task_runs_at_a_time() {
    let mut state = WorkshopViewState::default();
    let task = WorkshopTask::RefreshMetadata;
    assert_eq!(state.start_workshop_task(&task, None), TaskStart::NoApp);
    assert_eq!(start_refusal(&TaskStart::NoApp), Some("This game space has no Steam App ID yet."));
    assert_eq!(state.start_workshop_task(&task, Some(7)), TaskStart::Started(7));
    assert_eq!(state.busy_label, Some(task.busy_label()));
    assert_eq!(state.start_workshop_task(&task, Some(7)), TaskStart::Busy);
    assert!(matches!(state.poll_workshop_task(TaskPoll::Waiting), PollFollowUp::Nothing));
    assert!(matches!(
        state.poll_workshop_task(TaskPoll::Finished(Err("bad".to_string()))),
        PollFollowUp::Announce { success: false, .. }
    ));
    assert!(!state.busy());
    assert_eq!(state.status.as_deref(), Some("bad"));
    assert!(matches!(state.poll_workshop_task(TaskPoll::Lost), PollFollowUp::Reload));
}

#[test]
fn moving_a_row_writes_every_position() {
    let mut state = WorkshopViewState::default();
    state.items = vec![pin("a", None, true), pin("b", None, true), pin("c", None, true)];
    let order = state.move_workshop_item(0, 2).unwrap();
    let expected: Vec<(String, u32)> =
        vec![("b".to_string(), 1), ("c".to_string(), 2), ("a".to_string(), 3)];
    assert_eq!(order, expected);
    assert!(state.move_workshop_item(0, 3).is_none());
    assert!(state.move_workshop_item(3, 0).is_none());
}

#[test]
fn removal_asks_and_import_collects() {
    let mut state = WorkshopViewState::default();
    state.request_remove("1".to_string());
    state.remove_delete_data = true;
    match state.confirm_remove() {
        Some(WorkshopTask::Remove { item_id, delete_data }) => {
            assert_eq!(item_id, "1");
            assert!(delete_data);
        }
        _ => panic!("a removal was asked for"),
    }
    assert!(state.confirm_remove().is_none());
    state.open_import_modal();
    assert!(state.import_download && !state.import_freeze);
    match state.confirm_import(vec![]) {
        WorkshopTask::Import { download, freeze, .. } => assert!(download && !freeze),
        _ => panic!("an import was asked for"),
    }
    assert!(!state.show_import_modal);
}

#[test]
fn comparisons_say_in_what_lists_differ() {
    let comparison = ShareComparison {
        missing: vec![shared("1", true, None), shared("2", true, None)],
        extra: vec![],
        unresolvable: vec![shared("x", false, None)],
        order_differs: true,
        matches: false,
    };
    let said: Vec<(String, RemarkColor)> = comparison
        .remarks()
        .iter()
        .map(|(m, color)| {
            let count = m.args.first().map(|(_, value)| value.as_str()).unwrap_or("");
            (m.key.replace("{count}", count), *color)
        })
        .collect();
    assert_eq!(
        said,
        vec![
            ("2 missing".to_string(), RemarkColor::Error),
            ("1 not on the Workshop".to_string(), RemarkColor::Dim),
            ("Load order differs".to_string(), RemarkColor::Dim),
        ]
    );
    assert!(comparison.can_import());
    match comparison.import_missing() {
        WorkshopTask::Import { items, download, freeze } => {
            assert_eq!(items.len(), 2);
            assert_eq!(items[1].item_id, "2");
            assert!(download && !freeze);
        }
        _ => panic!("an import was expected"),
    }
    let mut state = WorkshopViewState::default();
    state.compare_code = "1|2".to_string();
    state.compare_result = Some(ShareComparison { matches: true, ..comparison });
    let result = state.compare_result.as_ref().unwrap();
    assert_eq!(result.remarks().len(), 1);
    assert_eq!(result.remarks()[0].1, RemarkColor::Success);
    assert!(!result.can_import());
    state.clear_comparison();
    assert!(state.compare_code.is_empty() && state.compare_result.is_none());
}

#[test]
fn shared_lists_leave_out_disabled_mods() {
    let mut state = WorkshopViewState::default();
    state.items = vec![pin("a", Some("A"), true), pin("b", None, false)];
    assert_eq!(state.workshop_share_items(false).len(), 1);
    assert_eq!(state.workshop_share_items(true).len(), 2);
    let request = state.share_code_request().unwrap();
    assert_eq!(request.items.len(), 1);
    assert_eq!(request.items[0].item_id, "a");
    assert!(request.include_load_order && !request.include_versions);
    assert!(WorkshopViewState::default().share_code_request().is_none());
    state.compare_code = "  ".to_string();
    assert!(state.refresh_workshop_comparison().is_none());
    state.compare_code = " code ".to_string();
    assert_eq!(state.refresh_workshop_comparison().unwrap().code, "code");
}

#[test]
fn rows_show_badges_and_buttons() {
    assert_eq!(workshop_pin_badge(PinState::NotFrozen).0, None);
    assert_eq!(workshop_pin_badge(PinState::InSync).0, Some("frozen"));
    assert_eq!(row_detail(&pin("7", None, true), "order"), "7  order 1");
    let mut state = WorkshopViewState::default();
    state.items = vec![pin("a", None, true), pin("b", None, true)];
    let first = state.row_buttons(0);
    assert!(first.load_later && !first.load_earlier && first.freeze && !first.unfreeze);
    state.busy_label = Some("busy");
    assert!(!state.row_buttons(1).remove);
}
