use fugu::common::{AppError, AppSetting, FileData};
use fugu::editor::{Editor, LoadGate};
use fugu::ids::{get_next_id, get_next_img_id, IdAllocator};

fn opened(version: u64) -> Editor {
    let mut editor = Editor::new();
    let text = editor.load_file_data_from_file_panel(FileData::new(5, version, "start".to_string()));
    assert_eq!(text, "start");
    editor
}

#[test]
fn allocator_never_repeats_an_id() {
    let mut ids = IdAllocator::new();
    let got: Vec<u32> = (0..50).map(|_| get_next_id(&mut ids)).collect();
    let mut sorted = got.clone();
    sorted.sort();
    sorted.dedup();
    assert_eq!(sorted.len(), 50);
    assert_eq!(got[0], 0);
    assert_eq!(got[49], 49);
    assert_eq!(get_next_img_id(&mut ids), 1);
    assert_eq!(get_next_img_id(&mut ids), 2);
    assert_eq!(get_next_id(&mut ids), 50);
}

#[test]
fn reserved_ids_move_the_counter() {
    let mut ids = IdAllocator::new();
    assert_eq!(ids.reserve_node_ids(3), 0);
    assert_eq!(get_next_id(&mut ids), 3);
    assert!(ids.has_node_ids(10));
    assert!(!ids.has_node_ids(u32::MAX as usize));
}

#[test]
fn each_edit_adds_one_to_the_version() {
    let mut editor = opened(4);
    for k in 1..=10u64 {
        assert_eq!(editor.on_edit(format!("text {}", k)), Some(4 + k));
    }
    assert_eq!(editor.current_file_data().unwrap().version, 14);
    assert_eq!(editor.current_file_data().unwrap().content, "text 10");
}

#[test]
fn edit_without_document_does_nothing() {
    let mut editor = Editor::new();
    assert_eq!(editor.on_edit("x".to_string()), None);
    assert!(editor.current_file_data().is_none());
    assert!(!editor.is_dirty());
}

#[test]
fn stale_delayed_check_does_not_autosave() {
    let on = AppSetting { auto_save: true };
    let mut editor = opened(0);
    let first = editor.on_edit("a".to_string()).unwrap();
    let second = editor.on_edit("ab".to_string()).unwrap();
    assert_eq!(second, first + 1);
    assert!(editor.auto_save_check(first, &on).is_none());
    let request = editor.auto_save_check(second, &on).unwrap();
    assert_eq!(request.version, 2);
    assert_eq!(request.content, "ab");
    assert!(editor.auto_save_check(second, &AppSetting::default_user_setting()).is_none());
}

#[test]
fn dirty_exactly_when_version_differs_from_persisted() {
    let mut editor = opened(0);
    assert!(!editor.is_dirty());
    editor.on_edit("a".to_string());
    assert!(editor.is_dirty());
    editor.handle_save_result(5, 1, &Err(AppError::FilePanelError("denied".to_string())));
    assert!(editor.is_dirty());
    editor.handle_save_result(5, 1, &Ok(()));
    assert!(!editor.is_dirty());
    editor.on_edit("ab".to_string());
    // an older version's success leaves the newer edit unsaved
    editor.handle_save_result(5, 1, &Ok(()));
    assert!(editor.is_dirty());
    // a result for another document changes nothing
    editor.handle_save_result(6, 2, &Ok(()));
    assert!(editor.is_dirty());
}

#[test]
fn load_gate_follows_dirtiness_and_autosave() {
    let on = AppSetting { auto_save: true };
    let off = AppSetting { auto_save: false };
    let mut editor = opened(3);
    assert!(matches!(editor.check_save_state(&off), LoadGate::LoadPermitted));
    editor.on_edit("changed".to_string());
    match editor.check_save_state(&on) {
        LoadGate::AutoSaveThenLoad(fd) => assert_eq!((fd.version, fd.content.as_str()), (4, "changed")),
        _ => panic!("autosave comes first"),
    }
    assert!(matches!(editor.check_save_state(&off), LoadGate::AskConfirm(_)));
    assert!(matches!(Editor::new().check_save_state(&off), LoadGate::LoadPermitted));
}
