use fugu::common::{AppError, FileData, IsAutoSave, WorkspaceError};
use fugu::editor::Editor;
use fugu::ingest::{DirEntry, EntryAction, ImageScan, TreeScan};
use fugu::node::{get_file_name, has_image_extension, has_markdown_extension, NodeContent};
use fugu::workspace::{FilePanel, FileTree, LoadAction, Mode, SaveStep, Selection};

fn entry(path: &str, is_dir: bool) -> DirEntry {
    DirEntry { path: path.to_string(), is_dir }
}

fn scanned_sample() -> TreeScan {
    let mut scan = TreeScan::start("/w".to_string());
    let (root, path) = scan.next_dir().unwrap();
    assert_eq!(root, 0);
    assert_eq!(path, "/w");
    scan.add_entry(root, entry("/w/notes.md", false));
    scan.add_entry(root, entry("/w/image.png", false));
    scan.add_entry(root, entry("/w/drafts", true));
    let (drafts, path) = scan.next_dir().unwrap();
    assert_eq!(path, "/w/drafts");
    scan.add_entry(drafts, entry("/w/drafts/d.md", false));
    assert!(scan.next_dir().is_none());
    scan
}

fn md_of(tree: &FileTree, id: u32) -> (Option<String>, u64, Option<String>) {
    match &tree.get(id).unwrap().node_content {
        NodeContent::Markdown(m) => (m.path.clone(), m.version, m.cache.clone()),
        _ => panic!("not a document"),
    }
}

#[test]
fn folder_scan_keeps_directories_and_markdown_only() {
    let scan = scanned_sample();
    assert!(scan.is_complete());
    assert_eq!(scan.len(), 4);
    let nodes = scan.into_nodes();
    let names: Vec<&str> = nodes.iter().map(|n| n.name.as_str()).collect();
    assert_eq!(names, vec!["w", "notes.md", "drafts", "d.md"]);
    assert_eq!(nodes[0].children, vec![1, 2]);
    assert_eq!(nodes[2].children, vec![3]);
    assert!(nodes.iter().all(|n| !n.path.ends_with("image.png")));
}

#[test]
fn merged_folder_gets_fresh_ids_and_becomes_the_root() {
    let mut tree = FileTree::new();
    let root = tree.load_file_tree(scanned_sample());
    assert_eq!(root, 0);
    assert_eq!(tree.len(), 4);
    assert_eq!(tree.workplace_root_key(), Some(0));
    let root_node = tree.get(0).unwrap();
    assert_eq!(root_node.name, "w");
    assert!(root_node.is_expanded());
    assert_eq!(root_node.try_get_children().unwrap(), &vec![1, 2]);
    assert!(!tree.get(2).unwrap().is_expanded());
    assert_eq!(md_of(&tree, 3), (Some("/w/drafts/d.md".to_string()), 0, None));
    // a second folder is numbered after the first
    let second = tree.load_file_tree(scanned_sample());
    assert_eq!(second, 4);
    assert_eq!(tree.len(), 8);
    assert_eq!(tree.get(4).unwrap().try_get_children().unwrap(), &vec![5, 6]);
}

#[test]
fn load_prefers_cache_over_disk() {
    let mut tree = FileTree::new();
    tree.load_file_tree(scanned_sample());
    assert_eq!(tree.change_selected_node(1).unwrap(), Selection::Selected);
    match tree.load_selected_node_data().unwrap() {
        LoadAction::ReadFile { id, path } => {
            assert_eq!(id, 1);
            assert_eq!(path, "/w/notes.md");
        }
        _ => panic!("first load must read the file"),
    }
    match tree.create_md_cache(1, "# notes".to_string()).unwrap() {
        LoadAction::SendToEditor { file_data, base_path } => {
            assert_eq!(file_data.version, 0);
            assert_eq!(file_data.content, "# notes");
            assert_eq!(base_path, Some("/w/notes.md".to_string()));
        }
        _ => panic!("cache creation hands the text on"),
    }
    match tree.load_selected_node_data().unwrap() {
        LoadAction::SendToEditor { file_data, .. } => assert_eq!(file_data.content, "# notes"),
        _ => panic!("second load must come from the cache"),
    }
}

#[test]
fn selecting_a_directory_toggles_it() {
    let mut tree = FileTree::new();
    tree.load_file_tree(scanned_sample());
    assert_eq!(tree.change_selected_node(2).unwrap(), Selection::Toggled);
    assert!(tree.get(2).unwrap().is_expanded());
    assert_eq!(tree.selected_node_id(), None);
    assert_eq!(tree.change_selected_node(2).unwrap(), Selection::Toggled);
    assert!(!tree.get(2).unwrap().is_expanded());
}

#[test]
fn unknown_node_and_empty_selection_are_not_found() {
    let mut tree = FileTree::new();
    assert!(matches!(tree.change_selected_node(99), Err(WorkspaceError::NotFound)));
    assert!(matches!(tree.load_selected_node_data(), Err(WorkspaceError::NotFound)));
    let fd = FileData::new(7, 1, "x".to_string());
    assert!(matches!(tree.update_node_info(IsAutoSave(false), fd), Err(WorkspaceError::NotFound)));
}

#[test]
fn saving_a_directory_is_the_wrong_kind() {
    let mut tree = FileTree::new();
    tree.load_file_tree(scanned_sample());
    let fd = FileData::new(2, 1, "x".to_string());
    assert!(matches!(tree.update_node_info(IsAutoSave(false), fd), Err(WorkspaceError::InvalidNodeKind)));
    assert!(matches!(tree.save_as(FileData::new(0, 1, String::new())), Err(WorkspaceError::InvalidNodeKind)));
}

#[test]
fn save_with_path_writes_there() {
    let mut tree = FileTree::new();
    tree.load_file_tree(scanned_sample());
    let fd = FileData::new(1, 3, "changed".to_string());
    match tree.update_node_info(IsAutoSave(true), fd).unwrap() {
        SaveStep::Write { id, version, path, content } => {
            assert_eq!((id, version), (1, 3));
            assert_eq!(path, "/w/notes.md");
            assert_eq!(content, "changed");
        }
        _ => panic!("a document with a path is written"),
    }
    assert_eq!(md_of(&tree, 1), (Some("/w/notes.md".to_string()), 3, Some("changed".to_string())));
}

#[test]
fn pathless_autosave_is_buffered_without_a_write() {
    let mut tree = FileTree::new();
    let id = tree.create_new_file();
    let fd = FileData::new(id, 1, "draft".to_string());
    assert!(matches!(tree.update_node_info(IsAutoSave(true), fd), Ok(SaveStep::Buffered { id: b, version: 1 }) if b == id));
    assert_eq!(md_of(&tree, id), (None, 1, Some("draft".to_string())));
}

#[test]
fn aborted_path_dialog_fails_the_save() {
    let mut tree = FileTree::new();
    let id = tree.create_new_file();
    let fd = FileData::new(id, 1, "a".to_string());
    assert!(matches!(tree.path_chosen(fd, None), Err(WorkspaceError::PathSelectionAborted)));
    assert_eq!(md_of(&tree, id).0, None);
}

#[test]
fn new_document_saved_through_the_dialog() {
    let mut tree = FileTree::new();
    let mut editor = Editor::new();
    let id = tree.create_new_file();
    assert_eq!(tree.get(id).unwrap().name, "新建文件.md");
    let file_data = match tree.load_selected_node_data().unwrap() {
        LoadAction::SendToEditor { file_data, base_path } => {
            assert!(base_path.is_none());
            file_data
        }
        _ => panic!("a new document opens empty"),
    };
    assert_eq!(file_data.content, "");
    editor.load_file_data_from_file_panel(file_data);
    assert_eq!(editor.on_edit("a".to_string()), Some(1));
    assert_eq!(editor.on_edit("ab".to_string()), Some(2));
    assert!(editor.is_dirty());
    let request = editor.current_file_data().unwrap();
    assert_eq!(request.version, 2);
    let (pending, suggested) = match tree.update_node_info(IsAutoSave(false), request).unwrap() {
        SaveStep::AskPath { file_data, suggested_name } => (file_data, suggested_name),
        _ => panic!("a manual save without a path asks for one"),
    };
    assert_eq!(suggested, "新建文件.md");
    let (sid, version, path, content) = match tree.path_chosen(pending, Some("/tmp/x.md".to_string())).unwrap() {
        SaveStep::Write { id, version, path, content } => (id, version, path, content),
        _ => panic!("a chosen path is written"),
    };
    assert_eq!((sid, version), (id, 2));
    assert_eq!(path, "/tmp/x.md");
    assert_eq!(content, "ab");
    editor.handle_save_result(sid, version, &Ok(()));
    assert!(!editor.is_dirty());
    assert_eq!(tree.get(id).unwrap().name, "x.md");
    assert_eq!(md_of(&tree, id), (Some("/tmp/x.md".to_string()), 2, Some("ab".to_string())));
}

#[test]
fn save_as_keeps_the_name_of_a_saved_document() {
    let mut tree = FileTree::new();
    tree.load_file_tree(scanned_sample());
    let fd = FileData::new(1, 2, "t".to_string());
    let pending = match tree.save_as(fd).unwrap() {
        SaveStep::AskPath { file_data, suggested_name } => {
            assert_eq!(suggested_name, "notes.md");
            file_data
        }
        _ => panic!("save-as asks for a path"),
    };
    assert!(matches!(tree.path_chosen(pending, Some("/elsewhere/copy.md".to_string())), Ok(SaveStep::Write { .. })));
    assert_eq!(tree.get(1).unwrap().name, "notes.md");
    assert_eq!(md_of(&tree, 1).0, Some("/elsewhere/copy.md".to_string()));
}

#[test]
fn new_documents_share_one_temporary_root() {
    let mut tree = FileTree::new();
    let a = tree.create_new_file();
    let root = tree.temp_workplace_root_key().unwrap();
    let b = tree.create_new_file();
    assert_eq!(tree.temp_workplace_root_key(), Some(root));
    assert_eq!(tree.get(root).unwrap().try_get_children().unwrap(), &vec![a, b]);
    assert_eq!(tree.get(root).unwrap().name, "临时工作区");
    assert!(tree.get(a).unwrap().is_temp_file());
    assert_eq!(tree.selected_node_id(), Some(b));
}

#[test]
fn imported_document_is_cached_and_selected() {
    let mut tree = FileTree::new();
    let id = tree.import_md_file("/docs/read.md".to_string(), "hello".to_string());
    assert_eq!(tree.selected_node_id(), Some(id));
    assert_eq!(tree.get(id).unwrap().name, "read.md");
    match tree.load_selected_node_data().unwrap() {
        LoadAction::SendToEditor { file_data, base_path } => {
            assert_eq!(file_data.content, "hello");
            assert_eq!(base_path, Some("/docs/read.md".to_string()));
        }
        _ => panic!("an imported document is cached"),
    }
}

#[test]
fn image_scan_and_merge() {
    let mut scan = ImageScan::start("/pics".to_string());
    let dir = scan.next_dir().unwrap();
    assert_eq!(dir, "/pics");
    assert_eq!(scan.add_entry(entry("/pics/a.png", false)), EntryAction::ReadImage);
    scan.add_image("/pics/a.png".to_string(), vec![1, 2, 3]);
    assert_eq!(scan.add_entry(entry("/pics/notes.md", false)), EntryAction::Skip);
    assert_eq!(scan.add_entry(entry("/pics/sub", true)), EntryAction::Descend);
    assert_eq!(scan.next_dir(), Some("/pics/sub".to_string()));
    assert_eq!(scan.add_entry(entry("/pics/sub/b.jpg", false)), EntryAction::ReadImage);
    scan.add_image("/pics/sub/b.jpg".to_string(), vec![9]);
    assert!(scan.next_dir().is_none());
    let mut tree = FileTree::new();
    let shown = tree.load_img_handles(scan);
    assert_eq!(shown.len(), 2);
    assert_eq!((shown[0].global_id, shown[0].indep_id, shown[0].bytes.clone()), (0, 1, vec![1, 2, 3]));
    assert_eq!((shown[1].global_id, shown[1].indep_id, shown[1].bytes.clone()), (1, 2, vec![9]));
    let library = tree.temp_img_library_root_key().unwrap();
    assert_eq!(library, 2);
    assert_eq!(tree.get(library).unwrap().try_get_children().unwrap(), &vec![0, 1]);
    assert_eq!(tree.get(1).unwrap().name, "b.jpg");
}

#[test]
fn imported_image_is_shown_with_its_bytes() {
    let mut tree = FileTree::new();
    let id = tree.import_image("/p/c.png".to_string(), vec![4, 5]);
    match tree.load_selected_node_data().unwrap() {
        LoadAction::ShowImage(d) => {
            assert_eq!(d.global_id, id);
            assert_eq!(d.indep_id, 1);
            assert_eq!(d.bytes, vec![4, 5]);
        }
        _ => panic!("an image goes to the preview"),
    }
}

#[test]
fn image_copy_needs_a_saved_document() {
    let mut tree = FileTree::new();
    let img = tree.import_image("/p/c.png".to_string(), vec![]);
    let doc = tree.create_new_file();
    assert_eq!(tree.selected_node_id(), Some(doc));
    assert!(matches!(tree.copy_img_file_data(img), Err(WorkspaceError::NotFound)));
    tree.import_md_file("/d/n.md".to_string(), String::new());
    assert_eq!(tree.copy_img_file_data(img).unwrap(), ("/d/n.md".to_string(), "/p/c.png".to_string()));
    assert!(matches!(tree.copy_img_file_data(doc), Err(WorkspaceError::InvalidNodeKind)));
}

#[test]
fn file_names_and_extensions() {
    assert_eq!(get_file_name("/a/b/c.md"), "c.md");
    assert_eq!(get_file_name("/"), "暂无名称");
    assert!(has_markdown_extension("/a/b/c.md"));
    assert!(!has_markdown_extension("/a/b/c.markdown"));
    assert!(!has_markdown_extension("/a/.md"));
    assert!(has_image_extension("x.png"));
    assert!(has_image_extension("x.jpg"));
    assert!(!has_image_extension("x.gif"));
}

#[test]
fn node_accessors_by_kind() {
    let mut tree = FileTree::new();
    tree.load_file_tree(scanned_sample());
    let dir = tree.get(0).unwrap();
    assert!(dir.is_directory());
    assert!(!dir.is_children_empty());
    assert_eq!(dir.try_get_path().unwrap(), "/w");
    assert!(matches!(dir.try_get_md(), Err(WorkspaceError::InvalidNodeKind)));
    let doc = tree.get(3).unwrap();
    assert!(doc.is_md_file());
    assert!(doc.is_children_empty());
    assert!(matches!(doc.try_get_children(), Err(WorkspaceError::InvalidNodeKind)));
    assert!(matches!(doc.try_get_img(), Err(WorkspaceError::InvalidNodeKind)));
    let id = tree.create_new_file();
    assert!(matches!(tree.get(id).unwrap().try_get_path(), Err(WorkspaceError::NotFound)));
}

#[test]
fn file_panel_switches_mode() {
    let mut panel = FilePanel::new();
    assert_eq!(panel.mode, Mode::FileTree);
    panel.change_mode(Mode::Content);
    assert_eq!(panel.mode, Mode::Content);
    assert_eq!(panel.file_tree.len(), 0);
}

#[test]
fn workspace_errors_as_app_errors() {
    let e = WorkspaceError::IoFailure("disk full".to_string()).into_app_error();
    assert_eq!(e.message(), "disk full");
    assert_eq!(e.to_display_string(), "文件模块错误：disk full");
    assert_eq!(AppError::OtherError("x".to_string()).to_display_string(), "其他错误：x");
}

#[test]
fn traversal_is_depth_first_with_depths() {
    let mut tree = FileTree::new();
    tree.load_file_tree(scanned_sample());
    assert_eq!(tree.traverse(0), vec![(0, 0), (1, 1), (2, 1), (3, 2)]);
    // a collapsed directory is still visited with its children
    assert!(!tree.get(2).unwrap().is_expanded());
    assert_eq!(tree.traverse(2), vec![(2, 0), (3, 1)]);
    assert_eq!(tree.traverse(42), vec![]);
}

#[test]
fn selection_can_be_restored_after_a_failed_load() {
    let mut tree = FileTree::new();
    tree.load_file_tree(scanned_sample());
    tree.change_selected_node(1).unwrap();
    tree.change_selected_node(3).unwrap();
    assert!(tree.restore_selection(Some(1)).is_ok());
    assert_eq!(tree.selected_node_id(), Some(1));
    assert!(matches!(tree.restore_selection(Some(77)), Err(WorkspaceError::NotFound)));
    assert_eq!(tree.selected_node_id(), Some(1));
    assert!(tree.restore_selection(None).is_ok());
    assert_eq!(tree.selected_node_id(), None);
}

#[test]
fn workspace_error_messages() {
    assert_eq!(WorkspaceError::NotFound.message(), "node not found");
    assert_eq!(WorkspaceError::PathSelectionAborted.message(), "no path was chosen");
    assert_eq!(WorkspaceError::InvalidNodeKind.into_app_error().message(), "node is of the wrong kind");
}
