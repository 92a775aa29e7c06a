use fugu::common::ImgData;
use fugu::dialog::{
    ConfirmDialogMessage, Dialog, DialogMessage, DialogType, EditorTableDialog, EditorTableDialogMessage,
    TableDialog, TableDialogMessage,
};
use fugu::menu_bar::{MenuBar, MenuBarMessage};
use fugu::preview::{
    get_week_str, weekday_label, ImageGallery, ImageGalleryMessage, ImageGalleryMode, LogViewer,
    LogViewerMessage, OptionItem, PreviewPage,
};
use fugu::status_bar::StatusBar;
use fugu::text::{generate_table_code, image_link_code};
use fugu::text_board::{label_before, text_label, TextBoard, TextBoardMessage};

#[test]
fn test_table() {
    let table = generate_table_code(7, 5);
    println!("{}", table);
    let lines: Vec<&str> = table.lines().collect();
    assert_eq!(lines.len(), 9);
    assert_eq!(lines[0], "| Column1 | Column2 | Column3 | Column4 | Column5 |");
    assert_eq!(lines[1], "|---------|---------|---------|---------|---------|");
    for line in &lines[2..] {
        assert_eq!(*line, "| Cell   | Cell   | Cell   | Cell   | Cell   |");
    }
    assert!(table.ends_with("|\n"));
}

#[test]
fn empty_table_is_two_bars() {
    assert_eq!(generate_table_code(0, 0), "|\n|\n");
}

#[test]
fn wide_table_numbers_columns_in_decimal() {
    let table = generate_table_code(1, 12);
    assert!(table.starts_with("| Column1 | Column2 "));
    assert!(table.contains("| Column10 | Column11 | Column12 |\n"));
}

#[test]
fn image_link_uses_the_file_name() {
    assert_eq!(image_link_code("/x/y/pic.png"), "![](fugu-images/pic.png)\n\n");
}

#[test]
fn dialog_opens_and_closes() {
    let mut dialog = Dialog::new();
    assert!(!dialog.is_show());
    assert!(dialog.update(DialogMessage::OpenEditorTableDialog).is_none());
    assert_eq!(dialog.current_dialog, DialogType::EditorTable);
    dialog.update(DialogMessage::EditorTableDialogMessage(EditorTableDialogMessage::RowChanged("5".to_string())));
    assert_eq!(dialog.editor_table.row, "5");
    assert!(dialog.is_show());
    let next = dialog.update(DialogMessage::EditorTableDialogMessage(EditorTableDialogMessage::CancelInput));
    assert!(matches!(next, Some(DialogMessage::EditorTableDialogMessage(EditorTableDialogMessage::CloseDialog))));
    dialog.update(next.unwrap());
    assert!(!dialog.is_show());
}

#[test]
fn confirm_dialog_passes_the_answer_on() {
    let mut dialog = Dialog::new();
    let next = dialog.update(DialogMessage::OpenConfirmDialog("discard?".to_string())).unwrap();
    assert_eq!(dialog.current_dialog, DialogType::Confirm);
    assert!(dialog.update(next).is_none());
    assert_eq!(dialog.confirm.content, "discard?");
    let answer = dialog.update(DialogMessage::ConfirmDialogMessage(ConfirmDialogMessage::SendConfirmResult(true)));
    assert!(matches!(answer, Some(DialogMessage::SendConfirmResult(true))));
    assert!(!dialog.is_show());
}

#[test]
fn table_dialogs_track_input() {
    let mut d = EditorTableDialog::new();
    d.update(EditorTableDialogMessage::RowChanged("3".to_string()));
    d.update(EditorTableDialogMessage::ColumnChanged("4".to_string()));
    assert_eq!((d.row.as_str(), d.column.as_str()), ("3", "4"));
    assert!(d.update(EditorTableDialogMessage::ConfirmInput).is_none());
    assert!(d.update(EditorTableDialogMessage::CancelInput).is_some());
    assert_eq!((d.row.as_str(), d.column.as_str()), ("", ""));
    let mut t = TableDialog::new();
    t.update(TableDialogMessage::RowChanged("2".to_string()));
    assert_eq!(t.row, "2");
    assert!(matches!(t.update(TableDialogMessage::CancelInput), Some(TableDialogMessage::CloseDialog)));
    assert_eq!(t.row, "");
}

#[test]
fn menu_bar_tracks_hover() {
    let mut bar = MenuBar::new();
    assert_eq!(bar.hovered_id, None);
    bar.update(MenuBarMessage::HoverEnter(3));
    assert_eq!(bar.hovered_id, Some(3));
    bar.update(MenuBarMessage::CommandSaveFile);
    assert_eq!(bar.hovered_id, Some(3));
    let _ = StatusBar::new();
}

fn img(indep_id: u32, byte: u8) -> ImgData {
    ImgData { global_id: indep_id + 100, indep_id, bytes: vec![byte] }
}

#[test]
fn gallery_selects_smallest_of_many_and_shows_grid() {
    let mut gallery = ImageGallery::new();
    let next = gallery.update(ImageGalleryMessage::LoadImage(vec![img(7, 1), img(3, 2), img(5, 3), img(3, 4)]));
    assert!(matches!(next, Some(ImageGalleryMessage::ShowImageGallery)));
    assert_eq!(gallery.selected_option_item, Some(OptionItem(3)));
    assert_eq!(gallery.mode, Some(ImageGalleryMode::GridView));
    assert_eq!(gallery.images.len(), 3);
    assert_eq!(gallery.images[&3].bytes, vec![2]);
    let next = gallery.update(ImageGalleryMessage::LoadImage(vec![img(5, 9)]));
    assert!(next.is_some());
    assert_eq!(gallery.selected_option_item, Some(OptionItem(5)));
    assert_eq!(gallery.mode, Some(ImageGalleryMode::ListView));
    assert_eq!(gallery.images[&5].bytes, vec![3]);
    assert!(gallery.update(ImageGalleryMessage::LoadImage(vec![])).is_none());
    gallery.update(ImageGalleryMessage::ModeChange(ImageGalleryMode::GridView));
    gallery.update(ImageGalleryMessage::ChangeSelectedImg(7));
    assert_eq!(gallery.mode, Some(ImageGalleryMode::ListView));
    assert_eq!(gallery.selected_option_item, Some(OptionItem(7)));
}

#[test]
fn option_item_label() {
    assert_eq!(OptionItem(12).label(), "图片 12");
    assert_eq!(OptionItem(0).label(), "图片 0");
}

#[test]
fn log_keeps_the_last_hundred_trimmed_lines() {
    let mut log = LogViewer::new();
    for i in 0..105 {
        log.update(LogViewerMessage::WriteLog(format!("line {}  \n", i)));
    }
    let lines = log.lines_exec();
    assert_eq!(lines.len(), 100);
    assert_eq!(lines[0], "line 5");
    assert_eq!(lines[99], "line 104");
    log.update(LogViewerMessage::WriteLog(String::new()));
    assert_eq!(log.lines_exec().len(), 99);
}

#[test]
fn weekday_labels() {
    assert_eq!(weekday_label(1), "星期一");
    assert_eq!(weekday_label(7), "星期天");
    let today = get_week_str().unwrap();
    assert!((1..=7).any(|d| weekday_label(d) == today));
    assert_ne!(PreviewPage::MarkDown, PreviewPage::LogViewer);
}

#[test]
fn text_board_labels_order_as_strings() {
    assert_eq!(text_label(10), "文本 10");
    assert!(label_before(10, 2));
    assert!(!label_before(2, 10));
    assert!(label_before(1, 10));
    assert!(!label_before(7, 7));
}

#[test]
fn text_board_create_edit_delete() {
    let mut board = TextBoard::new();
    for _ in 0..10 {
        assert!(matches!(board.update(TextBoardMessage::CreateNewText), Some(TextBoardMessage::LoadSelectedText)));
    }
    assert_eq!(board.text_ids(), &(1..=10).collect::<Vec<u64>>());
    assert_eq!(board.current_text_id(), Some(10));
    board.update(TextBoardMessage::EditorAction("ten".to_string()));
    board.update(TextBoardMessage::ChangeText(4));
    assert!(board.update(TextBoardMessage::LoadSelectedText).is_none());
    assert_eq!(board.current_text(), "");
    board.update(TextBoardMessage::ChangeText(10));
    board.update(TextBoardMessage::LoadSelectedText);
    assert_eq!(board.current_text(), "ten");
    // deleting text 10 leaves 1..9; "文本 1" comes first
    assert!(board.update(TextBoardMessage::DeleteSelectedText).is_some());
    assert_eq!(board.current_text_id(), Some(1));
    board.update(TextBoardMessage::DeleteSelectedText);
    assert_eq!(board.current_text_id(), Some(2));
    board.update(TextBoardMessage::ChangeText(42));
    assert!(matches!(board.update(TextBoardMessage::LoadSelectedText), Some(TextBoardMessage::HandError(_))));
    assert!(matches!(board.update(TextBoardMessage::DeleteSelectedText), Some(TextBoardMessage::HandError(_))));
}
