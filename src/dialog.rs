//! Modal dialogs: the table-size dialog and the confirmation dialog, and
//! the switch that decides which of them is shown. Each `update` returns
//! the message that follows, if any.
use vstd::prelude::*;

verus! {

/// The dialog that asks for the size of a table to insert.
pub struct EditorTableDialog {
    pub row: String,
    pub column: String,
}

pub enum EditorTableDialogMessage {
    RowChanged(String),
    ColumnChanged(String),
    ConfirmInput,
    CancelInput,
    CloseDialog,
}

/// The same dialog as the editor opens it.
pub struct TableDialog {
    pub row: String,
    pub column: String,
}

pub enum TableDialogMessage {
    RowChanged(String),
    ColumnChanged(String),
    ConfirmInput,
    CancelInput,
    CloseDialog,
}

/// A yes-or-no question to the user.
pub struct ConfirmDialog {
    pub content: String,
}

pub enum ConfirmDialogMessage {
    LoadConfirmText(String),
    SendConfirmResult(bool),
}

#[derive(Clone, Copy, Debug, PartialEq, Eq, Structural)]
pub enum DialogType {
    NoDialog,
    EditorTable,
    Confirm,
}

pub enum DialogMessage {
    OpenEditorTableDialog,
    OpenConfirmDialog(String),
    EditorTableDialogMessage(EditorTableDialogMessage),
    ConfirmDialogMessage(ConfirmDialogMessage),
    SendConfirmResult(bool),
}

pub struct Dialog {
    pub current_dialog: DialogType,
    pub editor_table: EditorTableDialog,
    pub confirm: ConfirmDialog,
}

impl EditorTableDialog {
    pub fn new() -> (r: EditorTableDialog)
        ensures
            r.row@.len() == 0,
            r.column@.len() == 0,
    {
        EditorTableDialog { row: String::new(), column: String::new() }
    }

    /// Typing updates the fields; cancelling clears them and closes the
    /// dialog.
    pub fn update(&mut self, message: EditorTableDialogMessage) -> (r: Option<EditorTableDialogMessage>)
        ensures
            match message {
                EditorTableDialogMessage::RowChanged(t) => r is None && final(self).row == t
                    && final(self).column == old(self).column,
                EditorTableDialogMessage::ColumnChanged(t) => r is None && final(self).column == t
                    && final(self).row == old(self).row,
                EditorTableDialogMessage::CancelInput => r matches Some(EditorTableDialogMessage::CloseDialog)
                    && final(self).row@.len() == 0 && final(self).column@.len() == 0,
                _ => r is None && *final(self) == *old(self),
            },
    {
        match message {
            EditorTableDialogMessage::RowChanged(t) => {
                self.row = t;
                None
            },
            EditorTableDialogMessage::ColumnChanged(t) => {
                self.column = t;
                None
            },
            EditorTableDialogMessage::CancelInput => {
                self.row = String::new();
                self.column = String::new();
                Some(EditorTableDialogMessage::CloseDialog)
            },
            _ => None,
        }
    }
}

impl TableDialog {
    pub fn new() -> (r: TableDialog)
        ensures
            r.row@.len() == 0,
            r.column@.len() == 0,
    {
        TableDialog { row: String::new(), column: String::new() }
    }

    /// Typing updates the fields; cancelling clears them and closes the
    /// dialog.
    pub fn update(&mut self, message: TableDialogMessage) -> (r: Option<TableDialogMessage>)
        ensures
            match message {
                TableDialogMessage::RowChanged(t) => r is None && final(self).row == t
                    && final(self).column == old(self).column,
                TableDialogMessage::ColumnChanged(t) => r is None && final(self).column == t
                    && final(self).row == old(self).row,
                TableDialogMessage::CancelInput => r matches Some(TableDialogMessage::CloseDialog)
                    && final(self).row@.len() == 0 && final(self).column@.len() == 0,
                _ => r is None && *final(self) == *old(self),
            },
    {
        match message {
            TableDialogMessage::RowChanged(t) => {
                self.row = t;
                None
            },
            TableDialogMessage::ColumnChanged(t) => {
                self.column = t;
                None
            },
            TableDialogMessage::CancelInput => {
                self.row = String::new();
                self.column = String::new();
                Some(TableDialogMessage::CloseDialog)
            },
            _ => None,
        }
    }
}

impl ConfirmDialog {
    pub fn new() -> (r: ConfirmDialog)
        ensures
            r.content@.len() == 0,
    {
        ConfirmDialog { content: String::new() }
    }

    /// Takes the question to show; the answer is handled by `Dialog`.
    pub fn update(&mut self, message: ConfirmDialogMessage) -> (r: Option<ConfirmDialogMessage>)
        ensures
            r is None,
            match message {
                ConfirmDialogMessage::LoadConfirmText(t) => final(self).content == t,
                _ => *final(self) == *old(self),
            },
    {
        match message {
            ConfirmDialogMessage::LoadConfirmText(t) => {
                self.content = t;
            },
            _ => {},
        }
        None
    }
}

impl Dialog {
    /// No dialog shown, both dialogs empty.
    pub fn new() -> (r: Dialog)
        ensures
            r.current_dialog == DialogType::NoDialog,
            r.editor_table.row@.len() == 0,
            r.editor_table.column@.len() == 0,
            r.confirm.content@.len() == 0,
    {
        Dialog {
            current_dialog: DialogType::NoDialog,
            editor_table: EditorTableDialog::new(),
            confirm: ConfirmDialog::new(),
        }
    }

    /// Opening a dialog shows it (a confirmation first receives its
    /// question); closing the table dialog or answering the confirmation
    /// hides it, and the answer is passed on.
    pub fn update(&mut self, message: DialogMessage) -> (r: Option<DialogMessage>)
        ensures
            match message {
                DialogMessage::OpenEditorTableDialog => r is None
                    && final(self).current_dialog == DialogType::EditorTable,
                DialogMessage::OpenConfirmDialog(t) => final(self).current_dialog == DialogType::Confirm
                    && (r matches Some(DialogMessage::ConfirmDialogMessage(ConfirmDialogMessage::LoadConfirmText(u)))
                    && u == t),
                DialogMessage::EditorTableDialogMessage(EditorTableDialogMessage::CloseDialog) => r is None
                    && final(self).current_dialog == DialogType::NoDialog,
                DialogMessage::EditorTableDialogMessage(EditorTableDialogMessage::CancelInput) => (r matches Some(
                    DialogMessage::EditorTableDialogMessage(EditorTableDialogMessage::CloseDialog),
                )) && final(self).current_dialog == old(self).current_dialog,
                DialogMessage::ConfirmDialogMessage(ConfirmDialogMessage::SendConfirmResult(b)) => (r
                    matches Some(DialogMessage::SendConfirmResult(c)) && c == b)
                    && final(self).current_dialog == DialogType::NoDialog,
                DialogMessage::ConfirmDialogMessage(ConfirmDialogMessage::LoadConfirmText(t)) => r is None
                    && final(self).confirm.content == t
                    && final(self).current_dialog == old(self).current_dialog,
                DialogMessage::EditorTableDialogMessage(EditorTableDialogMessage::RowChanged(t)) => r is None
                    && final(self).editor_table.row == t
                    && final(self).editor_table.column == old(self).editor_table.column
                    && final(self).current_dialog == old(self).current_dialog,
                DialogMessage::EditorTableDialogMessage(EditorTableDialogMessage::ColumnChanged(t)) => r is None
                    && final(self).editor_table.column == t
                    && final(self).editor_table.row == old(self).editor_table.row
                    && final(self).current_dialog == old(self).current_dialog,
                DialogMessage::SendConfirmResult(_) => r is None && *final(self) == *old(self),
                _ => r is None && final(self).current_dialog == old(self).current_dialog,
            },
    {
        match message {
            DialogMessage::OpenEditorTableDialog => {
                self.current_dialog = DialogType::EditorTable;
                None
            },
            DialogMessage::OpenConfirmDialog(text) => {
                self.current_dialog = DialogType::Confirm;
                Some(DialogMessage::ConfirmDialogMessage(ConfirmDialogMessage::LoadConfirmText(text)))
            },
            DialogMessage::EditorTableDialogMessage(m) => match m {
                EditorTableDialogMessage::CloseDialog => {
                    self.current_dialog = DialogType::NoDialog;
                    None
                },
                _ => match self.editor_table.update(m) {
                    Some(next) => Some(DialogMessage::EditorTableDialogMessage(next)),
                    None => None,
                },
            },
            DialogMessage::ConfirmDialogMessage(m) => match m {
                ConfirmDialogMessage::SendConfirmResult(agreed) => {
                    self.current_dialog = DialogType::NoDialog;
                    Some(DialogMessage::SendConfirmResult(agreed))
                },
                _ => match self.confirm.update(m) {
                    Some(next) => Some(DialogMessage::ConfirmDialogMessage(next)),
                    None => None,
                },
            },
            DialogMessage::SendConfirmResult(_) => None,
        }
    }

    /// Whether a dialog is shown.
    pub fn is_show(&self) -> (r: bool)
        ensures
            r == (self.current_dialog != DialogType::NoDialog),
    {
        !(self.current_dialog == DialogType::NoDialog)
    }
}

} // verus!
