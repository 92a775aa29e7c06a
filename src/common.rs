//! Values exchanged between the workspace, the editor and the preview.
use vstd::prelude::*;
use vstd::string::StringExecFns;

verus! {

/// What the workspace hands to the editor and what the editor sends back
/// with a save request: a document's id, its version and its full text.
pub struct FileData {
    pub global_id: u32,
    pub version: u64,
    pub content: String,
}

impl FileData {
    pub fn new(global_id: u32, version: u64, content: String) -> (r: FileData)
        ensures
            r.global_id == global_id,
            r.version == version,
            r.content@ == content@,
    {
        FileData { global_id, version, content }
    }

    /// A copy with the same id, version and text.
    pub fn duplicate(&self) -> (r: FileData)
        ensures
            r == *self,
    {
        FileData { global_id: self.global_id, version: self.version, content: self.content.clone() }
    }
}

/// An imported image as the preview receives it: the node id, the
/// display id and the image's bytes.
pub struct ImgData {
    pub global_id: u32,
    pub indep_id: u32,
    pub bytes: Vec<u8>,
}

/// The settings that the workspace and the editor read.
#[derive(Clone, Copy, Debug, PartialEq, Eq, Structural)]
pub struct AppSetting {
    pub auto_save: bool,
}

impl AppSetting {
    /// The settings a fresh application starts with: autosave off.
    pub fn default_user_setting() -> (r: AppSetting)
        ensures
            !r.auto_save,
    {
        AppSetting { auto_save: false }
    }
}

/// Whether a save request came from the autosave timer.
#[derive(Clone, Copy, Debug, PartialEq, Eq, Structural)]
pub struct IsAutoSave(pub bool);

/// Failures of a single workspace operation.
#[derive(Debug)]
pub enum WorkspaceError {
    /// No node has the id the operation referred to.
    NotFound,
    /// Reading, writing or decoding failed; carries the system's message.
    IoFailure(String),
    /// The user closed a path dialog without choosing a path.
    PathSelectionAborted,
    /// The node is of another kind than the operation needs.
    InvalidNodeKind,
}

/// Errors of the application, by the part that raised them.
#[derive(Debug)]
pub enum AppError {
    FilePanelError(String),
    EditorError(String),
    PreviewError(String),
    MenuBarError(String),
    OtherError(String),
}

/// The description of a workspace failure.
pub open spec fn workspace_error_text(e: WorkspaceError) -> Seq<char> {
    match e {
        WorkspaceError::NotFound => "node not found"@,
        WorkspaceError::IoFailure(text) => text@,
        WorkspaceError::PathSelectionAborted => "no path was chosen"@,
        WorkspaceError::InvalidNodeKind => "node is of the wrong kind"@,
    }
}

impl WorkspaceError {
    /// A short description of the failure.
    pub fn message(&self) -> (r: String)
        ensures
            r@ == workspace_error_text(*self),
    {
        match self {
            WorkspaceError::NotFound => "node not found".to_owned(),
            WorkspaceError::IoFailure(text) => text.clone(),
            WorkspaceError::PathSelectionAborted => "no path was chosen".to_owned(),
            WorkspaceError::InvalidNodeKind => "node is of the wrong kind".to_owned(),
        }
    }
}

impl WorkspaceError {
    /// The same failure as an error of the file panel.
    pub fn into_app_error(self) -> (r: AppError)
        ensures
            r is FilePanelError,
            r->FilePanelError_0@ == workspace_error_text(self),
    {
        AppError::FilePanelError(self.message())
    }
}

impl AppError {
    /// The error as shown to the user: the part that raised it, then its
    /// message.
    pub fn to_display_string(&self) -> (r: String)
        ensures
            r@ == match self {
                AppError::FilePanelError(t) => "文件模块错误："@ + t@,
                AppError::EditorError(t) => "编辑模块错误："@ + t@,
                AppError::PreviewError(t) => "预览模块错误："@ + t@,
                AppError::MenuBarError(t) => "菜单模块错误："@ + t@,
                AppError::OtherError(t) => "其他错误："@ + t@,
            },
    {
        let prefix = match self {
            AppError::FilePanelError(_) => "文件模块错误：",
            AppError::EditorError(_) => "编辑模块错误：",
            AppError::PreviewError(_) => "预览模块错误：",
            AppError::MenuBarError(_) => "菜单模块错误：",
            AppError::OtherError(_) => "其他错误：",
        };
        let mut s = prefix.to_owned();
        let text = self.message();
        s.append(text.as_str());
        s
    }

    /// The message that the error carries.
    pub fn message(&self) -> (r: String)
        ensures
            r@ == match self {
                AppError::FilePanelError(t) => t@,
                AppError::EditorError(t) => t@,
                AppError::PreviewError(t) => t@,
                AppError::MenuBarError(t) => t@,
                AppError::OtherError(t) => t@,
            },
    {
        match self {
            AppError::FilePanelError(t) => t.clone(),
            AppError::EditorError(t) => t.clone(),
            AppError::PreviewError(t) => t.clone(),
            AppError::MenuBarError(t) => t.clone(),
            AppError::OtherError(t) => t.clone(),
        }
    }
}

} // verus!
