//! The editor's half of the version protocol: every edit bumps the
//! document's version and schedules a delayed check that carries it; a
//! check acts only if no later edit came in between. A document is dirty
//! exactly when its version differs from the last one persisted.
use vstd::prelude::*;
use crate::common::{AppError, AppSetting, FileData};

verus! {

pub struct Editor {
    selected_file: Option<FileData>,
    original_version: Option<u64>,
}

/// What the editor answers when another document is about to be loaded.
pub enum LoadGate {
    /// Nothing unsaved: load.
    LoadPermitted,
    /// Unsaved changes and autosave on: save this first, then load.
    AutoSaveThenLoad(FileData),
    /// Unsaved changes and autosave off: ask the user with this question
    /// whether to discard them.
    AskConfirm(String),
}

impl Editor {
    /// The document being edited.
    pub closed spec fn file(&self) -> Option<FileData> {
        self.selected_file
    }

    /// The last version known to be persisted.
    pub closed spec fn persisted(&self) -> Option<u64> {
        self.original_version
    }

    /// The version of the document being edited.
    pub open spec fn version(&self) -> u64 {
        self.file()->Some_0.version
    }

    /// Unsaved changes: the version differs from the last persisted one.
    pub open spec fn dirty(&self) -> bool {
        match (self.file(), self.persisted()) {
            (Some(f), Some(o)) => f.version != o,
            _ => false,
        }
    }

    /// A delayed check carrying `version` triggers an autosave.
    pub open spec fn check_fires(&self, version: u64, setting: AppSetting) -> bool {
        setting.auto_save && self.file() is Some && self.version() == version
    }

    pub fn new() -> (r: Editor)
        ensures
            r.file() is None,
            r.persisted() is None,
    {
        Editor { selected_file: None, original_version: None }
    }

    /// Takes a document handed over by the workspace. It counts as
    /// persisted at its version. Returns the text for the preview.
    pub fn load_file_data_from_file_panel(&mut self, file_data: FileData) -> (r: String)
        ensures
            final(self).file() matches Some(f) && f.global_id == file_data.global_id
                && f.version == file_data.version && f.content@ == file_data.content@,
            final(self).persisted() == Some(file_data.version),
            !final(self).dirty(),
            r@ == file_data.content@,
    {
        let text = file_data.content.clone();
        self.original_version = Some(file_data.version);
        self.selected_file = Some(file_data);
        text
    }

    /// An edit that left `new_text` in the buffer: the version goes up by
    /// one and the text is replaced. Returns the version that the delayed
    /// check must carry; `None` when no document is open.
    pub fn on_edit(&mut self, new_text: String) -> (r: Option<u64>)
        requires
            old(self).file() is Some ==> old(self).version() < u64::MAX,
        ensures
            old(self).file() is None ==> r is None && *final(self) == *old(self),
            old(self).file() is Some ==> edit_step(*old(self), new_text@, *final(self))
                && r == Some(final(self).version()),
    {
        match self.selected_file.take() {
            Some(f) => {
                let version = f.version + 1;
                self.selected_file = Some(FileData { global_id: f.global_id, version, content: new_text });
                Some(version)
            },
            None => None,
        }
    }

    /// A delayed check that carries `version` has fired: it asks for an
    /// autosave of the current text only if autosave is on and no edit
    /// came after the one that scheduled it.
    pub fn auto_save_check(&self, version: u64, setting: &AppSetting) -> (r: Option<FileData>)
        ensures
            r is Some <==> self.check_fires(version, *setting),
            r matches Some(d) ==> d == self.file()->Some_0,
    {
        match &self.selected_file {
            Some(f) => if setting.auto_save && f.version == version {
                Some(f.duplicate())
            } else {
                None
            },
            None => None,
        }
    }

    /// Whether another document may be loaded now.
    pub fn check_save_state(&self, setting: &AppSetting) -> (r: LoadGate)
        ensures
            !self.dirty() ==> r is LoadPermitted,
            self.dirty() && setting.auto_save ==> (r matches LoadGate::AutoSaveThenLoad(d)
                && d == self.file()->Some_0),
            self.dirty() && !setting.auto_save ==> (r matches LoadGate::AskConfirm(q)
                && q@ == "是否丢弃未保存的更改？"@),
    {
        match (&self.selected_file, self.original_version) {
            (Some(f), Some(o)) => if f.version != o {
                if setting.auto_save {
                    LoadGate::AutoSaveThenLoad(f.duplicate())
                } else {
                    LoadGate::AskConfirm("是否丢弃未保存的更改？".to_owned())
                }
            } else {
                LoadGate::LoadPermitted
            },
            _ => LoadGate::LoadPermitted,
        }
    }

    /// The outcome of persisting version `version` of document
    /// `global_id`: on success that version becomes the last persisted
    /// one; on failure nothing changes.
    pub fn handle_save_result(&mut self, global_id: u32, version: u64, result: &Result<(), AppError>)
        ensures
            save_outcome(*old(self), global_id, version, result is Ok, *final(self)),
    {
        if result.is_ok() {
            match &self.selected_file {
                Some(f) => if f.global_id == global_id {
                    self.original_version = Some(version);
                },
                None => {},
            }
        }
    }

    /// The current document, for a save or save-as request.
    pub fn current_file_data(&self) -> (r: Option<FileData>)
        ensures
            r == self.file(),
    {
        match &self.selected_file {
            Some(f) => Some(f.duplicate()),
            None => None,
        }
    }

    pub fn is_dirty(&self) -> (r: bool)
        ensures
            r == self.dirty(),
    {
        match (&self.selected_file, self.original_version) {
            (Some(f), Some(o)) => f.version != o,
            _ => false,
        }
    }
}

/// One edit: the open document keeps its id, takes `text`, and its
/// version goes up by one; the persisted version stays.
pub open spec fn edit_step(before: Editor, text: Seq<char>, after: Editor) -> bool {
    &&& before.file() is Some
    &&& after.file() is Some
    &&& after.file()->Some_0.global_id == before.file()->Some_0.global_id
    &&& after.version() == before.version() + 1
    &&& after.file()->Some_0.content@ == text
    &&& after.persisted() == before.persisted()
}

/// The outcome of a save of `version` of document `id` took the editor
/// from `before` to `after`.
pub open spec fn save_outcome(before: Editor, id: u32, version: u64, ok: bool, after: Editor) -> bool {
    &&& after.file() == before.file()
    &&& if ok && before.file() is Some && before.file()->Some_0.global_id == id {
        after.persisted() == Some(version)
    } else {
        after.persisted() == before.persisted()
    }
}

/// A run of edits: the `i`-th left `texts[i]` and took the editor from
/// `states[i]` to `states[i + 1]`.
pub open spec fn edit_run(states: Seq<Editor>, texts: Seq<Seq<char>>) -> bool {
    &&& states.len() == texts.len() + 1
    &&& forall|i: int| 0 <= i < texts.len() ==> edit_step(states[i], texts[i], #[trigger] states[i + 1])
}

proof fn lemma_edit_run_version(states: Seq<Editor>, texts: Seq<Seq<char>>, k: int)
    requires
        edit_run(states, texts),
        0 <= k <= texts.len(),
        states[0].file() is Some,
    ensures
        states[k].file() is Some,
        states[k].version() == states[0].version() + k,
    decreases k,
{
    if k > 0 {
        let j = k - 1;
        lemma_edit_run_version(states, texts, j);
        assert(edit_step(states[j], texts[j], states[j + 1]));
    }
}

/// After `K` edits the version is `K` above where it started, and along
/// the way it never goes down.
pub proof fn lemma_version_monotonic(states: Seq<Editor>, texts: Seq<Seq<char>>)
    requires
        edit_run(states, texts),
        states[0].file() is Some,
    ensures
        states.last().version() == states[0].version() + texts.len(),
        forall|i: int, j: int| 0 <= i <= j < states.len() ==> states[i].version() <= states[j].version(),
{
    lemma_edit_run_version(states, texts, texts.len() as int);
    assert forall|i: int, j: int| 0 <= i <= j < states.len() implies states[i].version()
        <= states[j].version() by {
        lemma_edit_run_version(states, texts, i);
        lemma_edit_run_version(states, texts, j);
    }
}

/// A delayed check scheduled by one edit does nothing once a second edit
/// has come in after it.
pub proof fn lemma_stale_check_is_noop(
    e0: Editor,
    t1: Seq<char>,
    e1: Editor,
    t2: Seq<char>,
    e2: Editor,
    setting: AppSetting,
)
    requires
        edit_step(e0, t1, e1),
        edit_step(e1, t2, e2),
    ensures
        !e2.check_fires(e1.version(), setting),
        e2.check_fires(e2.version(), setting) == setting.auto_save,
{
}

/// Right after a save outcome, the document is dirty exactly when its
/// version differs from the persisted one: a successful save of the
/// current version leaves it clean, a failed one leaves it as it was.
pub proof fn lemma_save_outcome_dirty(before: Editor, id: u32, version: u64, ok: bool, after: Editor)
    requires
        save_outcome(before, id, version, ok, after),
    ensures
        after.dirty() <==> (after.file() is Some && after.persisted() is Some && after.version()
            != after.persisted()->Some_0),
        ok && before.file() is Some && before.file()->Some_0.global_id == id
            && before.version() == version ==> !after.dirty(),
        !ok ==> after.dirty() == before.dirty(),
{
}

} // verus!
