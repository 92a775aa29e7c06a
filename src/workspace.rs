//! The workspace controller: a store of nodes keyed by id, the synthetic
//! roots for unsaved documents and imported images, selection, and the
//! load and save pipelines.
use vstd::prelude::*;
use std::collections::HashMap;
use crate::common::{FileData, ImgData, IsAutoSave, WorkspaceError};
use crate::ingest::{ImageScan, ScannedNode, TreeScan};
use crate::ids::{IdAllocator, get_next_img_id};
use crate::node::{
    Dir, FileNode, ImageFile, MdFile, NodeContent, TempDir, children_of, display_name, expanded_of,
    get_file_name, is_directory_content, toggled,
};

verus! {

broadcast use vstd::std_specs::hash::group_hash_axioms;

/// `c` is among the children of a directory with content `n`.
pub open spec fn child_in(n: NodeContent, c: u32) -> bool {
    match children_of(n) {
        Some(s) => s.contains(c),
        None => false,
    }
}

/// Every child id in the store names a node of the store.
pub open spec fn children_closed(m: Map<u32, FileNode>) -> bool {
    forall|k: u32, c: u32|
        m.contains_key(k) && #[trigger] child_in(m[k].node_content, c) ==> m.contains_key(c)
}

/// Which view the file panel shows.
#[derive(Clone, Copy, Debug, PartialEq, Eq, Structural)]
pub enum Mode {
    FileTree,
    Content,
}

/// The file panel: the workspace tree and the view it is shown in.
pub struct FilePanel {
    pub file_tree: FileTree,
    pub mode: Mode,
}

impl FilePanel {
    /// An empty workspace shown as a tree.
    pub fn new() -> (r: FilePanel)
        ensures
            r.file_tree.wf(),
            r.file_tree.nodes() == Map::<u32, FileNode>::empty(),
            r.mode == Mode::FileTree,
    {
        FilePanel { file_tree: FileTree::new(), mode: Mode::FileTree }
    }

    pub fn change_mode(&mut self, mode: Mode)
        ensures
            final(self).mode == mode,
            final(self).file_tree == old(self).file_tree,
    {
        self.mode = mode;
    }
}

/// What the caller does to bring the selected node to the editor or the
/// preview.
pub enum LoadAction {
    /// Show this image in the preview.
    ShowImage(ImgData),
    /// Hand this document to the editor; `base_path` is where the preview
    /// resolves relative image links.
    SendToEditor { file_data: FileData, base_path: Option<String> },
    /// Read the file at `path` and hand its text to `create_md_cache`.
    ReadFile { id: u32, path: String },
}

/// What the result of a selection was.
#[derive(Debug, PartialEq, Eq, Structural)]
pub enum Selection {
    /// A directory was folded or unfolded.
    Toggled,
    /// A document or an image became the selection; load it next.
    Selected,
}

/// The next step of a save request.
pub enum SaveStep {
    /// Write `content` to `path`, then report the outcome for `version`.
    Write { id: u32, version: u64, path: String, content: String },
    /// Ask the user for a path, suggesting `suggested_name`, and hand the
    /// answer to `path_chosen` with `file_data`.
    AskPath { file_data: FileData, suggested_name: String },
    /// The document has no path and the request was an autosave: it is
    /// kept in memory only, and the save of `version` counts as done.
    Buffered { id: u32, version: u64 },
}

pub struct FileTree {
    ids: IdAllocator,
    workplace_root_key: Option<u32>,
    temp_workplace_root_key: Option<u32>,
    temp_img_library_root_key: Option<u32>,
    all_nodes: HashMap<u32, FileNode>,
    hovered_file_node_id: Option<u32>,
    selected_node_id: Option<u32>,
}

/// `m` is the document content `before` with the given version and text.
pub open spec fn md_updated(before: NodeContent, after: NodeContent, version: u64, text: Seq<char>) -> bool {
    match (before, after) {
        (NodeContent::Markdown(b), NodeContent::Markdown(a)) => {
            &&& a.path == b.path
            &&& a.version == version
            &&& a.cache is Some
            &&& a.cache->Some_0@ == text
        },
        _ => false,
    }
}

/// Two optional paths with the same text.
pub open spec fn same_path(a: Option<String>, b: Option<String>) -> bool {
    match (a, b) {
        (Some(x), Some(y)) => x@ == y@,
        (None, None) => true,
        _ => false,
    }
}

/// Two transfer records with the same id, version and text.
pub open spec fn same_file_data(a: FileData, b: FileData) -> bool {
    a.global_id == b.global_id && a.version == b.version && a.content@ == b.content@
}

/// `after` is `before` with the document of `fd` holding `fd`'s version and
/// text, its name and path kept, and every other node as it was.
pub open spec fn stored_request(before: FileTree, after: FileTree, fd: FileData) -> bool {
    let id = fd.global_id;
    &&& after.nodes().dom() == before.nodes().dom()
    &&& after.nodes()[id].global_id == id
    &&& after.nodes()[id].name == before.nodes()[id].name
    &&& md_updated(before.nodes()[id].node_content, after.nodes()[id].node_content, fd.version, fd.content@)
    &&& forall|k: u32| k != id ==> #[trigger] after.nodes().contains_key(k)
        ==> after.nodes()[k] == before.nodes()[k]
}

/// A copy of an optional path or text.
pub fn copy_path(p: &Option<String>) -> (r: Option<String>)
    ensures
        r == *p,
        same_path(r, *p),
{
    match p {
        Some(x) => Some(x.clone()),
        None => None,
    }
}

/// A copy of a byte buffer.
pub fn copy_bytes(b: &Vec<u8>) -> (r: Vec<u8>)
    ensures
        r@ == b@,
{
    let mut r: Vec<u8> = Vec::new();
    let mut i: usize = 0;
    while i < b.len()
        invariant
            i <= b.len(),
            r@ == b@.subrange(0, i as int),
        decreases b.len() - i,
    {
        r.push(b[i]);
        i = i + 1;
        assert(r@ =~= b@.subrange(0, i as int));
    }
    assert(b@.subrange(0, b.len() as int) =~= b@);
    r
}

/// `after` is `before` with `ids` appended to the synthetic root `root`,
/// or, where there was none, with a new synthetic root `r` named `name`
/// that holds `ids`. Every other node is as it was.
pub open spec fn attached(
    before: FileTree,
    after: FileTree,
    root: Option<u32>,
    name: Seq<char>,
    ids: Seq<u32>,
    r: u32,
) -> bool {
    &&& after.nodes().contains_key(r)
    &&& after.nodes()[r].node_content is DirectoryTemp
    &&& after.nodes()[r].global_id == r
    &&& forall|k: u32| k != r && #[trigger] before.nodes().contains_key(k) ==> after.nodes().contains_key(k)
        && after.nodes()[k] == before.nodes()[k]
    &&& match root {
        Some(k) => {
            &&& r == k
            &&& after.next_id() == before.next_id()
            &&& after.nodes().dom() == before.nodes().dom()
            &&& after.nodes()[r].name == before.nodes()[r].name
            &&& expanded_of(after.nodes()[r].node_content) == expanded_of(before.nodes()[r].node_content)
            &&& children_of(after.nodes()[r].node_content) == Some(
                children_of(before.nodes()[r].node_content)->Some_0 + ids,
            )
        },
        None => {
            &&& r == before.next_id()
            &&& after.next_id() == before.next_id() + 1
            &&& after.nodes().dom() == before.nodes().dom().insert(r)
            &&& after.nodes()[r].name@ == name
            &&& expanded_of(after.nodes()[r].node_content)
            &&& children_of(after.nodes()[r].node_content) == Some(ids)
        },
    }
}

/// `f` is what the scanned node `s`, at position `i` of a scan whose
/// numbering starts at `base`, becomes in the store.
pub open spec fn numbered(s: ScannedNode, i: int, base: nat, f: FileNode) -> bool {
    &&& f.global_id == base + i
    &&& f.name == s.name
    &&& if s.is_dir {
        &&& f.node_content is DirectoryMd
        &&& f.node_content->DirectoryMd_0.path == s.path
        &&& f.node_content->DirectoryMd_0.expanded == (i == 0)
        &&& f.node_content->DirectoryMd_0.children@ == s.children@.map_values(|c: usize| (base + c) as u32)
    } else {
        &&& f.node_content is Markdown
        &&& f.node_content->Markdown_0.path == Some(s.path)
        &&& f.node_content->Markdown_0.version == 0
        &&& f.node_content->Markdown_0.cache is None
    }
}

/// Positions in a scan, shifted to ids from `base`.
pub fn map_children(children: &Vec<usize>, base: u32, n: usize) -> (r: Vec<u32>)
    requires
        base + n <= u32::MAX,
        forall|j: int| 0 <= j < children@.len() ==> #[trigger] children@[j] < n,
    ensures
        r@ == children@.map_values(|c: usize| (base + c) as u32),
{
    let mut r: Vec<u32> = Vec::new();
    let mut i: usize = 0;
    while i < children.len()
        invariant
            i <= children@.len(),
            base + n <= u32::MAX,
            forall|j: int| 0 <= j < children@.len() ==> #[trigger] children@[j] < n,
            r@ == children@.subrange(0, i as int).map_values(|c: usize| (base + c) as u32),
        decreases children@.len() - i,
    {
        assert(children@[i as int] < n);
        r.push(base + children[i] as u32);
        i = i + 1;
        assert(r@ =~= children@.subrange(0, i as int).map_values(|c: usize| (base + c) as u32));
    }
    assert(children@.subrange(0, i as int) =~= children@);
    r
}

/// The subtree under `id` in depth-first order, each node with its depth,
/// followed to at most `fuel` levels.
pub open spec fn preorder(m: Map<u32, FileNode>, id: u32, depth: usize, fuel: nat) -> Seq<(u32, usize)>
    decreases fuel, 0nat,
{
    if fuel == 0 || !m.contains_key(id) {
        Seq::empty()
    } else {
        let kids = match children_of(m[id].node_content) {
            Some(k) => k,
            None => Seq::empty(),
        };
        seq![(id, depth)] + preorder_list(m, kids, (depth + 1) as usize, (fuel - 1) as nat)
    }
}

/// The subtrees under `ks`, one after another.
pub open spec fn preorder_list(m: Map<u32, FileNode>, ks: Seq<u32>, depth: usize, fuel: nat) -> Seq<(u32, usize)>
    decreases fuel, ks.len() + 1,
{
    if ks.len() == 0 {
        Seq::empty()
    } else {
        preorder_list(m, ks.drop_last(), depth, fuel) + preorder(m, ks.last(), depth, fuel)
    }
}

impl FileTree {
    pub closed spec fn nodes(&self) -> Map<u32, FileNode> {
        self.all_nodes@
    }

    /// The id the next created node gets.
    pub closed spec fn next_id(&self) -> nat {
        self.ids.next_node_id()
    }

    /// The display id the next imported image gets.
    pub closed spec fn next_img_id(&self) -> nat {
        self.ids.next_img_id()
    }

    pub closed spec fn selected(&self) -> Option<u32> {
        self.selected_node_id
    }

    pub closed spec fn hovered(&self) -> Option<u32> {
        self.hovered_file_node_id
    }

    /// The root of the opened folder.
    pub closed spec fn workplace_root(&self) -> Option<u32> {
        self.workplace_root_key
    }

    /// The synthetic root of unsaved-origin documents.
    pub closed spec fn temp_workplace_root(&self) -> Option<u32> {
        self.temp_workplace_root_key
    }

    /// The synthetic root of imported images.
    pub closed spec fn temp_img_library_root(&self) -> Option<u32> {
        self.temp_img_library_root_key
    }

    /// Every node sits under its own id, which the allocator has passed;
    /// child lists name nodes of the store; the roots and the selection
    /// name nodes of the store, and the synthetic roots are synthetic
    /// directories. `new` establishes it and every method preserves it; as
    /// the fields are private, every workspace a caller can hold has it.
    pub open spec fn wf(&self) -> bool {
        &&& forall|k: u32|
            #[trigger] self.nodes().contains_key(k) ==> self.nodes()[k].global_id == k && k
                < self.next_id()
        &&& children_closed(self.nodes())
        &&& self.workplace_root() matches Some(r) ==> self.nodes().contains_key(r)
        &&& self.temp_workplace_root() matches Some(r) ==> self.nodes().contains_key(r)
            && self.nodes()[r].node_content is DirectoryTemp
        &&& self.temp_img_library_root() matches Some(r) ==> self.nodes().contains_key(r)
            && self.nodes()[r].node_content is DirectoryTemp
        &&& self.selected() matches Some(s) ==> self.nodes().contains_key(s)
    }

    /// The selected document must be read from disk before it can be
    /// shown: it has a path and no cached text.
    pub open spec fn needs_disk_read(&self) -> bool {
        self.selected() matches Some(s) && self.nodes().contains_key(s) && match self.nodes()[s].node_content {
            NodeContent::Markdown(m) => m.cache is None && m.path is Some,
            _ => false,
        }
    }

    /// An empty workspace with its own id allocator.
    pub fn new() -> (r: FileTree)
        ensures
            r.wf(),
            r.nodes() == Map::<u32, FileNode>::empty(),
            r.next_id() == 0,
            r.next_img_id() == 1,
            r.selected() is None,
            r.hovered() is None,
            r.workplace_root() is None,
            r.temp_workplace_root() is None,
            r.temp_img_library_root() is None,
    {
        FileTree {
            ids: IdAllocator::new(),
            workplace_root_key: None,
            temp_workplace_root_key: None,
            temp_img_library_root_key: None,
            all_nodes: HashMap::new(),
            hovered_file_node_id: None,
            selected_node_id: None,
        }
    }

    /// The node with id `id`.
    pub fn get(&self, id: u32) -> (r: Option<&FileNode>)
        ensures
            match r {
                Some(n) => self.nodes().contains_key(id) && self.nodes()[id] == *n,
                None => !self.nodes().contains_key(id),
            },
    {
        self.all_nodes.get(&id)
    }

    /// The number of nodes in the store.
    pub fn len(&self) -> (r: usize)
        ensures
            r == self.nodes().len(),
    {
        self.all_nodes.len()
    }

    pub fn selected_node_id(&self) -> (r: Option<u32>)
        ensures
            r == self.selected(),
    {
        self.selected_node_id
    }

    pub fn workplace_root_key(&self) -> (r: Option<u32>)
        ensures
            r == self.workplace_root(),
    {
        self.workplace_root_key
    }

    pub fn temp_workplace_root_key(&self) -> (r: Option<u32>)
        ensures
            r == self.temp_workplace_root(),
    {
        self.temp_workplace_root_key
    }

    pub fn temp_img_library_root_key(&self) -> (r: Option<u32>)
        ensures
            r == self.temp_img_library_root(),
    {
        self.temp_img_library_root_key
    }

    /// Whether `n` more nodes and `m` more images can still be numbered.
    pub fn has_room(&self, n: usize, m: usize) -> (r: bool)
        ensures
            r == (self.next_id() + n <= u32::MAX && self.next_img_id() + m <= u32::MAX),
    {
        self.ids.has_node_ids(n) && self.ids.has_img_ids(m)
    }

    pub fn change_hovered_node(&mut self, id: u32)
        requires
            old(self).wf(),
        ensures
            final(self).wf(),
            final(self).hovered() == Some(id),
            final(self).nodes() == old(self).nodes(),
            final(self).selected() == old(self).selected(),
    {
        self.hovered_file_node_id = Some(id);
    }

    /// Selects the node `key`: a directory is folded or unfolded and the
    /// selection stays; a document or an image becomes the selection.
    pub fn change_selected_node(&mut self, key: u32) -> (r: Result<Selection, WorkspaceError>)
        requires
            old(self).wf(),
        ensures
            final(self).wf(),
            final(self).next_id() == old(self).next_id(),
            final(self).nodes().dom() == old(self).nodes().dom(),
            !old(self).nodes().contains_key(key) ==> (r matches Err(WorkspaceError::NotFound)
                && *final(self) == *old(self)),
            old(self).nodes().contains_key(key) ==> {
                let n = old(self).nodes()[key];
                if is_directory_content(n.node_content) {
                    &&& r == Ok::<Selection, WorkspaceError>(Selection::Toggled)
                    &&& final(self).selected() == old(self).selected()
                    &&& final(self).nodes()[key].global_id == n.global_id
                    &&& final(self).nodes()[key].name == n.name
                    &&& toggled(n.node_content, final(self).nodes()[key].node_content)
                    &&& forall|k: u32| k != key ==> #[trigger] final(self).nodes().contains_key(k)
                        ==> final(self).nodes()[k] == old(self).nodes()[k]
                } else {
                    &&& r == Ok::<Selection, WorkspaceError>(Selection::Selected)
                    &&& final(self).selected() == Some(key)
                    &&& final(self).nodes() == old(self).nodes()
                }
            },
    {
        let is_dir = match self.all_nodes.get(&key) {
            Some(n) => n.is_directory(),
            None => {
                return Err(WorkspaceError::NotFound);
            },
        };
        if is_dir {
            match self.all_nodes.remove(&key) {
                Some(mut node) => {
                    node.reverse_expanded_if_node_is_directory();
                    self.all_nodes.insert(key, node);
                    proof {
                        assert(self.all_nodes@ =~= old(self).all_nodes@.insert(key, self.all_nodes@[key]));
                        self.lemma_replace_same_children(*old(self), key);
                    }
                },
                None => {},
            }
            Ok(Selection::Toggled)
        } else {
            self.selected_node_id = Some(key);
            Ok(Selection::Selected)
        }
    }

    /// What to do to show the selected node: an image goes to the preview;
    /// a document with cached text goes to the editor at once; one with a
    /// path and no cache is read from disk first; one with neither goes
    /// to the editor empty.
    pub fn load_selected_node_data(&self) -> (r: Result<LoadAction, WorkspaceError>)
        requires
            self.wf(),
        ensures
            self.selected() is None ==> r matches Err(WorkspaceError::NotFound),
            self.selected() matches Some(s) ==> match self.nodes()[s].node_content {
                NodeContent::Image(i) => r matches Ok(LoadAction::ShowImage(d)) && d.global_id == s
                    && d.indep_id == i.indep_id && d.bytes@ == i.cache@,
                NodeContent::Markdown(m) => match m.cache {
                    Some(c) => r matches Ok(LoadAction::SendToEditor { file_data, base_path }) && file_data.global_id == s
                        && file_data.version == m.version && file_data.content@ == c@
                        && same_path(base_path, m.path),
                    None => match m.path {
                        Some(p) => r matches Ok(LoadAction::ReadFile { id, path }) && id == s && path@ == p@,
                        None => r matches Ok(LoadAction::SendToEditor { file_data, base_path }) && file_data.global_id == s
                            && file_data.version == m.version && file_data.content@.len() == 0
                            && base_path is None,
                    },
                },
                _ => r matches Err(WorkspaceError::InvalidNodeKind),
            },
            r matches Ok(LoadAction::ReadFile { .. }) <==> self.needs_disk_read(),
    {
        let s = match self.selected_node_id {
            Some(s) => s,
            None => {
                return Err(WorkspaceError::NotFound);
            },
        };
        let node = match self.all_nodes.get(&s) {
            Some(n) => n,
            None => {
                return Err(WorkspaceError::NotFound);
            },
        };
        match &node.node_content {
            NodeContent::Image(i) => Ok(
                LoadAction::ShowImage(
                    ImgData { global_id: s, indep_id: i.indep_id, bytes: copy_bytes(&i.cache) },
                ),
            ),
            NodeContent::Markdown(m) => match &m.cache {
                Some(c) => Ok(
                    LoadAction::SendToEditor {
                        file_data: FileData::new(s, m.version, c.clone()),
                        base_path: copy_path(&m.path),
                    },
                ),
                None => match &m.path {
                    Some(p) => Ok(LoadAction::ReadFile { id: s, path: p.clone() }),
                    None => Ok(
                        LoadAction::SendToEditor {
                            file_data: FileData::new(s, m.version, String::new()),
                            base_path: None,
                        },
                    ),
                },
            },
            _ => Err(WorkspaceError::InvalidNodeKind),
        }
    }

    /// Caches `content`, read from disk, as the text of document `id`,
    /// numbered as version 0, and hands it to the editor.
    pub fn create_md_cache(&mut self, id: u32, content: String) -> (r: Result<LoadAction, WorkspaceError>)
        requires
            old(self).wf(),
        ensures
            final(self).wf(),
            final(self).next_id() == old(self).next_id(),
            final(self).next_img_id() == old(self).next_img_id(),
            final(self).selected() == old(self).selected(),
            !old(self).nodes().contains_key(id) ==> (r matches Err(WorkspaceError::NotFound) && *final(self) == *old(self)),
            old(self).nodes().contains_key(id) ==> match old(self).nodes()[id].node_content {
                NodeContent::Markdown(m) => {
                    &&& r matches Ok(LoadAction::SendToEditor { file_data, base_path })
                        && file_data.global_id == id && file_data.version == 0
                        && file_data.content@ == content@ && same_path(base_path, m.path)
                    &&& final(self).nodes().dom() == old(self).nodes().dom()
                    &&& final(self).nodes()[id].name == old(self).nodes()[id].name
                    &&& final(self).nodes()[id].global_id == id
                    &&& md_updated(old(self).nodes()[id].node_content, final(self).nodes()[id].node_content, 0, content@)
                    &&& forall|k: u32| k != id ==> #[trigger] final(self).nodes().contains_key(k)
                        ==> final(self).nodes()[k] == old(self).nodes()[k]
                },
                _ => r matches Err(WorkspaceError::InvalidNodeKind) && *final(self) == *old(self),
            },
    {
        let (name, path) = match self.all_nodes.get(&id) {
            Some(n) => match &n.node_content {
                NodeContent::Markdown(m) => (n.name.clone(), copy_path(&m.path)),
                _ => {
                    return Err(WorkspaceError::InvalidNodeKind);
                },
            },
            None => {
                return Err(WorkspaceError::NotFound);
            },
        };
        let base_path = copy_path(&path);
        let cached = content.clone();
        self.replace_md(id, name, MdFile { path, version: 0, cache: Some(cached) });
        Ok(LoadAction::SendToEditor { file_data: FileData::new(id, 0, content), base_path })
    }

    /// First step of a save or autosave request: the document takes the
    /// request's version and text, whatever comes next. Then a document
    /// with a path is written there; one without is asked a path for on a
    /// manual save, and kept in memory on an autosave.
    pub fn update_node_info(&mut self, is_auto_save: IsAutoSave, file_data: FileData) -> (r: Result<SaveStep, WorkspaceError>)
        requires
            old(self).wf(),
        ensures
            final(self).wf(),
            final(self).next_id() == old(self).next_id(),
            final(self).next_img_id() == old(self).next_img_id(),
            final(self).selected() == old(self).selected(),
            ({
                let id = file_data.global_id;
                if !old(self).nodes().contains_key(id) {
                    r matches Err(WorkspaceError::NotFound) && *final(self) == *old(self)
                } else if !(old(self).nodes()[id].node_content is Markdown) {
                    r matches Err(WorkspaceError::InvalidNodeKind) && *final(self) == *old(self)
                } else {
                    let m = old(self).nodes()[id].node_content->Markdown_0;
                    &&& stored_request(*old(self), *final(self), file_data)
                    &&& match m.path {
                        Some(p) => r matches Ok(SaveStep::Write { id: wid, version, path, content })
                            && wid == id && version == file_data.version && path@ == p@
                            && content@ == file_data.content@,
                        None => if is_auto_save.0 {
                            r matches Ok(SaveStep::Buffered { id: bid, version }) && bid == id
                                && version == file_data.version
                        } else {
                            r matches Ok(SaveStep::AskPath { file_data: fd, suggested_name })
                                && same_file_data(fd, file_data)
                                && suggested_name@ == old(self).nodes()[id].name@
                        },
                    }
                }
            }),
    {
        let id = file_data.global_id;
        let (name, path) = match self.all_nodes.get(&id) {
            Some(n) => match &n.node_content {
                NodeContent::Markdown(m) => (n.name.clone(), copy_path(&m.path)),
                _ => {
                    return Err(WorkspaceError::InvalidNodeKind);
                },
            },
            None => {
                return Err(WorkspaceError::NotFound);
            },
        };
        let kept_path = copy_path(&path);
        let suggested_name = name.clone();
        self.replace_md(id, name, MdFile { path: kept_path, version: file_data.version, cache: Some(file_data.content.clone()) });
        assert(self.nodes().dom() =~= old(self).nodes().dom());
        assert(self.nodes()[id].name == old(self).nodes()[id].name);
        assert(md_updated(old(self).nodes()[id].node_content, self.nodes()[id].node_content, file_data.version, file_data.content@));
        assert(stored_request(*old(self), *self, file_data));
        match path {
            Some(p) => Ok(SaveStep::Write { id, version: file_data.version, path: p, content: file_data.content }),
            None => if !is_auto_save.0 {
                Ok(SaveStep::AskPath { file_data, suggested_name })
            } else {
                Ok(SaveStep::Buffered { id, version: file_data.version })
            },
        }
    }

    /// A save-as request: the document takes the request's version and
    /// text, then a path is asked for.
    pub fn save_as(&mut self, file_data: FileData) -> (r: Result<SaveStep, WorkspaceError>)
        requires
            old(self).wf(),
        ensures
            final(self).wf(),
            final(self).next_id() == old(self).next_id(),
            final(self).next_img_id() == old(self).next_img_id(),
            final(self).selected() == old(self).selected(),
            ({
                let id = file_data.global_id;
                if !old(self).nodes().contains_key(id) {
                    r matches Err(WorkspaceError::NotFound) && *final(self) == *old(self)
                } else if !(old(self).nodes()[id].node_content is Markdown) {
                    r matches Err(WorkspaceError::InvalidNodeKind) && *final(self) == *old(self)
                } else {
                    &&& stored_request(*old(self), *final(self), file_data)
                    &&& r matches Ok(SaveStep::AskPath { file_data: fd, suggested_name })
                        && same_file_data(fd, file_data)
                        && suggested_name@ == old(self).nodes()[id].name@
                }
            }),
    {
        let id = file_data.global_id;
        let (name, path) = match self.all_nodes.get(&id) {
            Some(n) => match &n.node_content {
                NodeContent::Markdown(m) => (n.name.clone(), copy_path(&m.path)),
                _ => {
                    return Err(WorkspaceError::InvalidNodeKind);
                },
            },
            None => {
                return Err(WorkspaceError::NotFound);
            },
        };
        let suggested_name = name.clone();
        self.replace_md(id, name, MdFile { path, version: file_data.version, cache: Some(file_data.content.clone()) });
        assert(self.nodes().dom() =~= old(self).nodes().dom());
        assert(self.nodes()[id].name == old(self).nodes()[id].name);
        assert(md_updated(old(self).nodes()[id].node_content, self.nodes()[id].node_content, file_data.version, file_data.content@));
        assert(stored_request(*old(self), *self, file_data));
        Ok(SaveStep::AskPath { file_data, suggested_name })
    }

    /// The answer of the path dialog of a save-as. No path aborts the
    /// save. A chosen path becomes the document's path, and its name too
    /// where it had no path before; then the text is written there.
    pub fn path_chosen(&mut self, file_data: FileData, chosen: Option<String>) -> (r: Result<SaveStep, WorkspaceError>)
        requires
            old(self).wf(),
        ensures
            final(self).wf(),
            final(self).next_id() == old(self).next_id(),
            final(self).next_img_id() == old(self).next_img_id(),
            final(self).selected() == old(self).selected(),
            ({
                let id = file_data.global_id;
                if chosen is None {
                    r matches Err(WorkspaceError::PathSelectionAborted) && *final(self) == *old(self)
                } else if !old(self).nodes().contains_key(id) {
                    r matches Err(WorkspaceError::NotFound) && *final(self) == *old(self)
                } else if !(old(self).nodes()[id].node_content is Markdown) {
                    r matches Err(WorkspaceError::InvalidNodeKind) && *final(self) == *old(self)
                } else {
                    let p = chosen->Some_0;
                    let before = old(self).nodes()[id];
                    let m = before.node_content->Markdown_0;
                    let after = final(self).nodes()[id];
                    &&& r matches Ok(SaveStep::Write { id: wid, version, path, content })
                        && wid == id && version == file_data.version && path@ == p@
                        && content@ == file_data.content@
                    &&& final(self).nodes().dom() == old(self).nodes().dom()
                    &&& after.global_id == id
                    &&& after.name@ == if m.path is None { display_name(p@) } else { before.name@ }
                    &&& after.node_content matches NodeContent::Markdown(a)
                        && a.path matches Some(ap) && ap@ == p@
                        && a.version == m.version && a.cache == m.cache
                    &&& forall|k: u32| k != id ==> #[trigger] final(self).nodes().contains_key(k)
                        ==> final(self).nodes()[k] == old(self).nodes()[k]
                }
            }),
    {
        let p = match chosen {
            Some(p) => p,
            None => {
                return Err(WorkspaceError::PathSelectionAborted);
            },
        };
        let id = file_data.global_id;
        let (name, had_path, version, cache) = match self.all_nodes.get(&id) {
            Some(n) => match &n.node_content {
                NodeContent::Markdown(m) => (n.name.clone(), m.path.is_some(), m.version, copy_path(&m.cache)),
                _ => {
                    return Err(WorkspaceError::InvalidNodeKind);
                },
            },
            None => {
                return Err(WorkspaceError::NotFound);
            },
        };
        let new_name = if had_path { name } else { get_file_name(p.as_str()) };
        self.replace_md(id, new_name, MdFile { path: Some(p.clone()), version, cache });
        Ok(SaveStep::Write { id, version: file_data.version, path: p, content: file_data.content })
    }

    /// Appends `ids` to the unsaved-documents root, creating that root
    /// first if there is none.
    pub fn insert_node_to_temp_workplace(&mut self, ids: Vec<u32>)
        requires
            old(self).wf(),
            forall|i: int| 0 <= i < ids@.len() ==> old(self).nodes().contains_key(#[trigger] ids@[i]),
            old(self).temp_workplace_root() is None ==> old(self).next_id() < u32::MAX,
        ensures
            final(self).wf(),
            final(self).temp_workplace_root() matches Some(r) && attached(
                *old(self),
                *final(self),
                old(self).temp_workplace_root(),
                "临时工作区"@,
                ids@,
                r,
            ),
            final(self).temp_img_library_root() == old(self).temp_img_library_root(),
            final(self).workplace_root() == old(self).workplace_root(),
            final(self).selected() == old(self).selected(),
            final(self).next_img_id() == old(self).next_img_id(),
    {
        let root = self.attach_to_synthetic_root(self.temp_workplace_root_key, "临时工作区".to_owned(), ids);
        self.temp_workplace_root_key = Some(root);
    }

    /// Appends `ids` to the imported-images root, creating that root first
    /// if there is none.
    pub fn insert_node_to_temp_img_library(&mut self, ids: Vec<u32>)
        requires
            old(self).wf(),
            forall|i: int| 0 <= i < ids@.len() ==> old(self).nodes().contains_key(#[trigger] ids@[i]),
            old(self).temp_img_library_root() is None ==> old(self).next_id() < u32::MAX,
        ensures
            final(self).wf(),
            final(self).temp_img_library_root() matches Some(r) && attached(
                *old(self),
                *final(self),
                old(self).temp_img_library_root(),
                "临时图片库"@,
                ids@,
                r,
            ),
            final(self).temp_workplace_root() == old(self).temp_workplace_root(),
            final(self).workplace_root() == old(self).workplace_root(),
            final(self).selected() == old(self).selected(),
            final(self).next_img_id() == old(self).next_img_id(),
    {
        let root = self.attach_to_synthetic_root(self.temp_img_library_root_key, "临时图片库".to_owned(), ids);
        self.temp_img_library_root_key = Some(root);
    }

    fn attach_to_synthetic_root(&mut self, root: Option<u32>, name: String, ids: Vec<u32>) -> (r: u32)
        requires
            old(self).wf(),
            forall|i: int| 0 <= i < ids@.len() ==> old(self).nodes().contains_key(#[trigger] ids@[i]),
            root is None ==> old(self).next_id() < u32::MAX,
            root matches Some(k) ==> old(self).nodes().contains_key(k)
                && old(self).nodes()[k].node_content is DirectoryTemp,
        ensures
            final(self).wf(),
            attached(*old(self), *final(self), root, name@, ids@, r),
            final(self).workplace_root() == old(self).workplace_root(),
            final(self).temp_workplace_root() == old(self).temp_workplace_root(),
            final(self).temp_img_library_root() == old(self).temp_img_library_root(),
            final(self).selected() == old(self).selected(),
            final(self).hovered() == old(self).hovered(),
            final(self).next_img_id() == old(self).next_img_id(),
    {
        match root {
            Some(k) => {
                match self.all_nodes.remove(&k) {
                    Some(mut node) => {
                        let _ = node.append_children(&ids);
                        self.all_nodes.insert(k, node);
                    },
                    None => {},
                }
                proof {
                    let before = old(self).nodes();
                    assert(self.nodes() =~= before.insert(k, self.nodes()[k]));
                    assert(self.nodes().dom() =~= before.dom());
                    assert forall|a: u32, c: u32|
                        self.nodes().contains_key(a) && #[trigger] child_in(self.nodes()[a].node_content, c)
                            implies self.nodes().contains_key(c) by {
                        if a == k {
                            let s = children_of(self.nodes()[k].node_content)->Some_0;
                            let s0 = children_of(before[k].node_content)->Some_0;
                            assert(s == s0 + ids@);
                            let j = s.index_of(c);
                            if j >= s0.len() {
                                assert(ids@[j - s0.len()] == c);
                            } else {
                                assert(s0[j] == c);
                                assert(child_in(before[k].node_content, c));
                            }
                        } else {
                            assert(child_in(before[a].node_content, c));
                        }
                    }
                }
                k
            },
            None => {
                let node = FileNode::new(
                    &mut self.ids,
                    name,
                    NodeContent::DirectoryTemp(TempDir { children: ids, expanded: true }),
                );
                let id = node.global_id;
                self.all_nodes.insert(id, node);
                proof {
                    let before = old(self).nodes();
                    assert(!before.contains_key(id));
                    assert forall|a: u32, c: u32|
                        self.nodes().contains_key(a) && #[trigger] child_in(self.nodes()[a].node_content, c)
                            implies self.nodes().contains_key(c) by {
                        if a == id {
                            let j = ids@.index_of(c);
                            assert(ids@[j] == c);
                        } else {
                            assert(child_in(before[a].node_content, c));
                        }
                    }
                }
                id
            },
        }
    }

    /// Adds a document or an image as a new node under its synthetic root
    /// and selects it; returns its id.
    pub fn insert_to_file_tree(&mut self, name: String, content: NodeContent) -> (r: u32)
        requires
            old(self).wf(),
            content is Markdown || content is Image,
            old(self).next_id() + 2 <= u32::MAX,
        ensures
            final(self).wf(),
            r == old(self).next_id(),
            final(self).selected() == Some(r),
            final(self).nodes().contains_key(r),
            final(self).nodes()[r].name == name,
            final(self).nodes()[r].node_content == content,
            forall|k: u32| #[trigger] old(self).nodes().contains_key(k) && !(old(self).temp_workplace_root() == Some(k)
                || old(self).temp_img_library_root() == Some(k)) ==> final(self).nodes().contains_key(k)
                && final(self).nodes()[k] == old(self).nodes()[k],
            content is Markdown ==> (final(self).temp_workplace_root() matches Some(t)
                && final(self).nodes().contains_key(t) && child_in(final(self).nodes()[t].node_content, r)),
            content is Image ==> (final(self).temp_img_library_root() matches Some(t)
                && final(self).nodes().contains_key(t) && child_in(final(self).nodes()[t].node_content, r)),
            final(self).next_img_id() == old(self).next_img_id(),
    {
        let is_md = match &content {
            NodeContent::Markdown(_) => true,
            _ => false,
        };
        let node = FileNode::new(&mut self.ids, name, content);
        let id = node.global_id;
        self.all_nodes.insert(id, node);
        proof {
            let before = old(self).nodes();
            assert(!before.contains_key(id));
            assert forall|a: u32, c: u32|
                self.nodes().contains_key(a) && #[trigger] child_in(self.nodes()[a].node_content, c)
                    implies self.nodes().contains_key(c) by {
                if a != id {
                    assert(child_in(before[a].node_content, c));
                }
            }
        }
        let mut ids: Vec<u32> = Vec::new();
        ids.push(id);
        if is_md {
            self.insert_node_to_temp_workplace(ids);
            proof {
                let t = self.temp_workplace_root()->Some_0;
                assert(children_of(self.nodes()[t].node_content)->Some_0.last() == id);
            }
        } else {
            self.insert_node_to_temp_img_library(ids);
            proof {
                let t = self.temp_img_library_root()->Some_0;
                assert(children_of(self.nodes()[t].node_content)->Some_0.last() == id);
            }
        }
        self.selected_node_id = Some(id);
        id
    }

    /// Adds a document read from `path` with its text, as the selection.
    pub fn import_md_file(&mut self, path: String, text: String) -> (r: u32)
        requires
            old(self).wf(),
            old(self).next_id() + 2 <= u32::MAX,
        ensures
            final(self).wf(),
            r == old(self).next_id(),
            final(self).selected() == Some(r),
            final(self).nodes()[r].name@ == display_name(path@),
            final(self).nodes()[r].node_content matches NodeContent::Markdown(m)
                && m.path == Some(path) && m.version == 0 && m.cache == Some(text),
    {
        let name = get_file_name(path.as_str());
        self.insert_to_file_tree(name, NodeContent::Markdown(MdFile { path: Some(path), version: 0, cache: Some(text) }))
    }

    /// Adds an image read from `path`, with the next display id, as the
    /// selection.
    pub fn import_image(&mut self, path: String, bytes: Vec<u8>) -> (r: u32)
        requires
            old(self).wf(),
            old(self).next_id() + 2 <= u32::MAX,
            old(self).next_img_id() < u32::MAX,
        ensures
            final(self).wf(),
            r == old(self).next_id(),
            final(self).selected() == Some(r),
            final(self).next_img_id() == old(self).next_img_id() + 1,
            final(self).nodes()[r].name@ == display_name(path@),
            final(self).nodes()[r].node_content matches NodeContent::Image(i)
                && i.path@ == path@ && i.indep_id == old(self).next_img_id() && i.cache@ == bytes@,
    {
        let name = get_file_name(path.as_str());
        let indep_id = get_next_img_id(&mut self.ids);
        proof {
            assert(self.wf());
        }
        self.insert_to_file_tree(name, NodeContent::Image(ImageFile { path, indep_id, cache: bytes }))
    }

    /// Adds a new, empty document without a path, as the selection.
    pub fn create_new_file(&mut self) -> (r: u32)
        requires
            old(self).wf(),
            old(self).next_id() + 2 <= u32::MAX,
        ensures
            final(self).wf(),
            r == old(self).next_id(),
            final(self).selected() == Some(r),
            final(self).nodes()[r].name@ == "新建文件.md"@,
            final(self).nodes()[r].node_content matches NodeContent::Markdown(m)
                && m.path is None && m.version == 0 && m.cache is None,
            final(self).temp_workplace_root() matches Some(t)
                && child_in(final(self).nodes()[t].node_content, r),
    {
        self.insert_to_file_tree("新建文件.md".to_owned(), NodeContent::Markdown(MdFile { path: None, version: 0, cache: None }))
    }

    /// Merges a completed folder scan: its nodes get the next ids in scan
    /// order, the folder itself first, and the folder becomes the
    /// workspace root. Returns the folder's id.
    pub fn load_file_tree(&mut self, scan: TreeScan) -> (r: u32)
        requires
            old(self).wf(),
            scan.wf(),
            old(self).next_id() + scan.nodes().len() <= u32::MAX,
        ensures
            final(self).wf(),
            r == old(self).next_id(),
            final(self).next_id() == old(self).next_id() + scan.nodes().len(),
            final(self).next_img_id() == old(self).next_img_id(),
            final(self).workplace_root() == Some(r),
            final(self).selected() == old(self).selected(),
            final(self).temp_workplace_root() == old(self).temp_workplace_root(),
            final(self).temp_img_library_root() == old(self).temp_img_library_root(),
            forall|k: u32| #[trigger] final(self).nodes().contains_key(k) <==> (old(self).nodes().contains_key(k)
                || (r <= k < r + scan.nodes().len())),
            forall|k: u32| #[trigger] old(self).nodes().contains_key(k) ==> final(self).nodes()[k] == old(self).nodes()[k],
            forall|i: int| 0 <= i < scan.nodes().len() ==> numbered(
                #[trigger] scan.nodes()[i],
                i,
                r as nat,
                final(self).nodes()[(r + i) as u32],
            ),
    {
        let n = scan.len();
        let base = self.ids.reserve_node_ids(n);
        let ghost scanned = scan.nodes();
        let mut nodes = scan.into_nodes();
        while nodes.len() > 0
            invariant
                nodes@.len() <= n,
                nodes@ == scanned.subrange(0, nodes@.len() as int),
                n == scanned.len(),
                scan.wf(),
                scanned == scan.nodes(),
                base == old(self).next_id(),
                base + n <= u32::MAX,
                self.ids.next_node_id() == base + n,
                self.ids.next_img_id() == old(self).next_img_id(),
                self.workplace_root_key == old(self).workplace_root_key,
                self.temp_workplace_root_key == old(self).temp_workplace_root_key,
                self.temp_img_library_root_key == old(self).temp_img_library_root_key,
                self.selected_node_id == old(self).selected_node_id,
                old(self).wf(),
                forall|k: u32| #[trigger] self.nodes().contains_key(k) <==> (old(self).nodes().contains_key(k)
                    || (base + nodes@.len() <= k < base + n)),
                forall|k: u32| #[trigger] old(self).nodes().contains_key(k) ==> self.nodes()[k] == old(self).nodes()[k],
                forall|j: int| nodes@.len() <= j < n ==> numbered(
                    #[trigger] scanned[j],
                    j,
                    base as nat,
                    self.nodes()[(base + j) as u32],
                ),
            decreases nodes@.len(),
        {
            let sn = nodes.pop().unwrap();
            let i = nodes.len();
            assert(sn == scanned[i as int]);
            let id = base + i as u32;
            let content = if sn.is_dir {
                assert forall|j: int| 0 <= j < sn.children@.len() implies #[trigger] sn.children@[j] < n by {
                    assert(i < scanned[i as int].children@[j] < n);
                }
                let kids = map_children(&sn.children, base, n);
                NodeContent::DirectoryMd(Dir { path: sn.path, children: kids, expanded: i == 0 })
            } else {
                NodeContent::Markdown(MdFile { path: Some(sn.path), version: 0, cache: None })
            };
            self.all_nodes.insert(id, FileNode { global_id: id, name: sn.name, node_content: content });
            assert forall|j: int| nodes@.len() <= j < n implies numbered(
                #[trigger] scanned[j],
                j,
                base as nat,
                self.nodes()[(base + j) as u32],
            ) by {
                if j > i {
                    assert((base + j) as u32 != id);
                }
            }
        }
        proof {
            assert forall|k: u32| #[trigger] self.nodes().contains_key(k) implies self.nodes()[k].global_id == k
                && k < self.next_id() by {
                if !old(self).nodes().contains_key(k) {
                    let j = k - base;
                    assert(numbered(scanned[j], j, base as nat, self.nodes()[(base + j) as u32]));
                }
            }
            assert forall|a: u32, c: u32|
                self.nodes().contains_key(a) && #[trigger] child_in(self.nodes()[a].node_content, c)
                    implies self.nodes().contains_key(c) by {
                if old(self).nodes().contains_key(a) {
                    assert(child_in(old(self).nodes()[a].node_content, c));
                } else {
                    let j = a - base;
                    let sj = scanned[j];
                    assert(numbered(sj, j, base as nat, self.nodes()[(base + j) as u32]));
                    let kids = children_of(self.nodes()[a].node_content)->Some_0;
                    let t = kids.index_of(c);
                    assert(kids[t] == c);
                    assert(j < sj.children@[t] < n);
                }
            }
        }
        self.workplace_root_key = Some(base);
        base
    }

    /// Merges a completed image scan: each image becomes a node with the
    /// next node id and the next display id, in scan order, appended to
    /// the imported-images root. Returns what the preview shows of them.
    pub fn load_img_handles(&mut self, scan: ImageScan) -> (r: Vec<ImgData>)
        requires
            old(self).wf(),
            old(self).next_id() + scan.images().len() + 1 <= u32::MAX,
            old(self).next_img_id() + scan.images().len() <= u32::MAX,
        ensures
            final(self).wf(),
            final(self).next_img_id() == old(self).next_img_id() + scan.images().len(),
            final(self).selected() == old(self).selected(),
            final(self).workplace_root() == old(self).workplace_root(),
            final(self).temp_workplace_root() == old(self).temp_workplace_root(),
            r@.len() == scan.images().len(),
            final(self).temp_img_library_root() matches Some(t) && final(self).nodes().contains_key(t),
            forall|i: int| 0 <= i < r@.len() ==> {
                let d = #[trigger] r@[i];
                let s = scan.images()[i];
                let t = final(self).temp_img_library_root()->Some_0;
                &&& d.global_id == old(self).next_id() + i
                &&& d.indep_id == old(self).next_img_id() + i
                &&& d.bytes@ == s.bytes@
                &&& final(self).nodes().contains_key(d.global_id)
                &&& final(self).nodes()[d.global_id].name == s.name
                &&& final(self).nodes()[d.global_id].node_content matches NodeContent::Image(f)
                    && f.path == s.path && f.indep_id == d.indep_id && f.cache@ == s.bytes@
                &&& child_in(final(self).nodes()[t].node_content, d.global_id)
            },
    {
        let n = scan.len();
        let base = self.ids.reserve_node_ids(n);
        let ibase = self.ids.reserve_img_ids(n);
        let ghost scanned = scan.images();
        let mut images = scan.into_images();
        let mut out: Vec<ImgData> = Vec::new();
        let mut ids: Vec<u32> = Vec::new();
        while images.len() > 0
            invariant
                images@.len() <= n,
                images@ == scanned.subrange(0, images@.len() as int),
                n == scanned.len(),
                base == old(self).next_id(),
                ibase == old(self).next_img_id(),
                base + n + 1 <= u32::MAX,
                ibase + n <= u32::MAX,
                self.ids.next_node_id() == base + n,
                self.ids.next_img_id() == ibase + n,
                self.workplace_root_key == old(self).workplace_root_key,
                self.temp_workplace_root_key == old(self).temp_workplace_root_key,
                self.temp_img_library_root_key == old(self).temp_img_library_root_key,
                self.selected_node_id == old(self).selected_node_id,
                old(self).wf(),
                out@.len() == n - images@.len(),
                ids@.len() == n - images@.len(),
                forall|k: u32| #[trigger] self.nodes().contains_key(k) <==> (old(self).nodes().contains_key(k)
                    || (base + images@.len() <= k < base + n)),
                forall|k: u32| #[trigger] old(self).nodes().contains_key(k) ==> self.nodes()[k] == old(self).nodes()[k],
                forall|t: int| 0 <= t < out@.len() ==> {
                    let j = images@.len() + t;
                    let d = #[trigger] out@[t];
                    let s = scanned[j];
                    &&& ids@[t] == d.global_id
                    &&& d.global_id == base + j
                    &&& d.indep_id == ibase + j
                    &&& d.bytes@ == s.bytes@
                    &&& self.nodes()[d.global_id].global_id == d.global_id
                    &&& self.nodes()[d.global_id].name == s.name
                    &&& self.nodes()[d.global_id].node_content matches NodeContent::Image(f)
                        && f.path == s.path && f.indep_id == d.indep_id && f.cache@ == s.bytes@
                },
            decreases images@.len(),
        {
            let img = images.pop().unwrap();
            let i = images.len();
            assert(img == scanned[i as int]);
            let id = base + i as u32;
            let indep_id = ibase + i as u32;
            let ghost prev_out = out@;
            let ghost prev_ids = ids@;
            let ghost prev_nodes = self.nodes();
            out.insert(0, ImgData { global_id: id, indep_id, bytes: copy_bytes(&img.bytes) });
            ids.insert(0, id);
            self.all_nodes.insert(
                id,
                FileNode { global_id: id, name: img.name, node_content: NodeContent::Image(ImageFile { path: img.path, indep_id, cache: img.bytes }) },
            );
            assert forall|t: int| 0 <= t < out@.len() implies {
                let j = images@.len() + t;
                let d = #[trigger] out@[t];
                let s = scanned[j];
                &&& ids@[t] == d.global_id
                &&& d.global_id == base + j
                &&& d.indep_id == ibase + j
                &&& d.bytes@ == s.bytes@
                &&& self.nodes()[d.global_id].global_id == d.global_id
                &&& self.nodes()[d.global_id].name == s.name
                &&& self.nodes()[d.global_id].node_content matches NodeContent::Image(f)
                    && f.path == s.path && f.indep_id == d.indep_id && f.cache@ == s.bytes@
            } by {
                if t > 0 {
                    assert(out@[t] == prev_out[t - 1]);
                    assert(ids@[t] == prev_ids[t - 1]);
                    assert(out@[t].global_id != id);
                    assert(self.nodes()[out@[t].global_id] == prev_nodes[out@[t].global_id]);
                }
            }
        }
        proof {
            assert(images@.len() == 0);
            assert forall|k: u32| #[trigger] self.nodes().contains_key(k) implies self.nodes()[k].global_id == k
                && k < self.next_id() by {
                if !old(self).nodes().contains_key(k) {
                    let t = k - base;
                    assert(out@[t].global_id == k);
                }
            }
            assert forall|a: u32, c: u32|
                self.nodes().contains_key(a) && #[trigger] child_in(self.nodes()[a].node_content, c)
                    implies self.nodes().contains_key(c) by {
                if old(self).nodes().contains_key(a) {
                    assert(child_in(old(self).nodes()[a].node_content, c));
                } else {
                    let t = a - base;
                    assert(out@[t].global_id == a);
                }
            }
            assert forall|i: int| 0 <= i < ids@.len() implies self.nodes().contains_key(#[trigger] ids@[i]) by {
                assert(out@[i].global_id == ids@[i]);
            }
        }
        let ghost mid = *self;
        self.insert_node_to_temp_img_library(ids);
        proof {
            let t = self.temp_img_library_root()->Some_0;
            assert forall|i: int| 0 <= i < out@.len() implies child_in(self.nodes()[t].node_content, (#[trigger] out@[i]).global_id) by {
                let d = out@[i];
                assert(!(mid.temp_img_library_root() == Some(d.global_id)));
                let kids = children_of(self.nodes()[t].node_content)->Some_0;
                let k0 = kids.len() - ids@.len();
                assert(kids[k0 + i] == ids@[i]);
            }
        }
        out
    }

    /// Puts the selection back to `previous`, as after a load that failed.
    pub fn restore_selection(&mut self, previous: Option<u32>) -> (r: Result<(), WorkspaceError>)
        requires
            old(self).wf(),
        ensures
            final(self).wf(),
            final(self).nodes() == old(self).nodes(),
            final(self).next_id() == old(self).next_id(),
            match previous {
                Some(p) if !old(self).nodes().contains_key(p) => r matches Err(WorkspaceError::NotFound)
                    && final(self).selected() == old(self).selected(),
                _ => r is Ok && final(self).selected() == previous,
            },
    {
        match previous {
            Some(p) => {
                if !self.all_nodes.contains_key(&p) {
                    return Err(WorkspaceError::NotFound);
                }
            },
            None => {},
        }
        self.selected_node_id = previous;
        Ok(())
    }

    /// Where an image is to be copied so the selected document can link
    /// it: the document's path and the image's path. The document must
    /// have a path, and `img_id` must be an image.
    pub fn copy_img_file_data(&self, img_id: u32) -> (r: Result<(String, String), WorkspaceError>)
        requires
            self.wf(),
        ensures
            match self.selected() {
                None => r matches Err(WorkspaceError::NotFound),
                Some(s) => match self.nodes()[s].node_content {
                    NodeContent::Markdown(m) => match m.path {
                        None => r matches Err(WorkspaceError::NotFound),
                        Some(mp) => if !self.nodes().contains_key(img_id) {
                            r matches Err(WorkspaceError::NotFound)
                        } else {
                            match self.nodes()[img_id].node_content {
                                NodeContent::Image(i) => r matches Ok((a, b)) && a@ == mp@ && b@ == i.path@,
                                _ => r matches Err(WorkspaceError::InvalidNodeKind),
                            }
                        },
                    },
                    _ => r matches Err(WorkspaceError::InvalidNodeKind),
                },
            },
    {
        let s = match self.selected_node_id {
            Some(s) => s,
            None => {
                return Err(WorkspaceError::NotFound);
            },
        };
        let md_path = match self.all_nodes.get(&s) {
            Some(n) => match &n.node_content {
                NodeContent::Markdown(m) => match &m.path {
                    Some(p) => p.clone(),
                    None => {
                        return Err(WorkspaceError::NotFound);
                    },
                },
                _ => {
                    return Err(WorkspaceError::InvalidNodeKind);
                },
            },
            None => {
                return Err(WorkspaceError::NotFound);
            },
        };
        match self.all_nodes.get(&img_id) {
            Some(n) => match &n.node_content {
                NodeContent::Image(i) => Ok((md_path, i.path.clone())),
                _ => Err(WorkspaceError::InvalidNodeKind),
            },
            None => Err(WorkspaceError::NotFound),
        }
    }

    /// The nodes under `id`, depth first, each with its depth: `id` first
    /// at `depth`, then the subtree of each child in order. Collapsed
    /// directories are visited too; whether to show their children is
    /// the caller's affair. Nesting deeper than the number of nodes is cut.
    pub fn traverse(&self, id: u32) -> (r: Vec<(u32, usize)>)
        ensures
            r@ == preorder(self.nodes(), id, 0, self.nodes().len()),
    {
        let mut out: Vec<(u32, usize)> = Vec::new();
        let fuel = self.all_nodes.len();
        self.visit(id, 0, fuel, &mut out);
        out
    }

    fn visit(&self, id: u32, depth: usize, fuel: usize, out: &mut Vec<(u32, usize)>)
        requires
            depth + fuel <= usize::MAX,
        ensures
            final(out)@ == old(out)@ + preorder(self.nodes(), id, depth, fuel as nat),
        decreases fuel, 0nat,
    {
        if fuel == 0 {
            return;
        }
        let node = match self.all_nodes.get(&id) {
            Some(n) => n,
            None => {
                return;
            },
        };
        out.push((id, depth));
        let kids: &Vec<u32> = match &node.node_content {
            NodeContent::DirectoryMd(d) => &d.children,
            NodeContent::DirectoryTemp(t) => &t.children,
            _ => {
                assert(children_of(node.node_content) is None);
                assert(preorder_list(self.nodes(), Seq::<u32>::empty(), (depth + 1) as usize, (fuel - 1) as nat) == Seq::<(u32, usize)>::empty());
                assert(out@ =~= old(out)@ + preorder(self.nodes(), id, depth, fuel as nat));
                return;
            },
        };
        let ghost start = out@;
        let mut i: usize = 0;
        while i < kids.len()
            invariant
                i <= kids@.len(),
                depth + fuel <= usize::MAX,
                fuel > 0,
                out@ == start + preorder_list(self.nodes(), kids@.subrange(0, i as int), (depth + 1) as usize, (fuel - 1) as nat),
            decreases kids@.len() - i,
        {
            self.visit(kids[i], depth + 1, fuel - 1, out);
            i = i + 1;
            assert(kids@.subrange(0, i as int).drop_last() =~= kids@.subrange(0, i - 1));
            assert(out@ =~= start + preorder_list(self.nodes(), kids@.subrange(0, i as int), (depth + 1) as usize, (fuel - 1) as nat));
        }
        assert(kids@.subrange(0, i as int) =~= kids@);
        assert(out@ =~= old(out)@ + preorder(self.nodes(), id, depth, fuel as nat));
    }

    /// Puts document content `m` under `id` in place of the document there.
    fn replace_md(&mut self, id: u32, name: String, m: MdFile)
        requires
            old(self).wf(),
            old(self).nodes().contains_key(id),
            old(self).nodes()[id].node_content is Markdown,
        ensures
            final(self).wf(),
            final(self).nodes() == old(self).nodes().insert(
                id,
                FileNode { global_id: id, name, node_content: NodeContent::Markdown(m) },
            ),
            final(self).ids == old(self).ids,
            final(self).selected() == old(self).selected(),
            final(self).hovered() == old(self).hovered(),
            final(self).workplace_root() == old(self).workplace_root(),
            final(self).temp_workplace_root() == old(self).temp_workplace_root(),
            final(self).temp_img_library_root() == old(self).temp_img_library_root(),
    {
        self.all_nodes.insert(id, FileNode { global_id: id, name, node_content: NodeContent::Markdown(m) });
        proof {
            self.lemma_replace_same_children(*old(self), id);
        }
    }

    /// Loading the same document twice reads the disk at most once: once
    /// the text read for the selected document is cached, the next load
    /// of it is served from the cache.
    pub proof fn lemma_cache_preferred(before: FileTree, after: FileTree, content: Seq<char>)
        requires
            before.wf(),
            before.needs_disk_read(),
            after.selected() == before.selected(),
            after.nodes().contains_key(before.selected()->Some_0),
            md_updated(
                before.nodes()[before.selected()->Some_0].node_content,
                after.nodes()[before.selected()->Some_0].node_content,
                0,
                content,
            ),
        ensures
            !after.needs_disk_read(),
    {
    }

    /// A save request that stores a version and text leaves the document
    /// cached: the next load of it needs no disk read.
    pub proof fn lemma_saved_document_is_cached(before: FileTree, after: FileTree, fd: FileData)
        requires
            before.nodes().contains_key(fd.global_id),
            stored_request(before, after, fd),
            after.selected() == Some(fd.global_id),
        ensures
            !after.needs_disk_read(),
    {
    }

    /// `self` is `before` with the node at `key` replaced by one with the
    /// same id and the same children.
    proof fn lemma_replace_same_children(&self, before: FileTree, key: u32)
        requires
            before.wf(),
            before.nodes().contains_key(key),
            self.nodes() == before.nodes().insert(key, self.nodes()[key]),
            self.nodes()[key].global_id == key,
            children_of(self.nodes()[key].node_content) == children_of(before.nodes()[key].node_content),
            self.nodes()[key].node_content is DirectoryTemp <==> before.nodes()[key].node_content is DirectoryTemp,
            self.ids == before.ids,
            self.workplace_root_key == before.workplace_root_key,
            self.temp_workplace_root_key == before.temp_workplace_root_key,
            self.temp_img_library_root_key == before.temp_img_library_root_key,
            self.selected_node_id == before.selected_node_id,
        ensures
            self.wf(),
    {
        assert(self.nodes().dom() =~= before.nodes().dom());
        assert forall|k: u32, c: u32|
            self.nodes().contains_key(k) && #[trigger] child_in(self.nodes()[k].node_content, c)
                implies self.nodes().contains_key(c) by {
            assert(child_in(before.nodes()[k].node_content, c));
        }
    }
}

} // verus!
