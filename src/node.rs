//! Nodes of the workspace tree: directories on disk, the synthetic roots
//! that group unsaved documents and imported images, markdown documents
//! and images.
use vstd::prelude::*;
use crate::common::WorkspaceError;
use crate::ids::{IdAllocator, get_next_id, node_id_step};

verus! {

/// The last component of a path, as `std::path::Path::file_name` gives it.
pub uninterp spec fn file_name_of(p: Seq<char>) -> Option<Seq<char>>;

/// The extension of a path, as `std::path::Path::extension` gives it.
pub uninterp spec fn extension_of(p: Seq<char>) -> Option<Seq<char>>;

/// Relies on `std::path::Path::file_name`: the final component of the
/// path, if it has one.
#[verifier::external_body]
fn path_file_name(p: &str) -> (r: Option<String>)
    ensures
        match r {
            Some(n) => file_name_of(p@) == Some(n@),
            None => file_name_of(p@) is None,
        },
{
    match std::path::Path::new(p).file_name() {
        Some(n) => Some(n.to_string_lossy().into_owned()),
        None => None,
    }
}

/// Relies on `std::path::Path::extension`: the part of the file name
/// after its last dot, if it has one.
#[verifier::external_body]
fn path_extension(p: &str) -> (r: Option<String>)
    ensures
        match r {
            Some(e) => extension_of(p@) == Some(e@),
            None => extension_of(p@) is None,
        },
{
    match std::path::Path::new(p).extension() {
        Some(e) => Some(e.to_string_lossy().into_owned()),
        None => None,
    }
}

/// The name shown for a path that has no file name.
pub open spec fn unnamed() -> Seq<char> {
    "暂无名称"@
}

/// The name a node gets from its path.
pub open spec fn display_name(p: Seq<char>) -> Seq<char> {
    match file_name_of(p) {
        Some(n) => n,
        None => unnamed(),
    }
}

/// A path whose extension is `md`.
pub open spec fn is_markdown_path(p: Seq<char>) -> bool {
    extension_of(p) == Some("md"@)
}

/// A path whose extension is one of the raster formats that are imported.
pub open spec fn is_image_path(p: Seq<char>) -> bool {
    extension_of(p) == Some("jpg"@) || extension_of(p) == Some("png"@)
}

/// The file name of `path`, or a placeholder where it has none.
pub fn get_file_name(path: &str) -> (r: String)
    ensures
        r@ == display_name(path@),
{
    match path_file_name(path) {
        Some(n) => n,
        None => "暂无名称".to_owned(),
    }
}

/// Whether `path` names a markdown document.
pub fn has_markdown_extension(path: &str) -> (r: bool)
    ensures
        r == is_markdown_path(path@),
{
    match path_extension(path) {
        Some(e) => e == "md".to_owned(),
        None => false,
    }
}

/// Whether `path` names an image that can be imported.
pub fn has_image_extension(path: &str) -> (r: bool)
    ensures
        r == is_image_path(path@),
{
    match path_extension(path) {
        Some(e) => e == "jpg".to_owned() || e == "png".to_owned(),
        None => false,
    }
}

/// A folder on disk under an opened workspace root.
pub struct Dir {
    pub path: String,
    pub children: Vec<u32>,
    pub expanded: bool,
}

/// A synthetic root that groups unsaved documents or imported images.
pub struct TempDir {
    pub children: Vec<u32>,
    pub expanded: bool,
}

/// A markdown document. It has no path until it is first saved; its text
/// is cached once read or edited.
pub struct MdFile {
    pub path: Option<String>,
    pub version: u64,
    pub cache: Option<String>,
}

/// An imported image with its display id and its bytes.
pub struct ImageFile {
    pub path: String,
    pub indep_id: u32,
    pub cache: Vec<u8>,
}

pub enum NodeContent {
    DirectoryMd(Dir),
    DirectoryTemp(TempDir),
    Markdown(MdFile),
    Image(ImageFile),
}

pub struct FileNode {
    pub global_id: u32,
    pub name: String,
    pub node_content: NodeContent,
}

/// The child list of a directory node, `None` for a leaf.
pub open spec fn children_of(c: NodeContent) -> Option<Seq<u32>> {
    match c {
        NodeContent::DirectoryMd(d) => Some(d.children@),
        NodeContent::DirectoryTemp(t) => Some(t.children@),
        _ => None,
    }
}

/// Whether a directory node is shown expanded; `false` for a leaf.
pub open spec fn expanded_of(c: NodeContent) -> bool {
    match c {
        NodeContent::DirectoryMd(d) => d.expanded,
        NodeContent::DirectoryTemp(t) => t.expanded,
        _ => false,
    }
}

pub open spec fn is_directory_content(c: NodeContent) -> bool {
    c is DirectoryMd || c is DirectoryTemp
}

/// The path of a node: a real directory's and an image's always, a
/// document's once it has one, a synthetic root's never.
pub open spec fn path_of(c: NodeContent) -> Option<Seq<char>> {
    match c {
        NodeContent::DirectoryMd(d) => Some(d.path@),
        NodeContent::DirectoryTemp(_) => None,
        NodeContent::Markdown(m) => match m.path {
            Some(p) => Some(p@),
            None => None,
        },
        NodeContent::Image(i) => Some(i.path@),
    }
}

/// `after` is `before` with the expanded flag of a directory flipped; a
/// leaf stays as it is.
pub open spec fn toggled(before: NodeContent, after: NodeContent) -> bool {
    match before {
        NodeContent::DirectoryMd(d) => after == NodeContent::DirectoryMd(
            Dir { expanded: !d.expanded, ..d },
        ),
        NodeContent::DirectoryTemp(t) => after == NodeContent::DirectoryTemp(
            TempDir { expanded: !t.expanded, ..t },
        ),
        _ => after == before,
    }
}

/// `after` is the directory `before` with `ids` appended to its children.
pub open spec fn appended(before: NodeContent, after: NodeContent, ids: Seq<u32>) -> bool {
    match (before, after) {
        (NodeContent::DirectoryMd(d), NodeContent::DirectoryMd(e)) => {
            &&& e.path == d.path
            &&& e.expanded == d.expanded
            &&& e.children@ == d.children@ + ids
        },
        (NodeContent::DirectoryTemp(d), NodeContent::DirectoryTemp(e)) => {
            &&& e.expanded == d.expanded
            &&& e.children@ == d.children@ + ids
        },
        _ => false,
    }
}

impl FileNode {
    /// A node with a fresh id from `ids`.
    pub fn new(ids: &mut IdAllocator, name: String, node_content: NodeContent) -> (r: FileNode)
        requires
            old(ids).next_node_id() < u32::MAX,
        ensures
            node_id_step(*old(ids), r.global_id, *final(ids)),
            r.name == name,
            r.node_content == node_content,
    {
        let global_id = get_next_id(ids);
        FileNode { global_id, name, node_content }
    }

    pub fn try_get_children(&self) -> (r: Result<&Vec<u32>, WorkspaceError>)
        ensures
            match r {
                Ok(c) => children_of(self.node_content) == Some(c@),
                Err(e) => children_of(self.node_content) is None && e is InvalidNodeKind,
            },
    {
        match &self.node_content {
            NodeContent::DirectoryMd(d) => Ok(&d.children),
            NodeContent::DirectoryTemp(t) => Ok(&t.children),
            _ => Err(WorkspaceError::InvalidNodeKind),
        }
    }

    /// Appends `ids` to the children of a directory node.
    pub fn append_children(&mut self, ids: &Vec<u32>) -> (r: Result<(), WorkspaceError>)
        ensures
            final(self).global_id == old(self).global_id,
            final(self).name == old(self).name,
            match r {
                Ok(_) => appended(old(self).node_content, final(self).node_content, ids@),
                Err(e) => {
                    &&& !is_directory_content(old(self).node_content)
                    &&& e is InvalidNodeKind
                    &&& final(self).node_content == old(self).node_content
                },
            },
    {
        match &mut self.node_content {
            NodeContent::DirectoryMd(d) => {
                push_all(&mut d.children, ids);
                Ok(())
            },
            NodeContent::DirectoryTemp(t) => {
                push_all(&mut t.children, ids);
                Ok(())
            },
            _ => Err(WorkspaceError::InvalidNodeKind),
        }
    }

    /// `true` for a leaf, and for a directory without children.
    pub fn is_children_empty(&self) -> (r: bool)
        ensures
            r == match children_of(self.node_content) {
                Some(c) => c.len() == 0,
                None => true,
            },
    {
        match &self.node_content {
            NodeContent::DirectoryMd(d) => d.children.len() == 0,
            NodeContent::DirectoryTemp(t) => t.children.len() == 0,
            _ => true,
        }
    }

    pub fn try_get_img(&self) -> (r: Result<&ImageFile, WorkspaceError>)
        ensures
            match r {
                Ok(i) => self.node_content == NodeContent::Image(*i),
                Err(e) => !(self.node_content is Image) && e is InvalidNodeKind,
            },
    {
        match &self.node_content {
            NodeContent::Image(i) => Ok(i),
            _ => Err(WorkspaceError::InvalidNodeKind),
        }
    }

    pub fn try_get_md(&self) -> (r: Result<&MdFile, WorkspaceError>)
        ensures
            match r {
                Ok(m) => self.node_content == NodeContent::Markdown(*m),
                Err(e) => !(self.node_content is Markdown) && e is InvalidNodeKind,
            },
    {
        match &self.node_content {
            NodeContent::Markdown(m) => Ok(m),
            _ => Err(WorkspaceError::InvalidNodeKind),
        }
    }

    pub fn try_get_path(&self) -> (r: Result<&String, WorkspaceError>)
        ensures
            match r {
                Ok(p) => path_of(self.node_content) == Some(p@),
                Err(e) => {
                    &&& path_of(self.node_content) is None
                    &&& (self.node_content is Markdown ==> e is NotFound)
                    &&& (self.node_content is DirectoryTemp ==> e is InvalidNodeKind)
                },
            },
    {
        match &self.node_content {
            NodeContent::Image(i) => Ok(&i.path),
            NodeContent::DirectoryMd(d) => Ok(&d.path),
            NodeContent::Markdown(m) => match &m.path {
                Some(p) => Ok(p),
                None => Err(WorkspaceError::NotFound),
            },
            NodeContent::DirectoryTemp(_) => Err(WorkspaceError::InvalidNodeKind),
        }
    }

    pub fn is_expanded(&self) -> (r: bool)
        ensures
            r == expanded_of(self.node_content),
    {
        match &self.node_content {
            NodeContent::DirectoryMd(d) => d.expanded,
            NodeContent::DirectoryTemp(t) => t.expanded,
            _ => false,
        }
    }

    pub fn reverse_expanded_if_node_is_directory(&mut self)
        ensures
            final(self).global_id == old(self).global_id,
            final(self).name == old(self).name,
            toggled(old(self).node_content, final(self).node_content),
    {
        match &mut self.node_content {
            NodeContent::DirectoryMd(d) => {
                d.expanded = !d.expanded;
            },
            NodeContent::DirectoryTemp(t) => {
                t.expanded = !t.expanded;
            },
            _ => {},
        }
    }

    pub fn is_directory(&self) -> (r: bool)
        ensures
            r == is_directory_content(self.node_content),
    {
        match &self.node_content {
            NodeContent::DirectoryMd(_) => true,
            NodeContent::DirectoryTemp(_) => true,
            _ => false,
        }
    }

    /// A document that has never been saved to a path.
    pub fn is_temp_file(&self) -> (r: bool)
        ensures
            r == (self.node_content is Markdown && self.node_content->Markdown_0.path is None),
    {
        match &self.node_content {
            NodeContent::Markdown(m) => m.path.is_none(),
            _ => false,
        }
    }

    pub fn is_md_file(&self) -> (r: bool)
        ensures
            r == self.node_content is Markdown,
    {
        match &self.node_content {
            NodeContent::Markdown(_) => true,
            _ => false,
        }
    }

    pub fn is_img_file(&self) -> (r: bool)
        ensures
            r == self.node_content is Image,
    {
        match &self.node_content {
            NodeContent::Image(_) => true,
            _ => false,
        }
    }
}

/// Appends every id of `ids` to `v`, in order.
pub fn push_all(v: &mut Vec<u32>, ids: &Vec<u32>)
    ensures
        final(v)@ == old(v)@ + ids@,
{
    let mut i: usize = 0;
    while i < ids.len()
        invariant
            i <= ids.len(),
            v@ == old(v)@ + ids@.subrange(0, i as int),
        decreases ids.len() - i,
    {
        v.push(ids[i]);
        i = i + 1;
        assert(ids@.subrange(0, i as int) == ids@.subrange(0, i - 1) + seq![ids@[i - 1]]);
    }
    assert(ids@.subrange(0, ids.len() as int) == ids@);
}

} // verus!
