//! Ingestion of an opened folder and of an image folder, one directory
//! entry at a time. The caller lists directories and reads files; the
//! scans decide what is kept, in which order directories are visited
//! (depth first, by an explicit stack), and how the nodes hang together.
//! A scan holds no ids: nodes are numbered when the scan is merged into a
//! workspace, so a failed scan is dropped without a trace.
use vstd::prelude::*;
use crate::node::{display_name, get_file_name, has_image_extension, has_markdown_extension, is_image_path, is_markdown_path};

verus! {

/// One entry of a directory listing.
pub struct DirEntry {
    pub path: String,
    pub is_dir: bool,
}

/// A node found by a folder scan. `children` are positions in the scan.
pub struct ScannedNode {
    pub name: String,
    pub path: String,
    pub is_dir: bool,
    pub children: Vec<usize>,
}

/// The state of a folder scan: the nodes found so far, the first being
/// the folder itself, and the stack of directories still to list.
pub struct TreeScan {
    nodes: Vec<ScannedNode>,
    pending: Vec<usize>,
}

/// An image found by an image scan, with its bytes.
pub struct ScannedImage {
    pub name: String,
    pub path: String,
    pub bytes: Vec<u8>,
}

/// The state of an image scan: images found so far and the directories
/// still to list.
pub struct ImageScan {
    images: Vec<ScannedImage>,
    pending: Vec<String>,
}

/// What the caller does with a directory entry during an image scan.
#[derive(Debug, PartialEq, Eq, Structural)]
pub enum EntryAction {
    /// The entry is neither a directory nor an image.
    Skip,
    /// The entry is a directory; it was put on the stack.
    Descend,
    /// The entry is an image: read it and hand it to `add_image`.
    ReadImage,
}

/// An entry that a folder scan keeps: every directory, and markdown files.
pub open spec fn is_kept(e: DirEntry) -> bool {
    e.is_dir || is_markdown_path(e.path@)
}

impl TreeScan {
    pub closed spec fn nodes(&self) -> Seq<ScannedNode> {
        self.nodes@
    }

    pub closed spec fn pending(&self) -> Seq<usize> {
        self.pending@
    }

    /// Children point to later nodes, only directories have children,
    /// and the stack holds directories.
    pub open spec fn wf(&self) -> bool {
        &&& self.nodes().len() >= 1
        &&& self.nodes()[0].is_dir
        &&& forall|i: int, j: int|
            0 <= i < self.nodes().len() && 0 <= j < self.nodes()[i].children@.len() ==> i
                < #[trigger] self.nodes()[i].children@[j] < self.nodes().len()
        &&& forall|i: int|
            0 <= i < self.nodes().len() && !self.nodes()[i].is_dir ==> (
            #[trigger] self.nodes()[i]).children@.len() == 0
        &&& forall|k: int|
            0 <= k < self.pending().len() ==> #[trigger] self.pending()[k] < self.nodes().len()
                && self.nodes()[self.pending()[k] as int].is_dir
    }

    /// A scan of the folder at `root_path`: the folder itself is the only
    /// node so far, and the only directory to list.
    pub fn start(root_path: String) -> (r: TreeScan)
        ensures
            r.wf(),
            r.nodes().len() == 1,
            r.nodes()[0].name@ == display_name(root_path@),
            r.nodes()[0].path@ == root_path@,
            r.nodes()[0].children@.len() == 0,
            r.pending() == seq![0usize],
    {
        let name = get_file_name(root_path.as_str());
        let root = ScannedNode { name, path: root_path, is_dir: true, children: Vec::new() };
        let mut nodes = Vec::new();
        nodes.push(root);
        let mut pending = Vec::new();
        pending.push(0);
        TreeScan { nodes, pending }
    }

    /// Takes the directory listed next off the stack: its position in the
    /// scan and its path. `None` when the scan is complete.
    pub fn next_dir(&mut self) -> (r: Option<(usize, String)>)
        requires
            old(self).wf(),
        ensures
            final(self).wf(),
            final(self).nodes() == old(self).nodes(),
            match r {
                Some((i, p)) => {
                    &&& old(self).pending().len() > 0
                    &&& i == old(self).pending().last()
                    &&& final(self).pending() == old(self).pending().drop_last()
                    &&& p@ == old(self).nodes()[i as int].path@
                },
                None => old(self).pending().len() == 0 && final(self).pending() == old(self).pending(),
            },
    {
        match self.pending.pop() {
            Some(i) => {
                let p = self.nodes[i].path.clone();
                Some((i, p))
            },
            None => None,
        }
    }

    /// Records one entry of the directory at position `parent`. A
    /// directory becomes a new node and goes on the stack; a markdown file
    /// becomes a new node; anything else is skipped. A new node is
    /// appended to `parent`'s children.
    pub fn add_entry(&mut self, parent: usize, entry: DirEntry)
        requires
            old(self).wf(),
            parent < old(self).nodes().len(),
            old(self).nodes()[parent as int].is_dir,
        ensures
            final(self).wf(),
            ({
                let n = old(self).nodes().len();
                if is_kept(entry) {
                    &&& final(self).nodes().len() == n + 1
                    &&& final(self).nodes()[n as int].name@ == display_name(entry.path@)
                    &&& final(self).nodes()[n as int].path@ == entry.path@
                    &&& final(self).nodes()[n as int].is_dir == entry.is_dir
                    &&& final(self).nodes()[n as int].children@.len() == 0
                    &&& final(self).nodes()[parent as int].children@ == old(self).nodes()[parent as int].children@.push(n as usize)
                    &&& final(self).nodes()[parent as int].name == old(self).nodes()[parent as int].name
                    &&& final(self).nodes()[parent as int].path == old(self).nodes()[parent as int].path
                    &&& final(self).nodes()[parent as int].is_dir
                    &&& forall|i: int| 0 <= i < n && i != parent ==> final(self).nodes()[i] == old(self).nodes()[i]
                    &&& final(self).pending() == if entry.is_dir {
                        old(self).pending().push(n as usize)
                    } else {
                        old(self).pending()
                    }
                } else {
                    &&& final(self).nodes() == old(self).nodes()
                    &&& final(self).pending() == old(self).pending()
                }
            }),
    {
        let keep = entry.is_dir || has_markdown_extension(entry.path.as_str());
        if keep {
            let n = self.nodes.len();
            let name = get_file_name(entry.path.as_str());
            let is_dir = entry.is_dir;
            let node = ScannedNode { name, path: entry.path, is_dir, children: Vec::new() };
            let ghost before = self.nodes@;
            self.nodes[parent].children.push(n);
            self.nodes.push(node);
            if is_dir {
                self.pending.push(n);
            }
            assert forall|i: int, j: int|
                0 <= i < self.nodes().len() && 0 <= j < self.nodes()[i].children@.len() implies i
                    < #[trigger] self.nodes()[i].children@[j] < self.nodes().len() by {
                if i != parent && i < n {
                    assert(self.nodes()[i] == before[i]);
                    assert(before[i].children@[j] < n);
                }
            }
            assert forall|i: int|
                0 <= i < self.nodes().len() && !self.nodes()[i].is_dir implies (
                #[trigger] self.nodes()[i]).children@.len() == 0 by {
                if i < n {
                    assert(self.nodes()[i] == before[i] || i == parent);
                }
            }
            assert(self.nodes()[0].is_dir);
            assert forall|k: int| 0 <= k < self.pending().len() implies #[trigger] self.pending()[k]
                < self.nodes().len() && self.nodes()[self.pending()[k] as int].is_dir by {
                if k < old(self).pending().len() {
                    let q = self.pending()[k] as int;
                    assert(q == old(self).pending()[k]);
                    assert(q < n);
                    assert(before[q].is_dir);
                    assert(self.nodes()[q].is_dir == before[q].is_dir);
                }
            }
        }
    }

    /// The number of nodes found so far.
    pub fn len(&self) -> (r: usize)
        ensures
            r == self.nodes().len(),
    {
        self.nodes.len()
    }

    /// Whether every listed directory has been handled.
    pub fn is_complete(&self) -> (r: bool)
        ensures
            r == (self.pending().len() == 0),
    {
        self.pending.len() == 0
    }

    /// The nodes found, the folder first.
    pub fn into_nodes(self) -> (r: Vec<ScannedNode>)
        ensures
            r@ == self.nodes(),
    {
        self.nodes
    }
}

impl ImageScan {
    pub closed spec fn images(&self) -> Seq<ScannedImage> {
        self.images@
    }

    pub closed spec fn pending(&self) -> Seq<String> {
        self.pending@
    }

    /// A scan of the folder at `root_path` for images.
    pub fn start(root_path: String) -> (r: ImageScan)
        ensures
            r.images().len() == 0,
            r.pending().len() == 1,
            r.pending()[0]@ == root_path@,
    {
        let mut pending = Vec::new();
        pending.push(root_path);
        ImageScan { images: Vec::new(), pending }
    }

    /// Takes the directory listed next off the stack; `None` when the scan
    /// is complete.
    pub fn next_dir(&mut self) -> (r: Option<String>)
        ensures
            final(self).images() == old(self).images(),
            match r {
                Some(p) => {
                    &&& old(self).pending().len() > 0
                    &&& p == old(self).pending().last()
                    &&& final(self).pending() == old(self).pending().drop_last()
                },
                None => old(self).pending().len() == 0 && final(self).pending() == old(self).pending(),
            },
    {
        self.pending.pop()
    }

    /// Decides what becomes of one directory entry: a directory goes on
    /// the stack, an image is to be read, anything else is skipped.
    pub fn add_entry(&mut self, entry: DirEntry) -> (r: EntryAction)
        ensures
            final(self).images() == old(self).images(),
            entry.is_dir ==> r == EntryAction::Descend && final(self).pending() == old(
                self,
            ).pending().push(entry.path),
            !entry.is_dir && is_image_path(entry.path@) ==> r == EntryAction::ReadImage
                && final(self).pending() == old(self).pending(),
            !entry.is_dir && !is_image_path(entry.path@) ==> r == EntryAction::Skip
                && final(self).pending() == old(self).pending(),
    {
        if entry.is_dir {
            self.pending.push(entry.path);
            EntryAction::Descend
        } else if has_image_extension(entry.path.as_str()) {
            EntryAction::ReadImage
        } else {
            EntryAction::Skip
        }
    }

    /// Records an image that was read.
    pub fn add_image(&mut self, path: String, bytes: Vec<u8>)
        ensures
            final(self).pending() == old(self).pending(),
            final(self).images().len() == old(self).images().len() + 1,
            final(self).images().drop_last() == old(self).images(),
            final(self).images().last().name@ == display_name(path@),
            final(self).images().last().path@ == path@,
            final(self).images().last().bytes@ == bytes@,
    {
        let name = get_file_name(path.as_str());
        self.images.push(ScannedImage { name, path, bytes });
    }

    /// Whether every listed directory has been handled.
    pub fn is_complete(&self) -> (r: bool)
        ensures
            r == (self.pending().len() == 0),
    {
        self.pending.len() == 0
    }

    /// The number of images found so far.
    pub fn len(&self) -> (r: usize)
        ensures
            r == self.images().len(),
    {
        self.images.len()
    }

    /// The images found, in the order they were read.
    pub fn into_images(self) -> (r: Vec<ScannedImage>)
        ensures
            r@ == self.images(),
    {
        self.images
    }
}

} // verus!
