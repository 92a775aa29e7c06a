//! Document workspace model of a markdown editor: a node store addressed by
//! ids, directory ingestion, the load and save pipelines, and the
//! version protocol that decides when a document is dirty and when a
//! delayed autosave may act.
//!
//! - `ids`: the id allocator.
//! - `node`: the node kinds and their accessors.
//! - `ingest`: folder and image scans, driven one directory entry at a time.
//! - `workspace`: the node store, selection, loading and saving.
//! - `editor`: the version protocol on the editor's side.
//! - `text`, `text_board`, `dialog`, `menu_bar`, `status_bar`, `preview`:
//!   the state of the editor's helpers and of the other panes.
use vstd::prelude::*;

pub mod common;
pub mod dialog;
pub mod editor;
pub mod ids;
pub mod ingest;
pub mod menu_bar;
pub mod node;
pub mod preview;
pub mod status_bar;
pub mod text;
pub mod text_board;
pub mod workspace;

verus! {

} // verus!
