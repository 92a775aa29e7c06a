//! The menu bar's state: which item the pointer is over.
use vstd::prelude::*;

verus! {

pub struct MenuBar {
    pub hovered_id: Option<usize>,
}

pub enum MenuBarMessage {
    HoverEnter(usize),
    NoCommand,
    CommandOpenFolder,
    CommandOpenFile,
    CommandImportImg,
    CommandImportImgFolder,
    CommandCreateNewFile,
    CommandSaveFile,
    CommandSaveAs,
    SettingAutoSave(bool),
}

impl MenuBar {
    pub fn new() -> (r: MenuBar)
        ensures
            r.hovered_id is None,
    {
        MenuBar { hovered_id: None }
    }

    /// Records the item the pointer entered; commands are routed by the
    /// application and leave the bar as it is.
    pub fn update(&mut self, message: MenuBarMessage)
        ensures
            match message {
                MenuBarMessage::HoverEnter(id) => final(self).hovered_id == Some(id),
                _ => *final(self) == *old(self),
            },
    {
        match message {
            MenuBarMessage::HoverEnter(id) => {
                self.hovered_id = Some(id);
            },
            _ => {},
        }
    }
}

} // verus!
