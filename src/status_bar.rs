//! The status bar, which holds no state yet.
use vstd::prelude::*;

verus! {

pub struct StatusBar {}

pub enum StatusBarMessage {
    Refresh,
}

impl StatusBar {
    pub fn new() -> (r: StatusBar) {
        StatusBar {}
    }
}

} // verus!
