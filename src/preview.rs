//! State of the preview pane: which page is shown, the image gallery's
//! selection and layout, the log of recent messages, and the weekday
//! label of the clock.
use vstd::prelude::*;
use vstd::string::StringExecFns;
use std::collections::HashMap;
use crate::common::ImgData;
use crate::text::{decimal, push_decimal};

verus! {

broadcast use vstd::std_specs::hash::group_hash_axioms;

#[derive(Clone, Copy, Debug, PartialEq, Eq, Structural)]
pub enum PreviewPage {
    MarkDown,
    TextBoard,
    ImageGallery,
    LogViewer,
}

#[derive(Clone, Copy, Debug, PartialEq, Eq, Structural)]
pub enum ImageGalleryMode {
    GridView,
    ListView,
}

/// An entry of the gallery's picker: an image's display id.
#[derive(Clone, Copy, Debug, PartialEq, Eq, Structural)]
pub struct OptionItem(pub u32);

impl OptionItem {
    /// The text the picker shows for this entry.
    pub fn label(&self) -> (r: String)
        ensures
            r@ == "图片 "@ + decimal(self.0 as nat),
    {
        let mut s = "图片 ".to_owned();
        push_decimal(&mut s, self.0 as u64);
        s
    }
}

pub enum ImageGalleryMessage {
    LoadImage(Vec<ImgData>),
    ModeChange(ImageGalleryMode),
    ChangeSelectedImg(u32),
    SendImgIdToFilePanel(u32),
    ShowImageGallery,
}

/// The images received so far, keyed by display id, the selected one
/// and the layout.
pub struct ImageGallery {
    pub selected_option_item: Option<OptionItem>,
    pub mode: Option<ImageGalleryMode>,
    pub images: HashMap<u32, ImgData>,
}

/// The layout after a single image was picked: a grid turns into a list.
pub open spec fn after_pick(mode: Option<ImageGalleryMode>) -> Option<ImageGalleryMode> {
    if mode == Some(ImageGalleryMode::GridView) {
        Some(ImageGalleryMode::ListView)
    } else {
        mode
    }
}

/// `j` is the first position of `list` with display id `k`.
pub open spec fn first_with_id(list: Seq<ImgData>, k: u32, j: int) -> bool {
    &&& 0 <= j < list.len()
    &&& list[j].indep_id == k
    &&& forall|i: int| 0 <= i < j ==> (#[trigger] list[i]).indep_id != k
}

/// `after` holds what `before` held, and each display id new to it
/// with the first image of `list` that carries it.
pub open spec fn merged_images(before: Map<u32, ImgData>, list: Seq<ImgData>, after: Map<u32, ImgData>) -> bool {
    &&& forall|k: u32| #[trigger] after.contains_key(k) <==> (before.contains_key(k) || exists|i: int|
        0 <= i < list.len() && (#[trigger] list[i]).indep_id == k)
    &&& forall|k: u32| #[trigger] before.contains_key(k) ==> after[k] == before[k]
    &&& forall|k: u32| #[trigger] after.contains_key(k) && !before.contains_key(k) ==> exists|j: int|
        first_with_id(list, k, j) && after[k] == list[j]
}

impl ImageGallery {
    pub fn new() -> (r: ImageGallery)
        ensures
            r.selected_option_item is None,
            r.mode is None,
            r.images@ == Map::<u32, ImgData>::empty(),
    {
        ImageGallery { selected_option_item: None, mode: None, images: HashMap::new() }
    }

    /// Received images are kept by display id, an id already present
    /// keeping its image. One image becomes the selection and a grid turns
    /// into a list; several select the smallest display id and show a
    /// grid. Either way the gallery is to be shown next.
    pub fn update(&mut self, message: ImageGalleryMessage) -> (r: Option<ImageGalleryMessage>)
        ensures
            match message {
                ImageGalleryMessage::LoadImage(list) => if list@.len() == 0 {
                    r is None && final(self).images@ == old(self).images@
                        && final(self).selected_option_item == old(self).selected_option_item
                        && final(self).mode == old(self).mode
                } else {
                    &&& r matches Some(ImageGalleryMessage::ShowImageGallery)
                    &&& merged_images(old(self).images@, list@, final(self).images@)
                    &&& final(self).selected_option_item matches Some(OptionItem(s))
                        && (exists|i: int| 0 <= i < list@.len() && list@[i].indep_id == s)
                        && (forall|i: int| 0 <= i < list@.len() ==> s <= (#[trigger] list@[i]).indep_id)
                    &&& final(self).mode == if list@.len() == 1 {
                        after_pick(old(self).mode)
                    } else {
                        Some(ImageGalleryMode::GridView)
                    }
                },
                ImageGalleryMessage::ChangeSelectedImg(id) => r is None
                    && final(self).selected_option_item == Some(OptionItem(id))
                    && final(self).mode == after_pick(old(self).mode)
                    && final(self).images@ == old(self).images@,
                ImageGalleryMessage::ModeChange(m) => r is None && final(self).mode == Some(m)
                    && final(self).selected_option_item == old(self).selected_option_item
                    && final(self).images@ == old(self).images@,
                _ => r is None && final(self).mode == old(self).mode
                    && final(self).selected_option_item == old(self).selected_option_item
                    && final(self).images@ == old(self).images@,
            },
    {
        match message {
            ImageGalleryMessage::LoadImage(list) => {
                let n = list.len();
                if n == 0 {
                    return None;
                }
                let mut least = list[0].indep_id;
                let mut i: usize = 1;
                while i < n
                    invariant
                        n == list@.len(),
                        1 <= i <= n,
                        exists|j: int| 0 <= j < i && list@[j].indep_id == least,
                        forall|j: int| 0 <= j < i ==> least <= (#[trigger] list@[j]).indep_id,
                    decreases n - i,
                {
                    if list[i].indep_id < least {
                        least = list[i].indep_id;
                    }
                    i = i + 1;
                }
                self.selected_option_item = Some(OptionItem(least));
                if n == 1 {
                    if self.mode == Some(ImageGalleryMode::GridView) {
                        self.mode = Some(ImageGalleryMode::ListView);
                    }
                } else {
                    self.mode = Some(ImageGalleryMode::GridView);
                }
                let ghost whole = list@;
                let ghost before = self.images@;
                let mut rest = list;
                let mut taken: usize = 0;
                while rest.len() > 0
                    invariant
                        whole.len() == n,
                        whole == list@,
                        n == list@.len(),
                        n > 0,
                        self.selected_option_item == Some(OptionItem(least)),
                        exists|j: int| 0 <= j < n && list@[j].indep_id == least,
                        forall|j: int| 0 <= j < n ==> least <= (#[trigger] list@[j]).indep_id,
                        self.mode == if n == 1 {
                            after_pick(old(self).mode)
                        } else {
                            Some(ImageGalleryMode::GridView)
                        },
                        taken + rest@.len() == whole.len(),
                        rest@ == whole.subrange(taken as int, whole.len() as int),
                        merged_images(before, whole.subrange(0, taken as int), self.images@),
                    decreases rest@.len(),
                {
                    let d = rest.remove(0);
                    assert(d == whole[taken as int]);
                    let ghost prev = self.images@;
                    let ghost done = whole.subrange(0, taken as int);
                    let ghost now = whole.subrange(0, taken + 1);
                    let key = d.indep_id;
                    if !self.images.contains_key(&key) {
                        self.images.insert(key, d);
                    }
                    taken = taken + 1;
                    assert forall|k: u32| #[trigger] self.images@.contains_key(k) <==> (before.contains_key(k)
                        || exists|i: int| 0 <= i < now.len() && (#[trigger] now[i]).indep_id == k) by {
                        if exists|i: int| 0 <= i < done.len() && (#[trigger] done[i]).indep_id == k {
                            let i = choose|i: int| 0 <= i < done.len() && (#[trigger] done[i]).indep_id == k;
                            assert(now[i] == done[i]);
                        }
                        if exists|i: int| 0 <= i < now.len() && (#[trigger] now[i]).indep_id == k {
                            let i = choose|i: int| 0 <= i < now.len() && (#[trigger] now[i]).indep_id == k;
                            if i < done.len() {
                                assert(done[i] == now[i]);
                            }
                        }
                        if k == key {
                            assert(now[now.len() - 1].indep_id == k);
                        }
                    }
                    assert forall|k: u32| #[trigger] self.images@.contains_key(k) && !before.contains_key(k)
                        implies exists|j: int| first_with_id(now, k, j) && self.images@[k] == now[j] by {
                        if prev.contains_key(k) {
                            let j = choose|j: int| first_with_id(done, k, j) && prev[k] == done[j];
                            assert(now[j] == done[j]);
                            assert forall|i: int| 0 <= i < j implies (#[trigger] now[i]).indep_id != k by {
                                assert(now[i] == done[i]);
                            }
                            assert(first_with_id(now, k, j));
                        } else {
                            let j = now.len() - 1;
                            assert(k == key);
                            assert forall|i: int| 0 <= i < j implies (#[trigger] now[i]).indep_id != k by {
                                assert(now[i] == done[i]);
                                if done[i].indep_id == k {
                                    assert(prev.contains_key(k));
                                }
                            }
                            assert(first_with_id(now, k, j));
                        }
                    }
                }
                assert(whole.subrange(0, taken as int) =~= whole);
                Some(ImageGalleryMessage::ShowImageGallery)
            },
            ImageGalleryMessage::ChangeSelectedImg(id) => {
                self.selected_option_item = Some(OptionItem(id));
                if self.mode == Some(ImageGalleryMode::GridView) {
                    self.mode = Some(ImageGalleryMode::ListView);
                }
                None
            },
            ImageGalleryMessage::ModeChange(m) => {
                self.mode = Some(m);
                None
            },
            _ => None,
        }
    }
}

/// What `str::trim_end` leaves of a text.
pub uninterp spec fn trim_end_of(s: Seq<char>) -> Seq<char>;

/// Relies on `str::trim_end`: the text without its trailing whitespace.
#[verifier::external_body]
fn trim_end(s: &str) -> (r: String)
    ensures
        r@ == trim_end_of(s@),
{
    s.trim_end().to_string()
}

/// How many log lines the viewer keeps.
pub const LOG_CAPACITY: usize = 100;

pub enum LogViewerMessage {
    WriteLog(String),
}

/// The most recent log lines, oldest first.
pub struct LogViewer {
    log: Vec<String>,
}

impl LogViewer {
    pub closed spec fn lines(&self) -> Seq<String> {
        self.log@
    }

    pub fn new() -> (r: LogViewer)
        ensures
            r.lines().len() == 0,
    {
        LogViewer { log: Vec::new() }
    }

    /// The lines kept, oldest first.
    pub fn lines_exec(&self) -> (r: &Vec<String>)
        ensures
            r@ == self.lines(),
    {
        &self.log
    }

    /// A new log message: when the log is full its oldest line goes; a
    /// non-empty message is kept without its trailing whitespace.
    pub fn update(&mut self, message: LogViewerMessage)
        requires
            old(self).lines().len() <= LOG_CAPACITY,
        ensures
            final(self).lines().len() <= LOG_CAPACITY,
            match message {
                LogViewerMessage::WriteLog(t) => {
                    let kept = if old(self).lines().len() == LOG_CAPACITY {
                        old(self).lines().drop_first()
                    } else {
                        old(self).lines()
                    };
                    if t@.len() == 0 {
                        final(self).lines() == kept
                    } else {
                        final(self).lines().len() == kept.len() + 1
                            && final(self).lines().drop_last() == kept
                            && final(self).lines().last()@ == trim_end_of(t@)
                    }
                },
            },
    {
        match message {
            LogViewerMessage::WriteLog(t) => {
                if self.log.len() == LOG_CAPACITY {
                    let _ = self.log.remove(0);
                }
                if !t.as_str().is_empty() {
                    let line = trim_end(t.as_str());
                    self.log.push(line);
                }
            },
        }
    }
}

/// The label of weekday `d`, Monday being 1 and Sunday 7.
pub open spec fn weekday_name(d: int) -> Seq<char> {
    if d == 1 { "星期一"@ } else if d == 2 { "星期二"@ } else if d == 3 { "星期三"@ }
    else if d == 4 { "星期四"@ } else if d == 5 { "星期五"@ } else if d == 6 { "星期六"@ }
    else { "星期天"@ }
}

/// The label of weekday `d`, Monday being 1 and Sunday 7.
pub fn weekday_label(d: i8) -> (r: String)
    requires
        1 <= d <= 7,
    ensures
        r@ == weekday_name(d as int),
{
    if d == 1 { "星期一".to_owned() } else if d == 2 { "星期二".to_owned() }
    else if d == 3 { "星期三".to_owned() } else if d == 4 { "星期四".to_owned() }
    else if d == 5 { "星期五".to_owned() } else if d == 6 { "星期六".to_owned() }
    else { "星期天".to_owned() }
}

/// Relies on `jiff::Zoned::try_from(SystemTime)` in the system time zone
/// and `Weekday::to_monday_one_offset`: today's weekday, Monday being 1
/// and Sunday 7; `None` when the clock is outside jiff's range.
#[verifier::external_body]
fn today_weekday() -> (r: Option<i8>)
    ensures
        r matches Some(d) ==> 1 <= d <= 7,
{
    match jiff::Zoned::try_from(std::time::SystemTime::now()) {
        Ok(now) => Some(now.weekday().to_monday_one_offset()),
        Err(_) => None,
    }
}

/// The label of today's weekday; `None` when the clock cannot be read.
pub fn get_week_str() -> (r: Option<String>)
    ensures
        r matches Some(s) ==> exists|d: int| 1 <= d <= 7 && s@ == weekday_name(d),
{
    match today_weekday() {
        Some(d) => Some(weekday_label(d)),
        None => None,
    }
}

} // verus!
