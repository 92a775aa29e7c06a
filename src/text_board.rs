//! The text board: numbered scratch texts beside the document. Texts are
//! labelled `文本 n`; after a deletion the text whose label comes first
//! in string order is shown. The labels share their prefix, so that order
//! is the lexicographic order of the numbers' decimal digits.
use vstd::prelude::*;
use std::collections::HashMap;
use crate::common::AppError;
use crate::text::{decimal, push_decimal};

verus! {

broadcast use vstd::std_specs::hash::group_hash_axioms;

/// The decimal digits of `n`, most significant first.
pub open spec fn digits(n: nat) -> Seq<nat>
    decreases n,
{
    if n < 10 {
        seq![n]
    } else {
        digits(n / 10).push(n % 10)
    }
}

/// `a` comes before `b` in lexicographic order; a proper prefix comes
/// first.
pub open spec fn lex_lt(a: Seq<nat>, b: Seq<nat>) -> bool
    decreases a.len(),
{
    if a.len() == 0 {
        b.len() > 0
    } else if b.len() == 0 {
        false
    } else if a[0] != b[0] {
        a[0] < b[0]
    } else {
        lex_lt(a.drop_first(), b.drop_first())
    }
}

/// The label of text `n` comes before that of text `m`.
pub open spec fn label_lt(n: u64, m: u64) -> bool {
    lex_lt(digits(n as nat), digits(m as nat))
}

proof fn lemma_lex_lt_transitive(a: Seq<nat>, b: Seq<nat>, c: Seq<nat>)
    requires
        lex_lt(a, b),
        lex_lt(b, c),
    ensures
        lex_lt(a, c),
    decreases a.len(),
{
    if a.len() > 0 && b.len() > 0 && c.len() > 0 && a[0] == b[0] && b[0] == c[0] {
        lemma_lex_lt_transitive(a.drop_first(), b.drop_first(), c.drop_first());
    }
}

proof fn lemma_lex_lt_skip(a: Seq<nat>, b: Seq<nat>, i: int)
    requires
        0 <= i <= a.len(),
        i <= b.len(),
        a.subrange(0, i) == b.subrange(0, i),
    ensures
        lex_lt(a, b) == lex_lt(a.subrange(i, a.len() as int), b.subrange(i, b.len() as int)),
    decreases i,
{
    if i > 0 {
        assert(a[0] == a.subrange(0, i)[0]);
        assert(b[0] == b.subrange(0, i)[0]);
        assert(a.drop_first().subrange(0, i - 1) =~= a.subrange(0, i).drop_first());
        assert(b.drop_first().subrange(0, i - 1) =~= b.subrange(0, i).drop_first());
        lemma_lex_lt_skip(a.drop_first(), b.drop_first(), i - 1);
        assert(a.drop_first().subrange(i - 1, a.len() - 1) =~= a.subrange(i, a.len() as int));
        assert(b.drop_first().subrange(i - 1, b.len() - 1) =~= b.subrange(i, b.len() as int));
    } else {
        assert(a.subrange(0, a.len() as int) =~= a);
        assert(b.subrange(0, b.len() as int) =~= b);
    }
}

/// Appends the decimal digits of `n` to `v`.
fn push_digits(v: &mut Vec<u8>, n: u64)
    ensures
        final(v)@.map_values(|d: u8| d as nat) == old(v)@.map_values(|d: u8| d as nat) + digits(n as nat),
    decreases n,
{
    if n >= 10 {
        push_digits(v, n / 10);
    }
    let ghost before = v@;
    v.push((n % 10) as u8);
    assert(v@.map_values(|d: u8| d as nat) =~= before.map_values(|d: u8| d as nat).push((n % 10) as nat));
}

/// Whether the label of text `a` comes before that of text `b`.
pub fn label_before(a: u64, b: u64) -> (r: bool)
    ensures
        r == label_lt(a, b),
{
    let mut x: Vec<u8> = Vec::new();
    push_digits(&mut x, a);
    let mut y: Vec<u8> = Vec::new();
    push_digits(&mut y, b);
    let ghost xs = x@.map_values(|d: u8| d as nat);
    let ghost ys = y@.map_values(|d: u8| d as nat);
    assert(xs =~= digits(a as nat));
    assert(ys =~= digits(b as nat));
    let mut i: usize = 0;
    while i < x.len() && i < y.len() && x[i] == y[i]
        invariant
            i <= x@.len(),
            i <= y@.len(),
            xs == x@.map_values(|d: u8| d as nat),
            ys == y@.map_values(|d: u8| d as nat),
            xs.subrange(0, i as int) == ys.subrange(0, i as int),
        decreases x@.len() - i,
    {
        assert(xs.subrange(0, i + 1) =~= xs.subrange(0, i as int).push(xs[i as int]));
        assert(ys.subrange(0, i + 1) =~= ys.subrange(0, i as int).push(ys[i as int]));
        i = i + 1;
    }
    proof {
        lemma_lex_lt_skip(xs, ys, i as int);
    }
    if i == x.len() {
        i < y.len()
    } else if i == y.len() {
        false
    } else {
        x[i] < y[i]
    }
}

/// The label of text `n`.
pub fn text_label(n: u64) -> (r: String)
    ensures
        r@ == "文本 "@ + decimal(n as nat),
{
    let mut s = "文本 ".to_owned();
    push_decimal(&mut s, n);
    s
}

pub enum TextBoardMessage {
    CreateNewText,
    LoadSelectedText,
    DeleteSelectedText,
    ChangeText(u64),
    /// An edit that left this text in the buffer.
    EditorAction(String),
    HandError(AppError),
}

pub struct TextBoard {
    all_text: HashMap<u64, String>,
    order: Vec<u64>,
    current_text: String,
    current_text_id: Option<u64>,
    id_counter: u64,
}

impl TextBoard {
    /// The texts by number.
    pub closed spec fn texts(&self) -> Map<u64, String> {
        self.all_text@
    }

    /// The numbers of the texts, in the order they were made.
    pub closed spec fn ids(&self) -> Seq<u64> {
        self.order@
    }

    /// What the board's editor shows.
    pub closed spec fn buffer(&self) -> Seq<char> {
        self.current_text@
    }

    pub closed spec fn current(&self) -> Option<u64> {
        self.current_text_id
    }

    /// The number the last text made got.
    pub closed spec fn counter(&self) -> nat {
        self.id_counter as nat
    }

    /// The list of numbers holds each text once, and no text has a number
    /// above the counter.
    pub open spec fn wf(&self) -> bool {
        &&& self.ids().no_duplicates()
        &&& forall|k: u64|
            #![trigger self.texts().contains_key(k)]
            #![trigger self.ids().contains(k)]
            self.texts().contains_key(k) <==> self.ids().contains(k)
        &&& forall|i: int| 0 <= i < self.ids().len() ==> #[trigger] self.ids()[i] <= self.counter()
    }

    pub fn new() -> (r: TextBoard)
        ensures
            r.wf(),
            r.texts() == Map::<u64, String>::empty(),
            r.buffer().len() == 0,
            r.current() is None,
            r.counter() == 0,
    {
        TextBoard {
            all_text: HashMap::new(),
            order: Vec::new(),
            current_text: String::new(),
            current_text_id: None,
            id_counter: 0,
        }
    }

    /// The numbers of the texts, in the order they were made.
    pub fn text_ids(&self) -> (r: &Vec<u64>)
        ensures
            r@ == self.ids(),
    {
        &self.order
    }

    /// The text shown in the board's editor.
    pub fn current_text(&self) -> (r: &String)
        ensures
            r@ == self.buffer(),
    {
        &self.current_text
    }

    pub fn current_text_id(&self) -> (r: Option<u64>)
        ensures
            r == self.current(),
    {
        self.current_text_id
    }

    /// Creating a text adds an empty one with the next number and selects
    /// it; selecting loads a text into the editor; an edit is stored under
    /// the selected number; deleting removes the selected text and selects
    /// the text whose label comes first, if any is left.
    pub fn update(&mut self, message: TextBoardMessage) -> (r: Option<TextBoardMessage>)
        requires
            old(self).wf(),
            message is CreateNewText ==> old(self).counter() < u64::MAX,
        ensures
            final(self).wf(),
            match message {
                TextBoardMessage::CreateNewText => {
                    let n = (old(self).counter() + 1) as u64;
                    &&& final(self).counter() == n
                    &&& final(self).texts() == old(self).texts().insert(n, final(self).texts()[n])
                    &&& final(self).texts()[n]@.len() == 0
                    &&& final(self).ids() == old(self).ids().push(n)
                    &&& final(self).current() == Some(n)
                    &&& r matches Some(TextBoardMessage::LoadSelectedText)
                },
                TextBoardMessage::ChangeText(n) => {
                    &&& final(self).current() == Some(n)
                    &&& final(self).texts() == old(self).texts()
                    &&& r matches Some(TextBoardMessage::LoadSelectedText)
                },
                TextBoardMessage::LoadSelectedText => {
                    &&& final(self).texts() == old(self).texts()
                    &&& final(self).current() == old(self).current()
                    &&& if old(self).current() is Some && old(self).texts().contains_key(old(self).current()->Some_0) {
                        r is None && final(self).buffer() == old(self).texts()[old(self).current()->Some_0]@
                    } else {
                        r matches Some(TextBoardMessage::HandError(AppError::PreviewError(_)))
                    }
                },
                TextBoardMessage::EditorAction(t) => {
                    &&& r is None
                    &&& final(self).buffer() == t@
                    &&& final(self).current() == old(self).current()
                    &&& match old(self).current() {
                        Some(n) => final(self).texts() == old(self).texts().insert(n, t),
                        None => final(self).texts() == old(self).texts(),
                    }
                },
                TextBoardMessage::DeleteSelectedText => {
                    if old(self).current() is Some && old(self).texts().contains_key(old(self).current()->Some_0) {
                        &&& final(self).texts() == old(self).texts().remove(old(self).current()->Some_0)
                        &&& if final(self).ids().len() == 0 {
                            r is None && final(self).current() == old(self).current()
                        } else {
                            &&& r matches Some(TextBoardMessage::LoadSelectedText)
                            &&& final(self).current() matches Some(m) && final(self).texts().contains_key(m)
                                && forall|k: u64| #[trigger] final(self).texts().contains_key(k) ==> !label_lt(k, m)
                        }
                    } else {
                        &&& r matches Some(TextBoardMessage::HandError(AppError::PreviewError(_)))
                        &&& final(self).texts() == old(self).texts()
                        &&& final(self).current() == old(self).current()
                    }
                },
                TextBoardMessage::HandError(_) => r is None && final(self).texts() == old(self).texts()
                    && final(self).current() == old(self).current(),
            },
    {
        match message {
            TextBoardMessage::CreateNewText => {
                self.id_counter = self.id_counter + 1;
                let n = self.id_counter;
                assert(!self.order@.contains(n));
                self.all_text.insert(n, String::new());
                self.order.push(n);
                self.current_text_id = Some(n);
                proof {
                    assert forall|k: u64| #[trigger] self.texts().contains_key(k) <==> self.ids().contains(k) by {
                        lemma_push_contains(old(self).ids(), n, k);
                    }
                    assert forall|k: u64| #[trigger] self.ids().contains(k) implies self.texts().contains_key(k) by {
                        lemma_push_contains(old(self).ids(), n, k);
                    }
                    assert forall|i: int, j: int| 0 <= i < j < self.ids().len() implies self.ids()[i] != self.ids()[j] by {
                        if j == self.ids().len() - 1 {
                            assert(old(self).ids()[i] <= old(self).counter());
                        }
                    }
                }
                Some(TextBoardMessage::LoadSelectedText)
            },
            TextBoardMessage::ChangeText(n) => {
                self.current_text_id = Some(n);
                Some(TextBoardMessage::LoadSelectedText)
            },
            TextBoardMessage::LoadSelectedText => {
                match self.current_text_id {
                    Some(n) => match self.all_text.get(&n) {
                        Some(t) => {
                            self.current_text = t.clone();
                            None
                        },
                        None => Some(TextBoardMessage::HandError(AppError::PreviewError("文本加载失败!".to_owned()))),
                    },
                    None => Some(TextBoardMessage::HandError(AppError::PreviewError("文本加载失败!".to_owned()))),
                }
            },
            TextBoardMessage::EditorAction(t) => {
                self.current_text = t.clone();
                match self.current_text_id {
                    Some(n) => {
                        let fresh = !self.all_text.contains_key(&n);
                        if fresh {
                            if n > self.id_counter {
                                self.id_counter = n;
                            }
                            self.order.push(n);
                        }
                        self.all_text.insert(n, t);
                        proof {
                            if fresh {
                                assert(self.ids() == old(self).ids().push(n));
                                assert forall|k: u64| #[trigger] self.texts().contains_key(k) <==> self.ids().contains(k) by {
                                    lemma_push_contains(old(self).ids(), n, k);
                                }
                                assert forall|k: u64| #[trigger] self.ids().contains(k) implies self.texts().contains_key(k) by {
                                    lemma_push_contains(old(self).ids(), n, k);
                                }
                                assert forall|i: int, j: int| 0 <= i < j < self.ids().len() implies self.ids()[i] != self.ids()[j] by {
                                    if j == self.ids().len() - 1 {
                                        assert(old(self).ids().contains(old(self).ids()[i]));
                                        assert(old(self).ids()[i] != n);
                                    }
                                }
                                assert forall|i: int| 0 <= i < self.ids().len() implies #[trigger] self.ids()[i] <= self.counter() by {
                                    if i < old(self).ids().len() {
                                        assert(self.ids()[i] == old(self).ids()[i]);
                                    }
                                }
                            } else {
                                assert(self.ids() == old(self).ids());
                                assert forall|k: u64| #[trigger] self.texts().contains_key(k) <==> self.ids().contains(k) by {
                                    if k == n {
                                        assert(old(self).texts().contains_key(n));
                                    }
                                }
                            }
                        }
                    },
                    None => {},
                }
                None
            },
            TextBoardMessage::DeleteSelectedText => {
                let n = match self.current_text_id {
                    Some(n) => n,
                    None => {
                        return Some(TextBoardMessage::HandError(AppError::PreviewError("文本删除失败!".to_owned())));
                    },
                };
                if !self.all_text.contains_key(&n) {
                    return Some(TextBoardMessage::HandError(AppError::PreviewError("文本删除失败!".to_owned())));
                }
                let _ = self.all_text.remove(&n);
                let pos = self.position_of(n);
                let _ = self.order.remove(pos);
                proof {
                    let o = old(self).ids();
                    assert(self.ids() =~= o.subrange(0, pos as int) + o.subrange(pos + 1, o.len() as int));
                    assert forall|i: int, j: int| 0 <= i < j < self.ids().len() implies self.ids()[i] != self.ids()[j] by {
                        let a = if i < pos { i } else { i + 1 };
                        let b = if j < pos { j } else { j + 1 };
                        assert(self.ids()[i] == o[a]);
                        assert(self.ids()[j] == o[b]);
                    }
                    assert forall|k: u64| #[trigger] self.texts().contains_key(k) <==> self.ids().contains(k) by {
                        if self.ids().contains(k) {
                            let i = self.ids().index_of(k);
                            let a = if i < pos { i } else { i + 1 };
                            assert(o[a] == k);
                            assert(o[a] != n);
                        }
                        if k != n && o.contains(k) {
                            let a = o.index_of(k);
                            assert(a != pos);
                            let i = if a < pos { a } else { a - 1 };
                            assert(self.ids()[i] == k);
                        }
                    }
                    assert forall|i: int| 0 <= i < self.ids().len() implies #[trigger] self.ids()[i] <= self.counter() by {
                        let a = if i < pos { i } else { i + 1 };
                        assert(self.ids()[i] == o[a]);
                    }
                }
                if self.order.len() == 0 {
                    return None;
                }
                let first = self.first_label();
                self.current_text_id = Some(first);
                Some(TextBoardMessage::LoadSelectedText)
            },
            TextBoardMessage::HandError(_) => None,
        }
    }

    /// Where `n` stands in the list of numbers.
    fn position_of(&self, n: u64) -> (r: usize)
        requires
            self.ids().contains(n),
        ensures
            r < self.ids().len(),
            self.ids()[r as int] == n,
    {
        let mut i: usize = 0;
        while i < self.order.len()
            invariant
                i <= self.ids().len(),
                self.ids().contains(n),
                forall|j: int| 0 <= j < i ==> self.ids()[j] != n,
            decreases self.ids().len() - i,
        {
            if self.order[i] == n {
                return i;
            }
            i = i + 1;
        }
        proof {
            let j = self.ids().index_of(n);
            assert(self.ids()[j] == n);
        }
        0
    }

    /// The text whose label comes first.
    fn first_label(&self) -> (r: u64)
        requires
            self.wf(),
            self.ids().len() > 0,
        ensures
            self.texts().contains_key(r),
            forall|k: u64| #[trigger] self.texts().contains_key(k) ==> !label_lt(k, r),
    {
        let mut best = self.order[0];
        proof {
            lemma_lex_lt_irreflexive(digits(best as nat));
        }
        let mut i: usize = 1;
        while i < self.order.len()
            invariant
                1 <= i <= self.ids().len(),
                self.ids().contains(best),
                forall|j: int| 0 <= j < i ==> !label_lt(#[trigger] self.ids()[j], best),
            decreases self.ids().len() - i,
        {
            let candidate = self.order[i];
            if label_before(candidate, best) {
                proof {
                    assert forall|j: int| 0 <= j < i + 1 implies !label_lt(#[trigger] self.ids()[j], candidate) by {
                        if j < i && label_lt(self.ids()[j], candidate) {
                            lemma_lex_lt_transitive(digits(self.ids()[j] as nat), digits(candidate as nat), digits(best as nat));
                        }
                        if j == i {
                            assert(!lex_lt(digits(candidate as nat), digits(candidate as nat))) by {
                                lemma_lex_lt_irreflexive(digits(candidate as nat));
                            }
                        }
                    }
                }
                best = candidate;
            } else {
                assert(self.ids()[i as int] == candidate);
            }
            i = i + 1;
        }
        proof {
            assert forall|k: u64| #[trigger] self.texts().contains_key(k) implies !label_lt(k, best) by {
                let j = self.ids().index_of(k);
                assert(self.ids()[j] == k);
            }
        }
        best
    }
}

proof fn lemma_push_contains(s: Seq<u64>, n: u64, k: u64)
    ensures
        s.push(n).contains(k) <==> (s.contains(k) || k == n),
{
    if s.contains(k) {
        let i = choose|i: int| 0 <= i < s.len() && s[i] == k;
        assert(s.push(n)[i] == k);
    }
    if k == n {
        assert(s.push(n)[s.len() as int] == n);
    }
    if s.push(n).contains(k) {
        let i = choose|i: int| 0 <= i < s.len() + 1 && s.push(n)[i] == k;
        if i < s.len() {
            assert(s[i] == k);
        }
    }
}

proof fn lemma_lex_lt_irreflexive(a: Seq<nat>)
    ensures
        !lex_lt(a, a),
    decreases a.len(),
{
    if a.len() > 0 {
        lemma_lex_lt_irreflexive(a.drop_first());
    }
}

} // verus!
