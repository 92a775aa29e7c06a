//! Identifier allocation for tree nodes and for imported images.
use vstd::prelude::*;

verus! {

/// Hands out node ids and image display ids, each from its own counter.
/// Ids are never reused: every call returns the current counter and
/// moves it one step up.
pub struct IdAllocator {
    next_node: u32,
    next_img: u32,
}

impl IdAllocator {
    /// The next node id that will be handed out.
    pub closed spec fn next_node_id(&self) -> nat {
        self.next_node as nat
    }

    /// The next image display id that will be handed out.
    pub closed spec fn next_img_id(&self) -> nat {
        self.next_img as nat
    }

    /// Node ids start at 0, image display ids at 1.
    pub fn new() -> (r: IdAllocator)
        ensures
            r.next_node_id() == 0,
            r.next_img_id() == 1,
    {
        IdAllocator { next_node: 0, next_img: 1 }
    }

    /// Hands out the `n` node ids from the result on, in one step.
    pub fn reserve_node_ids(&mut self, n: usize) -> (r: u32)
        requires
            old(self).next_node_id() + n <= u32::MAX,
        ensures
            r == old(self).next_node_id(),
            final(self).next_node_id() == old(self).next_node_id() + n,
            final(self).next_img_id() == old(self).next_img_id(),
    {
        let r = self.next_node;
        self.next_node = self.next_node + n as u32;
        r
    }

    /// Hands out the `n` image display ids from the result on, in one step.
    pub fn reserve_img_ids(&mut self, n: usize) -> (r: u32)
        requires
            old(self).next_img_id() + n <= u32::MAX,
        ensures
            r == old(self).next_img_id(),
            final(self).next_img_id() == old(self).next_img_id() + n,
            final(self).next_node_id() == old(self).next_node_id(),
    {
        let r = self.next_img;
        self.next_img = self.next_img + n as u32;
        r
    }

    /// Whether `n` more node ids can be handed out.
    pub fn has_node_ids(&self, n: usize) -> (r: bool)
        ensures
            r == (self.next_node_id() + n <= u32::MAX),
    {
        (n as u64) <= (u32::MAX - self.next_node) as u64
    }

    /// Whether `n` more image display ids can be handed out.
    pub fn has_img_ids(&self, n: usize) -> (r: bool)
        ensures
            r == (self.next_img_id() + n <= u32::MAX),
    {
        (n as u64) <= (u32::MAX - self.next_img) as u64
    }
}

/// One call of `get_next_id`: `id` is what it returned, taking the
/// allocator from `before` to `after`.
pub open spec fn node_id_step(before: IdAllocator, id: u32, after: IdAllocator) -> bool {
    &&& id == before.next_node_id()
    &&& after.next_node_id() == before.next_node_id() + 1
    &&& after.next_img_id() == before.next_img_id()
}

/// One call of `get_next_img_id`.
pub open spec fn img_id_step(before: IdAllocator, id: u32, after: IdAllocator) -> bool {
    &&& id == before.next_img_id()
    &&& after.next_img_id() == before.next_img_id() + 1
    &&& after.next_node_id() == before.next_node_id()
}

/// Returns a fresh node id.
pub fn get_next_id(ids: &mut IdAllocator) -> (r: u32)
    requires
        old(ids).next_node_id() < u32::MAX,
    ensures
        node_id_step(*old(ids), r, *final(ids)),
{
    let r = ids.next_node;
    ids.next_node = ids.next_node + 1;
    r
}

/// Returns a fresh image display id.
pub fn get_next_img_id(ids: &mut IdAllocator) -> (r: u32)
    requires
        old(ids).next_img_id() < u32::MAX,
    ensures
        img_id_step(*old(ids), r, *final(ids)),
{
    let r = ids.next_img;
    ids.next_img = ids.next_img + 1;
    r
}

/// Ids from a run of node-id calls: the `i`-th call returned `ids[i]` and
/// took the allocator from `states[i]` to `states[i + 1]`.
pub open spec fn node_id_run(states: Seq<IdAllocator>, ids: Seq<u32>) -> bool {
    &&& states.len() == ids.len() + 1
    &&& forall|i: int| 0 <= i < ids.len() ==> node_id_step(states[i], ids[i], #[trigger] states[i + 1])
}

/// The same for image display ids.
pub open spec fn img_id_run(states: Seq<IdAllocator>, ids: Seq<u32>) -> bool {
    &&& states.len() == ids.len() + 1
    &&& forall|i: int| 0 <= i < ids.len() ==> img_id_step(states[i], ids[i], #[trigger] states[i + 1])
}

proof fn lemma_node_run_values(states: Seq<IdAllocator>, ids: Seq<u32>, k: int)
    requires
        node_id_run(states, ids),
        0 <= k <= ids.len(),
    ensures
        states[k].next_node_id() == states[0].next_node_id() + k,
        k < ids.len() ==> ids[k] == states[0].next_node_id() + k,
    decreases k,
{
    if k > 0 {
        let j = k - 1;
        lemma_node_run_values(states, ids, j);
        assert(node_id_step(states[j], ids[j], states[j + 1]));
    }
    if k < ids.len() {
        assert(node_id_step(states[k], ids[k], states[k + 1]));
    }
}

proof fn lemma_img_run_values(states: Seq<IdAllocator>, ids: Seq<u32>, k: int)
    requires
        img_id_run(states, ids),
        0 <= k <= ids.len(),
    ensures
        states[k].next_img_id() == states[0].next_img_id() + k,
        k < ids.len() ==> ids[k] == states[0].next_img_id() + k,
    decreases k,
{
    if k > 0 {
        let j = k - 1;
        lemma_img_run_values(states, ids, j);
        assert(img_id_step(states[j], ids[j], states[j + 1]));
    }
    if k < ids.len() {
        assert(img_id_step(states[k], ids[k], states[k + 1]));
    }
}

/// Any run of node-id calls returns pairwise distinct ids, all at or
/// above where the counter stood before the run and below where it
/// stands after.
pub proof fn lemma_node_ids_distinct(states: Seq<IdAllocator>, ids: Seq<u32>)
    requires
        node_id_run(states, ids),
    ensures
        forall|i: int, j: int| 0 <= i < j < ids.len() ==> ids[i] != ids[j],
        forall|i: int|
            0 <= i < ids.len() ==> states[0].next_node_id() <= #[trigger] ids[i]
                < states[ids.len() as int].next_node_id(),
{
    assert forall|i: int| 0 <= i < ids.len() implies ids[i] == states[0].next_node_id() + i by {
        lemma_node_run_values(states, ids, i);
    }
    lemma_node_run_values(states, ids, ids.len() as int);
}

/// Any run of image-id calls returns pairwise distinct ids.
pub proof fn lemma_img_ids_distinct(states: Seq<IdAllocator>, ids: Seq<u32>)
    requires
        img_id_run(states, ids),
    ensures
        forall|i: int, j: int| 0 <= i < j < ids.len() ==> ids[i] != ids[j],
{
    assert forall|i: int| 0 <= i < ids.len() implies ids[i] == states[0].next_img_id() + i by {
        lemma_img_run_values(states, ids, i);
    }
}

} // verus!
