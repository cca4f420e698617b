use vstd::prelude::*;

use crate::types::{hash_eq, Block, BlockHash, BlockState};

verus! {

/// A block is final enough to cache durably once at least `safety_margin`
/// blocks stand on top of it: its depth below the latest block is at least
/// the margin.
pub open spec fn is_confirmed(number: u64, latest: u64, safety_margin: usize) -> bool {
    number + safety_margin <= latest
}

pub fn block_is_confirmed(number: u64, latest: u64, safety_margin: usize) -> (r: bool)
    ensures
        r == is_confirmed(number, latest, safety_margin),
{
    (number as u128) + (safety_margin as u128) <= (latest as u128)
}

/// Some known header says that the block `child` has the parent `parent`.
pub open spec fn links(arena: Seq<Block>, child: Seq<u8>, parent: Seq<u8>) -> bool {
    exists|i: int|
        0 <= i < arena.len() && #[trigger] arena[i].hash@ == child && arena[i].parent_hash@
            == parent
}

/// Each block of `path` has the next one as its parent, by the known headers.
pub open spec fn is_chain(arena: Seq<Block>, path: Seq<Seq<u8>>) -> bool {
    forall|i: int| 0 <= i < path.len() - 1 ==> #[trigger] links(arena, path[i], path[i + 1])
}

/// Following `k` parent links from `desc` through the known headers leads to `anc`.
pub open spec fn reaches(arena: Seq<Block>, desc: Seq<u8>, anc: Seq<u8>, k: nat) -> bool {
    exists|path: Seq<Seq<u8>>|
        #![trigger is_chain(arena, path)]
        path.len() == k + 1 && path[0] == desc && path[k as int] == anc && is_chain(arena, path)
}

/// `anc` is a proper ancestor of `desc` by the known headers.
pub open spec fn is_ancestor(arena: Seq<Block>, anc: Seq<u8>, desc: Seq<u8>) -> bool {
    exists|k: nat| k > 0 && #[trigger] reaches(arena, desc, anc, k)
}

/// No two known headers are for the same block.
pub open spec fn unique_headers(arena: Seq<Block>) -> bool {
    forall|i: int, j: int|
        0 <= i < arena.len() && 0 <= j < arena.len() && i != j ==> #[trigger] arena[i].hash@
            != #[trigger] arena[j].hash@
}

/// With one header per block, two chains from the same block agree step by step.
pub proof fn lemma_chains_agree(arena: Seq<Block>, p: Seq<Seq<u8>>, q: Seq<Seq<u8>>, n: int)
    requires
        unique_headers(arena),
        is_chain(arena, p),
        is_chain(arena, q),
        0 <= n < p.len(),
        n < q.len(),
        p[0] == q[0],
    ensures
        p[n] == q[n],
    decreases n,
{
    if n > 0 {
        lemma_chains_agree(arena, p, q, n - 1);
        assert(links(arena, p[n - 1], p[(n - 1) + 1]));
        assert(links(arena, q[n - 1], q[(n - 1) + 1]));
        let i = choose|i: int|
            0 <= i < arena.len() && #[trigger] arena[i].hash@ == p[n - 1] && arena[i].parent_hash@
                == p[n];
        let i2 = choose|i: int|
            0 <= i < arena.len() && #[trigger] arena[i].hash@ == q[n - 1] && arena[i].parent_hash@
                == q[n];
        assert(i == i2);
    }
}

/// Once a walk from `target` has met no block cached for `initial` in its first `d` steps,
/// no chain of at most `d` steps from `target` ends at a cached block; if the
/// walk is stuck (the last block has no known header), no longer chain exists.
pub proof fn lemma_walk_exhausts<T>(
    cache: &StateCache<T>,
    initial: u64,
    arena: Seq<Block>,
    target: Seq<u8>,
    path: Seq<Seq<u8>>,
    d: int,
    stuck: bool,
)
    requires
        unique_headers(arena),
        is_chain(arena, path),
        d >= 0,
        path.len() == d + 1,
        path[0] == target,
        forall|j: int| 1 <= j <= d ==> !cache.holds(initial, #[trigger] path[j]),
        stuck ==> forall|i: int| 0 <= i < arena.len() ==> arena[i].hash@ != path[d],
    ensures
        forall|h: Seq<u8>, k: nat|
            1 <= k && (k <= d || stuck) && #[trigger] reaches(arena, target, h, k) ==> !cache.holds(
                initial,
                h,
            ),
{
    assert forall|h: Seq<u8>, k: nat|
        1 <= k && (k <= d || stuck) && #[trigger] reaches(arena, target, h, k) implies !cache.holds(
        initial,
        h,
    ) by {
        let q = choose|q: Seq<Seq<u8>>|
            #![trigger is_chain(arena, q)]
            q.len() == k + 1 && q[0] == target && q[k as int] == h && is_chain(arena, q);
        if k <= d {
            lemma_chains_agree(arena, path, q, k as int);
        } else {
            lemma_chains_agree(arena, path, q, d);
            assert(links(arena, q[d], q[d + 1]));
        }
    }
}

/// Finds the header of the block `h` among the known headers.
pub fn find_block(arena: &Vec<Block>, h: &BlockHash) -> (r: Option<usize>)
    ensures
        match r {
            Some(i) => i < arena@.len() && arena@[i as int].hash@ == h@,
            None => forall|i: int| 0 <= i < arena@.len() ==> arena@[i].hash@ != h@,
        },
{
    let mut i: usize = 0;
    while i < arena.len()
        invariant
            0 <= i <= arena@.len(),
            forall|j: int| 0 <= j < i ==> arena@[j].hash@ != h@,
        decreases arena@.len() - i,
    {
        if hash_eq(&arena[i].hash, h) {
            return Some(i);
        }
        i = i + 1;
    }
    None
}

/// How to answer a query for a block's state.
#[derive(Clone, Copy, Debug, PartialEq, Eq, Structural)]
pub enum QueryPlan {
    /// The block's own state is cached at this entry.
    Cached { entry: usize },
    /// The cached state at this entry belongs to an ancestor `depth` blocks
    /// below: fold forward from it.
    Resume { entry: usize, depth: usize },
    /// No cached ancestor was found: start from scratch.
    ColdSync,
}

/// A state kept in the cache, with the initial state it was computed from.
#[derive(Clone, Debug, PartialEq, Eq)]
pub struct CachedState<T> {
    pub initial_state: u64,
    pub block_state: BlockState<T>,
}

/// The entry is for block `h` computed from `initial`.
pub open spec fn entry_for<T>(e: CachedState<T>, initial: u64, h: Seq<u8>) -> bool {
    e.initial_state == initial && e.block_state.block.hash@ == h
}

/// What recording `state`, computed from `initial`, against `latest` did to
/// the cache: it kept the state exactly when the block is confirmed (replacing
/// any state for the same block and initial state), and otherwise left the
/// cache as it was; every other entry stays.
pub open spec fn recorded<T>(
    before: StateCache<T>,
    after: StateCache<T>,
    initial: u64,
    state: BlockState<T>,
    latest: u64,
    safety_margin: usize,
    r: bool,
) -> bool {
    &&& r == is_confirmed(state.block.number, latest, safety_margin)
    &&& !r ==> after.entries() == before.entries()
    &&& r ==> after.holds(initial, state.block.hash@)
    &&& r ==> forall|i: int|
        0 <= i < after.entries().len() && entry_for(
            #[trigger] after.entries()[i],
            initial,
            state.block.hash@,
        ) ==> after.entries()[i] == (CachedState { initial_state: initial, block_state: state })
    &&& forall|i: int|
        0 <= i < before.entries().len() && !entry_for(
            #[trigger] before.entries()[i],
            initial,
            state.block.hash@,
        ) ==> exists|j: int|
            0 <= j < after.entries().len() && after.entries()[j] == before.entries()[i]
}

/// What a plan for `target` under `initial` promises: the cache answers
/// directly exactly when it holds the target for that initial state; a resume
/// starts from the nearest block cached for that initial state that the
/// headers prove to be an ancestor; a cold start happens only when, with one
/// header per block, no such ancestor is within reach of the headers.
pub open spec fn plan_sound<T>(
    cache: StateCache<T>,
    initial: u64,
    arena: Seq<Block>,
    target: Seq<u8>,
    r: QueryPlan,
) -> bool {
    &&& r is Cached <==> cache.holds(initial, target)
    &&& match r {
        QueryPlan::Cached { entry } => entry < cache.entries().len() && entry_for(
            cache.entries()[entry as int],
            initial,
            target,
        ),
        QueryPlan::Resume { entry, depth } => {
            let anc = cache.entries()[entry as int].block_state.block.hash@;
            &&& entry < cache.entries().len()
            &&& cache.entries()[entry as int].initial_state == initial
            &&& depth > 0
            &&& reaches(arena, target, anc, depth as nat)
            &&& is_ancestor(arena, anc, target)
            &&& unique_headers(arena) ==> forall|h: Seq<u8>, k: nat|
                1 <= k < depth && #[trigger] reaches(arena, target, h, k) ==> !cache.holds(
                    initial,
                    h,
                )
        },
        QueryPlan::ColdSync => unique_headers(arena) ==> forall|h: Seq<u8>, k: nat|
            1 <= k <= arena.len() && #[trigger] reaches(arena, target, h, k) ==> !cache.holds(
                initial,
                h,
            ),
    }
}

/// A reorganization cannot leak a stale state: a cached state for a block
/// that is neither the queried block nor, by the current headers, one of its
/// ancestors is never the one a plan answers or resumes from.
pub proof fn lemma_no_stale_reuse<T>(
    cache: StateCache<T>,
    initial: u64,
    arena: Seq<Block>,
    target: Seq<u8>,
    r: QueryPlan,
    stale: Seq<u8>,
)
    requires
        plan_sound(cache, initial, arena, target, r),
        stale != target,
        !is_ancestor(arena, stale, target),
    ensures
        r matches QueryPlan::Cached { entry } ==> cache.entries()[entry as int].block_state.block.hash@
            != stale,
        r matches QueryPlan::Resume { entry, .. } ==> cache.entries()[entry as int].block_state.block.hash@
            != stale,
{
}

/// The confirmation boundary: a state whose block lies exactly `safety_margin`
/// below the latest block is kept, so the next query for it is answered from
/// the cache with that very state; one block shallower it is not kept, and a
/// cache that did not hold that block still does not, so the next query
/// computes it again.
pub proof fn lemma_confirmation_boundary<T>(
    before: StateCache<T>,
    after: StateCache<T>,
    initial: u64,
    state: BlockState<T>,
    latest: u64,
    safety_margin: usize,
    r: bool,
    arena: Seq<Block>,
    plan: QueryPlan,
)
    requires
        recorded(before, after, initial, state, latest, safety_margin, r),
        plan_sound(after, initial, arena, state.block.hash@, plan),
    ensures
        state.block.number + safety_margin == latest ==> r && (plan matches QueryPlan::Cached { entry }
            && after.entries()[entry as int].block_state == state),
        state.block.number + safety_margin == latest + 1 && !before.holds(
            initial,
            state.block.hash@,
        ) ==> !r && !(plan is Cached),
{
    if state.block.number + safety_margin == latest {
        if let QueryPlan::Cached { entry } = plan {
            assert(entry_for(after.entries()[entry as int], initial, state.block.hash@));
        }
    }
}

/// Durable cache of states for confirmed blocks, at most one per block and
/// initial state.
pub struct StateCache<T> {
    entries: Vec<CachedState<T>>,
}

impl<T> StateCache<T> {
    pub closed spec fn entries(&self) -> Seq<CachedState<T>> {
        self.entries@
    }

    /// Some entry holds the state of block `h` computed from `initial`.
    pub open spec fn holds(&self, initial: u64, h: Seq<u8>) -> bool {
        exists|i: int| 0 <= i < self.entries().len() && entry_for(#[trigger] self.entries()[i], initial, h)
    }

    /// No two entries are for the same block and initial state.
    pub open spec fn wf(&self) -> bool {
        forall|i: int, j: int|
            0 <= i < self.entries().len() && 0 <= j < self.entries().len() && i != j
                ==> !entry_for(
                #[trigger] self.entries()[i],
                #[trigger] self.entries()[j].initial_state,
                self.entries()[j].block_state.block.hash@,
            )
    }

    pub fn new() -> (r: StateCache<T>)
        ensures
            r.wf(),
            r.entries().len() == 0,
    {
        StateCache { entries: Vec::new() }
    }

    pub fn len(&self) -> (r: usize)
        ensures
            r == self.entries().len(),
    {
        self.entries.len()
    }

    pub fn get(&self, entry: usize) -> (r: &BlockState<T>)
        requires
            entry < self.entries().len(),
        ensures
            *r == self.entries()[entry as int].block_state,
    {
        &self.entries[entry].block_state
    }

    /// Finds the entry for block `h` computed from `initial`.
    pub fn lookup(&self, initial: u64, h: &BlockHash) -> (r: Option<usize>)
        ensures
            match r {
                Some(i) => i < self.entries().len() && entry_for(self.entries()[i as int], initial, h@),
                None => !self.holds(initial, h@),
            },
    {
        let mut i: usize = 0;
        while i < self.entries.len()
            invariant
                0 <= i <= self.entries().len(),
                forall|j: int| 0 <= j < i ==> !entry_for(#[trigger] self.entries()[j], initial, h@),
            decreases self.entries().len() - i,
        {
            let e = &self.entries[i];
            if e.initial_state == initial && hash_eq(&e.block_state.block.hash, h) {
                return Some(i);
            }
            i = i + 1;
        }
        None
    }

    /// Keeps `state`, computed from `initial`, durably if its block is
    /// confirmed against `latest`; a block still within the safety margin is
    /// never kept. A state already cached for the same block and initial
    /// state is replaced.
    pub fn record(&mut self, initial: u64, state: BlockState<T>, latest: u64, safety_margin: usize) -> (r:
        bool)
        requires
            old(self).wf(),
        ensures
            final(self).wf(),
            recorded(*old(self), *final(self), initial, state, latest, safety_margin, r),
    {
        if !block_is_confirmed(state.block.number, latest, safety_margin) {
            return false;
        }
        let h = state.block.hash;
        let entry = CachedState { initial_state: initial, block_state: state };
        match self.lookup(initial, &h) {
            Some(i) => {
                self.entries.set(i, entry);
                assert(entry_for(self.entries()[i as int], initial, h@));
                assert(forall|j: int|
                    0 <= j < old(self).entries().len() && j != i ==> self.entries()[j] == old(
                        self,
                    ).entries()[j]);
            },
            None => {
                self.entries.push(entry);
                assert(entry_for(self.entries()[old(self).entries().len() as int], initial, h@));
                assert(forall|j: int|
                    0 <= j < old(self).entries().len() ==> self.entries()[j] == old(
                        self,
                    ).entries()[j]);
            },
        }
        true
    }

    /// While gathering the headers below a queried block (`arena`, the
    /// queried block first): the parent of the last header gathered, if at
    /// most `max_ancestry` headers are wanted, fewer are there, and no state
    /// for that parent under `initial` is cached yet.
    pub fn next_header_to_fetch(&self, initial: u64, arena: &Vec<Block>, max_ancestry: usize) -> (r:
        Option<BlockHash>)
        ensures
            match r {
                Some(h) => {
                    &&& 0 < arena@.len() < max_ancestry
                    &&& h == arena@.last().parent_hash
                    &&& !self.holds(initial, h@)
                },
                None => arena@.len() == 0 || arena@.len() >= max_ancestry || self.holds(
                    initial,
                    arena@.last().parent_hash@,
                ),
            },
    {
        if arena.len() == 0 || arena.len() >= max_ancestry {
            return None;
        }
        let parent = arena[arena.len() - 1].parent_hash;
        match self.lookup(initial, &parent) {
            Some(_) => None,
            None => Some(parent),
        }
    }

    /// Decides how to answer a query for block `target` under `initial`,
    /// walking parent links through the known headers `arena`. A cached state
    /// is reused only if it was computed from `initial`, and only for the
    /// target itself or for a block that the headers prove to be its
    /// ancestor; a cached block that a reorganization left off the target's
    /// chain is never resumed from.
    pub fn plan_query(&self, initial: u64, arena: &Vec<Block>, target: &BlockHash) -> (r: QueryPlan)
        ensures
            plan_sound(*self, initial, arena@, target@, r),
    {
        if let Some(e) = self.lookup(initial, target) {
            return QueryPlan::Cached { entry: e };
        }
        let mut cur: BlockHash = *target;
        let mut depth: usize = 0;
        let ghost mut path: Seq<Seq<u8>> = seq![target@];
        assert(is_chain(arena@, path));
        while depth < arena.len()
            invariant
                depth <= arena@.len(),
                path.len() == depth + 1,
                path[0] == target@,
                path[depth as int] == cur@,
                is_chain(arena@, path),
                !self.holds(initial, target@),
                forall|j: int| 1 <= j <= depth ==> !self.holds(initial, #[trigger] path[j]),
            decreases arena@.len() - depth,
        {
            let i = match find_block(arena, &cur) {
                Some(i) => i,
                None => {
                    proof {
                        if unique_headers(arena@) {
                            lemma_walk_exhausts(self, initial, arena@, target@, path, depth as int, true);
                        }
                    }
                    return QueryPlan::ColdSync;
                },
            };
            let parent = arena[i].parent_hash;
            proof {
                if unique_headers(arena@) {
                    lemma_walk_exhausts(self, initial, arena@, target@, path, depth as int, false);
                }
                assert(links(arena@, cur@, parent@));
                let next = path.push(parent@);
                assert forall|j: int| 0 <= j < next.len() - 1 implies #[trigger] links(
                    arena@,
                    next[j],
                    next[j + 1],
                ) by {
                    if j < path.len() - 1 {
                        assert(links(arena@, path[j], path[j + 1]));
                    }
                }
                assert(next[depth as int + 1] == parent@);
                assert forall|j: int| 1 <= j <= depth implies !self.holds(initial, #[trigger] next[j]) by {
                    assert(next[j] == path[j]);
                }
                path = next;
            }
            depth = depth + 1;
            cur = parent;
            if let Some(e) = self.lookup(initial, &cur) {
                assert(is_chain(arena@, path));
                assert(reaches(
                    arena@,
                    target@,
                    self.entries()[e as int].block_state.block.hash@,
                    depth as nat,
                ));
                return QueryPlan::Resume { entry: e, depth };
            }
        }
        proof {
            if unique_headers(arena@) {
                lemma_walk_exhausts(self, initial, arena@, target@, path, depth as int, false);
            }
        }
        QueryPlan::ColdSync
    }
}

} // verus!
