//! Owner election and the decisions of an access to a thread-affine pool,
//! with a model of a pool's contents over a sequence of accesses and the
//! laws that hold of that model.

use vstd::prelude::*;

verus! {

/// The identity that marks a pool whose owner slot is still unclaimed.
pub const UNOWNED: usize = 0;

/// The path that an access takes.
#[derive(PartialEq, Eq, Structural, Debug, Clone, Copy)]
pub enum Route {
    /// The thread owns the pool: serve the pre-built value, take no lock.
    Owner,
    /// Nobody owns the pool yet: try to claim it for this thread.
    Claim,
    /// Another thread owns the pool: go through the locked mapping.
    Fallback,
}

/// The path for thread `id` after it read `seen` from the owner slot.
pub open spec fn route_of(seen: usize, id: usize) -> Route {
    if seen == id {
        Route::Owner
    } else if seen == UNOWNED {
        Route::Claim
    } else {
        Route::Fallback
    }
}

/// Decides the path for thread `id` after it read `seen` from the owner slot.
pub fn route(seen: usize, id: usize) -> (r: Route)
    ensures
        r == route_of(seen, id),
{
    if seen == id {
        Route::Owner
    } else if seen == UNOWNED {
        Route::Claim
    } else {
        Route::Fallback
    }
}

/// What an access does once it knows the owner slot, and whether the
/// mapping holds a value for the accessing thread.
#[derive(PartialEq, Eq, Structural, Debug, Clone, Copy)]
pub enum Action {
    /// Serve the owner's value.
    ServeOwner,
    /// Serve the value cached for the thread.
    ServeCached,
    /// Build a value for the thread and publish it in the mapping.
    Build,
}

/// The action of thread `id`, where `observed` is the owner slot as the
/// thread last saw it (`UNOWNED` where its own claim took the slot) and
/// `cached` tells whether the mapping holds a value for `id`.
pub open spec fn action_for(observed: usize, id: usize, cached: bool) -> Action {
    match route_of(observed, id) {
        Route::Fallback => if cached {
            Action::ServeCached
        } else {
            Action::Build
        },
        _ => Action::ServeOwner,
    }
}

/// Decides the action of thread `id` from the owner slot as it last saw it
/// and from the outcome of its lookup in the mapping.
pub fn step(observed: usize, id: usize, cached: bool) -> (a: Action)
    ensures
        a == action_for(observed, id, cached),
{
    match route(observed, id) {
        Route::Fallback => if cached {
            Action::ServeCached
        } else {
            Action::Build
        },
        _ => Action::ServeOwner,
    }
}

/// The owner slot as a thread sees it after it tried to claim a free slot:
/// `UNOWNED` where its claim took the slot, else the owner that beat it.
pub open spec fn after_claim(outcome: Result<usize, usize>) -> usize {
    match outcome {
        Ok(_) => UNOWNED,
        Err(owner) => owner,
    }
}

/// Reads the outcome of a compare-and-swap of the owner slot from
/// `UNOWNED` to the thread's own identity.
pub fn observe_claim(outcome: Result<usize, usize>) -> (observed: usize)
    ensures
        observed == after_claim(outcome),
{
    match outcome {
        Ok(_) => UNOWNED,
        Err(owner) => owner,
    }
}

/// Which of a pool's values an access is served.
#[derive(PartialEq, Eq, Structural, Debug, Clone, Copy)]
pub enum Slot {
    /// The value built when the pool was made, reserved for its owner.
    Owner,
    /// The value cached for the given thread identity.
    Cached(usize),
}

/// A pool's contents, as a sequence of accesses sees them: the owner slot,
/// the owner's value and the fallback mapping.
pub struct PoolState<V> {
    pub owner: usize,
    pub owned: V,
    pub cache: Map<usize, V>,
}

/// A pool just made, whose constructor returned `owned`.
pub open spec fn initial<V>(owned: V) -> PoolState<V> {
    PoolState { owner: UNOWNED, owned, cache: Map::empty() }
}

/// Whether an access by `id` calls the constructor.
pub open spec fn builds<V>(s: PoolState<V>, id: usize) -> bool {
    route_of(s.owner, id) == Route::Fallback && !s.cache.contains_key(id)
}

/// One access by thread `id`; `fresh` is what the constructor returns if the
/// access calls it. Yields the next state and the slot served.
pub open spec fn access<V>(s: PoolState<V>, id: usize, fresh: V) -> (PoolState<V>, Slot) {
    match route_of(s.owner, id) {
        Route::Owner => (s, Slot::Owner),
        Route::Claim => (PoolState { owner: id, ..s }, Slot::Owner),
        Route::Fallback => if s.cache.contains_key(id) {
            (s, Slot::Cached(id))
        } else {
            (PoolState { cache: s.cache.insert(id, fresh), ..s }, Slot::Cached(id))
        },
    }
}

/// The value held in `slot`.
pub open spec fn value_at<V>(s: PoolState<V>, slot: Slot) -> V {
    match slot {
        Slot::Owner => s.owned,
        Slot::Cached(id) => s.cache[id],
    }
}

/// The state after the accesses `ids`, in order; the `i`-th access that
/// calls the constructor gets `fresh(i)`.
pub open spec fn run<V>(s: PoolState<V>, ids: Seq<usize>, fresh: spec_fn(nat) -> V) -> PoolState<V>
    decreases ids.len(),
{
    if ids.len() == 0 {
        s
    } else {
        let n: nat = if builds(s, ids[0]) { 1 } else { 0 };
        run(
            access(s, ids[0], fresh(0)).0,
            ids.drop_first(),
            |i: nat| fresh(i + n),
        )
    }
}

/// The action of an access by `id` to the model state `s`.
pub open spec fn action_of<V>(s: PoolState<V>, id: usize) -> Action {
    action_for(s.owner, id, s.cache.contains_key(id))
}

/// In the model, the action that [`step`] decides is the access itself:
/// serving the owner's value is taking the owner slot, serving the cached
/// value leaves the state as it was, and building is the one case that
/// calls the constructor, whose value then goes into the mapping under `id`
/// and is served.
pub proof fn lemma_action_is_access<V>(s: PoolState<V>, id: usize, fresh: V)
    ensures
        (action_of(s, id) == Action::ServeOwner) == (access(s, id, fresh).1 == Slot::Owner),
        action_of(s, id) == Action::ServeOwner ==> access(s, id, fresh).0.owner == id
            && access(s, id, fresh).0.cache == s.cache
            && value_at(access(s, id, fresh).0, Slot::Owner) == s.owned,
        action_of(s, id) == Action::ServeCached ==> access(s, id, fresh) == (s, Slot::Cached(id)),
        (action_of(s, id) == Action::Build) == builds(s, id),
        action_of(s, id) == Action::Build ==> access(s, id, fresh).0.cache == s.cache.insert(id, fresh)
            && value_at(access(s, id, fresh).0, access(s, id, fresh).1) == fresh,
{
}

/// How many of the accesses `ids`, in order, call the constructor.
pub open spec fn constructions<V>(s: PoolState<V>, ids: Seq<usize>, fresh: spec_fn(nat) -> V) -> nat
    decreases ids.len(),
{
    if ids.len() == 0 {
        0
    } else {
        let n: nat = if builds(s, ids[0]) { 1 } else { 0 };
        n + constructions(
            access(s, ids[0], fresh(0)).0,
            ids.drop_first(),
            |i: nat| fresh(i + n),
        )
    }
}

/// Accesses by `id` alone, from a state that `id` owns or that nobody owns,
/// call no constructor and leave the mapping and the owner's value as they were.
proof fn lemma_owner_run<V>(s: PoolState<V>, id: usize, ids: Seq<usize>, fresh: spec_fn(nat) -> V)
    requires
        id != UNOWNED,
        s.owner == id || s.owner == UNOWNED,
        forall|i: int| 0 <= i < ids.len() ==> ids[i] == id,
    ensures
        constructions(s, ids, fresh) == 0,
        run(s, ids, fresh).cache == s.cache,
        run(s, ids, fresh).owned == s.owned,
        run(s, ids, fresh).owner == id || run(s, ids, fresh).owner == s.owner,
    decreases ids.len(),
{
    if ids.len() > 0 {
        let t = access(s, ids[0], fresh(0)).0;
        assert(!builds(s, ids[0]));
        lemma_owner_run(t, id, ids.drop_first(), |i: nat| fresh(i + 0));
    }
}

/// In the model: a thread that is alone in using a pool is served the value
/// built when the pool was made on every access, and the constructor is
/// never called again.
pub proof fn lemma_single_thread_builds_once<V>(
    owned: V,
    id: usize,
    ids: Seq<usize>,
    fresh: spec_fn(nat) -> V,
    k: int,
    x: V,
)
    requires
        id != UNOWNED,
        forall|i: int| 0 <= i < ids.len() ==> ids[i] == id,
        0 <= k <= ids.len(),
    ensures
        constructions(initial(owned), ids, fresh) == 0,
        run(initial(owned), ids, fresh).cache == Map::<usize, V>::empty(),
        access(run(initial(owned), ids.take(k), fresh), id, x).1 == Slot::Owner,
        value_at(run(initial(owned), ids.take(k), fresh), Slot::Owner) == owned,
{
    lemma_owner_run(initial(owned), id, ids, fresh);
    lemma_owner_run(initial(owned), id, ids.take(k), fresh);
}

/// Once a pool has an owner, no access changes the owner or its value.
proof fn lemma_owner_kept<V>(s: PoolState<V>, ids: Seq<usize>, fresh: spec_fn(nat) -> V)
    requires
        s.owner != UNOWNED,
    ensures
        run(s, ids, fresh).owner == s.owner,
        run(s, ids, fresh).owned == s.owned,
    decreases ids.len(),
{
    if ids.len() > 0 {
        let n: nat = if builds(s, ids[0]) { 1 } else { 0 };
        lemma_owner_kept(access(s, ids[0], fresh(0)).0, ids.drop_first(), |i: nat| fresh(i + n));
    }
}

/// In the model: the first thread to access a fresh pool owns it for good: whatever
/// accesses follow, it is served the owner's value without a constructor
/// call, and any other thread is served the value cached under its own
/// identity instead.
pub proof fn lemma_first_thread_owns<V>(
    owned: V,
    ids: Seq<usize>,
    fresh: spec_fn(nat) -> V,
    other: usize,
    x: V,
)
    requires
        ids.len() > 0,
        ids[0] != UNOWNED,
        other != ids[0],
    ensures
        ({
            let t = run(initial(owned), ids, fresh);
            &&& t.owner == ids[0]
            &&& access(t, ids[0], x) == (t, Slot::Owner)
            &&& value_at(t, Slot::Owner) == owned
            &&& !builds(t, ids[0])
            &&& access(t, other, x).1 == Slot::Cached(other)
        }),
{
    let s = initial(owned);
    let n: nat = if builds(s, ids[0]) { 1 } else { 0 };
    lemma_owner_kept(access(s, ids[0], fresh(0)).0, ids.drop_first(), |i: nat| fresh(i + n));
}

/// In the model: accesses by threads other than `b` leave the value cached
/// for `b` as it was, once the pool has an owner other than `b`, and `b` is
/// served that value.
pub proof fn lemma_no_sharing_between_threads<V>(
    s: PoolState<V>,
    b: usize,
    ids: Seq<usize>,
    fresh: spec_fn(nat) -> V,
)
    requires
        s.owner != UNOWNED,
        s.owner != b,
        s.cache.contains_key(b),
        forall|i: int| 0 <= i < ids.len() ==> ids[i] != b,
    ensures
        run(s, ids, fresh).cache.contains_key(b),
        run(s, ids, fresh).cache[b] == s.cache[b],
        access(run(s, ids, fresh), b, fresh(0)) == (run(s, ids, fresh), Slot::Cached(b)),
    decreases ids.len(),
{
    lemma_owner_kept(s, ids, fresh);
    if ids.len() > 0 {
        let n: nat = if builds(s, ids[0]) { 1 } else { 0 };
        let t = access(s, ids[0], fresh(0)).0;
        assert forall|i: int| 0 <= i < ids.drop_first().len() implies ids.drop_first()[i] != b by {
            assert(ids.drop_first()[i] == ids[i + 1]);
        }
        lemma_no_sharing_between_threads(t, b, ids.drop_first(), |i: nat| fresh(i + n));
    }
}

} // verus!
