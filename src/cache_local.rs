use vstd::prelude::*;

verus! {

/// A per-request, write-once slot for one dependency type.
///
/// The slot starts empty. A resolution either finds the value already
/// built, or builds it; a successful build is kept for the rest of the
/// request, a failed one leaves the slot empty so that the next resolution
/// builds again.
pub struct CacheLocal<T> {
    slot: Option<T>,
}

impl<T> View for CacheLocal<T> {
    type V = Option<T>;

    closed spec fn view(&self) -> Option<T> {
        self.slot
    }
}

/// What the slot holds after a build that produced `built`.
pub open spec fn settled<T, E>(built: Result<T, E>) -> Option<T> {
    match built {
        Ok(v) => Some(v),
        Err(_) => None,
    }
}

/// `r` is what a caller receives for the build outcome `b`: a copy of the
/// built value, or the same error.
pub open spec fn handed_out<T: Clone, E>(b: Result<T, E>, r: Result<T, E>) -> bool {
    match (b, r) {
        (Ok(x), Ok(y)) => cloned::<T>(x, y),
        (Err(e1), Err(e2)) => e1 == e2,
        _ => false,
    }
}

impl<T> CacheLocal<T> {
    /// An empty slot, as each new request gets.
    pub fn new() -> (r: CacheLocal<T>)
        ensures
            r@ is None,
    {
        CacheLocal { slot: None }
    }

    /// The value built in this request, if any.
    pub fn get(&self) -> (r: Option<&T>)
        ensures
            r is Some <==> self@ is Some,
            r is Some ==> *r->Some_0 == self@->Some_0,
    {
        match &self.slot {
            Some(v) => Some(v),
            None => None,
        }
    }

    /// Hands out the value built earlier in this request; if there is none,
    /// runs `build` once, keeps its value when it succeeds and keeps nothing
    /// when it fails.
    pub fn get_or_try_init<E, F>(&mut self, build: F) -> (r: Result<T, E>) where
        T: Clone,
        F: FnOnce() -> Result<T, E>,

        requires
            old(self)@ is None ==> build.requires(()),
        ensures
            old(self)@ is Some ==> {
                &&& final(self)@ == old(self)@
                &&& r is Ok
                &&& cloned::<T>(old(self)@->Some_0, r->Ok_0)
            },
            old(self)@ is None ==> exists|b: Result<T, E>|
                #[trigger] build.ensures((), b) && final(self)@ == settled(b) && handed_out(b, r),
    {
        match &self.slot {
            Some(v) => {
                return Ok(v.clone());
            },
            None => {},
        }
        let built = build();
        match built {
            Ok(v) => {
                let out = v.clone();
                self.slot = Some(v);
                Ok(out)
            },
            Err(e) => Err(e),
        }
    }
}

/// The outcome of a run of resolutions of one dependency type within one
/// request: what each caller received, how many builds ran, and what the
/// slot holds afterwards.
pub struct Replay<T, E> {
    pub results: Seq<Result<T, E>>,
    pub built: nat,
    pub cell: Option<T>,
}

/// `n` resolutions in a row against a slot holding `cell`, where the k-th
/// build that runs yields `builds[k]`.
pub open spec fn replay<T, E>(cell: Option<T>, builds: Seq<Result<T, E>>, n: nat) -> Replay<T, E>
    decreases n,
{
    if n == 0 {
        Replay { results: Seq::empty(), built: 0, cell }
    } else {
        let prev = replay(cell, builds, (n - 1) as nat);
        match prev.cell {
            Some(v) => Replay { results: prev.results.push(Ok(v)), built: prev.built, cell: prev.cell },
            None => {
                let b = builds[prev.built as int];
                Replay { results: prev.results.push(b), built: prev.built + 1, cell: settled(b) }
            },
        }
    }
}

/// What `get_or_try_init` promises is one step of `replay`: given its
/// postcondition for a slot that held `before` and holds `after`, where `b`
/// is the build's outcome when the slot was empty, the step of `replay`
/// from `before` leaves `after`, runs a build exactly when the slot was
/// empty, and its result is what the caller received.
pub proof fn lemma_resolution_is_replay_step<T: Clone, E>(
    before: Option<T>,
    after: Option<T>,
    b: Result<T, E>,
    r: Result<T, E>,
)
    requires
        before is Some ==> after == before && r is Ok && cloned::<T>(before->Some_0, r->Ok_0),
        before is None ==> after == settled(b) && handed_out(b, r),
    ensures
        replay(before, seq![b], 1).cell == after,
        replay(before, seq![b], 1).built == (if before is None { 1nat } else { 0nat }),
        replay(before, seq![b], 1).results.len() == 1,
        handed_out(replay(before, seq![b], 1).results[0], r),
{
    reveal_with_fuel(replay, 2);
}

/// Once the slot holds `v`, any number of further resolutions in the same
/// request run no build and all receive `v`.
pub proof fn lemma_filled_slot_builds_nothing<T, E>(v: T, builds: Seq<Result<T, E>>, n: nat)
    ensures
        replay(Some(v), builds, n).built == 0,
        replay(Some(v), builds, n).cell == Some(v),
        replay(Some(v), builds, n).results.len() == n,
        forall|i: int| 0 <= i < n ==> #[trigger] replay(Some(v), builds, n).results[i] == Ok::<T, E>(v),
    decreases n,
{
    reveal_with_fuel(replay, 2);
    if n > 0 {
        lemma_filled_slot_builds_nothing(v, builds, (n - 1) as nat);
    }
}

proof fn lemma_replay_after_success<T, E>(builds: Seq<Result<T, E>>, n: nat)
    requires
        n >= 1,
        builds.len() >= 1,
        builds[0] is Ok,
    ensures
        replay(None, builds, n).built == 1,
        replay(None, builds, n).cell == Some(builds[0]->Ok_0),
        replay(None, builds, n).results.len() == n,
        forall|i: int| 0 <= i < n ==> #[trigger] replay(None, builds, n).results[i] == builds[0],
    decreases n,
{
    reveal_with_fuel(replay, 3);
    if n > 1 {
        lemma_replay_after_success(builds, (n - 1) as nat);
    }
}

/// Within one request, when the first build of a dependency succeeds, any
/// number `n >= 1` of resolutions runs the build exactly once and every
/// caller receives that same value.
pub proof fn lemma_built_once<T, E>(builds: Seq<Result<T, E>>, n: nat)
    requires
        n >= 1,
        builds.len() >= 1,
        builds[0] is Ok,
    ensures
        replay(None, builds, n).built == 1,
        replay(None, builds, n).results.len() == n,
        forall|i: int|
            0 <= i < n ==> #[trigger] replay(None, builds, n).results[i] == builds[0],
{
    lemma_replay_after_success(builds, n);
}

/// A failed build is not remembered: after a failure the next resolution in
/// the same request builds again, so a build that fails once and then
/// succeeds is seen as that failure followed by that success.
pub proof fn lemma_failure_not_memoized<T, E>(builds: Seq<Result<T, E>>)
    requires
        builds.len() >= 2,
        builds[0] is Err,
    ensures
        replay(None, builds, 2).built == 2,
        replay(None, builds, 2).results == seq![builds[0], builds[1]],
        replay(None, builds, 2).cell == settled(builds[1]),
{
    reveal_with_fuel(replay, 3);
    assert(replay(None, builds, 1).results =~= seq![builds[0]]);
    assert(replay(None, builds, 2).results =~= seq![builds[0], builds[1]]);
}

/// Requests do not share slots: each request starts from an empty slot,
/// so whatever other requests have built, its first resolution runs a build
/// and hands out that build's own outcome.
pub proof fn lemma_requests_isolated<T, E>(builds: Seq<Result<T, E>>, m: nat)
    requires
        m >= 1,
        builds.len() >= 1,
    ensures
        replay(None, builds, m).built >= 1,
        replay(None, builds, m).results[0] == builds[0],
{
    lemma_first_result(builds, m);
    lemma_built_grows(builds, m);
}

proof fn lemma_built_grows<T, E>(builds: Seq<Result<T, E>>, m: nat)
    requires
        m >= 1,
    ensures
        replay(None, builds, m).built >= 1,
    decreases m,
{
    reveal_with_fuel(replay, 3);
    if m > 1 {
        lemma_built_grows(builds, (m - 1) as nat);
    }
}

proof fn lemma_first_result<T, E>(builds: Seq<Result<T, E>>, m: nat)
    requires
        m >= 1,
        builds.len() >= 1,
    ensures
        replay(None, builds, m).results.len() == m,
        replay(None, builds, m).results[0] == builds[0],
    decreases m,
{
    reveal_with_fuel(replay, 3);
    if m > 1 {
        lemma_first_result(builds, (m - 1) as nat);
        lemma_replay_len(None, builds, (m - 1) as nat);
    }
}

proof fn lemma_replay_len<T, E>(cell: Option<T>, builds: Seq<Result<T, E>>, n: nat)
    ensures
        replay(cell, builds, n).results.len() == n,
    decreases n,
{
    if n > 0 {
        lemma_replay_len(cell, builds, (n - 1) as nat);
    }
}

} // verus!
