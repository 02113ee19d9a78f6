//! Stage and priority scheduling.
//!
//! A frame is a fixed, totally ordered sequence of named stages. Systems
//! register into a stage under a priority: each stage holds a sequence of
//! priority buckets (index 0 is the highest priority and runs first), and
//! each bucket keeps its systems in registration order. Running a stage is a
//! pure ordered traversal: every system of bucket `i` runs to completion
//! before any system of bucket `i + 1`, and within a bucket registration
//! order is preserved. A priority above [`MAX_PRIORITY`] is clamped to it,
//! so a mistaken caller cannot grow the bucket array without bound.

use vstd::prelude::*;

use crate::events::Events;
use crate::registry::DiContainer;
use crate::world::EntityStore;

verus! {

/// The named execution points of one frame, in their fixed frame order.
/// Stages are fixed at compile time: they are not data and cannot be added
/// at run time.
#[derive(Debug, Clone, Copy, PartialEq, Eq, Structural, Hash)]
pub enum Stage {
    Startup,
    ProcessInput,
    Update,
    FixedUpdate,
    PreRender,
    Render,
    LateUpdate,
}

/// Highest admissible priority index; greater values are clamped to it.
pub const MAX_PRIORITY: usize = 8;

/// Named priority levels, so callers need not spell bucket indices.
#[derive(Debug, Clone, Copy, PartialEq, Eq, Structural)]
pub enum Priority {
    Highest,
    High,
    Normal,
    Low,
    Lowest,
}

impl Priority {
    /// The bucket index a level stands for.
    pub open spec fn index_spec(self) -> usize {
        match self {
            Priority::Highest => 0,
            Priority::High => 1,
            Priority::Normal => 4,
            Priority::Low => 6,
            Priority::Lowest => MAX_PRIORITY,
        }
    }

    /// The bucket index a level stands for: smaller runs earlier.
    pub fn index(self) -> (r: usize)
        ensures
            r == self.index_spec(),
    {
        match self {
            Priority::Highest => 0,
            Priority::High => 1,
            Priority::Normal => 4,
            Priority::Low => 6,
            Priority::Lowest => MAX_PRIORITY,
        }
    }
}

/// A registered unit of per-frame logic. A system is a plain state
/// transition over the resource registry and the entity store: it returns
/// nothing, and any error it meets it must absorb itself — the scheduler has
/// no failure channel and never aborts a stage.
///
/// An implementation must leave the registry well formed; every operation of
/// the registry's public interface does so.
pub trait System: Sized + Copy {
    /// Runs the system once.
    fn run(&self, di: &mut DiContainer, world: &mut EntityStore)
        requires
            old(di).wf(),
        ensures
            final(di).wf(),
    ;
}

/// A priority as registered, clamped into `[0, MAX_PRIORITY]`.
pub open spec fn clamp_priority(p: int) -> int {
    if p > MAX_PRIORITY {
        MAX_PRIORITY as int
    } else {
        p
    }
}

/// The views of a stage's buckets.
pub open spec fn bucket_views<S>(bs: Seq<Vec<S>>) -> Seq<Seq<S>> {
    bs.map_values(|b: Vec<S>| b@)
}

/// Buckets after registering `s` under (already clamped) priority `p`:
/// missing buckets up to `p` are created empty, then `s` is appended to
/// bucket `p`.
pub open spec fn add_to_buckets<S>(bs: Seq<Seq<S>>, p: int, s: S) -> Seq<Seq<S>> {
    let grown = if p < bs.len() {
        bs
    } else {
        bs + Seq::new((p + 1 - bs.len()) as nat, |i: int| Seq::<S>::empty())
    };
    grown.update(p, grown[p].push(s))
}

/// The systems of a stage in execution order: bucket order first, then
/// registration order within each bucket.
pub open spec fn flatten_buckets<S>(bs: Seq<Seq<S>>) -> Seq<S>
    decreases bs.len(),
{
    if bs.len() == 0 {
        Seq::empty()
    } else {
        flatten_buckets(bs.drop_last()) + bs.last()
    }
}

/// Where the `j`-th system of bucket `i` stands in the stage's execution
/// order.
pub open spec fn flat_position<S>(bs: Seq<Seq<S>>, i: int, j: int) -> int {
    flatten_buckets(bs.take(i)).len() + j
}

proof fn lemma_flatten_take_step<S>(bs: Seq<Seq<S>>, i: int)
    requires
        0 <= i < bs.len(),
    ensures
        flatten_buckets(bs.take(i + 1)) == flatten_buckets(bs.take(i)) + bs[i],
{
    assert(bs.take(i + 1).drop_last() =~= bs.take(i));
    assert(bs.take(i + 1).last() == bs[i]);
}

proof fn lemma_flatten_take_prefix<S>(bs: Seq<Seq<S>>, m: int)
    requires
        0 <= m <= bs.len(),
    ensures
        flatten_buckets(bs.take(m)).len() <= flatten_buckets(bs).len(),
        forall|x: int|
            0 <= x < flatten_buckets(bs.take(m)).len()
                ==> flatten_buckets(bs)[x] == flatten_buckets(bs.take(m))[x],
    decreases bs.len(),
{
    if m == bs.len() {
        assert(bs.take(m) =~= bs);
    } else {
        assert(bs.drop_last().take(m) =~= bs.take(m));
        lemma_flatten_take_prefix(bs.drop_last(), m);
    }
}

proof fn lemma_flatten_take_monotone<S>(bs: Seq<Seq<S>>, a: int, b: int)
    requires
        0 <= a <= b <= bs.len(),
    ensures
        flatten_buckets(bs.take(a)).len() <= flatten_buckets(bs.take(b)).len(),
    decreases b - a,
{
    if a < b {
        lemma_flatten_take_monotone(bs, a, b - 1);
        lemma_flatten_take_step(bs, b - 1);
    }
}

/// Law: running a stage respects priorities and registration order. For any
/// buckets `bs` of a stage, the system at bucket `i`, position `j` stands at
/// `flat_position(bs, i, j)` of the stage's execution order; and whenever
/// `(i, j)` precedes `(k, l)` — a higher-priority bucket, or the same bucket
/// and earlier registration — its position comes strictly first.
pub proof fn lemma_priority_ordering<S>(bs: Seq<Seq<S>>, i: int, j: int, k: int, l: int)
    requires
        0 <= i <= k < bs.len(),
        0 <= j < bs[i].len(),
        0 <= l < bs[k].len(),
        i < k || j < l,
    ensures
        flat_position(bs, i, j) < flat_position(bs, k, l),
        flatten_buckets(bs)[flat_position(bs, i, j)] == bs[i][j],
        flatten_buckets(bs)[flat_position(bs, k, l)] == bs[k][l],
{
    lemma_flat_position_reads(bs, i, j);
    lemma_flat_position_reads(bs, k, l);
    if i < k {
        lemma_flatten_take_step(bs, i);
        lemma_flatten_take_monotone(bs, i + 1, k);
    }
}

proof fn lemma_flat_position_reads<S>(bs: Seq<Seq<S>>, i: int, j: int)
    requires
        0 <= i < bs.len(),
        0 <= j < bs[i].len(),
    ensures
        0 <= flat_position(bs, i, j) < flatten_buckets(bs).len(),
        flatten_buckets(bs)[flat_position(bs, i, j)] == bs[i][j],
{
    lemma_flatten_take_step(bs, i);
    lemma_flatten_take_prefix(bs, i + 1);
    assert(flatten_buckets(bs.take(i + 1))[flat_position(bs, i, j)] == bs[i][j]);
}

/// Law: a priority above the maximum registers exactly as the maximum does.
/// Registering a system with any priority `p >= MAX_PRIORITY` produces the
/// same buckets — and so the same execution position — as registering it at
/// exactly `MAX_PRIORITY`.
pub proof fn lemma_priority_clamping<S>(bs: Seq<Seq<S>>, p: int, s: S)
    requires
        p >= MAX_PRIORITY,
    ensures
        add_to_buckets(bs, clamp_priority(p), s) == add_to_buckets(
            bs,
            clamp_priority(MAX_PRIORITY as int),
            s,
        ),
{
}

/// The per-stage system lists: for each stage an ordered sequence of
/// priority buckets, each an ordered sequence of systems. Built during
/// application setup and structurally immutable while a frame runs.
pub struct Schedule<S: System> {
    startup: Vec<Vec<S>>,
    process_input: Vec<Vec<S>>,
    update: Vec<Vec<S>>,
    fixed_update: Vec<Vec<S>>,
    pre_render: Vec<Vec<S>>,
    render: Vec<Vec<S>>,
    late_update: Vec<Vec<S>>,
}

impl<S: System> Schedule<S> {
    /// The buckets registered for `stage`.
    pub closed spec fn buckets(&self, stage: Stage) -> Seq<Seq<S>> {
        match stage {
            Stage::Startup => bucket_views(self.startup@),
            Stage::ProcessInput => bucket_views(self.process_input@),
            Stage::Update => bucket_views(self.update@),
            Stage::FixedUpdate => bucket_views(self.fixed_update@),
            Stage::PreRender => bucket_views(self.pre_render@),
            Stage::Render => bucket_views(self.render@),
            Stage::LateUpdate => bucket_views(self.late_update@),
        }
    }

    /// Creates a schedule whose every stage has one empty default bucket.
    pub fn new() -> (s: Schedule<S>)
        ensures
            forall|st: Stage| #[trigger] s.buckets(st) =~= seq![Seq::<S>::empty()],
    {
        let s = Schedule {
            startup: one_empty_bucket(),
            process_input: one_empty_bucket(),
            update: one_empty_bucket(),
            fixed_update: one_empty_bucket(),
            pre_render: one_empty_bucket(),
            render: one_empty_bucket(),
            late_update: one_empty_bucket(),
        };
        proof {
            assert forall|st: Stage| #[trigger] s.buckets(st) =~= seq![Seq::<S>::empty()] by {
                assert(s.buckets(st).len() == 1);
                assert(s.buckets(st)[0] =~= Seq::<S>::empty());
            }
        }
        s
    }

    /// Appends `system` to the bucket for `priority` within `stage`,
    /// creating intervening empty buckets as needed; a priority above
    /// `MAX_PRIORITY` is clamped to it. Other stages are untouched.
    pub fn add_system(&mut self, stage: Stage, priority: usize, system: S)
        ensures
            final(self).buckets(stage) == add_to_buckets(
                old(self).buckets(stage),
                clamp_priority(priority as int),
                system,
            ),
            forall|st: Stage|
                st != stage ==> #[trigger] final(self).buckets(st) == old(self).buckets(st),
    {
        let capped = if priority > MAX_PRIORITY {
            MAX_PRIORITY
        } else {
            priority
        };
        match stage {
            Stage::Startup => push_into_bucket(&mut self.startup, capped, system),
            Stage::ProcessInput => push_into_bucket(&mut self.process_input, capped, system),
            Stage::Update => push_into_bucket(&mut self.update, capped, system),
            Stage::FixedUpdate => push_into_bucket(&mut self.fixed_update, capped, system),
            Stage::PreRender => push_into_bucket(&mut self.pre_render, capped, system),
            Stage::Render => push_into_bucket(&mut self.render, capped, system),
            Stage::LateUpdate => push_into_bucket(&mut self.late_update, capped, system),
        }
    }

    /// The systems registered to `stage`, in execution order: bucket order
    /// first, then registration order within each bucket.
    pub fn systems_in_order(&self, stage: Stage) -> (r: Vec<S>)
        ensures
            r@ == flatten_buckets(self.buckets(stage)),
    {
        let buckets: &Vec<Vec<S>> = match stage {
            Stage::Startup => &self.startup,
            Stage::ProcessInput => &self.process_input,
            Stage::Update => &self.update,
            Stage::FixedUpdate => &self.fixed_update,
            Stage::PreRender => &self.pre_render,
            Stage::Render => &self.render,
            Stage::LateUpdate => &self.late_update,
        };
        let ghost bv = bucket_views(buckets@);
        proof {
            assert(bv == self.buckets(stage));
        }
        let mut out: Vec<S> = Vec::new();
        let n = buckets.len();
        let mut i: usize = 0;
        while i < n
            invariant
                n == buckets@.len(),
                bv == bucket_views(buckets@),
                i <= n,
                out@ == flatten_buckets(bv.take(i as int)),
            decreases n - i,
        {
            proof {
                lemma_flatten_take_step(bv, i as int);
            }
            let bucket = &buckets[i];
            let m = bucket.len();
            let mut j: usize = 0;
            while j < m
                invariant
                    m == bucket@.len(),
                    bucket@ == bv[i as int],
                    i < n,
                    n == buckets@.len(),
                    bv == bucket_views(buckets@),
                    j <= m,
                    out@ == flatten_buckets(bv.take(i as int)) + bucket@.take(j as int),
                decreases m - j,
            {
                out.push(bucket[j]);
                j = j + 1;
            }
            proof {
                assert(bucket@.take(m as int) =~= bv[i as int]);
            }
            i = i + 1;
        }
        proof {
            assert(bv.take(n as int) =~= bv);
        }
        out
    }

    /// Executes every system registered to `stage`: exactly the sequence
    /// `systems_in_order(stage)`, front to back. Running a stage with no
    /// registered systems is a no-op, and re-running a stage re-executes the
    /// full list. What the systems do to the registry and the store is their
    /// own; the registry stays well formed.
    pub fn run_stage(&self, stage: Stage, di: &mut DiContainer, world: &mut EntityStore)
        requires
            old(di).wf(),
        ensures
            final(di).wf(),
    {
        let order = self.systems_in_order(stage);
        let n = order.len();
        let mut idx: usize = 0;
        while idx < n
            invariant
                n == order@.len(),
                idx <= n,
                di.wf(),
            decreases n - idx,
        {
            let s = order[idx];
            s.run(di, world);
            idx = idx + 1;
        }
    }
}

/// Generic flush system for an `Events<T>` channel: swaps its buffers so
/// this frame's sent events become readable next frame. Register one per
/// event type into a late-running stage, after every producer; a channel
/// that is not registered as a resource is left alone.
pub fn flush_events<T: 'static + Send + Sync>(di: &mut DiContainer, _world: &mut EntityStore)
    requires
        old(di).wf(),
    ensures
        final(di).wf(),
        final(di)@.dom() =~= old(di)@.dom(),
{
    if let Some(events) = di.get_mut::<Events<T>>() {
        events.update();
    }
}

/// Creates the single empty default bucket a fresh stage starts with.
fn one_empty_bucket<S: System>() -> (v: Vec<Vec<S>>)
    ensures
        v@.len() == 1,
        v@[0]@ == Seq::<S>::empty(),
{
    let mut v: Vec<Vec<S>> = Vec::new();
    v.push(Vec::new());
    v
}

/// Appends `system` to bucket `capped` of one stage's buckets, growing the
/// bucket list with empty buckets as needed.
fn push_into_bucket<S: System>(v: &mut Vec<Vec<S>>, capped: usize, system: S)
    ensures
        bucket_views(final(v)@) == add_to_buckets(bucket_views(old(v)@), capped as int, system),
{
    let ghost bs = bucket_views(v@);
    let ghost grown_len: int = if (capped as int) < bs.len() {
        bs.len() as int
    } else {
        capped as int + 1
    };
    while v.len() <= capped
        invariant
            bs.len() <= v@.len() <= grown_len,
            capped as int + 1 <= grown_len,
            forall|x: int| 0 <= x < bs.len() ==> #[trigger] v@[x]@ == bs[x],
            forall|x: int| bs.len() <= x < v@.len() ==> #[trigger] v@[x]@ == Seq::<S>::empty(),
        decreases capped + 1 - v@.len(),
    {
        v.push(Vec::new());
    }
    let ghost vg = v@;
    let slot = &mut v[capped];
    slot.push(system);
    proof {
        let target = add_to_buckets(bs, capped as int, system);
        assert forall|x: int| 0 <= x < target.len() implies #[trigger] bucket_views(final(v)@)[x]
            == target[x] by {
            if x != capped as int {
                assert(final(v)@[x] == vg[x]);
            }
        }
        assert(bucket_views(final(v)@) =~= target);
    }
}

} // verus!
