//! The frame driver.
//!
//! An `App` owns the resource registry, the entity store, the schedule, the
//! timekeeper and the fixed-timestep accumulator, and exposes one operation
//! per frame phase so the platform backend controls frame pacing: pump input
//! and run `ProcessInput`, advance time, run `Update` once, run
//! `FixedUpdate` zero or more rate-locked times, run `PreRender` then
//! `Render`, and finish with `LateUpdate`. Clock readings are injected as
//! monotonic nanoseconds since an epoch the caller picks (typically
//! application start), so the driver itself performs no input or output.
//! None of these operations fails: a missing configuration resource falls
//! back to a documented default, and the frame loop always advances.

use vstd::prelude::*;
use vstd::arithmetic::div_mod::lemma_fundamental_div_mod_converse;
use vstd::arithmetic::mul::{
    lemma_mul_inequality, lemma_mul_is_commutative, lemma_mul_is_distributive_add,
};

use crate::registry::DiContainer;
use crate::schedule::{add_to_buckets, clamp_priority, Schedule, Stage, System};
use crate::timing::{
    clamp_frame_delta, dispatch_acc, dispatch_steps, Time, TimeFixed, TimeState,
    DEFAULT_FIXED_INTERVAL_NANOS, FRAME_DELTA_CLAMP_NANOS, MAX_FIXED_INTERVAL_NANOS,
};
use crate::world::EntityStore;

verus! {

/// The frame driver: owns every piece of per-application state and drives
/// the per-frame phases in order.
pub struct App<S: System> {
    dicontainer: DiContainer,
    world: EntityStore,
    timer_state: TimeState,
    schedule: Schedule<S>,
    run_startup: bool,
    accumulator: u64,
    fixed_interval: u64,
}

impl<S: System> App<S> {
    /// The driver's resource registry.
    pub closed spec fn spec_registry(&self) -> DiContainer {
        self.dicontainer
    }

    /// The driver's schedule.
    pub closed spec fn spec_schedule(&self) -> Schedule<S> {
        self.schedule
    }

    /// The driver's timekeeper.
    pub closed spec fn spec_timer(&self) -> TimeState {
        self.timer_state
    }

    /// Whether the `Startup` stage has already run.
    pub closed spec fn spec_started(&self) -> bool {
        self.run_startup
    }

    /// The fixed-update accumulator, in nanoseconds.
    pub closed spec fn spec_accumulator(&self) -> u64 {
        self.accumulator
    }

    /// The configured fixed-update interval, in nanoseconds.
    pub closed spec fn spec_interval(&self) -> u64 {
        self.fixed_interval
    }

    /// The driver's validity: the registry is well formed, the fixed-update
    /// interval is positive and representable, and the accumulator owes less
    /// than one full step.
    pub open spec fn inv(&self) -> bool {
        &&& self.spec_registry().wf()
        &&& 0 < self.spec_interval() <= MAX_FIXED_INTERVAL_NANOS
        &&& self.spec_accumulator() < self.spec_interval()
    }

    /// Creates a driver with an empty store and schedule, the startup stage
    /// not yet run, an empty accumulator, and the default fixed-update
    /// interval; a zero `Time` snapshot and the interval are published into
    /// the registry. Timekeeping starts at clock reading zero: the caller's
    /// epoch.
    pub fn new() -> (app: App<S>)
        ensures
            app.inv(),
            !app.spec_started(),
            app.spec_accumulator() == 0,
            app.spec_interval() == DEFAULT_FIXED_INTERVAL_NANOS,
            forall|st: Stage| #[trigger] app.spec_schedule().buckets(st) =~= seq![Seq::<S>::empty()],
            app.spec_timer().last_nanos == 0,
            app.spec_timer().time.delta_nanos == 0,
            app.spec_timer().time.elapsed_nanos == 0,
    {
        let mut dicontainer = DiContainer::new();
        dicontainer.insert(Time { delta_nanos: 0, elapsed_nanos: 0 });
        dicontainer.insert(TimeFixed::new(DEFAULT_FIXED_INTERVAL_NANOS));
        App {
            dicontainer,
            world: EntityStore::new(),
            timer_state: TimeState::new(0),
            schedule: Schedule::new(),
            run_startup: false,
            accumulator: 0,
            fixed_interval: DEFAULT_FIXED_INTERVAL_NANOS,
        }
    }

    /// Reconfigures the fixed-update interval, publishing it into the
    /// registry as a fresh `TimeFixed`; meant to be called before `startup`.
    /// The accumulator keeps only what the new interval leaves it owing.
    pub fn set_fixed_dt(&mut self, interval_nanos: u64)
        requires
            old(self).inv(),
            0 < interval_nanos <= MAX_FIXED_INTERVAL_NANOS,
        ensures
            final(self).inv(),
            final(self).spec_interval() == interval_nanos,
            final(self).spec_accumulator() == old(self).spec_accumulator() as int
                % interval_nanos as int,
            final(self).spec_schedule() == old(self).spec_schedule(),
            final(self).spec_started() == old(self).spec_started(),
            final(self).spec_timer() == old(self).spec_timer(),
    {
        self.fixed_interval = interval_nanos;
        self.accumulator = self.accumulator % interval_nanos;
        self.dicontainer.insert(TimeFixed::new(interval_nanos));
    }

    /// Registers `system` into `stage` under `priority` (clamped to
    /// `MAX_PRIORITY`); nothing else changes.
    pub fn add_system(&mut self, stage: Stage, priority: usize, system: S)
        requires
            old(self).inv(),
        ensures
            final(self).inv(),
            final(self).spec_schedule().buckets(stage) == add_to_buckets(
                old(self).spec_schedule().buckets(stage),
                clamp_priority(priority as int),
                system,
            ),
            forall|st: Stage|
                st != stage ==> #[trigger] final(self).spec_schedule().buckets(st) == old(
                    self,
                ).spec_schedule().buckets(st),
            final(self).spec_registry() == old(self).spec_registry(),
            final(self).spec_started() == old(self).spec_started(),
            final(self).spec_accumulator() == old(self).spec_accumulator(),
            final(self).spec_interval() == old(self).spec_interval(),
            final(self).spec_timer() == old(self).spec_timer(),
    {
        self.schedule.add_system(stage, priority, system);
    }

    /// The resource registry, for installing and inspecting resources. As
    /// long as the borrow leaves the registry well formed — everything its
    /// public interface offers does — the driver stays valid.
    pub fn get_di_container(&mut self) -> (r: &mut DiContainer)
        ensures
            *r == old(self).spec_registry(),
            final(self).spec_registry() == *final(r),
            final(r).wf() && old(self).inv() ==> final(self).inv(),
            final(self).spec_schedule() == old(self).spec_schedule(),
            final(self).spec_started() == old(self).spec_started(),
            final(self).spec_accumulator() == old(self).spec_accumulator(),
            final(self).spec_interval() == old(self).spec_interval(),
            final(self).spec_timer() == old(self).spec_timer(),
    {
        &mut self.dicontainer
    }

    /// The entity store, for spawning and inspecting entities.
    pub fn get_world(&mut self) -> (r: &mut EntityStore)
        ensures
            old(self).inv() ==> final(self).inv(),
            final(self).spec_registry() == old(self).spec_registry(),
            final(self).spec_schedule() == old(self).spec_schedule(),
            final(self).spec_started() == old(self).spec_started(),
            final(self).spec_accumulator() == old(self).spec_accumulator(),
            final(self).spec_interval() == old(self).spec_interval(),
            final(self).spec_timer() == old(self).spec_timer(),
    {
        &mut self.world
    }

    /// Installs a plugin: hands the driver to the plugin's `build` once.
    pub fn add_plugin<P: crate::plugin::Plugin<S>>(&mut self, plugin: &P)
        requires
            old(self).inv(),
        ensures
            final(self).inv(),
    {
        plugin.build(self);
    }

    /// Runs the `Startup` stage exactly once: the first call executes its
    /// systems, every later call is a no-op. The schedule, the timer and the
    /// accumulator are untouched either way.
    pub fn startup(&mut self)
        requires
            old(self).inv(),
        ensures
            final(self).inv(),
            final(self).spec_started(),
            old(self).spec_started() ==> *final(self) == *old(self),
            final(self).spec_schedule() == old(self).spec_schedule(),
            final(self).spec_accumulator() == old(self).spec_accumulator(),
            final(self).spec_interval() == old(self).spec_interval(),
            final(self).spec_timer() == old(self).spec_timer(),
    {
        if self.run_startup {
            return ;
        }
        self.schedule.run_stage(Stage::Startup, &mut self.dicontainer, &mut self.world);
        self.run_startup = true;
    }

    /// Advances the timekeeper to the clock reading `now_nanos` and
    /// publishes the fresh `Time` snapshot into the registry for systems to
    /// read.
    pub fn tick_timer(&mut self, now_nanos: u64)
        requires
            old(self).inv(),
        ensures
            final(self).inv(),
            final(self).spec_timer().last_nanos == now_nanos,
            final(self).spec_timer().time.delta_nanos == if now_nanos >= old(
                self,
            ).spec_timer().last_nanos {
                now_nanos - old(self).spec_timer().last_nanos
            } else {
                0
            },
            final(self).spec_timer().time.elapsed_nanos == if old(self).spec_timer().time.elapsed_nanos
                + final(self).spec_timer().time.delta_nanos <= u64::MAX {
                old(self).spec_timer().time.elapsed_nanos + final(self).spec_timer().time.delta_nanos
            } else {
                u64::MAX as int
            },
            final(self).spec_registry()@.dom() =~= old(self).spec_registry()@.dom(),
            final(self).spec_schedule() == old(self).spec_schedule(),
            final(self).spec_started() == old(self).spec_started(),
            final(self).spec_accumulator() == old(self).spec_accumulator(),
            final(self).spec_interval() == old(self).spec_interval(),
    {
        let t = self.timer_state.tick(now_nanos);
        if let Some(time) = self.dicontainer.get_mut::<Time>() {
            *time = t;
        }
    }

    /// Runs the `ProcessInput` stage: systems that turn queued raw input
    /// events into a stable per-frame input snapshot.
    pub fn process_input(&mut self)
        requires
            old(self).inv(),
        ensures
            final(self).inv(),
            final(self).spec_schedule() == old(self).spec_schedule(),
            final(self).spec_started() == old(self).spec_started(),
            final(self).spec_accumulator() == old(self).spec_accumulator(),
            final(self).spec_interval() == old(self).spec_interval(),
            final(self).spec_timer() == old(self).spec_timer(),
    {
        self.schedule.run_stage(Stage::ProcessInput, &mut self.dicontainer, &mut self.world);
    }

    /// Runs the `Update` stage once: variable-rate per-frame logic.
    pub fn update_logic(&mut self)
        requires
            old(self).inv(),
        ensures
            final(self).inv(),
            final(self).spec_schedule() == old(self).spec_schedule(),
            final(self).spec_started() == old(self).spec_started(),
            final(self).spec_accumulator() == old(self).spec_accumulator(),
            final(self).spec_interval() == old(self).spec_interval(),
            final(self).spec_timer() == old(self).spec_timer(),
    {
        self.schedule.run_stage(Stage::Update, &mut self.dicontainer, &mut self.world);
    }

    /// Runs the `FixedUpdate` stage once, unconditionally. The rate-locked
    /// dispatch that decides how many times to run it per frame is
    /// `fixed_update_dispatch`.
    pub fn fixed_update(&mut self)
        requires
            old(self).inv(),
        ensures
            final(self).inv(),
            final(self).spec_schedule() == old(self).spec_schedule(),
            final(self).spec_started() == old(self).spec_started(),
            final(self).spec_accumulator() == old(self).spec_accumulator(),
            final(self).spec_interval() == old(self).spec_interval(),
            final(self).spec_timer() == old(self).spec_timer(),
    {
        self.schedule.run_stage(Stage::FixedUpdate, &mut self.dicontainer, &mut self.world);
    }

    /// Charges the frame delta — clamped to `FRAME_DELTA_CLAMP_NANOS`, so a
    /// pause cannot cause an unbounded catch-up burst — to the accumulator,
    /// then runs the `FixedUpdate` stage once per whole fixed interval the
    /// accumulator covers, leaving the remainder. Returns how many fixed
    /// steps ran: zero, one or many, deterministically in frame time alone.
    pub fn fixed_update_dispatch(&mut self, frame_delta_nanos: u64) -> (steps: u64)
        requires
            old(self).inv(),
        ensures
            final(self).inv(),
            steps == dispatch_steps(
                old(self).spec_accumulator() as int,
                frame_delta_nanos,
                old(self).spec_interval() as int,
            ),
            final(self).spec_accumulator() == dispatch_acc(
                old(self).spec_accumulator() as int,
                frame_delta_nanos,
                old(self).spec_interval() as int,
            ),
            final(self).spec_schedule() == old(self).spec_schedule(),
            final(self).spec_started() == old(self).spec_started(),
            final(self).spec_interval() == old(self).spec_interval(),
            final(self).spec_timer() == old(self).spec_timer(),
    {
        let clamped: u64 = if frame_delta_nanos > FRAME_DELTA_CLAMP_NANOS {
            FRAME_DELTA_CLAMP_NANOS
        } else {
            frame_delta_nanos
        };
        let ghost charged: int = old(self).spec_accumulator() + clamp_frame_delta(
            frame_delta_nanos,
        );
        let interval = self.fixed_interval;
        let mut acc: u64 = self.accumulator + clamped;
        let mut steps: u64 = 0;
        while acc >= interval
            invariant
                old(self).inv(),
                interval == old(self).spec_interval(),
                interval * steps + acc == charged,
                charged <= u64::MAX,
                self.schedule == old(self).spec_schedule(),
                self.run_startup == old(self).spec_started(),
                self.fixed_interval == old(self).spec_interval(),
                self.timer_state == old(self).spec_timer(),
                self.accumulator == old(self).spec_accumulator(),
                self.dicontainer.wf(),
            decreases acc,
        {
            self.schedule.run_stage(Stage::FixedUpdate, &mut self.dicontainer, &mut self.world);
            acc = acc - interval;
            proof {
                lemma_mul_is_distributive_add(interval as int, steps as int, 1);
                lemma_mul_inequality(1, interval as int, steps as int);
                lemma_mul_is_commutative(interval as int, steps as int);
            }
            steps = steps + 1;
        }
        self.accumulator = acc;
        proof {
            lemma_mul_is_commutative(interval as int, steps as int);
            lemma_fundamental_div_mod_converse(charged, interval as int, steps as int, acc as int);
        }
        steps
    }

    /// Runs the `PreRender` stage, then the `Render` stage — in that order,
    /// never the reverse. Rendering systems wanting an interpolation
    /// fraction between two fixed steps read it off `render_alpha_parts`.
    pub fn render(&mut self)
        requires
            old(self).inv(),
        ensures
            final(self).inv(),
            final(self).spec_schedule() == old(self).spec_schedule(),
            final(self).spec_started() == old(self).spec_started(),
            final(self).spec_accumulator() == old(self).spec_accumulator(),
            final(self).spec_interval() == old(self).spec_interval(),
            final(self).spec_timer() == old(self).spec_timer(),
    {
        self.schedule.run_stage(Stage::PreRender, &mut self.dicontainer, &mut self.world);
        self.schedule.run_stage(Stage::Render, &mut self.dicontainer, &mut self.world);
    }

    /// Runs the `LateUpdate` stage: the conventional place for event-channel
    /// `update` systems and end-of-frame cleanup.
    pub fn late_update(&mut self)
        requires
            old(self).inv(),
        ensures
            final(self).inv(),
            final(self).spec_schedule() == old(self).spec_schedule(),
            final(self).spec_started() == old(self).spec_started(),
            final(self).spec_accumulator() == old(self).spec_accumulator(),
            final(self).spec_interval() == old(self).spec_interval(),
            final(self).spec_timer() == old(self).spec_timer(),
    {
        self.schedule.run_stage(Stage::LateUpdate, &mut self.dicontainer, &mut self.world);
    }

    /// Numerator and denominator of the render interpolation fraction: the
    /// accumulator over the fixed interval. The fraction is in `[0, 1)`;
    /// the caller divides in whatever precision suits its renderer.
    pub fn render_alpha_parts(&self) -> (r: (u64, u64))
        requires
            self.inv(),
        ensures
            r.0 == self.spec_accumulator(),
            r.1 == self.spec_interval(),
            r.0 < r.1,
    {
        (self.accumulator, self.fixed_interval)
    }

    /// The configured fixed-update interval, in nanoseconds.
    pub fn fixed_interval_nanos(&self) -> (r: u64)
        ensures
            r == self.spec_interval(),
    {
        self.fixed_interval
    }

    /// The fixed-update accumulator, in nanoseconds.
    pub fn accumulator_nanos(&self) -> (r: u64)
        ensures
            r == self.spec_accumulator(),
    {
        self.accumulator
    }

    /// Whether `startup` has run.
    pub fn has_started(&self) -> (r: bool)
        ensures
            r == self.spec_started(),
    {
        self.run_startup
    }
}

} // verus!
