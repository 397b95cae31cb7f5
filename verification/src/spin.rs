use vstd::prelude::*;

use crate::maths_utils::FP_SCALE;
use crate::rendering::Backend;
use crate::steppables::{BehaviorSlot, Phase, StepError, Steppable};
use crate::world_state::{no_enabled_behavior, WorldState};

verus! {

/// Milliseconds that must have passed since the last fixed-step pass before
/// another one runs (a 48 Hz fixed rate).
pub const FIXED_STEP_RATE: u64 = 1000 / 48;

/// Timestamps handed to the scheduler stay below this bound, so that signed
/// differences of two of them always fit the machine's arithmetic.
pub const MAX_TIME_MS: u64 = 9_223_372_036_854_775_807;

/// Where the mesh preloading stands.
#[derive(Debug, Clone, Copy, PartialEq, Eq, Structural)]
pub enum LoadInStage {
    NotLoading,
    Started,
    Complete,
}

/// The fixed-point delta-time recorded after a tick: the reciprocal of the
/// elapsed milliseconds, truncated towards zero, with one half as the
/// fallback when no time elapsed at all.
pub open spec fn delta_time_of(now: int, last: int) -> int {
    let ct = now - last;
    if ct == 0 {
        FP_SCALE as int / 2
    } else if ct > 0 {
        FP_SCALE as int / ct
    } else {
        -(FP_SCALE as int / -ct)
    }
}

/// Whether a tick starting at `now` runs the fixed-step phase: more than the
/// fixed interval must have passed since the last fixed-step pass ended.
pub open spec fn fixed_step_due(now: int, last_fixed: int) -> bool {
    now - last_fixed > FIXED_STEP_RATE as int
}

/// The scheduler: it owns the world and the registered behaviors, drives the
/// phased passes once per external tick, and keeps the wall-clock
/// bookkeeping that gates the fixed-step phase. The external driver reads
/// the clock and hands each tick its timestamp.
pub struct GameLoop<B> {
    state: WorldState,
    behaviors: Vec<BehaviorSlot<B>>,
    mesh_urls: Vec<String>,
    load_in_stage: LoadInStage,
    mesh_datas: Vec<(String, String)>,
    last_step_start_t: u64,
    last_step_end_t: u64,
    last_fixed_step_end_t: u64,
    last_multistep_end_t: u64,
}

impl<B> GameLoop<B> {
    /// The world the scheduler owns.
    pub closed spec fn spec_state(self) -> WorldState {
        self.state
    }

    /// The registered behaviors, in registration order.
    pub closed spec fn spec_behaviors(self) -> Seq<BehaviorSlot<B>> {
        self.behaviors@
    }

    /// The mesh addresses registered for preloading.
    pub closed spec fn spec_mesh_urls(self) -> Seq<String> {
        self.mesh_urls@
    }

    /// Where the mesh preloading stands.
    pub closed spec fn spec_stage(self) -> LoadInStage {
        self.load_in_stage
    }

    /// The preloaded mesh texts, one per address once loading completed.
    pub closed spec fn spec_mesh_datas(self) -> Seq<(String, String)> {
        self.mesh_datas@
    }

    /// When the last tick began.
    pub closed spec fn spec_last_step_start_t(self) -> u64 {
        self.last_step_start_t
    }

    /// When the last tick's step phase ended.
    pub closed spec fn spec_last_step_end_t(self) -> u64 {
        self.last_step_end_t
    }

    /// When the last fixed-step pass ended.
    pub closed spec fn spec_last_fixed_step_end_t(self) -> u64 {
        self.last_fixed_step_end_t
    }

    /// When the last whole tick ended.
    pub closed spec fn spec_last_multistep_end_t(self) -> u64 {
        self.last_multistep_end_t
    }

    #[verifier::type_invariant]
    closed spec fn wf(self) -> bool {
        &&& self.last_step_start_t <= MAX_TIME_MS
        &&& self.last_step_end_t <= MAX_TIME_MS
        &&& self.last_fixed_step_end_t <= MAX_TIME_MS
        &&& self.last_multistep_end_t <= MAX_TIME_MS
    }
}

impl<B: Steppable<WorldState>> GameLoop<B> {
    /// A scheduler over an empty world, with no behaviors, nothing to
    /// preload, and all clocks at zero.
    pub fn empty() -> (r: GameLoop<B>)
        ensures
            r.spec_behaviors().len() == 0,
            r.spec_mesh_urls().len() == 0,
            r.spec_mesh_datas().len() == 0,
            r.spec_stage() == LoadInStage::NotLoading,
            r.spec_last_step_start_t() == 0,
            r.spec_last_step_end_t() == 0,
            r.spec_last_fixed_step_end_t() == 0,
            r.spec_last_multistep_end_t() == 0,
            r.spec_state().spec_frame_count() == 0,
            r.spec_state().spec_delta_time() == FP_SCALE / 60,
            r.spec_state().spec_inputs() is None,
            r.spec_state().spec_fwd_queue().len() == 0,
            r.spec_state().spec_rev_queue().len() == 0,
            forall|id: crate::world_object::WorldObjectId| !r.spec_state().valid_id(id),
    {
        GameLoop {
            state: WorldState::new(),
            behaviors: Vec::new(),
            mesh_urls: Vec::new(),
            load_in_stage: LoadInStage::NotLoading,
            mesh_datas: Vec::new(),
            last_step_start_t: 0,
            last_step_end_t: 0,
            last_fixed_step_end_t: 0,
            last_multistep_end_t: 0,
        }
    }

    /// The world, for reading.
    pub fn state(&self) -> (r: &WorldState)
        ensures
            *r == self.spec_state(),
    {
        &self.state
    }

    /// Register a behavior; it runs after all earlier registrations in every
    /// pass, and starts enabled.
    pub fn add_scripted_component(&mut self, behavior: B)
        ensures
            final (self).spec_behaviors().len() == old(self).spec_behaviors().len() + 1,
            forall|k: int|
                0 <= k < old(self).spec_behaviors().len() ==> #[trigger] final (self).spec_behaviors()[k] == old(self).spec_behaviors()[k],
            final (self).spec_behaviors().last().enabled,
            final (self).spec_state() == old(self).spec_state(),
            final (self).spec_mesh_urls() == old(self).spec_mesh_urls(),
            final (self).spec_stage() == old(self).spec_stage(),
            final (self).spec_mesh_datas() == old(self).spec_mesh_datas(),
            final (self).spec_last_step_start_t() == old(self).spec_last_step_start_t(),
            final (self).spec_last_step_end_t() == old(self).spec_last_step_end_t(),
            final (self).spec_last_fixed_step_end_t() == old(self).spec_last_fixed_step_end_t(),
            final (self).spec_last_multistep_end_t() == old(self).spec_last_multistep_end_t(),
    {
        proof {
            use_type_invariant(&*self);
        }
        let mut behaviors: Vec<BehaviorSlot<B>> = Vec::new();
        core::mem::swap(&mut behaviors, &mut self.behaviors);
        behaviors.push(BehaviorSlot { behavior, enabled: true });
        self.behaviors = behaviors;
    }

    /// The registered behaviors, for reading.
    pub fn scripted_components(&self) -> (r: &Vec<BehaviorSlot<B>>)
        ensures
            r@ == self.spec_behaviors(),
    {
        &self.behaviors
    }

    /// Register a mesh address to preload.
    pub fn add_load_in_mesh(&mut self, url: String)
        ensures
            final (self).spec_mesh_urls() == old(self).spec_mesh_urls().push(url),
            final (self).spec_state() == old(self).spec_state(),
            final (self).spec_behaviors() == old(self).spec_behaviors(),
            final (self).spec_stage() == old(self).spec_stage(),
            final (self).spec_mesh_datas() == old(self).spec_mesh_datas(),
    {
        proof {
            use_type_invariant(&*self);
        }
        let mut urls: Vec<String> = Vec::new();
        core::mem::swap(&mut urls, &mut self.mesh_urls);
        urls.push(url);
        self.mesh_urls = urls;
    }

    /// Advance the mesh preloading by one poll. The first call only opens
    /// the loading stage, so the driver knows to begin fetching; after that,
    /// each call hands in one poll result per registered address, in order,
    /// `None` for a fetch still in flight. Once every result is in, all of
    /// them are taken over at once and the stage completes. The answer says
    /// whether loading has completed.
    pub fn load_in(&mut self, poll: &Vec<Option<String>>) -> (r: Result<bool, String>)
        requires
            old(self).spec_stage() is Started ==> poll@.len() == old(self).spec_mesh_urls().len(),
        ensures
            final (self).spec_state() == old(self).spec_state(),
            final (self).spec_behaviors() == old(self).spec_behaviors(),
            final (self).spec_mesh_urls() == old(self).spec_mesh_urls(),
            old(self).spec_stage() is NotLoading ==> {
                &&& final (self).spec_stage() is Started
                &&& final (self).spec_mesh_datas() == old(self).spec_mesh_datas()
                &&& r == Ok::<bool, String>(false)
            },
            old(self).spec_stage() is Started && (forall|i: int|
                0 <= i < poll@.len() ==> #[trigger] poll@[i] is Some) ==> {
                &&& final (self).spec_stage() is Complete
                &&& final (self).spec_mesh_datas().len() == old(self).spec_mesh_urls().len()
                &&& forall|i: int|
                    0 <= i < old(self).spec_mesh_urls().len() ==> #[trigger] final (
                    self).spec_mesh_datas()[i].0@ == old(self).spec_mesh_urls()[i]@ && final (
                    self).spec_mesh_datas()[i].1@ == poll@[i]->Some_0@
                &&& r == Ok::<bool, String>(true)
            },
            old(self).spec_stage() is Started && !(forall|i: int|
                0 <= i < poll@.len() ==> #[trigger] poll@[i] is Some) ==> {
                &&& final (self).spec_stage() is Started
                &&& final (self).spec_mesh_datas() == old(self).spec_mesh_datas()
                &&& r == Ok::<bool, String>(false)
            },
            old(self).spec_stage() is Complete ==> {
                &&& final (self).spec_stage() is Complete
                &&& final (self).spec_mesh_datas() == old(self).spec_mesh_datas()
                &&& r == Ok::<bool, String>(true)
            },
    {
        proof {
            use_type_invariant(&*self);
        }
        match self.load_in_stage {
            LoadInStage::NotLoading => {
                self.load_in_stage = LoadInStage::Started;
                Ok(false)
            },
            LoadInStage::Started => {
                let n = self.mesh_urls.len();
                let mut all = true;
                let mut k: usize = 0;
                while k < n
                    invariant
                        k <= n,
                        n == poll@.len(),
                        all <==> (forall|t: int| 0 <= t < k ==> #[trigger] poll@[t] is Some),
                    decreases n - k,
                {
                    if poll[k].is_none() {
                        all = false;
                    }
                    k = k + 1;
                }
                if !all {
                    return Ok(false);
                }
                let mut datas: Vec<(String, String)> = Vec::new();
                let mut i: usize = 0;
                while i < n
                    invariant
                        i <= n,
                        n == poll@.len(),
                        n == self.mesh_urls@.len(),
                        forall|t: int| 0 <= t < n ==> #[trigger] poll@[t] is Some,
                        datas@.len() == i,
                        forall|t: int|
                            0 <= t < i ==> #[trigger] datas@[t].0@ == self.mesh_urls@[t]@
                                && datas@[t].1@ == poll@[t]->Some_0@,
                    decreases n - i,
                {
                    let url = self.mesh_urls[i].clone();
                    let data = match &poll[i] {
                        Some(d) => d.clone(),
                        None => {
                            proof {
                                assert(false);
                            }
                            String::new()
                        },
                    };
                    datas.push((url, data));
                    i = i + 1;
                }
                self.mesh_datas = datas;
                self.load_in_stage = LoadInStage::Complete;
                Ok(true)
            },
            LoadInStage::Complete => Ok(true),
        }
    }

    /// The preloaded text for the address at the given index, once loading
    /// has stored it.
    pub fn get_mesh_data(&self, idx: usize) -> (r: Option<&String>)
        ensures
            match r {
                Some(d) => idx < self.spec_mesh_datas().len() && *d == self.spec_mesh_datas()[
                    idx as int].1,
                None => idx >= self.spec_mesh_datas().len(),
            },
    {
        if idx < self.mesh_datas.len() {
            Some(&self.mesh_datas[idx].1)
        } else {
            None
        }
    }

    /// Run the `start` hook once over all behaviors, with the same
    /// aggregation as the steady-state phases. A failure here is meant to
    /// keep the driver from ever ticking.
    pub fn start(&mut self) -> (r: Result<(), String>)
        ensures
            final (self).spec_behaviors().len() == old(self).spec_behaviors().len(),
            forall|k: int|
                0 <= k < final (self).spec_behaviors().len() ==> (#[trigger] final (self).spec_behaviors()[k].enabled ==> old(
                self).spec_behaviors()[k].enabled),
            final (self).spec_mesh_urls() == old(self).spec_mesh_urls(),
            final (self).spec_stage() == old(self).spec_stage(),
            final (self).spec_mesh_datas() == old(self).spec_mesh_datas(),
            final (self).spec_last_step_start_t() == old(self).spec_last_step_start_t(),
            final (self).spec_last_fixed_step_end_t() == old(self).spec_last_fixed_step_end_t(),
            final (self).spec_last_multistep_end_t() == old(self).spec_last_multistep_end_t(),
            no_enabled_behavior(old(self).spec_behaviors()) ==> r is Ok,
    {
        proof {
            use_type_invariant(&*self);
        }
        let mut state = WorldState::new();
        let mut behaviors: Vec<BehaviorSlot<B>> = Vec::new();
        core::mem::swap(&mut state, &mut self.state);
        core::mem::swap(&mut behaviors, &mut self.behaviors);
        let r = state.run_phase(&mut behaviors, Phase::Start);
        self.state = state;
        self.behaviors = behaviors;
        r
    }

    /// Abandon the tick on a hard phase outcome: put the world and the
    /// behaviors back, and hand the driver the rendered failure. A failure
    /// born of a behavior disabling itself still submits the render queues
    /// first, so that frame completes rendering; a fatal outcome does not.
    fn abort_tick<Bk: Backend>(
        &mut self,
        mut state: WorldState,
        behaviors: Vec<BehaviorSlot<B>>,
        backend: &mut Bk,
        outcome: StepError,
    ) -> (r: Result<(), String>)
        requires
            !(outcome is Ignore),
            !(outcome is Recover),
        ensures
            r is Err,
            final (self).spec_last_step_start_t() == old(self).spec_last_step_start_t(),
            final (self).spec_last_step_end_t() == old(self).spec_last_step_end_t(),
            final (self).spec_last_fixed_step_end_t() == old(self).spec_last_fixed_step_end_t(),
            final (self).spec_last_multistep_end_t() == old(self).spec_last_multistep_end_t(),
            final (self).spec_mesh_urls() == old(self).spec_mesh_urls(),
            final (self).spec_stage() == old(self).spec_stage(),
            final (self).spec_mesh_datas() == old(self).spec_mesh_datas(),
            final (self).spec_behaviors() == behaviors@,
    {
        proof {
            use_type_invariant(&*self);
        }
        if matches!(outcome, StepError::SelfDisable(_)) {
            state.submit_queues(backend);
        }
        self.state = state;
        self.behaviors = behaviors;
        outcome.translate()
    }

    /// One tick. The phases run in their fixed order: `step` over all
    /// behaviors; then, exactly when more than the fixed interval has passed
    /// since the last fixed-step pass, a single `fixed_step` pass (never two,
    /// however much time has passed — elapsed intervals are not caught up);
    /// then `late_step`; then the render queues are submitted to the
    /// backend. A hard phase failure aborts the tick right there and is
    /// handed to the driver; one born of a behavior disabling itself still
    /// submits the queues first. A completed tick counts one frame (the
    /// counter saturates at its top) and records the tick's delta-time.
    pub fn step<Bk: Backend>(&mut self, backend: &mut Bk, now_ms: u64) -> (r: Result<(), String>)
        requires
            now_ms <= MAX_TIME_MS,
        ensures
            final (self).spec_last_step_start_t() == now_ms,
            final (self).spec_behaviors().len() == old(self).spec_behaviors().len(),
            forall|k: int|
                0 <= k < final (self).spec_behaviors().len() ==> (#[trigger] final (self).spec_behaviors()[k].enabled ==> old(
                self).spec_behaviors()[k].enabled),
            final (self).spec_mesh_urls() == old(self).spec_mesh_urls(),
            final (self).spec_stage() == old(self).spec_stage(),
            final (self).spec_mesh_datas() == old(self).spec_mesh_datas(),
            r is Ok ==> {
                &&& final (self).spec_last_step_end_t() == now_ms
                &&& final (self).spec_last_multistep_end_t() == now_ms
                &&& final (self).spec_last_fixed_step_end_t() == (if fixed_step_due(
                    now_ms as int,
                    old(self).spec_last_fixed_step_end_t() as int,
                ) {
                    now_ms
                } else {
                    old(self).spec_last_fixed_step_end_t()
                })
                &&& final (self).spec_state().spec_delta_time() == delta_time_of(
                    now_ms as int,
                    old(self).spec_last_multistep_end_t() as int,
                )
            },
            no_enabled_behavior(old(self).spec_behaviors()) ==> r is Ok,
            !fixed_step_due(now_ms as int, old(self).spec_last_fixed_step_end_t() as int) ==> final (
            self).spec_last_fixed_step_end_t() == old(self).spec_last_fixed_step_end_t(),
            r is Err ==> {
                &&& final (self).spec_last_multistep_end_t() == old(
                    self).spec_last_multistep_end_t()
                &&& (final (self).spec_last_fixed_step_end_t() == old(
                    self).spec_last_fixed_step_end_t() || final (self).spec_last_fixed_step_end_t()
                    == now_ms)
            },
    {
        proof {
            use_type_invariant(&*self);
        }
        self.last_step_start_t = now_ms;
        let mut state = WorldState::new();
        let mut behaviors: Vec<BehaviorSlot<B>> = Vec::new();
        core::mem::swap(&mut state, &mut self.state);
        core::mem::swap(&mut behaviors, &mut self.behaviors);

        match state.run_phase_raw(&mut behaviors, Phase::Step) {
            Ok(_) => {},
            Err(e) => {
                return self.abort_tick(state, behaviors, backend, e);
            },
        }
        self.last_step_end_t = now_ms;

        if (now_ms as i64) - (self.last_fixed_step_end_t as i64) > (FIXED_STEP_RATE as i64) {
            match state.run_phase_raw(&mut behaviors, Phase::FixedStep) {
                Ok(_) => {},
                Err(e) => {
                    return self.abort_tick(state, behaviors, backend, e);
                },
            }
            self.last_fixed_step_end_t = now_ms;
        }

        match state.run_phase_raw(&mut behaviors, Phase::LateStep) {
            Ok(_) => {},
            Err(e) => {
                return self.abort_tick(state, behaviors, backend, e);
            },
        }

        state.submit_queues(backend);

        if state.get_frame_count() < u64::MAX {
            state.inc_frame_count();
        }
        let cycle: i64 = (now_ms as i64) - (self.last_multistep_end_t as i64);
        let delta: i64 = if cycle == 0 {
            FP_SCALE / 2
        } else if cycle > 0 {
            FP_SCALE / cycle
        } else {
            -(FP_SCALE / -cycle)
        };
        state.set_delta_time(delta);
        self.state = state;
        self.behaviors = behaviors;
        self.last_multistep_end_t = now_ms;
        Ok(())
    }
}

/// The red, green and blue bytes of one of the sixteen face groups of the
/// block mesh's vertex coloring.
pub open spec fn spec_group_color(g: int) -> (int, int, int) {
    if g == 0 {
        (200, 70, 120)
    } else if g == 1 {
        (200, 70, 120)
    } else if g == 2 {
        (200, 70, 120)
    } else if g == 3 {
        (80, 70, 200)
    } else if g == 4 {
        (80, 70, 200)
    } else if g == 5 {
        (80, 70, 200)
    } else if g == 6 {
        (70, 200, 210)
    } else if g == 7 {
        (200, 200, 70)
    } else if g == 8 {
        (210, 100, 70)
    } else if g == 9 {
        (210, 160, 70)
    } else if g == 10 {
        (70, 180, 210)
    } else if g == 11 {
        (100, 70, 210)
    } else if g == 12 {
        (76, 210, 100)
    } else if g == 13 {
        (140, 210, 80)
    } else if g == 14 {
        (90, 130, 110)
    } else {
        (160, 160, 220)
    }
}

/// Byte `i` of the block mesh's vertex colors: the bytes come in sixteen
/// groups of six vertices, three bytes per vertex, each group one flat color.
pub open spec fn spec_color_byte(i: int) -> int {
    let (r, g, b) = spec_group_color(i / 18);
    if i % 3 == 0 {
        r
    } else if i % 3 == 1 {
        g
    } else {
        b
    }
}

/// The red, green and blue bytes of one face group.
fn group_color(g: usize) -> (r: (u8, u8, u8))
    requires
        g < 16,
    ensures
        r.0 == spec_group_color(g as int).0,
        r.1 == spec_group_color(g as int).1,
        r.2 == spec_group_color(g as int).2,
{
    if g == 0 || g == 1 || g == 2 {
        (200, 70, 120)
    } else if g == 3 || g == 4 || g == 5 {
        (80, 70, 200)
    } else if g == 6 {
        (70, 200, 210)
    } else if g == 7 {
        (200, 200, 70)
    } else if g == 8 {
        (210, 100, 70)
    } else if g == 9 {
        (210, 160, 70)
    } else if g == 10 {
        (70, 180, 210)
    } else if g == 11 {
        (100, 70, 210)
    } else if g == 12 {
        (76, 210, 100)
    } else if g == 13 {
        (140, 210, 80)
    } else if g == 14 {
        (90, 130, 110)
    } else {
        (160, 160, 220)
    }
}

/// The vertex colors of the block mesh: sixteen face groups of six vertices,
/// three bytes per vertex.
pub fn get_color() -> (r: Vec<u8>)
    ensures
        r@.len() == 288,
        forall|i: int| 0 <= i < 288 ==> #[trigger] r@[i] == spec_color_byte(i),
{
    let mut out: Vec<u8> = Vec::new();
    let mut g: usize = 0;
    while g < 16
        invariant
            g <= 16,
            out@.len() == 18 * g,
            forall|i: int| 0 <= i < 18 * g ==> #[trigger] out@[i] == spec_color_byte(i),
        decreases 16 - g,
    {
        let (cr, cg, cb) = group_color(g);
        let mut v: usize = 0;
        while v < 6
            invariant
                g < 16,
                v <= 6,
                out@.len() == 18 * g + 3 * v,
                forall|i: int| 0 <= i < 18 * g + 3 * v ==> #[trigger] out@[i] == spec_color_byte(i),
                cr == spec_group_color(g as int).0,
                cg == spec_group_color(g as int).1,
                cb == spec_group_color(g as int).2,
            decreases 6 - v,
        {
            out.push(cr);
            out.push(cg);
            out.push(cb);
            proof {
                let base = 18 * g as int + 3 * v as int;
                assert(base / 18 == g as int && (base + 1) / 18 == g as int && (base + 2) / 18
                    == g as int) by (nonlinear_arith)
                    requires
                        base == 18 * g as int + 3 * v as int,
                        0 <= v < 6,
                        0 <= g,
                ;
                assert(base % 3 == 0 && (base + 1) % 3 == 1 && (base + 2) % 3 == 2)
                    by (nonlinear_arith)
                    requires
                        base == 18 * g as int + 3 * v as int,
                        0 <= v,
                        0 <= g,
                ;
                assert(out@[base] == spec_color_byte(base));
                assert(out@[base + 1] == spec_color_byte(base + 1));
                assert(out@[base + 2] == spec_color_byte(base + 2));
            }
            v = v + 1;
        }
        g = g + 1;
    }
    out
}

} // verus!
