use scene_core::rendering::Backend;
use scene_core::spin::{GameLoop, LoadInStage, FIXED_STEP_RATE};
use scene_core::steppables::StepError;
use scene_core::steppables::Steppable;
use scene_core::transform::Transform;
use scene_core::world_state::WorldState;

/// What a scripted test behavior answers from its `step` hook.
#[derive(Clone, Copy)]
enum StepMode {
    Succeed,
    Fatal,
    FatalPostStep,
    SelfDisable,
    Recover,
}

/// A behavior that counts its invocations and answers as scripted.
struct CountingBehavior {
    mode: StepMode,
    message: &'static str,
    spawn_drawable: Option<u64>,
    start_calls: usize,
    step_calls: usize,
    fixed_calls: usize,
    late_calls: usize,
}

impl CountingBehavior {
    fn new(mode: StepMode, message: &'static str) -> CountingBehavior {
        CountingBehavior {
            mode,
            message,
            spawn_drawable: None,
            start_calls: 0,
            step_calls: 0,
            fixed_calls: 0,
            late_calls: 0,
        }
    }
}

impl Steppable<WorldState> for CountingBehavior {
    fn start(&mut self, state: &mut WorldState) -> Result<(), StepError> {
        self.start_calls += 1;
        if let Some(handle) = self.spawn_drawable {
            let mut init = scene_core::world_object::WorldObject3DInit::default();
            init.render_item = Some(scene_core::rendering::RenderItem::new(handle));
            state.add_world_obj(init.init());
        }
        Ok(())
    }

    fn step(&mut self, _state: &mut WorldState) -> Result<(), StepError> {
        self.step_calls += 1;
        match self.mode {
            StepMode::Succeed => Ok(()),
            StepMode::Fatal => Err(StepError::Fatal(self.message.to_string())),
            StepMode::FatalPostStep => Err(StepError::FatalPostStep(self.message.to_string())),
            StepMode::SelfDisable => Err(StepError::SelfDisable(self.message.to_string())),
            StepMode::Recover => Err(StepError::Recover(self.message.to_string())),
        }
    }

    fn fixed_step(&mut self, _state: &mut WorldState) -> Result<(), StepError> {
        self.fixed_calls += 1;
        Ok(())
    }

    fn late_step(&mut self, _state: &mut WorldState) -> Result<(), StepError> {
        self.late_calls += 1;
        Ok(())
    }
}

/// A backend that accepts everything.
struct NullBackend;

impl Backend for NullBackend {
    fn first_time_setup(&mut self, _handle: u64) -> Result<(), String> {
        Ok(())
    }

    fn submit(&mut self, _handle: u64, _world_tf: &Transform) -> Result<(), String> {
        Ok(())
    }
}

fn loop_with(modes: &[(StepMode, &'static str)]) -> GameLoop<CountingBehavior> {
    let mut gl: GameLoop<CountingBehavior> = GameLoop::empty();
    for (mode, msg) in modes {
        gl.add_scripted_component(CountingBehavior::new(*mode, msg));
    }
    gl
}

#[test]
fn fatal_skips_the_rest_of_the_pass() {
    let mut gl = loop_with(&[
        (StepMode::Succeed, ""),
        (StepMode::Fatal, "x"),
        (StepMode::Succeed, ""),
    ]);
    let mut backend = NullBackend;
    let r = gl.step(&mut backend, 100);
    let err = r.expect_err("a fatal outcome fails the tick");
    assert!(err.contains("x"));
    let slots = gl.scripted_components();
    assert_eq!(slots[0].behavior.step_calls, 1);
    assert_eq!(slots[1].behavior.step_calls, 1);
    // the third behavior was never invoked
    assert_eq!(slots[2].behavior.step_calls, 0);
}

#[test]
fn fatal_post_step_lets_the_pass_finish() {
    let mut gl = loop_with(&[
        (StepMode::Succeed, ""),
        (StepMode::FatalPostStep, "y"),
        (StepMode::Succeed, ""),
    ]);
    let mut backend = NullBackend;
    let r = gl.step(&mut backend, 100);
    let err = r.expect_err("a post-step fatal outcome still fails the tick");
    assert!(err.contains("y"));
    let slots = gl.scripted_components();
    // the third behavior did run before the failure was reported
    assert_eq!(slots[2].behavior.step_calls, 1);
}

#[test]
fn recover_only_warns_and_the_tick_succeeds() {
    let mut gl = loop_with(&[(StepMode::Recover, "z")]);
    let mut backend = NullBackend;
    for tick in 1..=5u64 {
        let r = gl.step(&mut backend, tick * 100);
        assert!(r.is_ok());
    }
    assert_eq!(gl.scripted_components()[0].behavior.step_calls, 5);
}

#[test]
fn self_disable_fails_the_tick_and_silences_the_behavior() {
    let mut gl = loop_with(&[(StepMode::SelfDisable, "d"), (StepMode::Succeed, "")]);
    let mut backend = NullBackend;
    let r = gl.step(&mut backend, 100);
    let err = r.expect_err("a self-disable outcome fails the tick");
    assert!(err.contains("d"));
    assert!(!gl.scripted_components()[0].enabled);
    // the next tick skips the disabled behavior and succeeds
    let r2 = gl.step(&mut backend, 200);
    assert!(r2.is_ok());
    assert_eq!(gl.scripted_components()[0].behavior.step_calls, 1);
    assert_eq!(gl.scripted_components()[1].behavior.step_calls, 2);
}

#[test]
fn fixed_step_runs_at_most_once_per_tick() {
    let mut gl = loop_with(&[(StepMode::Succeed, "")]);
    let mut backend = NullBackend;
    // far more than one fixed interval has elapsed, yet the phase runs once
    let many_intervals = 50 * FIXED_STEP_RATE;
    gl.step(&mut backend, many_intervals).unwrap();
    assert_eq!(gl.scripted_components()[0].behavior.fixed_calls, 1);
    // a tick inside the interval runs no fixed step at all
    gl.step(&mut backend, many_intervals + 1).unwrap();
    assert_eq!(gl.scripted_components()[0].behavior.fixed_calls, 1);
    // once the interval has passed again, exactly one more
    gl.step(&mut backend, many_intervals + FIXED_STEP_RATE + 1).unwrap();
    assert_eq!(gl.scripted_components()[0].behavior.fixed_calls, 2);
}

#[test]
fn phases_run_in_order_every_tick() {
    let mut gl = loop_with(&[(StepMode::Succeed, "")]);
    let mut backend = NullBackend;
    gl.start().unwrap();
    gl.step(&mut backend, 1000).unwrap();
    let b = &gl.scripted_components()[0].behavior;
    assert_eq!(b.start_calls, 1);
    assert_eq!(b.step_calls, 1);
    assert_eq!(b.fixed_calls, 1);
    assert_eq!(b.late_calls, 1);
    // the completed tick counted one frame
    assert_eq!(gl.state().get_frame_count(), 1);
}

#[test]
fn delta_time_is_reciprocal_of_elapsed_millis() {
    let mut gl = loop_with(&[(StepMode::Succeed, "")]);
    let mut backend = NullBackend;
    gl.step(&mut backend, 0).unwrap();
    // no elapsed time: the fallback of one half
    assert_eq!(gl.state().get_delta_time(), 500_000);
    gl.step(&mut backend, 20).unwrap();
    // twenty milliseconds elapsed: 1/20 in fixed point
    assert_eq!(gl.state().get_delta_time(), 50_000);
}

#[test]
fn load_in_walks_its_stages() {
    let mut gl: GameLoop<CountingBehavior> = GameLoop::empty();
    gl.add_load_in_mesh("assets/cube.obj".to_string());
    gl.add_load_in_mesh("assets/cottage_1.obj".to_string());

    // first call only opens the stage
    assert_eq!(gl.load_in(&vec![]), Ok(false));

    // one fetch still in flight: nothing is taken over
    let partial = vec![Some("cube data".to_string()), None];
    assert_eq!(gl.load_in(&partial), Ok(false));
    assert!(gl.get_mesh_data(0).is_none());

    // both results in: loading completes
    let done = vec![
        Some("cube data".to_string()),
        Some("cottage data".to_string()),
    ];
    assert_eq!(gl.load_in(&done), Ok(true));
    assert_eq!(gl.get_mesh_data(0).unwrap().as_str(), "cube data");
    assert_eq!(gl.get_mesh_data(1).unwrap().as_str(), "cottage data");
    assert!(gl.get_mesh_data(2).is_none());

    // complete stays complete
    assert_eq!(gl.load_in(&done), Ok(true));
}

#[test]
fn load_in_stage_values_differ() {
    assert_ne!(LoadInStage::NotLoading, LoadInStage::Started);
    assert_ne!(LoadInStage::Started, LoadInStage::Complete);
}

#[test]
fn step_error_translation() {
    assert_eq!(StepError::Ignore.translate(), Ok(()));
    assert_eq!(StepError::Recover("warn".to_string()).translate(), Ok(()));
    assert_eq!(
        StepError::Fatal("x".to_string()).translate(),
        Err("Fatal(x)".to_string())
    );
    assert_eq!(
        StepError::FatalPostStep("y".to_string()).translate(),
        Err("FatalPostStep(y)".to_string())
    );
    assert_eq!(
        StepError::SelfDisable("d".to_string()).translate(),
        Err("SelfDisable(d)".to_string())
    );
}

#[test]
fn store_nonfatal_accumulates_last_outcome() {
    let mut acc = StepError::Ignore;
    assert!(StepError::Recover("a".to_string())
        .store_nonfatal(&mut acc)
        .is_ok());
    assert!(matches!(acc, StepError::Recover(_)));
    assert!(StepError::SelfDisable("b".to_string())
        .store_nonfatal(&mut acc)
        .is_ok());
    assert!(matches!(acc, StepError::SelfDisable(_)));
    // a later quiet outcome resets the accumulator: the last one wins
    assert!(StepError::Ignore.store_nonfatal(&mut acc).is_ok());
    assert!(matches!(acc, StepError::Ignore));
    // a fatal outcome is handed back and leaves the accumulator alone
    let fatal = StepError::Fatal("f".to_string()).store_nonfatal(&mut acc);
    assert!(matches!(fatal, Err(StepError::Fatal(_))));
    assert!(matches!(acc, StepError::Ignore));
}

#[test]
fn step_error_messages() {
    assert_eq!(StepError::Ignore.message(), "Ignore");
    assert_eq!(StepError::Recover("r".to_string()).message(), "Recover(r)");
}

#[test]
fn self_disable_failure_still_renders_the_frame() {
    let mut gl: GameLoop<CountingBehavior> = GameLoop::empty();
    let mut b = CountingBehavior::new(StepMode::SelfDisable, "d");
    b.spawn_drawable = Some(11);
    gl.add_scripted_component(b);
    let mut backend = NullBackend;
    gl.start().unwrap();
    assert_eq!(
        gl.state().get_rendqueue().forward_queue[0].status,
        scene_core::rendering::DrawnStatus::NeedsDraw
    );
    let r = gl.step(&mut backend, 100);
    assert!(r.is_err());
    // the failed tick still submitted the queues
    assert_eq!(
        gl.state().get_rendqueue().forward_queue[0].status,
        scene_core::rendering::DrawnStatus::Drawn
    );
}

#[test]
fn fatal_failure_does_not_render_the_frame() {
    let mut gl: GameLoop<CountingBehavior> = GameLoop::empty();
    let mut b = CountingBehavior::new(StepMode::Fatal, "x");
    b.spawn_drawable = Some(12);
    gl.add_scripted_component(b);
    let mut backend = NullBackend;
    gl.start().unwrap();
    let r = gl.step(&mut backend, 100);
    assert!(r.is_err());
    assert_eq!(
        gl.state().get_rendqueue().forward_queue[0].status,
        scene_core::rendering::DrawnStatus::NeedsDraw
    );
}

#[test]
fn phase_passes_run_directly_over_the_world() {
    let mut state = WorldState::new();
    let mut behaviors = vec![
        scene_core::steppables::BehaviorSlot {
            behavior: CountingBehavior::new(StepMode::Succeed, ""),
            enabled: true,
        },
        scene_core::steppables::BehaviorSlot {
            behavior: CountingBehavior::new(StepMode::Succeed, ""),
            enabled: false,
        },
    ];
    assert!(state.run_steps(&mut behaviors).is_ok());
    assert!(state.run_fixed_steps(&mut behaviors).is_ok());
    assert!(state.run_late_steps(&mut behaviors).is_ok());
    assert_eq!(behaviors[0].behavior.step_calls, 1);
    assert_eq!(behaviors[0].behavior.fixed_calls, 1);
    assert_eq!(behaviors[0].behavior.late_calls, 1);
    // the disabled behavior is skipped by every pass
    assert_eq!(behaviors[1].behavior.step_calls, 0);
    assert_eq!(behaviors[1].behavior.fixed_calls, 0);
    assert_eq!(behaviors[1].behavior.late_calls, 0);
}
