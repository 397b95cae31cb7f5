use scene_core::rendering::{Backend, DrawnStatus, RendQueueType, RenderItem};
use scene_core::transform::Transform;
use scene_core::world_object::WorldObject3DInit;
use scene_core::world_state::WorldState;

/// A backend that records every call and fails exactly the handles it is
/// told to fail.
struct RecordingBackend {
    log: Vec<(&'static str, u64)>,
    fail_setup: Vec<u64>,
    fail_submit: Vec<u64>,
}

impl RecordingBackend {
    fn new() -> RecordingBackend {
        RecordingBackend { log: Vec::new(), fail_setup: Vec::new(), fail_submit: Vec::new() }
    }
}

impl Backend for RecordingBackend {
    fn first_time_setup(&mut self, handle: u64) -> Result<(), String> {
        self.log.push(("setup", handle));
        if self.fail_setup.contains(&handle) {
            Err("setup refused".to_string())
        } else {
            Ok(())
        }
    }

    fn submit(&mut self, handle: u64, _world_tf: &Transform) -> Result<(), String> {
        self.log.push(("submit", handle));
        if self.fail_submit.contains(&handle) {
            Err("missing uniform location".to_string())
        } else {
            Ok(())
        }
    }
}

fn world_with_drawable(handle: u64, always_redraw: bool) -> WorldState {
    let mut state = WorldState::new();
    let mut item = RenderItem::new(handle);
    item.always_redraw = always_redraw;
    let mut init = WorldObject3DInit::default();
    init.render_item = Some(item);
    state.add_world_obj(init.init());
    state
}

#[test]
fn entry_starts_needing_draw_then_drawn_after_success() {
    let mut state = world_with_drawable(1, false);
    assert_eq!(state.get_rendqueue().forward_queue[0].status, DrawnStatus::NeedsDraw);

    let mut backend = RecordingBackend::new();
    state.submit_queues(&mut backend);
    assert_eq!(state.get_rendqueue().forward_queue[0].status, DrawnStatus::Drawn);
    // first submission does the one-time setup, then draws
    assert_eq!(backend.log, vec![("setup", 1), ("submit", 1)]);

    // steady state: no setup, draw only
    state.submit_queues(&mut backend);
    assert_eq!(state.get_rendqueue().forward_queue[0].status, DrawnStatus::Drawn);
    assert_eq!(backend.log, vec![("setup", 1), ("submit", 1), ("submit", 1)]);
}

#[test]
fn failed_submission_leaves_entry_needing_draw() {
    let mut state = world_with_drawable(2, false);
    let mut backend = RecordingBackend::new();
    backend.fail_submit.push(2);
    state.submit_queues(&mut backend);
    assert_eq!(state.get_rendqueue().forward_queue[0].status, DrawnStatus::NeedsDraw);

    // the backend recovers, and the retried entry is set up and drawn
    backend.fail_submit.clear();
    state.submit_queues(&mut backend);
    assert_eq!(state.get_rendqueue().forward_queue[0].status, DrawnStatus::Drawn);
}

#[test]
fn failed_setup_skips_draw_and_keeps_status() {
    let mut state = world_with_drawable(3, false);
    let mut backend = RecordingBackend::new();
    backend.fail_setup.push(3);
    state.submit_queues(&mut backend);
    assert_eq!(state.get_rendqueue().forward_queue[0].status, DrawnStatus::NeedsDraw);
    assert_eq!(backend.log, vec![("setup", 3)]);
}

#[test]
fn always_redraw_entry_stays_needing_draw() {
    let mut state = world_with_drawable(4, true);
    let mut backend = RecordingBackend::new();
    state.submit_queues(&mut backend);
    assert_eq!(state.get_rendqueue().forward_queue[0].status, DrawnStatus::NeedsDraw);
    state.submit_queues(&mut backend);
    assert_eq!(state.get_rendqueue().forward_queue[0].status, DrawnStatus::NeedsDraw);
    // it is set up anew on every frame
    assert_eq!(
        backend.log,
        vec![("setup", 4), ("submit", 4), ("setup", 4), ("submit", 4)]
    );
}

#[test]
fn forward_in_order_then_reverse_backwards() {
    let mut state = WorldState::new();
    let a = state.new_world_obj();
    let b = state.new_world_obj();
    let c = state.new_world_obj();
    state.push_rendqueue(RendQueueType::Fwd, RenderItem::new(10), a);
    state.push_rendqueue(RendQueueType::Rev, RenderItem::new(20), b);
    state.push_rendqueue(RendQueueType::Rev, RenderItem::new(30), c);
    let mut backend = RecordingBackend::new();
    state.submit_queues(&mut backend);
    let order: Vec<u64> = backend
        .log
        .iter()
        .filter(|(what, _)| *what == "submit")
        .map(|(_, h)| *h)
        .collect();
    // forward queue front-to-back, reverse queue back-to-front
    assert_eq!(order, vec![10, 30, 20]);
}

#[test]
fn disabled_entry_is_skipped_entirely() {
    let mut state = WorldState::new();
    let owner = state.new_world_obj();
    let mut item = RenderItem::new(5);
    item.disable();
    state.push_rendqueue(RendQueueType::Fwd, item, owner);
    let mut backend = RecordingBackend::new();
    state.submit_queues(&mut backend);
    assert!(backend.log.is_empty());
    assert_eq!(state.get_rendqueue().forward_queue[0].status, DrawnStatus::NeedsDraw);
}

#[test]
fn entry_with_removed_owner_is_skipped() {
    let mut state = world_with_drawable(6, false);
    let owner = state.get_rendqueue().forward_queue[0].owner;
    state.remove(&owner);
    let mut backend = RecordingBackend::new();
    state.submit_queues(&mut backend);
    assert!(backend.log.is_empty());
    assert_eq!(state.get_rendqueue().forward_queue[0].status, DrawnStatus::NeedsDraw);
}

#[test]
fn one_failure_does_not_stop_the_queue() {
    let mut state = WorldState::new();
    let a = state.new_world_obj();
    let b = state.new_world_obj();
    state.push_rendqueue(RendQueueType::Fwd, RenderItem::new(7), a);
    state.push_rendqueue(RendQueueType::Fwd, RenderItem::new(8), b);
    let mut backend = RecordingBackend::new();
    backend.fail_submit.push(7);
    state.submit_queues(&mut backend);
    assert_eq!(state.get_rendqueue().forward_queue[0].status, DrawnStatus::NeedsDraw);
    assert_eq!(state.get_rendqueue().forward_queue[1].status, DrawnStatus::Drawn);
}

#[test]
fn enable_and_disable_toggle() {
    let mut item = RenderItem::new(9);
    assert!(item.enabled);
    item.disable();
    assert!(!item.enabled);
    item.enable();
    assert!(item.enabled);
}

#[test]
fn queue_lengths_count_pushes() {
    let mut state = WorldState::new();
    let o = state.new_world_obj();
    state.push_rendqueue(RendQueueType::Fwd, RenderItem::new(1), o);
    state.push_rendqueue(RendQueueType::Rev, RenderItem::new(2), o);
    state.push_rendqueue(RendQueueType::Rev, RenderItem::new(3), o);
    assert_eq!(state.get_rendqueue().get_forward_queue_len(), 1);
    assert_eq!(state.get_rendqueue().get_reverse_queue_len(), 2);
}
