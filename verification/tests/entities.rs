use scene_core::maths_utils::{FP_SCALE, PI_UNITS};
use scene_core::rendering::{DrawnStatus, RenderItem};
use scene_core::transform::{Transform, Vec3};
use scene_core::world_object::{WorldObject3D, WorldObject3DInit, WorldObjectId};
use scene_core::world_state::WorldState;

fn plain_obj() -> WorldObject3D {
    WorldObject3DInit::default().init()
}

#[test]
fn test_init() {
    let mut state: WorldState = WorldState::new();
    let obj: WorldObject3D = WorldObject3DInit::default().init();
    state.add_world_obj(obj);
}

#[test]
fn insert_wires_children_to_parent() {
    let mut state = WorldState::new();
    let c1 = state.new_world_obj();
    let c2 = state.new_world_obj();
    let mut init = WorldObject3DInit::default();
    init.children_ids = vec![c1, c2];
    let pid = state.add_world_obj(init.init());

    assert_eq!(state.get_world_obj(&c1).unwrap().parent, Some(pid));
    assert_eq!(state.get_world_obj(&c2).unwrap().parent, Some(pid));
    let parent = state.get_world_obj(&pid).unwrap();
    assert_eq!(parent.children, vec![c1, c2]);
    assert_eq!(parent.self_id, Some(pid));
    assert_eq!(parent.parent, None);
}

#[test]
fn remove_orphans_children() {
    let mut state = WorldState::new();
    let c1 = state.new_world_obj();
    let c2 = state.new_world_obj();
    let mut init = WorldObject3DInit::default();
    init.children_ids = vec![c1, c2];
    let pid = state.add_world_obj(init.init());

    let removed = state.remove(&pid).expect("parent was live");
    assert_eq!(removed.children, vec![c1, c2]);
    // no dangling parent references remain
    assert_eq!(state.get_world_obj(&c1).unwrap().parent, None);
    assert_eq!(state.get_world_obj(&c2).unwrap().parent, None);
    assert!(state.get_world_obj(&pid).is_none());
}

#[test]
fn remove_detaches_from_parent() {
    let mut state = WorldState::new();
    let c = state.new_world_obj();
    let mut init = WorldObject3DInit::default();
    init.children_ids = vec![c];
    let pid = state.add_world_obj(init.init());

    state.remove(&c);
    let parent = state.get_world_obj(&pid).unwrap();
    assert!(parent.children.is_empty());
}

#[test]
fn remove_unknown_id_is_a_no_op() {
    let mut state = WorldState::new();
    let ghost_id = WorldObjectId(5, 0);
    assert!(state.remove(&ghost_id).is_none());
    let id = state.new_world_obj();
    assert!(state.get_world_obj(&id).is_some());
}

#[test]
fn stale_id_never_resolves_after_reuse() {
    let mut state = WorldState::new();
    let id1 = state.new_world_obj();
    state.remove(&id1);
    // the slot is reused, under a new generation
    let id2 = state.add_world_obj(plain_obj());
    assert_eq!(id2.0, id1.0);
    assert_ne!(id2.1, id1.1);
    assert!(state.get_world_obj(&id1).is_none());
    assert!(state.get_world_obj_mut(&id1).is_none());
    assert!(state.get_world_obj(&id2).is_some());
}

#[test]
fn get_child_id_by_name_finds_first_match() {
    let mut state = WorldState::new();
    let c1 = state.new_world_obj();
    let c2 = state.new_world_obj();
    let c3 = state.new_world_obj();
    state.get_world_obj_mut(&c2).unwrap().name = "lamp".to_string();
    state.get_world_obj_mut(&c3).unwrap().name = "lamp".to_string();
    let mut init = WorldObject3DInit::default();
    init.children_ids = vec![c1, c2, c3];
    let pid = state.add_world_obj(init.init());

    let parent = state.get_world_obj(&pid).unwrap();
    assert_eq!(
        parent.get_child_id_by_name(&state, &"lamp".to_string()),
        Some(c2)
    );
    assert_eq!(
        parent.get_child_id_by_name(&state, &"missing".to_string()),
        None
    );
}

#[test]
fn get_parent_resolves() {
    let mut state = WorldState::new();
    let c = state.new_world_obj();
    let mut init = WorldObject3DInit::default();
    init.children_ids = vec![c];
    let pid = state.add_world_obj(init.init());

    let child = state.get_world_obj(&c).unwrap();
    let parent = child.get_parent(&state).unwrap();
    assert_eq!(parent.self_id, Some(pid));
    let top = state.get_world_obj(&pid).unwrap();
    assert!(top.get_parent(&state).is_none());
}

#[test]
fn transforms_are_shared_through_the_store() {
    let mut state = WorldState::new();
    let id = state.new_world_obj();
    state
        .get_world_obj_mut(&id)
        .unwrap()
        .tf
        .set_position(Vec3 { x: 7, y: 8, z: 9 });
    let seen = state.get_world_obj(&id).unwrap().tf.get_position();
    assert_eq!(seen, Vec3 { x: 7, y: 8, z: 9 });
}

#[test]
fn rotation_setters_always_wrap() {
    let mut t = Transform::identity();
    t.set_euler_rotation_raw(Vec3 { x: 3 * PI_UNITS, y: -3 * PI_UNITS, z: 2 * PI_UNITS });
    let r = t.get_euler_rotation();
    assert_eq!(r.roll.as_rad(), PI_UNITS);
    assert_eq!(r.pitch.as_rad(), PI_UNITS);
    assert_eq!(r.yaw.as_rad(), 0);
}

#[test]
fn scale_matrix_feeds_world_matrix() {
    let mut t = Transform::identity();
    t.set_position(Vec3 { x: 10, y: 20, z: 30 });
    t.set_scale(Vec3 { x: 2 * FP_SCALE, y: 3 * FP_SCALE, z: 4 * FP_SCALE });
    // identity rotation: the fixed-point unit on the diagonal
    let rot = vec![FP_SCALE, 0, 0, 0, FP_SCALE, 0, 0, 0, FP_SCALE];
    let m = t.to_mat4_vec(&rot);
    assert_eq!(m.len(), 16);
    assert_eq!(m[0], 2 * FP_SCALE);
    assert_eq!(m[5], 3 * FP_SCALE);
    assert_eq!(m[10], 4 * FP_SCALE);
    assert_eq!(m[12], 10);
    assert_eq!(m[13], 20);
    assert_eq!(m[14], 30);
    assert_eq!(m[15], FP_SCALE);
    assert_eq!(m[3], 0);
    assert_eq!(m[7], 0);
    assert_eq!(m[11], 0);
}

#[test]
fn mat3_holds_scale_then_translation() {
    let mut t = Transform::identity();
    t.set_position(Vec3 { x: 5, y: 6, z: 0 });
    t.set_scale(Vec3 { x: 2 * FP_SCALE, y: 3 * FP_SCALE, z: FP_SCALE });
    let m = t.to_mat3_vec();
    assert_eq!(m, vec![2 * FP_SCALE, 0, 0, 0, 3 * FP_SCALE, 0, 5, 6, FP_SCALE]);
}

#[test]
fn render_item_entity_joins_forward_queue() {
    let mut state = WorldState::new();
    let mut init = WorldObject3DInit::default();
    init.render_item = Some(RenderItem::new(42));
    let id = state.add_world_obj(init.init());
    let queues = state.get_rendqueue();
    assert_eq!(queues.forward_queue.len(), 1);
    assert_eq!(queues.reverse_queue.len(), 0);
    let entry = &queues.forward_queue[0];
    assert_eq!(entry.status, DrawnStatus::NeedsDraw);
    assert_eq!(entry.item.handle, 42);
    assert_eq!(entry.owner, id);
}

#[test]
fn world_matrix_scales_before_rotating() {
    let mut t = Transform::identity();
    t.set_scale(Vec3 { x: 2 * FP_SCALE, y: 3 * FP_SCALE, z: 4 * FP_SCALE });
    // a rotation swapping the x and y axes
    let rot = vec![0, FP_SCALE, 0, FP_SCALE, 0, 0, 0, 0, FP_SCALE];
    let m = t.to_mat4_vec(&rot);
    // points are scaled first: the scale weights the rotation's columns,
    // so the x scale rides along the swapped axis
    assert_eq!(m[1], 2 * FP_SCALE);
    assert_eq!(m[4], 3 * FP_SCALE);
    assert_eq!(m[10], 4 * FP_SCALE);
    assert_eq!(m[0], 0);
    assert_eq!(m[5], 0);
}
