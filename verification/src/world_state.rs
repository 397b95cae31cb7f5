use vstd::prelude::*;

use crate::inputs::InputBinding;
use crate::maths_utils::FP_SCALE;
use crate::transform::Vec3;
use crate::rendering::{
    apply_submission_outcome, entry_after_submission, Backend, DrawnStatus, RendQueueType,
    RenderItem, RenderQueueEntry, RenderableQueues,
};
use crate::steppables::{BehaviorSlot, Phase, StepError, Steppable};
use crate::world_object::{WorldObject3D, WorldObject3DInit, WorldObjectId};

verus! {

/// One slot of the world store: the entity living there, if any, and the
/// slot's generation, bumped every time an entity is removed so that stale
/// handles can never resolve to a later occupant.
struct Slot {
    generation: u64,
    obj: Option<WorldObject3D>,
}

/// Whether a handle resolves in a sequence of slots.
spec fn slots_valid_id(slots: Seq<Slot>, id: WorldObjectId) -> bool {
    &&& id.0 < slots.len()
    &&& slots[id.0 as int].generation == id.1
    &&& slots[id.0 as int].obj is Some
}

/// The entity a valid handle resolves to in a sequence of slots.
spec fn slots_obj(slots: Seq<Slot>, id: WorldObjectId) -> WorldObject3D {
    slots[id.0 as int].obj->Some_0
}

/// The free list is sound: every listed slot exists and is vacant, and no
/// slot is listed twice.
spec fn free_list_ok(slots: Seq<Slot>, free: Seq<usize>) -> bool {
    &&& forall|k: int|
        #![trigger free[k]]
        0 <= k < free.len() ==> free[k] < slots.len() && slots[free[k] as int].obj is None
    &&& forall|k1: int, k2: int|
        #![trigger free[k1], free[k2]]
        0 <= k1 < k2 < free.len() ==> free[k1] != free[k2]
}

/// The world the scheduler owns for the duration of a tick: the entity
/// store, the render queues, the pointer snapshot, and frame bookkeeping.
pub struct WorldState {
    delta_time: i64,
    frame_count: u64,
    world_objs: Vec<Slot>,
    free_slots: Vec<usize>,
    renderables: RenderableQueues,
    inputs: Option<InputBinding>,
}

impl WorldState {
    /// The fixed-point delta-time of the last tick.
    pub closed spec fn spec_delta_time(self) -> i64 {
        self.delta_time
    }

    /// How many ticks have completed.
    pub closed spec fn spec_frame_count(self) -> u64 {
        self.frame_count
    }

    /// The pointer snapshot, if one was taken.
    pub closed spec fn spec_inputs(self) -> Option<InputBinding> {
        self.inputs
    }

    /// The forward render queue's entries, in insertion order.
    pub closed spec fn spec_fwd_queue(self) -> Seq<RenderQueueEntry> {
        self.renderables.forward_queue@
    }

    /// The reverse render queue's entries, in insertion order.
    pub closed spec fn spec_rev_queue(self) -> Seq<RenderQueueEntry> {
        self.renderables.reverse_queue@
    }

    /// Whether a handle resolves: its slot exists, still carries the handle's
    /// generation, and holds an entity.
    pub closed spec fn valid_id(self, id: WorldObjectId) -> bool {
        slots_valid_id(self.world_objs@, id)
    }

    /// The entity a valid handle resolves to.
    pub closed spec fn spec_obj(self, id: WorldObjectId) -> WorldObject3D {
        slots_obj(self.world_objs@, id)
    }

    #[verifier::type_invariant]
    closed spec fn wf(self) -> bool {
        free_list_ok(self.world_objs@, self.free_slots@)
    }

    /// An empty world: no entities, empty queues, no pointer snapshot, and
    /// the delta-time of a nominal sixtieth of a second.
    pub fn new() -> (r: WorldState)
        ensures
            r.spec_frame_count() == 0,
            r.spec_delta_time() == FP_SCALE / 60,
            r.spec_inputs() is None,
            r.spec_fwd_queue().len() == 0,
            r.spec_rev_queue().len() == 0,
            forall|id: WorldObjectId| !r.valid_id(id),
    {
        WorldState {
            frame_count: 0,
            inputs: None,
            renderables: RenderableQueues::new(),
            world_objs: Vec::new(),
            free_slots: Vec::new(),
            delta_time: FP_SCALE / 60,
        }
    }

    /// The fixed-point delta-time of the last tick.
    pub fn get_delta_time(&self) -> (r: i64)
        ensures
            r == self.spec_delta_time(),
    {
        self.delta_time
    }

    /// Record the delta-time of the tick that just finished.
    pub fn set_delta_time(&mut self, delta_time: i64)
        ensures
            final (self).spec_delta_time() == delta_time,
            unchanged_but_delta(*old(self), *final (self)),
    {
        proof {
            use_type_invariant(&*self);
        }
        self.delta_time = delta_time;
    }

    /// How many ticks have completed.
    pub fn get_frame_count(&self) -> (r: u64)
        ensures
            r == self.spec_frame_count(),
    {
        self.frame_count
    }

    /// Count one more completed tick, returning the new count.
    pub fn inc_frame_count(&mut self) -> (r: u64)
        requires
            old(self).spec_frame_count() < u64::MAX,
        ensures
            final (self).spec_frame_count() == old(self).spec_frame_count() + 1,
            r == final (self).spec_frame_count(),
            unchanged_but_frame(*old(self), *final (self)),
    {
        proof {
            use_type_invariant(&*self);
        }
        self.frame_count = self.frame_count + 1;
        self.frame_count
    }

    /// The pointer snapshot, if one was taken.
    pub fn get_inputs(&self) -> (r: &Option<InputBinding>)
        ensures
            *r == self.spec_inputs(),
    {
        &self.inputs
    }

    /// Replace the pointer snapshot.
    pub fn set_inputs(&mut self, new_inputs: Option<InputBinding>)
        ensures
            final (self).spec_inputs() == new_inputs,
            unchanged_but_inputs(*old(self), *final (self)),
    {
        proof {
            use_type_invariant(&*self);
        }
        self.inputs = new_inputs;
    }

    /// Look an entity up by handle: the entity for a valid handle, `None` for
    /// an unknown or stale one.
    pub fn get_world_obj(&self, id: &WorldObjectId) -> (r: Option<&WorldObject3D>)
        ensures
            match r {
                None => !self.valid_id(*id),
                Some(o) => self.valid_id(*id) && *o == self.spec_obj(*id),
            },
    {
        if id.0 < self.world_objs.len() {
            let slot = &self.world_objs[id.0];
            if slot.generation == id.1 {
                match &slot.obj {
                    Some(o) => Some(o),
                    None => None,
                }
            } else {
                None
            }
        } else {
            None
        }
    }

    /// Look an entity up by handle for mutation: the entity for a valid
    /// handle, `None` for an unknown or stale one. Whatever the caller does
    /// to the entity, its handle and every other entity stay as they were.
    pub fn get_world_obj_mut(&mut self, id: &WorldObjectId) -> (r: Option<&mut WorldObject3D>)
        ensures
            match r {
                None => !old(self).valid_id(*id) && *final (self) == *old(self),
                Some(o) => {
                    &&& old(self).valid_id(*id)
                    &&& *o == old(self).spec_obj(*id)
                    &&& final (self).valid_id(*id)
                    &&& final (self).spec_obj(*id) == *final (o)
                    &&& forall|other: WorldObjectId|
                        other != *id ==> (final (self).valid_id(other) <==> old(self).valid_id(
                            other,
                        ))
                    &&& forall|other: WorldObjectId|
                        other != *id && old(self).valid_id(other) ==> final (self).spec_obj(other)
                            == old(self).spec_obj(other)
                    &&& final (self).spec_fwd_queue() == old(self).spec_fwd_queue()
                    &&& final (self).spec_rev_queue() == old(self).spec_rev_queue()
                    &&& final (self).spec_delta_time() == old(self).spec_delta_time()
                    &&& final (self).spec_frame_count() == old(self).spec_frame_count()
                    &&& final (self).spec_inputs() == old(self).spec_inputs()
                },
            },
    {
        proof {
            use_type_invariant(&*self);
        }
        let is_valid = id.0 < self.world_objs.len() && self.world_objs[id.0].generation == id.1
            && self.world_objs[id.0].obj.is_some();
        if is_valid {
            proof {
                assert forall|k: int|
                    0 <= k < self.free_slots@.len() implies self.free_slots@[k] != id.0 by {
                    assert(self.world_objs@[self.free_slots@[k] as int].obj is None);
                }
            }
            match &mut self.world_objs[id.0].obj {
                Some(o) => Some(o),
                None => {
                    proof {
                        assert(false);
                    }
                    None
                },
            }
        } else {
            None
        }
    }

    /// Publish a fresh default entity and return its handle: it carries the
    /// identity transform, an empty name, no drawable and no links, and it
    /// knows its own handle.
    pub fn new_world_obj(&mut self) -> (id: WorldObjectId)
        ensures
            !old(self).valid_id(id),
            final (self).valid_id(id),
            final (self).spec_obj(id).tf.spec_translation() == (Vec3 { x: 0, y: 0, z: 0 }),
            final (self).spec_obj(id).tf.spec_rotation().roll.rad() == 0,
            final (self).spec_obj(id).tf.spec_rotation().pitch.rad() == 0,
            final (self).spec_obj(id).tf.spec_rotation().yaw.rad() == 0,
            final (self).spec_obj(id).tf.spec_scale() == (Vec3 {
                x: FP_SCALE,
                y: FP_SCALE,
                z: FP_SCALE,
            }),
            final (self).spec_obj(id).name@ == Seq::<char>::empty(),
            final (self).spec_obj(id).render_item is None,
            final (self).spec_obj(id).children@.len() == 0,
            final (self).spec_obj(id).parent is None,
            final (self).spec_obj(id).self_id == Some(id),
            forall|o: WorldObjectId| o != id ==> (final (self).valid_id(o) <==> old(self).valid_id(o)),
            forall|o: WorldObjectId|
                o != id && old(self).valid_id(o) ==> {
                    &&& #[trigger] final (self).spec_obj(o).parent == old(self).spec_obj(o).parent
                    &&& final (self).spec_obj(o).tf == old(self).spec_obj(o).tf
                    &&& final (self).spec_obj(o).render_item == old(self).spec_obj(o).render_item
                    &&& final (self).spec_obj(o).name == old(self).spec_obj(o).name
                    &&& final (self).spec_obj(o).self_id == old(self).spec_obj(o).self_id
                    &&& final (self).spec_obj(o).children == old(self).spec_obj(o).children
                },
            final (self).spec_fwd_queue() == old(self).spec_fwd_queue(),
            final (self).spec_rev_queue() == old(self).spec_rev_queue(),
            final (self).spec_delta_time() == old(self).spec_delta_time(),
            final (self).spec_frame_count() == old(self).spec_frame_count(),
            final (self).spec_inputs() == old(self).spec_inputs(),
    {
        let init = WorldObject3DInit::default();
        let obj = init.init();
        self.add_world_obj(obj)
    }

    /// Publish an entity into the store: a fresh handle is allocated, the
    /// entity's drawable (if any) joins the forward render queue in
    /// `NeedsDraw` state, every listed child that resolves gets its parent
    /// link set to the new handle, and the stored entity learns its own
    /// handle. The handle of no other entity changes meaning.
    pub fn add_world_obj(&mut self, obj: WorldObject3D) -> (id: WorldObjectId)
        ensures
            !old(self).valid_id(id),
            final (self).valid_id(id),
            final (self).spec_obj(id).tf == obj.tf,
            final (self).spec_obj(id).render_item == obj.render_item,
            final (self).spec_obj(id).name == obj.name,
            final (self).spec_obj(id).children == obj.children,
            final (self).spec_obj(id).self_id == Some(id),
            final (self).spec_obj(id).parent == (if obj.children@.contains(id) {
                Some(id)
            } else {
                obj.parent
            }),
            forall|o: WorldObjectId| o != id ==> (final (self).valid_id(o) <==> old(self).valid_id(o)),
            forall|o: WorldObjectId|
                o != id && old(self).valid_id(o) ==> {
                    &&& #[trigger] final (self).spec_obj(o).parent == (if obj.children@.contains(o) {
                        Some(id)
                    } else {
                        old(self).spec_obj(o).parent
                    })
                    &&& final (self).spec_obj(o).tf == old(self).spec_obj(o).tf
                    &&& final (self).spec_obj(o).render_item == old(self).spec_obj(o).render_item
                    &&& final (self).spec_obj(o).name == old(self).spec_obj(o).name
                    &&& final (self).spec_obj(o).self_id == old(self).spec_obj(o).self_id
                    &&& final (self).spec_obj(o).children == old(self).spec_obj(o).children
                },
            match obj.render_item {
                Some(item) => final (self).spec_fwd_queue() == old(self).spec_fwd_queue().push(
                    RenderQueueEntry { status: DrawnStatus::NeedsDraw, item, owner: id },
                ),
                None => final (self).spec_fwd_queue() == old(self).spec_fwd_queue(),
            },
            final (self).spec_rev_queue() == old(self).spec_rev_queue(),
            final (self).spec_delta_time() == old(self).spec_delta_time(),
            final (self).spec_frame_count() == old(self).spec_frame_count(),
            final (self).spec_inputs() == old(self).spec_inputs(),
    {
        proof {
            use_type_invariant(&*self);
        }
        let ghost children_seq = obj.children@;
        let ghost obj0 = obj;
        let item_opt: Option<RenderItem> = obj.render_item;

        // The store's fields are worked on as locals and written back whole.
        let mut free: Vec<usize> = Vec::new();
        let mut objs: Vec<Slot> = Vec::new();
        let mut queues = RenderableQueues::new();
        core::mem::swap(&mut free, &mut self.free_slots);
        core::mem::swap(&mut objs, &mut self.world_objs);
        core::mem::swap(&mut queues, &mut self.renderables);
        let ghost objs0 = objs@;

        // Allocate a slot: reuse a vacant one if any, else grow the store.
        let idx: usize;
        let gen: u64;
        let reuse: bool;
        if free.len() > 0 {
            let popped = free.pop();
            idx = match popped {
                Some(i) => i,
                None => {
                    proof {
                        assert(false);
                    }
                    0
                },
            };
            gen = objs[idx].generation;
            reuse = true;
        } else {
            idx = objs.len();
            gen = 0;
            reuse = false;
        }
        let id = WorldObjectId(idx, gen);

        // The stored entity knows its own handle from the start.
        let mut stored = obj;
        stored.self_id = Some(id);
        let ghost stored0 = stored;
        if reuse {
            objs[idx].obj = Some(stored);
        } else {
            objs.push(Slot { generation: 0, obj: Some(stored) });
        }
        proof {
            assert(!slots_valid_id(objs0, id));
            assert(slots_valid_id(objs@, id));
            assert(free_list_ok(objs@, free@));
            assert forall|o: WorldObjectId|
                o != id && slots_valid_id(objs0, o) implies slots_valid_id(objs@, o) && slots_obj(
                objs@,
                o,
            ) == slots_obj(objs0, o) by {
                assert(o.0 != idx);
            }
            assert forall|o: WorldObjectId|
                o != id && slots_valid_id(objs@, o) implies slots_valid_id(objs0, o) by {
                assert(o.0 != idx);
            }
        }

        // The drawable, if any, joins the forward queue still needing setup.
        match item_opt {
            Some(item) => {
                queues.push_forward_queue(item, id);
            },
            None => {},
        }

        let ghost s1 = objs@;
        // Wire each listed child that resolves: its parent becomes the new
        // handle.
        let n = match &objs[idx].obj {
            Some(o) => o.children.len(),
            None => {
                proof {
                    assert(false);
                }
                0
            },
        };
        let mut j: usize = 0;
        while j < n
            invariant
                j <= n,
                n == children_seq.len(),
                id.0 == idx && id.1 == gen,
                idx < objs@.len(),
                objs@.len() == s1.len(),
                slots_valid_id(s1, id),
                slots_obj(s1, id) == stored0,
                stored0.children@ == children_seq,
                free_list_ok(objs@, free@),
                forall|k: int|
                    0 <= k < objs@.len() ==> #[trigger] objs@[k].generation == s1[k].generation,
                forall|o: WorldObjectId| slots_valid_id(objs@, o) <==> slots_valid_id(s1, o),
                forall|o: WorldObjectId|
                    #![trigger slots_obj(objs@, o)]
                    slots_valid_id(s1, o) ==> {
                        &&& slots_obj(objs@, o).parent == (if children_seq.subrange(
                            0,
                            j as int,
                        ).contains(o) {
                            Some(id)
                        } else {
                            slots_obj(s1, o).parent
                        })
                        &&& slots_obj(objs@, o).tf == slots_obj(s1, o).tf
                        &&& slots_obj(objs@, o).render_item == slots_obj(s1, o).render_item
                        &&& slots_obj(objs@, o).name == slots_obj(s1, o).name
                        &&& slots_obj(objs@, o).self_id == slots_obj(s1, o).self_id
                        &&& slots_obj(objs@, o).children == slots_obj(s1, o).children
                    },
            decreases n - j,
        {
            proof {
                assert(slots_valid_id(objs@, id));
                assert(slots_obj(objs@, id).children == stored0.children);
            }
            let c: WorldObjectId = match &objs[idx].obj {
                Some(o) => o.children[j],
                None => {
                    proof {
                        assert(false);
                    }
                    WorldObjectId(0, 0)
                },
            };
            proof {
                assert(c == children_seq[j as int]);
                assert(children_seq.subrange(0, j as int + 1) =~= children_seq.subrange(
                    0,
                    j as int,
                ).push(c));
            }
            let ghost before = objs@;
            if c.0 < objs.len() {
                if objs[c.0].generation == c.1 {
                    let taken = objs[c.0].obj.take();
                    match taken {
                        Some(mut child) => {
                            child.parent = Some(id);
                            objs[c.0].obj = Some(child);
                        },
                        None => {},
                    }
                }
            }
            proof {
                assert forall|o: WorldObjectId|
                    #![trigger slots_obj(objs@, o)]
                    slots_valid_id(s1, o) implies {
                    &&& slots_obj(objs@, o).parent == (if children_seq.subrange(
                        0,
                        j as int + 1,
                    ).contains(o) {
                        Some(id)
                    } else {
                        slots_obj(s1, o).parent
                    })
                    &&& slots_obj(objs@, o).tf == slots_obj(s1, o).tf
                    &&& slots_obj(objs@, o).render_item == slots_obj(s1, o).render_item
                    &&& slots_obj(objs@, o).name == slots_obj(s1, o).name
                    &&& slots_obj(objs@, o).self_id == slots_obj(s1, o).self_id
                    &&& slots_obj(objs@, o).children == slots_obj(s1, o).children
                } by {
                    assert(slots_obj(before, o).parent == (if children_seq.subrange(
                        0,
                        j as int,
                    ).contains(o) {
                        Some(id)
                    } else {
                        slots_obj(s1, o).parent
                    }));
                    if o == c {
                        assert(children_seq.subrange(0, j as int + 1)[j as int] == c);
                        assert(children_seq.subrange(0, j as int + 1).contains(c));
                    } else {
                        if children_seq.subrange(0, j as int + 1).contains(o) {
                            let i = choose|i: int|
                                0 <= i < j as int + 1 && #[trigger] children_seq.subrange(
                                    0,
                                    j as int + 1,
                                )[i] == o;
                            assert(i < j as int);
                            assert(children_seq.subrange(0, j as int)[i] == o);
                            assert(children_seq.subrange(0, j as int).contains(o));
                        }
                        if children_seq.subrange(0, j as int).contains(o) {
                            let i = choose|i: int|
                                0 <= i < j as int && #[trigger] children_seq.subrange(
                                    0,
                                    j as int,
                                )[i] == o;
                            assert(children_seq.subrange(0, j as int + 1)[i] == o);
                            assert(children_seq.subrange(0, j as int + 1).contains(o));
                        }
                        if o.0 == c.0 && slots_valid_id(s1, o) {
                            assert(before[c.0 as int].generation == s1[c.0 as int].generation);
                            assert(o.1 != c.1);
                            assert(objs@[o.0 as int] == before[o.0 as int]);
                        }
                    }
                }
                assert forall|o: WorldObjectId|
                    slots_valid_id(objs@, o) <==> slots_valid_id(s1, o) by {
                    if o.0 < objs@.len() {
                        assert(objs@[o.0 as int].generation == before[o.0 as int].generation);
                        assert(objs@[o.0 as int].obj is Some <==> before[o.0 as int].obj is Some);
                    }
                }
                assert forall|k: int|
                    0 <= k < objs@.len() implies #[trigger] objs@[k].generation
                    == s1[k].generation by {
                    assert(objs@[k].generation == before[k].generation);
                }
            }
            j = j + 1;
        }
        proof {
            assert(children_seq.subrange(0, n as int) =~= children_seq);
            assert(slots_valid_id(objs@, id));
            assert(slots_obj(objs@, id).tf == stored0.tf);
            assert(slots_obj(objs@, id).self_id == Some(id));
        }

        self.world_objs = objs;
        self.free_slots = free;
        self.renderables = queues;
        id
    }

    /// Remove an entity by handle. An unknown or stale handle changes
    /// nothing. Removing a live entity detaches it from its parent (the
    /// handle leaves the parent's child list), orphans its children (their
    /// parent link is cleared, never left dangling), invalidates the handle
    /// for all future lookups, and hands the entity back. Queue entries are
    /// scene-lifetime-scoped and stay.
    pub fn remove(&mut self, id: &WorldObjectId) -> (r: Option<WorldObject3D>)
        ensures
            !old(self).valid_id(*id) ==> {
                &&& r is None
                &&& same_world(*old(self), *final (self))
            },
            old(self).valid_id(*id) ==> {
                &&& r == Some(old(self).spec_obj(*id))
                &&& !final (self).valid_id(*id)
                &&& forall|o: WorldObjectId|
                    o != *id ==> (final (self).valid_id(o) <==> old(self).valid_id(o))
                &&& forall|o: WorldObjectId|
                    #![trigger final (self).spec_obj(o)]
                    o != *id && old(self).valid_id(o) ==> {
                        &&& final (self).spec_obj(o).parent == (if old(self).spec_obj(
                            *id,
                        ).children@.contains(o) {
                            None
                        } else {
                            old(self).spec_obj(o).parent
                        })
                        &&& final (self).spec_obj(o).children@ == (if old(self).spec_obj(*id).parent
                            == Some(o) {
                            children_without(old(self).spec_obj(o).children@, *id)
                        } else {
                            old(self).spec_obj(o).children@
                        })
                        &&& final (self).spec_obj(o).tf == old(self).spec_obj(o).tf
                        &&& final (self).spec_obj(o).render_item == old(self).spec_obj(o).render_item
                        &&& final (self).spec_obj(o).name == old(self).spec_obj(o).name
                        &&& final (self).spec_obj(o).self_id == old(self).spec_obj(o).self_id
                    }
                &&& final (self).spec_fwd_queue() == old(self).spec_fwd_queue()
                &&& final (self).spec_rev_queue() == old(self).spec_rev_queue()
                &&& final (self).spec_delta_time() == old(self).spec_delta_time()
                &&& final (self).spec_frame_count() == old(self).spec_frame_count()
                &&& final (self).spec_inputs() == old(self).spec_inputs()
            },
    {
        proof {
            use_type_invariant(&*self);
        }
        let mut free: Vec<usize> = Vec::new();
        let mut objs: Vec<Slot> = Vec::new();
        core::mem::swap(&mut free, &mut self.free_slots);
        core::mem::swap(&mut objs, &mut self.world_objs);
        let ghost objs0 = objs@;

        let is_valid = id.0 < objs.len() && objs[id.0].generation == id.1 && objs[id.0].obj.is_some();
        if !is_valid {
            self.world_objs = objs;
            self.free_slots = free;
            return None;
        }

        let taken = objs[id.0].obj.take();
        let removed: WorldObject3D = match taken {
            Some(o) => o,
            None => {
                proof {
                    assert(false);
                }
                self.world_objs = objs;
                self.free_slots = free;
                return None;
            },
        };
        let ghost removed0 = removed;

        // Retire the slot: bump its generation so the handle can never
        // resolve again, and offer the slot for reuse. A slot whose
        // generation cannot grow further is left vacant forever.
        let g = objs[id.0].generation;
        let ghost free_pre = free@;
        if g < u64::MAX {
            objs[id.0].generation = g + 1;
            free.push(id.0);
        }
        let ghost s1 = objs@;
        let ghost free1 = free@;
        proof {
            assert(!slots_valid_id(objs@, *id));
            assert forall|o: WorldObjectId|
                o != *id implies (slots_valid_id(objs@, o) <==> slots_valid_id(objs0, o)) by {
                if o.0 == id.0 {
                    assert(!slots_valid_id(objs0, o));
                    assert(!slots_valid_id(objs@, o));
                }
            }
            assert forall|k: int|
                0 <= k < free@.len() implies #[trigger] free@[k] < objs@.len() && objs@[free@[k] as int].obj
                    is None by {
                if k < free_pre.len() {
                    assert(free@[k] == free_pre[k]);
                    assert(objs0[free_pre[k] as int].obj is None);
                    assert(free_pre[k] != id.0);
                } else {
                    assert(free@[k] == id.0);
                }
            }
            assert forall|k1: int, k2: int|
                0 <= k1 < k2 < free@.len() implies free@[k1] != free@[k2] by {
                if k2 < free_pre.len() {
                } else {
                    if k2 == free_pre.len() && free@.len() > free_pre.len() {
                        assert(free@[k2] == id.0);
                        assert(objs0[free_pre[k1] as int].obj is None);
                        assert(free@[k1] != id.0);
                    }
                }
            }
            assert(free_list_ok(objs@, free@));
        }

        // Detach from the parent: the removed handle leaves its child list.
        match removed.parent {
            Some(p) => {
                if p.0 < objs.len() {
                    if objs[p.0].generation == p.1 {
                        let taken_p = objs[p.0].obj.take();
                        match taken_p {
                            Some(mut pobj) => {
                                let ghost pc = pobj.children@;
                                let m = pobj.children.len();
                                let mut nc: Vec<WorldObjectId> = Vec::new();
                                let mut k: usize = 0;
                                while k < m
                                    invariant
                                        k <= m,
                                        m == pc.len(),
                                        pobj.children@ == pc,
                                        nc@ == children_without(pc.subrange(0, k as int), *id),
                                    decreases m - k,
                                {
                                    let c = pobj.children[k];
                                    proof {
                                        reveal_with_fuel(Seq::<WorldObjectId>::filter, 2);
                                        let sub1 = pc.subrange(0, k as int + 1);
                                        assert(sub1.drop_last() =~= pc.subrange(0, k as int));
                                        assert(sub1.last() == c);
                                    }
                                    if c.0 != id.0 || c.1 != id.1 {
                                        nc.push(c);
                                    }
                                    k = k + 1;
                                }
                                proof {
                                    assert(pc.subrange(0, m as int) =~= pc);
                                }
                                pobj.children = nc;
                                objs[p.0].obj = Some(pobj);
                            },
                            None => {},
                        }
                    }
                }
            },
            None => {},
        }
        let ghost s2 = objs@;
        proof {
            assert(s2.len() == s1.len());
            assert forall|k: int|
                0 <= k < s2.len() implies #[trigger] s2[k].generation == s1[k].generation && (
                s2[k].obj is Some <==> s1[k].obj is Some) by {}
            assert forall|o: WorldObjectId|
                o != *id implies (slots_valid_id(s2, o) <==> slots_valid_id(s1, o)) by {}
            assert(!slots_valid_id(s2, *id));
            assert(free_list_ok(s2, free1));
        }

        // Orphan the children: each listed child that still resolves loses
        // its parent link.
        let n = removed.children.len();
        let ghost children_seq = removed.children@;
        let mut j: usize = 0;
        while j < n
            invariant
                j <= n,
                n == children_seq.len(),
                removed.children@ == children_seq,
                objs@.len() == s2.len(),
                !slots_valid_id(s2, *id),
                free_list_ok(s2, free1),
                free@ == free1,
                forall|k: int|
                    0 <= k < objs@.len() ==> #[trigger] objs@[k].generation == s2[k].generation
                        && (objs@[k].obj is Some <==> s2[k].obj is Some),
                forall|o: WorldObjectId| slots_valid_id(objs@, o) <==> slots_valid_id(s2, o),
                forall|o: WorldObjectId|
                    #![trigger slots_obj(objs@, o)]
                    slots_valid_id(s2, o) ==> {
                        &&& slots_obj(objs@, o).parent == (if children_seq.subrange(
                            0,
                            j as int,
                        ).contains(o) {
                            None
                        } else {
                            slots_obj(s2, o).parent
                        })
                        &&& slots_obj(objs@, o).tf == slots_obj(s2, o).tf
                        &&& slots_obj(objs@, o).render_item == slots_obj(s2, o).render_item
                        &&& slots_obj(objs@, o).name == slots_obj(s2, o).name
                        &&& slots_obj(objs@, o).self_id == slots_obj(s2, o).self_id
                        &&& slots_obj(objs@, o).children == slots_obj(s2, o).children
                    },
            decreases n - j,
        {
            let c: WorldObjectId = removed.children[j];
            proof {
                assert(c == children_seq[j as int]);
                assert(children_seq.subrange(0, j as int + 1) =~= children_seq.subrange(
                    0,
                    j as int,
                ).push(c));
            }
            let ghost before = objs@;
            if c.0 < objs.len() {
                if objs[c.0].generation == c.1 {
                    let taken_c = objs[c.0].obj.take();
                    match taken_c {
                        Some(mut child) => {
                            child.parent = None;
                            objs[c.0].obj = Some(child);
                        },
                        None => {},
                    }
                }
            }
            proof {
                assert forall|o: WorldObjectId|
                    #![trigger slots_obj(objs@, o)]
                    slots_valid_id(s2, o) implies {
                    &&& slots_obj(objs@, o).parent == (if children_seq.subrange(
                        0,
                        j as int + 1,
                    ).contains(o) {
                        None
                    } else {
                        slots_obj(s2, o).parent
                    })
                    &&& slots_obj(objs@, o).tf == slots_obj(s2, o).tf
                    &&& slots_obj(objs@, o).render_item == slots_obj(s2, o).render_item
                    &&& slots_obj(objs@, o).name == slots_obj(s2, o).name
                    &&& slots_obj(objs@, o).self_id == slots_obj(s2, o).self_id
                    &&& slots_obj(objs@, o).children == slots_obj(s2, o).children
                } by {
                    assert(slots_obj(before, o).parent == (if children_seq.subrange(
                        0,
                        j as int,
                    ).contains(o) {
                        None
                    } else {
                        slots_obj(s2, o).parent
                    }));
                    if o == c {
                        assert(children_seq.subrange(0, j as int + 1)[j as int] == c);
                        assert(children_seq.subrange(0, j as int + 1).contains(c));
                    } else {
                        if children_seq.subrange(0, j as int + 1).contains(o) {
                            let i = choose|i: int|
                                0 <= i < j as int + 1 && #[trigger] children_seq.subrange(
                                    0,
                                    j as int + 1,
                                )[i] == o;
                            assert(i < j as int);
                            assert(children_seq.subrange(0, j as int)[i] == o);
                            assert(children_seq.subrange(0, j as int).contains(o));
                        }
                        if children_seq.subrange(0, j as int).contains(o) {
                            let i = choose|i: int|
                                0 <= i < j as int && #[trigger] children_seq.subrange(
                                    0,
                                    j as int,
                                )[i] == o;
                            assert(children_seq.subrange(0, j as int + 1)[i] == o);
                            assert(children_seq.subrange(0, j as int + 1).contains(o));
                        }
                        if o.0 == c.0 && slots_valid_id(s2, o) {
                            assert(before[c.0 as int].generation == s2[c.0 as int].generation);
                            assert(o.1 != c.1);
                            assert(objs@[o.0 as int] == before[o.0 as int]);
                        }
                    }
                }
                assert forall|o: WorldObjectId|
                    slots_valid_id(objs@, o) <==> slots_valid_id(s2, o) by {
                    if o.0 < objs@.len() {
                        assert(objs@[o.0 as int].generation == before[o.0 as int].generation);
                        assert(objs@[o.0 as int].obj is Some <==> before[o.0 as int].obj is Some);
                    }
                }
                assert forall|k: int|
                    0 <= k < objs@.len() implies #[trigger] objs@[k].generation
                    == s2[k].generation && (objs@[k].obj is Some <==> s2[k].obj is Some) by {
                    assert(objs@[k].generation == before[k].generation);
                    assert(objs@[k].obj is Some <==> before[k].obj is Some);
                }
            }
            j = j + 1;
        }
        proof {
            assert(children_seq.subrange(0, n as int) =~= children_seq);
            assert forall|k: int|
                0 <= k < free@.len() implies #[trigger] free@[k] < objs@.len() && objs@[free@[k] as int].obj
                    is None by {
                assert(free@ == free1);
                assert(free1[k] < s2.len());
                assert(s2[free1[k] as int].obj is None);
                assert(objs@[free1[k] as int].generation == s2[free1[k] as int].generation);
                assert(objs@[free1[k] as int].obj is Some <==> s2[free1[k] as int].obj is Some);
            }
            assert(free_list_ok(objs@, free@));
        }

        self.world_objs = objs;
        self.free_slots = free;
        Some(removed)
    }

    /// The render queues, for reading.
    pub fn get_rendqueue(&self) -> (r: &RenderableQueues)
        ensures
            r.forward_queue@ == self.spec_fwd_queue(),
            r.reverse_queue@ == self.spec_rev_queue(),
    {
        &self.renderables
    }

    /// Append a drawable to the queue of the given kind; the new entry still
    /// needs its first-time setup.
    pub fn push_rendqueue(&mut self, queue_type: RendQueueType, item: RenderItem, owner:
        WorldObjectId)
        ensures
            queue_type is Fwd ==> final (self).spec_fwd_queue() == old(self).spec_fwd_queue().push(
                RenderQueueEntry { status: DrawnStatus::NeedsDraw, item, owner },
            ) && final (self).spec_rev_queue() == old(self).spec_rev_queue(),
            queue_type is Rev ==> final (self).spec_rev_queue() == old(self).spec_rev_queue().push(
                RenderQueueEntry { status: DrawnStatus::NeedsDraw, item, owner },
            ) && final (self).spec_fwd_queue() == old(self).spec_fwd_queue(),
            final (self).spec_delta_time() == old(self).spec_delta_time(),
            final (self).spec_frame_count() == old(self).spec_frame_count(),
            final (self).spec_inputs() == old(self).spec_inputs(),
            forall|o: WorldObjectId| final (self).valid_id(o) <==> old(self).valid_id(o),
            forall|o: WorldObjectId|
                old(self).valid_id(o) ==> final (self).spec_obj(o) == old(self).spec_obj(o),
    {
        proof {
            use_type_invariant(&*self);
        }
        let mut queues = RenderableQueues::new();
        core::mem::swap(&mut queues, &mut self.renderables);
        match queue_type {
            RendQueueType::Fwd => {
                queues.push_forward_queue(item, owner);
            },
            RendQueueType::Rev => {
                queues.push_reverse_queue(item, owner);
            },
        }
        self.renderables = queues;
    }

    /// Run one pass of the given phase over the registered behaviors, in
    /// registration order, skipping disabled ones, and hand back the pass's
    /// aggregated outcome untranslated, so the scheduler can tell the kinds
    /// of hard failure apart. A `Fatal` outcome aborts the pass at once; a
    /// `SelfDisable` outcome switches its behavior off for all future
    /// passes; every other outcome is folded into a single accumulated
    /// result, the last non-quiet one winning. A pass whose accumulated
    /// outcome is quiet (nothing, or only a recoverable warning) succeeds.
    pub fn run_phase_raw<B: Steppable<WorldState>>(
        &mut self,
        behaviors: &mut Vec<BehaviorSlot<B>>,
        phase: Phase,
    ) -> (r: Result<(), StepError>)
        ensures
            final (behaviors)@.len() == old(behaviors)@.len(),
            forall|k: int|
                0 <= k < final (behaviors)@.len() ==> (#[trigger] final (behaviors)@[k].enabled
                    ==> old(behaviors)@[k].enabled),
            no_enabled_behavior(old(behaviors)@) ==> r is Ok,
            r is Err ==> (r->Err_0 is Fatal || r->Err_0 is FatalPostStep || r->Err_0
                is SelfDisable),
    {
        let mut acc = StepError::Ignore;
        let n = behaviors.len();
        let mut i: usize = 0;
        while i < n
            invariant
                i <= n,
                n == behaviors@.len(),
                behaviors@.len() == old(behaviors)@.len(),
                forall|k: int|
                    0 <= k < behaviors@.len() ==> (#[trigger] behaviors@[k].enabled ==> old(
                    behaviors,
                    )@[k].enabled),
                no_enabled_behavior(old(behaviors)@) ==> acc is Ignore,
            decreases n - i,
        {
            let enabled = behaviors[i].enabled;
            if enabled {
                let res = match phase {
                    Phase::Start => behaviors[i].behavior.start(self),
                    Phase::Step => behaviors[i].behavior.step(self),
                    Phase::FixedStep => behaviors[i].behavior.fixed_step(self),
                    Phase::LateStep => behaviors[i].behavior.late_step(self),
                };
                match res {
                    Ok(_) => {},
                    Err(e) => {
                        if matches!(e, StepError::SelfDisable(_)) {
                            behaviors[i].enabled = false;
                        }
                        match e.store_nonfatal(&mut acc) {
                            Ok(_) => {},
                            Err(fatal) => {
                                return Err(fatal);
                            },
                        }
                    },
                }
            }
            i = i + 1;
        }
        match acc {
            StepError::Ignore => Ok(()),
            StepError::Recover(_) => Ok(()),
            e => Err(e),
        }
    }

    /// Run one pass of the given phase and fold its outcome into the pass's
    /// final result: a quiet pass succeeds, a hard outcome fails it with its
    /// rendered message.
    pub fn run_phase<B: Steppable<WorldState>>(
        &mut self,
        behaviors: &mut Vec<BehaviorSlot<B>>,
        phase: Phase,
    ) -> (r: Result<(), String>)
        ensures
            final (behaviors)@.len() == old(behaviors)@.len(),
            forall|k: int|
                0 <= k < final (behaviors)@.len() ==> (#[trigger] final (behaviors)@[k].enabled
                    ==> old(behaviors)@[k].enabled),
            no_enabled_behavior(old(behaviors)@) ==> r is Ok,
    {
        match self.run_phase_raw(behaviors, phase) {
            Ok(_) => Ok(()),
            Err(e) => e.translate(),
        }
    }

    /// One `step` pass over the behaviors.
    pub fn run_steps<B: Steppable<WorldState>>(
        &mut self,
        behaviors: &mut Vec<BehaviorSlot<B>>,
    ) -> (r: Result<(), String>)
        ensures
            final (behaviors)@.len() == old(behaviors)@.len(),
            forall|k: int|
                0 <= k < final (behaviors)@.len() ==> (#[trigger] final (behaviors)@[k].enabled
                    ==> old(behaviors)@[k].enabled),
            no_enabled_behavior(old(behaviors)@) ==> r is Ok,
    {
        self.run_phase(behaviors, Phase::Step)
    }

    /// One `fixed_step` pass over the behaviors.
    pub fn run_fixed_steps<B: Steppable<WorldState>>(
        &mut self,
        behaviors: &mut Vec<BehaviorSlot<B>>,
    ) -> (r: Result<(), String>)
        ensures
            final (behaviors)@.len() == old(behaviors)@.len(),
            forall|k: int|
                0 <= k < final (behaviors)@.len() ==> (#[trigger] final (behaviors)@[k].enabled
                    ==> old(behaviors)@[k].enabled),
            no_enabled_behavior(old(behaviors)@) ==> r is Ok,
    {
        self.run_phase(behaviors, Phase::FixedStep)
    }

    /// One `late_step` pass over the behaviors.
    pub fn run_late_steps<B: Steppable<WorldState>>(
        &mut self,
        behaviors: &mut Vec<BehaviorSlot<B>>,
    ) -> (r: Result<(), String>)
        ensures
            final (behaviors)@.len() == old(behaviors)@.len(),
            forall|k: int|
                0 <= k < final (behaviors)@.len() ==> (#[trigger] final (behaviors)@[k].enabled
                    ==> old(behaviors)@[k].enabled),
            no_enabled_behavior(old(behaviors)@) ==> r is Ok,
    {
        self.run_phase(behaviors, Phase::LateStep)
    }

    /// Submit both queues to the backend: the forward queue front-to-back in
    /// insertion order, then the reverse queue back-to-front in reverse
    /// insertion order. A disabled entry, or one whose owning entity no
    /// longer resolves, is skipped untouched. An entry needing its first
    /// draw gets its one-time setup before the draw; the draw uses the
    /// owner's current transform. Whatever the backend answers, only the
    /// entry's status moves, exactly as `entry_after_submission` says, and
    /// one entry's failure never stops the rest of the queue.
    pub fn submit_queues<Bk: Backend>(&mut self, backend: &mut Bk)
        ensures
            final (self).spec_fwd_queue().len() == old(self).spec_fwd_queue().len(),
            final (self).spec_rev_queue().len() == old(self).spec_rev_queue().len(),
            forall|k: int|
                0 <= k < old(self).spec_fwd_queue().len() ==> submitted_entry(
                    *old(self),
                    old(self).spec_fwd_queue()[k],
                    #[trigger] final (self).spec_fwd_queue()[k],
                ),
            forall|k: int|
                0 <= k < old(self).spec_rev_queue().len() ==> submitted_entry(
                    *old(self),
                    old(self).spec_rev_queue()[k],
                    #[trigger] final (self).spec_rev_queue()[k],
                ),
            forall|o: WorldObjectId| final (self).valid_id(o) <==> old(self).valid_id(o),
            forall|o: WorldObjectId|
                old(self).valid_id(o) ==> final (self).spec_obj(o) == old(self).spec_obj(o),
            final (self).spec_delta_time() == old(self).spec_delta_time(),
            final (self).spec_frame_count() == old(self).spec_frame_count(),
            final (self).spec_inputs() == old(self).spec_inputs(),
    {
        proof {
            use_type_invariant(&*self);
        }
        let nf = self.renderables.forward_queue.len();
        let mut i: usize = 0;
        while i < nf
            invariant
                i <= nf,
                nf == self.renderables.forward_queue@.len(),
                self.renderables.forward_queue@.len() == old(self).spec_fwd_queue().len(),
                self.renderables.reverse_queue@ == old(self).spec_rev_queue(),
                self.wf(),
                self.world_objs@ == old(self).world_objs@,
                self.free_slots@ == old(self).free_slots@,
                self.delta_time == old(self).spec_delta_time(),
                self.frame_count == old(self).spec_frame_count(),
                self.inputs == old(self).spec_inputs(),
                forall|k: int|
                    i <= k < nf ==> #[trigger] self.renderables.forward_queue@[k] == old(
                    self,
                    ).spec_fwd_queue()[k],
                forall|k: int|
                    0 <= k < i ==> submitted_entry(
                        *old(self),
                        old(self).spec_fwd_queue()[k],
                        #[trigger] self.renderables.forward_queue@[k],
                    ),
            decreases nf - i,
        {
            let entry = self.renderables.forward_queue[i];
            if entry.item.enabled {
                let mut outcome: Option<bool> = None;
                match self.get_world_obj(&entry.owner) {
                    Some(o) => {
                        let success = if matches!(entry.status, DrawnStatus::NeedsDraw) {
                            match backend.first_time_setup(entry.item.handle) {
                                Ok(_) => backend.submit(entry.item.handle, &o.tf).is_ok(),
                                Err(_) => false,
                            }
                        } else {
                            backend.submit(entry.item.handle, &o.tf).is_ok()
                        };
                        outcome = Some(success);
                    },
                    None => {},
                }
                match outcome {
                    Some(success) => {
                        let ns = apply_submission_outcome(
                            entry.status,
                            entry.item.always_redraw,
                            success,
                        );
                        self.renderables.forward_queue[i] = RenderQueueEntry {
                            status: ns,
                            item: entry.item,
                            owner: entry.owner,
                        };
                        proof {
                            assert(self.renderables.forward_queue@[i as int]
                                == entry_after_submission(old(self).spec_fwd_queue()[i as int], success));
                        }
                    },
                    None => {},
                }
            }
            i = i + 1;
        }

        let nr = self.renderables.reverse_queue.len();
        let mut left: usize = nr;
        while left > 0
            invariant
                left <= nr,
                nr == self.renderables.reverse_queue@.len(),
                self.renderables.reverse_queue@.len() == old(self).spec_rev_queue().len(),
                self.renderables.forward_queue@.len() == old(self).spec_fwd_queue().len(),
                forall|k: int|
                    0 <= k < nf ==> submitted_entry(
                        *old(self),
                        old(self).spec_fwd_queue()[k],
                        #[trigger] self.renderables.forward_queue@[k],
                    ),
                nf == old(self).spec_fwd_queue().len(),
                self.wf(),
                self.world_objs@ == old(self).world_objs@,
                self.free_slots@ == old(self).free_slots@,
                self.delta_time == old(self).spec_delta_time(),
                self.frame_count == old(self).spec_frame_count(),
                self.inputs == old(self).spec_inputs(),
                forall|k: int|
                    0 <= k < left ==> #[trigger] self.renderables.reverse_queue@[k] == old(
                    self,
                    ).spec_rev_queue()[k],
                forall|k: int|
                    left <= k < nr ==> submitted_entry(
                        *old(self),
                        old(self).spec_rev_queue()[k],
                        #[trigger] self.renderables.reverse_queue@[k],
                    ),
            decreases left,
        {
            let i = left - 1;
            let entry = self.renderables.reverse_queue[i];
            if entry.item.enabled {
                let mut outcome: Option<bool> = None;
                match self.get_world_obj(&entry.owner) {
                    Some(o) => {
                        let success = if matches!(entry.status, DrawnStatus::NeedsDraw) {
                            match backend.first_time_setup(entry.item.handle) {
                                Ok(_) => backend.submit(entry.item.handle, &o.tf).is_ok(),
                                Err(_) => false,
                            }
                        } else {
                            backend.submit(entry.item.handle, &o.tf).is_ok()
                        };
                        outcome = Some(success);
                    },
                    None => {},
                }
                match outcome {
                    Some(success) => {
                        let ns = apply_submission_outcome(
                            entry.status,
                            entry.item.always_redraw,
                            success,
                        );
                        self.renderables.reverse_queue[i] = RenderQueueEntry {
                            status: ns,
                            item: entry.item,
                            owner: entry.owner,
                        };
                        proof {
                            assert(self.renderables.reverse_queue@[i as int]
                                == entry_after_submission(old(self).spec_rev_queue()[i as int], success));
                        }
                    },
                    None => {},
                }
            }
            left = left - 1;
        }
    }
}

/// How one queue entry may change over a submission pass: its drawable and
/// owner never change; a disabled entry, or one whose owner does not
/// resolve, is untouched; an enabled entry with a live owner moves exactly
/// as one submission attempt moves it, for some answer of the backend.
pub open spec fn submitted_entry(
    pre: WorldState,
    before: RenderQueueEntry,
    after: RenderQueueEntry,
) -> bool {
    &&& after.item == before.item
    &&& after.owner == before.owner
    &&& !before.item.enabled ==> after == before
    &&& (before.item.enabled && !pre.valid_id(before.owner)) ==> after == before
    &&& (before.item.enabled && pre.valid_id(before.owner)) ==> exists|b: bool|
        after == entry_after_submission(before, b)
}

/// No behavior of the list would run in a pass: each is switched off.
pub open spec fn no_enabled_behavior<B>(behaviors: Seq<BehaviorSlot<B>>) -> bool {
    forall|k: int| 0 <= k < behaviors.len() ==> !(#[trigger] behaviors[k].enabled)
}

/// The child list with every occurrence of one handle removed, order kept.
pub open spec fn children_without(children: Seq<WorldObjectId>, id: WorldObjectId) -> Seq<
    WorldObjectId,
> {
    children.filter(|x: WorldObjectId| x != id)
}

/// The two states are observably identical.
pub open spec fn same_world(a: WorldState, b: WorldState) -> bool {
    &&& b.spec_delta_time() == a.spec_delta_time()
    &&& b.spec_frame_count() == a.spec_frame_count()
    &&& b.spec_inputs() == a.spec_inputs()
    &&& b.spec_fwd_queue() == a.spec_fwd_queue()
    &&& b.spec_rev_queue() == a.spec_rev_queue()
    &&& forall|id: WorldObjectId| a.valid_id(id) == b.valid_id(id)
    &&& forall|id: WorldObjectId| a.valid_id(id) ==> a.spec_obj(id) == b.spec_obj(id)
}

/// Everything of the two states is equal except possibly the delta-time.
pub open spec fn unchanged_but_delta(a: WorldState, b: WorldState) -> bool {
    &&& b.spec_frame_count() == a.spec_frame_count()
    &&& b.spec_inputs() == a.spec_inputs()
    &&& b.spec_fwd_queue() == a.spec_fwd_queue()
    &&& b.spec_rev_queue() == a.spec_rev_queue()
    &&& forall|id: WorldObjectId| a.valid_id(id) == b.valid_id(id)
    &&& forall|id: WorldObjectId| a.valid_id(id) ==> a.spec_obj(id) == b.spec_obj(id)
}

/// Everything of the two states is equal except possibly the frame count.
pub open spec fn unchanged_but_frame(a: WorldState, b: WorldState) -> bool {
    &&& b.spec_delta_time() == a.spec_delta_time()
    &&& b.spec_inputs() == a.spec_inputs()
    &&& b.spec_fwd_queue() == a.spec_fwd_queue()
    &&& b.spec_rev_queue() == a.spec_rev_queue()
    &&& forall|id: WorldObjectId| a.valid_id(id) == b.valid_id(id)
    &&& forall|id: WorldObjectId| a.valid_id(id) ==> a.spec_obj(id) == b.spec_obj(id)
}

/// Everything of the two states is equal except possibly the pointer
/// snapshot.
pub open spec fn unchanged_but_inputs(a: WorldState, b: WorldState) -> bool {
    &&& b.spec_delta_time() == a.spec_delta_time()
    &&& b.spec_frame_count() == a.spec_frame_count()
    &&& b.spec_fwd_queue() == a.spec_fwd_queue()
    &&& b.spec_rev_queue() == a.spec_rev_queue()
    &&& forall|id: WorldObjectId| a.valid_id(id) == b.valid_id(id)
    &&& forall|id: WorldObjectId| a.valid_id(id) ==> a.spec_obj(id) == b.spec_obj(id)
}

} // verus!
