use vstd::prelude::*;

use crate::maths_utils::FP_SCALE;
use crate::rendering::RenderItem;
use crate::transform::{Transform, Vec3};
use crate::world_state::WorldState;

verus! {

/// A stable handle to one slot of the world store: the slot's index and the
/// generation the slot had when the entity was created. A removed entity's
/// handle keeps the old generation, so it can never resolve to a later
/// occupant of the same slot.
#[derive(Debug, Copy, Clone, PartialOrd, Ord, PartialEq, Eq, Hash, Structural)]
pub struct WorldObjectId(pub usize, pub u64);

/// One entity of the scene: its transform, an optional drawable, a name, and
/// its links in the parent/child graph.
#[derive(Debug)]
pub struct WorldObject3D {
    pub tf: Transform,
    pub render_item: Option<RenderItem>,
    pub name: String,
    pub self_id: Option<WorldObjectId>,
    pub children: Vec<WorldObjectId>,
    pub parent: Option<WorldObjectId>,
}

/// What an entity is built from. The child links given here are wired both
/// ways when the entity is published into the store.
pub struct WorldObject3DInit {
    pub tf: Transform,
    pub render_item: Option<RenderItem>,
    pub children_ids: Vec<WorldObjectId>,
    pub parent_id: Option<WorldObjectId>,
}

impl WorldObject3DInit {
    /// Build the entity. The parent link always starts empty: it is wired by
    /// the store when a later entity lists this one as a child.
    pub fn init(self) -> (r: WorldObject3D)
        ensures
            r.tf == self.tf,
            r.render_item == self.render_item,
            r.name@ == Seq::<char>::empty(),
            r.self_id is None,
            r.children@ == self.children_ids@,
            r.parent is None,
    {
        WorldObject3D {
            tf: self.tf,
            render_item: self.render_item,
            name: String::new(),
            self_id: None,
            children: self.children_ids,
            parent: None,
        }
    }
}

impl Default for WorldObject3DInit {
    /// An initializer with the identity transform and nothing else.
    fn default() -> (r: Self)
        ensures
            r.tf.spec_translation() == (Vec3 { x: 0, y: 0, z: 0 }),
            r.tf.spec_rotation().roll.rad() == 0,
            r.tf.spec_rotation().pitch.rad() == 0,
            r.tf.spec_rotation().yaw.rad() == 0,
            r.tf.spec_scale() == (Vec3 { x: FP_SCALE, y: FP_SCALE, z: FP_SCALE }),
            r.render_item is None,
            r.children_ids@.len() == 0,
            r.parent_id is None,
    {
        WorldObject3DInit {
            tf: Transform::identity(),
            render_item: None,
            children_ids: Vec::new(),
            parent_id: None,
        }
    }
}

impl WorldObject3D {
    /// Resolve this entity's parent in the store: its entity when the link is
    /// set and still resolves, `None` otherwise.
    pub fn get_parent<'a>(&self, state: &'a WorldState) -> (r: Option<&'a WorldObject3D>)
        ensures
            match self.parent {
                None => r is None,
                Some(p) => match r {
                    None => !state.valid_id(p),
                    Some(o) => state.valid_id(p) && *o == state.spec_obj(p),
                },
            },
    {
        match self.parent {
            Some(p) => state.get_world_obj(&p),
            None => None,
        }
    }

    /// Resolve this entity's parent in the store for mutation: its entity
    /// when the link is set and still resolves, `None` otherwise. Whatever
    /// the caller does to the parent, every other entity stays as it was.
    pub fn get_parent_mut<'a>(&self, state: &'a mut WorldState) -> (r: Option<
        &'a mut WorldObject3D,
    >)
        ensures
            match r {
                None => (match self.parent {
                    None => true,
                    Some(p) => !old(state).valid_id(p),
                }) && *final (state) == *old(state),
                Some(o) => {
                    &&& self.parent is Some
                    &&& old(state).valid_id(self.parent->Some_0)
                    &&& *o == old(state).spec_obj(self.parent->Some_0)
                    &&& final (state).valid_id(self.parent->Some_0)
                    &&& final (state).spec_obj(self.parent->Some_0) == *final (o)
                    &&& forall|other: WorldObjectId|
                        other != self.parent->Some_0 ==> (final (state).valid_id(other) <==> old(
                            state).valid_id(other))
                    &&& forall|other: WorldObjectId|
                        other != self.parent->Some_0 && old(state).valid_id(other) ==> final (
                            state).spec_obj(other) == old(state).spec_obj(other)
                },
            },
    {
        if let Some(parent) = self.parent {
            state.get_world_obj_mut(&parent)
        } else {
            None
        }
    }

    /// Replace this entity's parent link.
    pub fn set_parent_id(&mut self, parent: Option<WorldObjectId>)
        ensures
            final (self).parent == parent,
            final (self).tf == old(self).tf,
            final (self).render_item == old(self).render_item,
            final (self).name == old(self).name,
            final (self).self_id == old(self).self_id,
            final (self).children == old(self).children,
    {
        self.parent = parent;
    }

    /// The first child, in list order, whose entity resolves and carries the
    /// given name; `None` when no child does.
    pub fn get_child_id_by_name(&self, state: &WorldState, name: &String) -> (r: Option<
        WorldObjectId,
    >)
        ensures
            match r {
                None => forall|j: int|
                    0 <= j < self.children@.len() ==> !child_name_matches(
                        *state,
                        #[trigger] self.children@[j],
                        name@,
                    ),
                Some(c) => exists|j: int|
                    0 <= j < self.children@.len() && self.children@[j] == c && child_name_matches(
                        *state,
                        c,
                        name@,
                    ) && forall|k: int|
                        0 <= k < j ==> !child_name_matches(
                            *state,
                            #[trigger] self.children@[k],
                            name@,
                        ),
            },
    {
        let n = self.children.len();
        let mut i: usize = 0;
        while i < n
            invariant
                i <= n,
                n == self.children@.len(),
                forall|k: int|
                    0 <= k < i ==> !child_name_matches(*state, #[trigger] self.children@[k], name@),
            decreases n - i,
        {
            let id = self.children[i];
            let is_obj = match state.get_world_obj(&id) {
                Some(c) => c.name == *name,
                None => false,
            };
            if is_obj {
                return Some(id);
            }
            i = i + 1;
        }
        None
    }

    /// The entity's child links, in insertion order.
    pub fn get_children_ids(&self) -> (r: &Vec<WorldObjectId>)
        ensures
            r == &self.children,
    {
        &self.children
    }
}

/// Whether `id` resolves in the store to an entity with the given name.
pub open spec fn child_name_matches(state: WorldState, id: WorldObjectId, name: Seq<char>) -> bool {
    state.valid_id(id) && state.spec_obj(id).name@ == name
}

} // verus!
