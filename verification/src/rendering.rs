use vstd::prelude::*;
use vstd::string::StringSliceAdditionalSpecFns;

use crate::transform::Transform;
use crate::world_object::WorldObjectId;

verus! {

/// Whether a queue entry still needs its first-time backend setup.
#[derive(Debug, Clone, Copy, PartialEq, Eq, Structural)]
pub enum DrawnStatus {
    NeedsDraw,
    Drawn,
}

/// An opaque, backend-owned drawable resource: the handle names it, the two
/// flags say whether it is drawn at all and whether it must be set up anew
/// on every frame.
#[derive(Debug, Clone, Copy, PartialEq, Eq, Structural)]
pub struct RenderItem {
    pub handle: u64,
    pub enabled: bool,
    pub always_redraw: bool,
}

impl RenderItem {
    /// A drawable that starts enabled and is set up only once.
    pub fn new(handle: u64) -> (r: RenderItem)
        ensures
            r == (RenderItem { handle, enabled: true, always_redraw: false }),
    {
        RenderItem { handle, enabled: true, always_redraw: false }
    }

    /// Skip this drawable entirely on future submissions.
    pub fn disable(&mut self)
        ensures
            *final (self) == (RenderItem { enabled: false, ..*old(self) }),
    {
        self.enabled = false;
    }

    /// Draw this drawable again on future submissions.
    pub fn enable(&mut self)
        ensures
            *final (self) == (RenderItem { enabled: true, ..*old(self) }),
    {
        self.enabled = true;
    }
}

/// One slot of a render queue: the drawable, the entity whose transform it is
/// drawn with, and its draw status.
#[derive(Debug, Clone, Copy, PartialEq, Eq, Structural)]
pub struct RenderQueueEntry {
    pub status: DrawnStatus,
    pub item: RenderItem,
    pub owner: WorldObjectId,
}

/// The status an entry holds after one submission attempt: a failed attempt
/// changes nothing, a successful one marks the entry drawn unless it asks to
/// be redrawn every frame.
pub open spec fn status_after_submission(
    status: DrawnStatus,
    always_redraw: bool,
    success: bool,
) -> DrawnStatus {
    if success {
        if always_redraw {
            DrawnStatus::NeedsDraw
        } else {
            DrawnStatus::Drawn
        }
    } else {
        status
    }
}

/// The whole entry after one submission attempt: only the status moves.
pub open spec fn entry_after_submission(e: RenderQueueEntry, success: bool) -> RenderQueueEntry {
    RenderQueueEntry {
        status: status_after_submission(e.status, e.item.always_redraw, success),
        ..e
    }
}

/// An entry pushed in `NeedsDraw` becomes `Drawn` after one successful
/// submission, and a submission the backend failed leaves it `NeedsDraw`, to
/// be retried on the next frame.
pub proof fn lemma_drawn_after_success(e: RenderQueueEntry)
    requires
        e.status == DrawnStatus::NeedsDraw,
        !e.item.always_redraw,
    ensures
        entry_after_submission(e, true).status == DrawnStatus::Drawn,
        entry_after_submission(e, false).status == DrawnStatus::NeedsDraw,
{
}

/// An entry marked always-redraw still needs drawing after every successful
/// submission, whatever status it held before.
pub proof fn lemma_always_redraw_stays_needing(e: RenderQueueEntry)
    requires
        e.item.always_redraw,
    ensures
        entry_after_submission(e, true).status == DrawnStatus::NeedsDraw,
{
}

/// A failed submission never changes an entry.
pub proof fn lemma_failure_changes_nothing(e: RenderQueueEntry)
    ensures
        entry_after_submission(e, false) == e,
{
}

/// The executable form of `status_after_submission`.
pub fn apply_submission_outcome(status: DrawnStatus, always_redraw: bool, success: bool) -> (r:
    DrawnStatus)
    ensures
        r == status_after_submission(status, always_redraw, success),
{
    if success {
        if always_redraw {
            DrawnStatus::NeedsDraw
        } else {
            DrawnStatus::Drawn
        }
    } else {
        status
    }
}

/// The two ordered draw sequences: the forward queue is submitted
/// front-to-back in insertion order, the reverse queue back-to-front in
/// reverse insertion order.
#[derive(Debug, Clone, Copy, PartialEq, Eq, Structural)]
pub enum RendQueueType {
    Fwd,
    Rev,
}

/// The render-submission queues. Entries are pushed once and live as long as
/// the scene; a drawable is switched off by disabling it, not by removal.
#[derive(Debug)]
pub struct RenderableQueues {
    pub forward_queue: Vec<RenderQueueEntry>,
    pub reverse_queue: Vec<RenderQueueEntry>,
}

impl RenderableQueues {
    /// Two empty queues.
    pub fn new() -> (r: RenderableQueues)
        ensures
            r.forward_queue@.len() == 0,
            r.reverse_queue@.len() == 0,
    {
        RenderableQueues { forward_queue: Vec::new(), reverse_queue: Vec::new() }
    }

    /// Append a drawable to the forward queue; it starts needing its
    /// first-time setup.
    pub fn push_forward_queue(&mut self, item: RenderItem, owner: WorldObjectId)
        ensures
            final (self).forward_queue@ == old(self).forward_queue@.push(
                RenderQueueEntry { status: DrawnStatus::NeedsDraw, item, owner },
            ),
            final (self).reverse_queue@ == old(self).reverse_queue@,
    {
        self.forward_queue.push(
            RenderQueueEntry { status: DrawnStatus::NeedsDraw, item, owner },
        );
    }

    /// Append a drawable to the reverse queue; it starts needing its
    /// first-time setup.
    pub fn push_reverse_queue(&mut self, item: RenderItem, owner: WorldObjectId)
        ensures
            final (self).reverse_queue@ == old(self).reverse_queue@.push(
                RenderQueueEntry { status: DrawnStatus::NeedsDraw, item, owner },
            ),
            final (self).forward_queue@ == old(self).forward_queue@,
    {
        self.reverse_queue.push(
            RenderQueueEntry { status: DrawnStatus::NeedsDraw, item, owner },
        );
    }

    /// How many drawables the forward queue holds.
    pub fn get_forward_queue_len(&self) -> (r: usize)
        ensures
            r == self.forward_queue@.len(),
    {
        self.forward_queue.len()
    }

    /// How many drawables the reverse queue holds.
    pub fn get_reverse_queue_len(&self) -> (r: usize)
        ensures
            r == self.reverse_queue@.len(),
    {
        self.reverse_queue.len()
    }
}

/// The rendering backend the scheduler submits to. It is an external
/// collaborator: nothing is assumed of its outcomes, and the queue's state
/// machine is specified for every answer it may give.
pub trait Backend {
    /// Load the drawable's resources for its first draw.
    fn first_time_setup(&mut self, handle: u64) -> Result<(), String>;

    /// Draw the drawable under the given world transform.
    fn submit(&mut self, handle: u64, world_tf: &Transform) -> Result<(), String>;
}

/// The location classes a shader program exposes.
#[derive(Debug, Clone, Copy, PartialEq, Eq, Structural)]
pub enum GlLocationType {
    Attribute,
    Uniform,
}

/// A value meant to be an attribute location.
#[derive(Debug, Clone, Copy, PartialEq, Eq, Structural)]
pub struct GlAttrLoc(pub i32);

/// Where a shader location name is routed, by its byte prefix: names
/// beginning "u_" are uniforms, names beginning "a_" are attributes, and any
/// other name is refused.
pub open spec fn spec_classify_location(b: Seq<u8>) -> Option<GlLocationType> {
    if b.len() >= 2 && b[0] == 117u8 && b[1] == 95u8 {
        Some(GlLocationType::Uniform)
    } else if b.len() >= 2 && b[0] == 97u8 && b[1] == 95u8 {
        Some(GlLocationType::Attribute)
    } else {
        None
    }
}

/// Classify a shader location name by its prefix.
pub fn classify_location_name(name: &str) -> (r: Option<GlLocationType>)
    ensures
        r == spec_classify_location(name.spec_bytes()),
{
    let b = name.as_bytes();
    if b.len() >= 2 {
        if b[0] == 117u8 && b[1] == 95u8 {
            Some(GlLocationType::Uniform)
        } else if b[0] == 97u8 && b[1] == 95u8 {
            Some(GlLocationType::Attribute)
        } else {
            None
        }
    } else {
        None
    }
}

/// How a buffer's raw data is read: components per vertex, the data type tag,
/// normalization, stride and offset.
#[derive(Debug, Clone, Copy, PartialEq, Eq, Structural)]
pub struct BufferSettings {
    pub dim: u8,
    pub data_type: u32,
    pub normalize: bool,
    pub stride: i32,
    pub offset: i32,
}

impl BufferSettings {
    /// Settings with the given shape and no normalization, stride or offset.
    pub fn new(dim: u8, data_type: u32) -> (r: BufferSettings)
        ensures
            r == (BufferSettings { dim, data_type, normalize: false, stride: 0, offset: 0 }),
    {
        BufferSettings { dim, data_type, normalize: false, stride: 0, offset: 0 }
    }

    /// The same settings with normalization switched on.
    pub fn normalize(self) -> (r: BufferSettings)
        ensures
            r == (BufferSettings { normalize: true, ..self }),
    {
        BufferSettings { normalize: true, ..self }
    }
}

/// Marker for a builder field already assigned.
#[derive(Debug, Default)]
pub struct Assigned;

/// Marker for a builder field still to assign.
#[derive(Debug, Default)]
pub struct ToAssign;

} // verus!
