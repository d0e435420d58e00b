//! Per-entity playback state and the mutators that gameplay code calls.
use vstd::prelude::*;
use vstd::string::StringSliceAdditionalSpecFns;

use crate::asset::{default_meta, AnimId, AnimMeta};
use crate::hash::{fnv1a, hash};

verus! {

/// Playback state of one entity: the active clip's metadata (a copy), the
/// frame offset within it, the time accumulated toward the next frame, and
/// whether playback is held on the last frame.
#[derive(Clone, Copy, Debug, PartialEq, Eq, Structural)]
pub struct AnimatedData {
    pub curr_idx: usize,
    /// Time since the last frame boundary, in nanoseconds.
    pub elapsed_nanos: u64,
    pub paused: bool,
    pub meta: AnimMeta,
}

impl AnimatedData {
    /// The offset lies inside the clip and the accumulator below one frame time.
    pub open spec fn wf(&self) -> bool {
        &&& self.meta.wf()
        &&& self.curr_idx < self.meta.len
        &&& self.elapsed_nanos < self.meta.frame_nanos
    }

    /// The atlas index of the frame on show.
    pub open spec fn spec_sprite_index(&self) -> int {
        self.meta.start_idx + self.curr_idx
    }

    /// The atlas index of the frame on show.
    pub fn sprite_index(&self) -> (r: usize)
        requires
            self.wf(),
        ensures
            r == self.spec_sprite_index(),
    {
        self.meta.start_idx + self.curr_idx
    }
}

impl Default for AnimatedData {
    fn default() -> (r: Self)
        ensures
            r.wf(),
            r.curr_idx == 0,
            r.elapsed_nanos == 0,
            !r.paused,
            r.meta == default_meta(),
    {
        AnimatedData { curr_idx: 0, elapsed_nanos: 0, paused: false, meta: AnimMeta::default() }
    }
}

/// The clip an entity is supposed to play, with a flag raised whenever it is
/// written or must be resolved again.
#[derive(Clone, Copy, Debug, PartialEq, Eq, Structural)]
pub struct AnimatedCurr {
    pub id: AnimId,
    pub changed: bool,
}

/// The clip to take over when the current one completes.
#[derive(Clone, Copy, Debug, PartialEq, Eq, Structural)]
pub struct AnimatedQueued {
    pub id: Option<AnimId>,
}

/// The requested and queued clips of one entity.
#[derive(Clone, Copy, Debug, PartialEq, Eq, Structural)]
pub struct Animated {
    pub curr: AnimatedCurr,
    pub queued: AnimatedQueued,
}

/// The request state after asking for clip `id` now: the queue is dropped and
/// the change flag raised.
pub open spec fn requested(a: Animated, id: AnimId) -> Animated {
    Animated { curr: AnimatedCurr { id, changed: true }, queued: AnimatedQueued { id: None } }
}

impl Animated {
    /// A request for `id` with nothing queued, flagged for resolution.
    pub fn new<T: ToAnimId>(id: T) -> (r: Animated)
        ensures
            r.curr.id == id.spec_id(),
            r.curr.changed,
            r.queued.id is None,
    {
        Animated { curr: AnimatedCurr { id: id.id(), changed: true }, queued: AnimatedQueued { id: None } }
    }

    /// Switches to `id`, dropping any queued clip.
    pub fn change_now<T: ToAnimId>(&mut self, id: T)
        ensures
            *final(self) == requested(*old(self), id.spec_id()),
    {
        self.curr = AnimatedCurr { id: id.id(), changed: true };
        self.queued = AnimatedQueued { id: None };
    }

    /// Switches to `id` unless it is already the requested clip.
    pub fn change_if_new<T: ToAnimId>(&mut self, id: T)
        ensures
            old(self).curr.id == id.spec_id() ==> *final(self) == *old(self),
            old(self).curr.id != id.spec_id() ==> *final(self) == requested(*old(self), id.spec_id()),
    {
        let id = id.id();
        if self.curr.id != id {
            self.change_now(id);
        }
    }

    /// Sets the clip to take over when the current one completes.
    pub fn queue<T: ToAnimId>(&mut self, id: T)
        ensures
            final(self).curr == old(self).curr,
            final(self).queued.id == Some(id.spec_id()),
    {
        self.queued.id = Some(id.id());
    }

    /// Takes the queued clip out, leaving nothing queued.
    pub fn pop_queue(&mut self) -> (r: Option<AnimId>)
        ensures
            r == old(self).queued.id,
            final(self).curr == old(self).curr,
            final(self).queued.id is None,
    {
        self.queued.id.take()
    }
}

/// Something that names a clip by text.
pub trait ToAnimStr {
    spec fn anim_str(&self) -> Seq<u8>;

    fn to_str(&self) -> (r: &str)
        ensures
            r.spec_bytes() == self.anim_str(),
    ;
}

impl<'a> ToAnimStr for &'a str {
    open spec fn anim_str(&self) -> Seq<u8> {
        (*self).spec_bytes()
    }

    fn to_str(&self) -> (r: &str) {
        *self
    }
}

/// Something that denotes a clip identifier.
pub trait ToAnimId {
    spec fn spec_id(&self) -> AnimId;

    fn id(&self) -> (r: AnimId)
        ensures
            r == self.spec_id(),
    ;
}

impl ToAnimId for AnimId {
    open spec fn spec_id(&self) -> AnimId {
        *self
    }

    fn id(&self) -> (r: AnimId) {
        *self
    }
}

impl<T: ToAnimStr> ToAnimId for T {
    open spec fn spec_id(&self) -> AnimId {
        fnv1a(self.anim_str())
    }

    fn id(&self) -> (r: AnimId) {
        hash(self.to_str())
    }
}

} // verus!
