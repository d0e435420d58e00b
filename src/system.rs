//! The per-tick driver: reload reaction, change reaction and frame advancement.
use vstd::prelude::*;

use crate::asset::{AnimId, AnimMeta, AnimMode, Animation};
use crate::component::{Animated, AnimatedCurr, AnimatedData, AnimatedQueued};

verus! {

/// Sent when an entity's clip completes with nothing to follow it.
#[derive(Clone, Copy, Debug, PartialEq, Eq, Structural)]
pub struct AnimFinishedEvent {
    /// The entity, as its bit representation.
    pub entity: u64,
    /// The clip that completed.
    pub fin: AnimId,
}

/// What the change reaction did.
#[derive(Clone, Copy, Debug, PartialEq, Eq, Structural)]
pub enum ChangeOutcome {
    /// Nothing was requested since the last resolution.
    Unchanged,
    /// The requested clip now plays from its first frame.
    Applied,
    /// The definition is not loaded yet; resolution is retried next tick.
    NotReady,
    /// The requested clip is not in the definition; playback holds.
    NotFound,
}

/// The table behind an optional definition handle.
pub open spec fn defs_view(defs: Option<&Animation>) -> Option<Map<AnimId, AnimMeta>> {
    match defs {
        Some(a) => Some(a.map@),
        None => None,
    }
}

/// A clip table, when there is one, holds well-formed clips only.
pub open spec fn clips_wf(defs: Option<Map<AnimId, AnimMeta>>) -> bool {
    match defs {
        Some(m) => forall|k: AnimId| #[trigger] m.contains_key(k) ==> m[k].wf(),
        None => true,
    }
}

/// A definition, when there is one, holds well-formed clips only.
pub open spec fn defs_wf(defs: Option<&Animation>) -> bool {
    clips_wf(defs_view(defs))
}

/// Clip resolution: the metadata of `id`, if the definition is loaded and has it.
pub open spec fn resolve(defs: Option<Map<AnimId, AnimMeta>>, id: AnimId) -> Option<AnimMeta> {
    match defs {
        Some(m) => if m.contains_key(id) {
            Some(m[id])
        } else {
            None
        },
        None => None,
    }
}

/// Playback of clip `m` from its first frame with an empty accumulator.
pub open spec fn start_data(m: AnimMeta) -> AnimatedData {
    AnimatedData { curr_idx: 0, elapsed_nanos: 0, paused: false, meta: m }
}

/// The request state once clip `id` with metadata `m` is adopted: a repeating
/// clip queues itself, a `Once` clip queues its default follow-up, if any.
pub open spec fn start_anim(id: AnimId, m: AnimMeta) -> Animated {
    Animated {
        curr: AnimatedCurr { id, changed: false },
        queued: AnimatedQueued {
            id: match m.mode {
                AnimMode::Repeating => Some(id),
                AnimMode::Once(next) => next,
            },
        },
    }
}

/// The change reaction on one entity.
pub open spec fn change_spec(
    data: AnimatedData,
    anim: Animated,
    defs: Option<Map<AnimId, AnimMeta>>,
) -> (AnimatedData, Animated, ChangeOutcome) {
    if !anim.curr.changed {
        (data, anim, ChangeOutcome::Unchanged)
    } else if defs is None {
        (data, anim, ChangeOutcome::NotReady)
    } else {
        match resolve(defs, anim.curr.id) {
            Some(m) => (start_data(m), start_anim(anim.curr.id, m), ChangeOutcome::Applied),
            None => (
                data,
                Animated { curr: AnimatedCurr { changed: false, ..anim.curr }, ..anim },
                ChangeOutcome::NotFound,
            ),
        }
    }
}

/// The accumulator can take `delta` more nanoseconds: the sum fits and the
/// number of frame boundaries crossed fits a `u32`.
pub open spec fn tick_fits(data: AnimatedData, delta: u64) -> bool {
    data.paused || {
        &&& data.elapsed_nanos + delta <= u64::MAX
        &&& (data.elapsed_nanos + delta) / (data.meta.frame_nanos as int) <= u32::MAX
    }
}

/// Frame advancement on one entity by `delta` nanoseconds.
pub open spec fn advance_spec(
    entity: u64,
    data: AnimatedData,
    anim: Animated,
    defs: Option<Map<AnimId, AnimMeta>>,
    delta: u64,
) -> (AnimatedData, Animated, Option<AnimFinishedEvent>) {
    if data.paused {
        (data, anim, None)
    } else {
        let total = data.elapsed_nanos + delta;
        let dur = data.meta.frame_nanos as int;
        let elapsed = (total % dur) as u64;
        let idx = data.curr_idx + total / dur;
        let len = data.meta.len as int;
        if idx < len {
            (AnimatedData { curr_idx: idx as usize, elapsed_nanos: elapsed, ..data }, anim, None)
        } else {
            match data.meta.mode {
                AnimMode::Repeating => (
                    AnimatedData { curr_idx: (idx % len) as usize, elapsed_nanos: elapsed, ..data },
                    anim,
                    None,
                ),
                AnimMode::Once(_) => {
                    let next = anim.queued.id;
                    if next is Some && next->0 != anim.curr.id && resolve(defs, next->0) is Some {
                        let m = resolve(defs, next->0)->0;
                        (start_data(m), start_anim(next->0, m), None)
                    } else {
                        (
                            AnimatedData {
                                curr_idx: (len - 1) as usize,
                                elapsed_nanos: elapsed,
                                paused: true,
                                ..data
                            },
                            Animated { queued: AnimatedQueued { id: None }, ..anim },
                            Some(AnimFinishedEvent { entity, fin: anim.curr.id }),
                        )
                    }
                },
            }
        }
    }
}

/// The request state after the modified-definition events of a tick: the
/// change flag is raised when one of them names the entity's definition.
pub open spec fn reload_spec(anim: Animated, handle: u64, modified: Seq<u64>) -> Animated {
    if modified.contains(handle) {
        Animated { curr: AnimatedCurr { changed: true, ..anim.curr }, ..anim }
    } else {
        anim
    }
}

/// Relies on bevy's repeating `Timer` (`new`, `set_elapsed`, `tick`, `elapsed`,
/// `times_finished_this_tick`): on a running timer, `tick` adds `delta_nanos`
/// to the elapsed time, counts the whole durations in the sum as
/// `times_finished_this_tick` (as a `u32`) and keeps the remainder as the
/// elapsed time.
#[verifier::external_body]
fn repeating_tick(duration_nanos: u64, elapsed_nanos: u64, delta_nanos: u64) -> (r: (u64, u32))
    requires
        duration_nanos > 0,
        elapsed_nanos < duration_nanos,
        elapsed_nanos + delta_nanos <= u64::MAX,
        (elapsed_nanos + delta_nanos) / (duration_nanos as int) <= u32::MAX,
    ensures
        r.0 == (elapsed_nanos + delta_nanos) % (duration_nanos as int),
        r.1 == (elapsed_nanos + delta_nanos) / (duration_nanos as int),
{
    let mode = bevy::time::TimerMode::Repeating;
    let mut timer = bevy::time::Timer::new(std::time::Duration::from_nanos(duration_nanos), mode);
    timer.set_elapsed(std::time::Duration::from_nanos(elapsed_nanos));
    timer.tick(std::time::Duration::from_nanos(delta_nanos));
    (timer.elapsed().as_nanos() as u64, timer.times_finished_this_tick())
}

/// Looks `id` up in an optional definition.
fn resolve_exec(defs: Option<&Animation>, id: AnimId) -> (r: Option<AnimMeta>)
    requires
        defs_wf(defs),
    ensures
        r == resolve(defs_view(defs), id),
        r matches Some(m) ==> m.wf(),
{
    match defs {
        Some(a) => match a.get_with_hash(id) {
            Some(m) => Some(*m),
            None => None,
        },
        None => None,
    }
}

/// Adopts clip `id` with metadata `m` from its first frame.
fn start(state: &mut AnimatedData, anim: &mut Animated, id: AnimId, m: AnimMeta)
    ensures
        *final(state) == start_data(m),
        *final(anim) == start_anim(id, m),
{
    *state = AnimatedData { curr_idx: 0, elapsed_nanos: 0, paused: false, meta: m };
    let queued = match m.mode {
        AnimMode::Repeating => Some(id),
        AnimMode::Once(next) => next,
    };
    *anim = Animated { curr: AnimatedCurr { id, changed: false }, queued: AnimatedQueued { id: queued } };
}

/// Whether `delta_nanos` can be added to this entity's accumulator this tick.
pub fn can_advance(state: &AnimatedData, delta_nanos: u64) -> (r: bool)
    requires
        state.wf(),
    ensures
        r == tick_fits(*state, delta_nanos),
{
    if state.paused {
        return true;
    }
    if delta_nanos > u64::MAX - state.elapsed_nanos {
        return false;
    }
    let total = state.elapsed_nanos + delta_nanos;
    total / state.meta.frame_nanos <= u32::MAX as u64
}

/// Raises the change flag when one of the tick's modified definitions is the
/// one this entity plays from, so that its clip is resolved again.
pub fn on_load_anim(anim: &mut Animated, anim_handle: u64, modified: &Vec<u64>)
    ensures
        *final(anim) == reload_spec(*old(anim), anim_handle, modified@),
{
    let mut i: usize = 0;
    while i < modified.len()
        invariant
            i <= modified@.len(),
            *anim == *old(anim),
            forall|j: int| 0 <= j < i ==> modified@[j] != anim_handle,
        decreases modified@.len() - i,
    {
        if modified[i] == anim_handle {
            anim.curr.changed = true;
            return;
        }
        i = i + 1;
    }
}

/// Resolves the requested clip when it changed: on a hit playback restarts on
/// it; while the definition is not loaded the flag stays up for the next tick;
/// on a miss playback holds.
pub fn on_change_anim(state: &mut AnimatedData, anim: &mut Animated, defs: Option<&Animation>) -> (r:
    ChangeOutcome)
    requires
        old(state).wf(),
        defs_wf(defs),
    ensures
        (*final(state), *final(anim), r) == change_spec(*old(state), *old(anim), defs_view(defs)),
        final(state).wf(),
{
    if !anim.curr.changed {
        return ChangeOutcome::Unchanged;
    }
    if defs.is_none() {
        return ChangeOutcome::NotReady;
    }
    let id = anim.curr.id;
    match resolve_exec(defs, id) {
        Some(m) => {
            start(state, anim, id, m);
            ChangeOutcome::Applied
        },
        None => {
            anim.curr.changed = false;
            ChangeOutcome::NotFound
        },
    }
}

/// Advances one entity by `delta_nanos`: moves the frame offset by the number
/// of frame boundaries crossed, wraps a repeating clip, and at the end of a
/// `Once` clip either adopts the queued clip or holds the last frame and
/// reports the completion.
pub fn advance_anims(
    entity: u64,
    state: &mut AnimatedData,
    anim: &mut Animated,
    defs: Option<&Animation>,
    delta_nanos: u64,
) -> (r: Option<AnimFinishedEvent>)
    requires
        old(state).wf(),
        defs_wf(defs),
        tick_fits(*old(state), delta_nanos),
    ensures
        (*final(state), *final(anim), r) == advance_spec(
            entity,
            *old(state),
            *old(anim),
            defs_view(defs),
            delta_nanos,
        ),
        final(state).wf(),
{
    if state.paused {
        return None;
    }
    let (elapsed, times) = repeating_tick(state.meta.frame_nanos, state.elapsed_nanos, delta_nanos);
    let times = times as usize;
    let len = state.meta.len;
    let left = len - state.curr_idx;
    if times < left {
        state.curr_idx = state.curr_idx + times;
        state.elapsed_nanos = elapsed;
        return None;
    }
    match state.meta.mode {
        AnimMode::Repeating => {
            state.curr_idx = (times - left) % len;
            state.elapsed_nanos = elapsed;
            proof {
                let idx = old(state).curr_idx + times;
                assert(idx % (len as int) == (times - left) % (len as int)) by {
                    vstd::arithmetic::div_mod::lemma_mod_sub_multiples_vanish(idx, len as int);
                };
            }
            None
        },
        AnimMode::Once(_) => {
            let next = anim.pop_queue();
            if let Some(n) = next {
                if n != anim.curr.id {
                    if let Some(m) = resolve_exec(defs, n) {
                        start(state, anim, n, m);
                        return None;
                    }
                }
            }
            state.curr_idx = len - 1;
            state.elapsed_nanos = elapsed;
            state.paused = true;
            Some(AnimFinishedEvent { entity, fin: anim.curr.id })
        },
    }
}

} // verus!
