//! Laws of the playback driver, stated over the specifications of the
//! change reaction, the reload reaction and frame advancement.
use vstd::arithmetic::div_mod::{lemma_fundamental_div_mod_converse, lemma_small_mod};
use vstd::prelude::*;

use crate::asset::{AnimId, AnimMeta, AnimMode};
use crate::component::{requested, Animated, AnimatedData};
use crate::system::{
    advance_spec, change_spec, clips_wf, reload_spec, resolve, start_anim, start_data,
    AnimFinishedEvent, ChangeOutcome,
};

verus! {

/// The frame offset always indexes into the current clip: both the change
/// reaction and advancement keep a well-formed playback state well formed.
pub proof fn lemma_offset_stays_in_clip(
    entity: u64,
    data: AnimatedData,
    anim: Animated,
    defs: Option<Map<AnimId, AnimMeta>>,
    delta: u64,
)
    requires
        data.wf(),
        clips_wf(defs),
    ensures
        advance_spec(entity, data, anim, defs, delta).0.wf(),
        change_spec(data, anim, defs).0.wf(),
{
}

/// On a running repeating clip, advancing by exactly one full cycle
/// (`len` frames of `frame_nanos` each) leaves the frame offset and the
/// accumulator where they were.
pub proof fn lemma_full_cycle_returns(
    entity: u64,
    data: AnimatedData,
    anim: Animated,
    defs: Option<Map<AnimId, AnimMeta>>,
    delta: u64,
)
    requires
        data.wf(),
        !data.paused,
        data.meta.mode is Repeating,
        delta == data.meta.len * data.meta.frame_nanos,
    ensures
        advance_spec(entity, data, anim, defs, delta).0 == data,
        advance_spec(entity, data, anim, defs, delta).1 == anim,
        advance_spec(entity, data, anim, defs, delta).2 is None,
{
    let d = data.meta.frame_nanos as int;
    let len = data.meta.len as int;
    let total = data.elapsed_nanos + delta;
    lemma_fundamental_div_mod_converse(total, d, len, data.elapsed_nanos as int);
    lemma_fundamental_div_mod_converse(data.curr_idx + len, len, 1, data.curr_idx as int);
}

/// A running `Once` clip with nothing queued whose remaining frames all pass
/// in one advance ends on its last frame, held, and reports its completion
/// once; every later advance leaves it there and reports nothing.
pub proof fn lemma_once_completes_once(
    entity: u64,
    data: AnimatedData,
    anim: Animated,
    defs: Option<Map<AnimId, AnimMeta>>,
    delta: u64,
    later: u64,
)
    requires
        data.wf(),
        !data.paused,
        data.meta.mode is Once,
        anim.queued.id is None,
        data.curr_idx + (data.elapsed_nanos + delta) / (data.meta.frame_nanos as int)
            >= data.meta.len,
    ensures
        ({
            let (d1, a1, ev) = advance_spec(entity, data, anim, defs, delta);
            &&& d1.curr_idx == data.meta.len - 1
            &&& d1.paused
            &&& d1.meta == data.meta
            &&& a1 == anim
            &&& ev == Some(AnimFinishedEvent { entity, fin: anim.curr.id })
            &&& advance_spec(entity, d1, a1, defs, later) == (d1, a1, None::<AnimFinishedEvent>)
        }),
{
}

/// A held clip stays where it is under any advance, and the change reaction
/// leaves it alone until a new clip is requested.
pub proof fn lemma_paused_holds(
    entity: u64,
    data: AnimatedData,
    anim: Animated,
    defs: Option<Map<AnimId, AnimMeta>>,
    delta: u64,
)
    requires
        data.paused,
        !anim.curr.changed,
    ensures
        advance_spec(entity, data, anim, defs, delta) == (data, anim, None::<AnimFinishedEvent>),
        change_spec(data, anim, defs) == (data, anim, ChangeOutcome::Unchanged),
{
}

/// When a running `Once` clip completes with a different clip `b` queued
/// that the definition has, `b` takes over in the same advance from its
/// first frame, and a repeating `b` queues itself.
pub proof fn lemma_queue_taken_on_completion(
    entity: u64,
    data: AnimatedData,
    anim: Animated,
    defs: Option<Map<AnimId, AnimMeta>>,
    delta: u64,
    b: AnimId,
)
    requires
        data.wf(),
        !data.paused,
        data.meta.mode is Once,
        anim.queued.id == Some(b),
        b != anim.curr.id,
        resolve(defs, b) is Some,
        data.curr_idx + (data.elapsed_nanos + delta) / (data.meta.frame_nanos as int)
            >= data.meta.len,
    ensures
        ({
            let m = resolve(defs, b)->0;
            let (d1, a1, ev) = advance_spec(entity, data, anim, defs, delta);
            &&& ev is None
            &&& d1 == start_data(m)
            &&& d1.curr_idx == 0
            &&& d1.meta == m
            &&& a1.curr.id == b
            &&& m.mode is Repeating ==> a1.queued.id == Some(b)
        }),
{
}

/// A repeating clip never completes: advancing it reports nothing and it
/// stays the same repeating clip.
pub proof fn lemma_repeating_never_finishes(
    entity: u64,
    data: AnimatedData,
    anim: Animated,
    defs: Option<Map<AnimId, AnimMeta>>,
    delta: u64,
)
    requires
        data.meta.mode is Repeating,
    ensures
        advance_spec(entity, data, anim, defs, delta).2 is None,
        advance_spec(entity, data, anim, defs, delta).0.meta == data.meta,
        advance_spec(entity, data, anim, defs, delta).1 == anim,
{
}

/// Requesting clip `b` that the loaded definition has restarts playback on
/// it: offset zero, its frame time, and a queue that depends on `b` alone,
/// whatever was queued before.
pub proof fn lemma_change_restarts(data: AnimatedData, anim: Animated, defs: Map<AnimId, AnimMeta>, b: AnimId)
    requires
        defs.contains_key(b),
    ensures
        ({
            let (d1, a1, out) = change_spec(data, requested(anim, b), Some(defs));
            &&& out == ChangeOutcome::Applied
            &&& d1 == start_data(defs[b])
            &&& d1.curr_idx == 0
            &&& d1.meta.frame_nanos == defs[b].frame_nanos
            &&& a1 == start_anim(b, defs[b])
            &&& a1.queued.id == match defs[b].mode {
                AnimMode::Repeating => Some(b),
                AnimMode::Once(next) => next,
            }
        }),
{
}

/// Requesting a clip that cannot be resolved leaves the playback state as it
/// was and reports the miss.
pub proof fn lemma_miss_holds(
    data: AnimatedData,
    anim: Animated,
    defs: Option<Map<AnimId, AnimMeta>>,
    x: AnimId,
)
    requires
        resolve(defs, x) is None,
    ensures
        change_spec(data, requested(anim, x), defs).0 == data,
        defs is Some ==> change_spec(data, requested(anim, x), defs).2 == ChangeOutcome::NotFound,
        defs is None ==> change_spec(data, requested(anim, x), defs).2 == ChangeOutcome::NotReady,
{
}

/// After the entity's definition is replaced and the reload reported, the
/// change reaction picks up the new metadata of the same clip, and the next
/// advance steps by the new frame time.
pub proof fn lemma_reload_takes_effect(
    entity: u64,
    data: AnimatedData,
    anim: Animated,
    handle: u64,
    modified: Seq<u64>,
    defs: Map<AnimId, AnimMeta>,
    delta: u64,
)
    requires
        modified.contains(handle),
        defs.contains_key(anim.curr.id),
        defs[anim.curr.id].wf(),
        delta < defs[anim.curr.id].len * defs[anim.curr.id].frame_nanos,
    ensures
        ({
            let m = defs[anim.curr.id];
            let a0 = reload_spec(anim, handle, modified);
            let (d1, a1, out) = change_spec(data, a0, Some(defs));
            let (d2, a2, ev) = advance_spec(entity, d1, a1, Some(defs), delta);
            &&& out == ChangeOutcome::Applied
            &&& d1.meta == m
            &&& d2.curr_idx == (delta as int) / (m.frame_nanos as int)
            &&& d2.elapsed_nanos == (delta as int) % (m.frame_nanos as int)
            &&& ev is None
        }),
{
    let m = defs[anim.curr.id];
    let d = m.frame_nanos as int;
    assert((delta as int) / d < m.len) by (nonlinear_arith)
        requires
            0 <= delta < m.len * d,
            d > 0,
    ;
}

} // verus!
