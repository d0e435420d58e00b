use bimber_animations::asset::{AnimMeta, AnimMode, Animation, DeAnimMeta, DeAnimMode, DefinitionError};
use bimber_animations::component::{Animated, AnimatedData, ToAnimId};
use bimber_animations::hash::hash;
use bimber_animations::system::{
    advance_anims, can_advance, on_change_anim, on_load_anim, AnimFinishedEvent, ChangeOutcome,
};

const MS: u64 = 1_000_000;

fn entry(name: &str, start_idx: usize, len: usize, frame_nanos: u64, mode: DeAnimMode) -> (String, DeAnimMeta) {
    (name.to_string(), DeAnimMeta { start_idx, len, frame_nanos, mode })
}

fn definition() -> Animation {
    let entries = vec![
        entry("idle", 0, 4, 250 * MS, DeAnimMode::Repeating),
        entry("walk", 4, 6, 100 * MS, DeAnimMode::Repeating),
        entry("fire", 10, 3, 100 * MS, DeAnimMode::Once(None)),
        entry("hit", 13, 2, 50 * MS, DeAnimMode::Once(Some("idle".to_string()))),
        entry("death", 15, 5, 200 * MS, DeAnimMode::Once(None)),
    ];
    Animation::from_entries(&entries).unwrap()
}

fn playing(name: &str, defs: &Animation) -> (AnimatedData, Animated) {
    let mut data = AnimatedData::default();
    let mut anim = Animated::new(name);
    assert_eq!(on_change_anim(&mut data, &mut anim, Some(defs)), ChangeOutcome::Applied);
    (data, anim)
}

#[test]
fn hash_matches_fnv1a() {
    assert_eq!(hash(""), 0xcbf2_9ce4_8422_2325);
    assert_eq!(hash("a"), 0xaf63_dc4c_8601_ec8c);
    assert_eq!("idle".id(), hash("idle"));
    assert_eq!(hash("idle").id(), hash("idle"));
    assert_ne!(hash("idle"), hash("walk"));
}

#[test]
fn idle_example_scenario() {
    let defs = definition();
    let (mut data, mut anim) = playing("idle", &defs);
    assert_eq!(advance_anims(1, &mut data, &mut anim, Some(&defs), 1000 * MS), None);
    assert_eq!(data.curr_idx, 0);

    let (mut data, mut anim) = playing("idle", &defs);
    assert_eq!(advance_anims(1, &mut data, &mut anim, Some(&defs), 300 * MS), None);
    assert_eq!(data.curr_idx, 1);
    assert_eq!(data.elapsed_nanos, 50 * MS);
}

#[test]
fn offset_stays_in_clip_under_large_steps() {
    let defs = definition();
    let (mut data, mut anim) = playing("walk", &defs);
    let steps = [30 * MS, 999 * MS, 12_345 * MS, 1, 100 * MS, 7_000 * MS];
    for step in steps {
        advance_anims(1, &mut data, &mut anim, Some(&defs), step);
        assert!(data.curr_idx < data.meta.len);
        assert!(data.elapsed_nanos < data.meta.frame_nanos);
    }
}

#[test]
fn full_cycle_returns_to_same_offset() {
    let defs = definition();
    let (mut data, mut anim) = playing("walk", &defs);
    advance_anims(1, &mut data, &mut anim, Some(&defs), 230 * MS);
    assert_eq!(data.curr_idx, 2);
    let before = data;
    advance_anims(1, &mut data, &mut anim, Some(&defs), 6 * 100 * MS);
    assert_eq!(data, before);
}

#[test]
fn once_holds_last_frame_and_finishes_once() {
    let defs = definition();
    let (mut data, mut anim) = playing("fire", &defs);
    assert_eq!(advance_anims(7, &mut data, &mut anim, Some(&defs), 150 * MS), None);
    assert_eq!(data.curr_idx, 1);
    let ev = advance_anims(7, &mut data, &mut anim, Some(&defs), 200 * MS);
    assert_eq!(ev, Some(AnimFinishedEvent { entity: 7, fin: hash("fire") }));
    assert_eq!(data.curr_idx, 2);
    assert!(data.paused);
    assert_eq!(data.sprite_index(), 12);
    for _ in 0..5 {
        assert_eq!(advance_anims(7, &mut data, &mut anim, Some(&defs), 500 * MS), None);
        assert_eq!(data.curr_idx, 2);
        assert_eq!(data.sprite_index(), 12);
    }
    assert_eq!(on_change_anim(&mut data, &mut anim, Some(&defs)), ChangeOutcome::Unchanged);
    assert!(data.paused);
}

#[test]
fn queued_clip_takes_over_on_completion() {
    let defs = definition();
    let (mut data, mut anim) = playing("fire", &defs);
    anim.queue("walk");
    assert_eq!(advance_anims(2, &mut data, &mut anim, Some(&defs), 300 * MS), None);
    assert_eq!(anim.curr.id, hash("walk"));
    assert_eq!(data.curr_idx, 0);
    assert_eq!(data.meta, *defs.get_with_str("walk").unwrap());
    assert_eq!(anim.queued.id, Some(hash("walk")));
    for _ in 0..10 {
        assert_eq!(advance_anims(2, &mut data, &mut anim, Some(&defs), 450 * MS), None);
        assert!(!data.paused);
    }
}

#[test]
fn default_follow_up_is_queued_and_taken() {
    let defs = definition();
    let (mut data, mut anim) = playing("hit", &defs);
    assert_eq!(anim.queued.id, Some(hash("idle")));
    assert_eq!(advance_anims(2, &mut data, &mut anim, Some(&defs), 100 * MS), None);
    assert_eq!(anim.curr.id, hash("idle"));
    assert_eq!(data.meta.frame_nanos, 250 * MS);
}

#[test]
fn queued_same_clip_finishes() {
    let defs = definition();
    let (mut data, mut anim) = playing("fire", &defs);
    anim.queue("fire");
    let ev = advance_anims(3, &mut data, &mut anim, Some(&defs), 300 * MS);
    assert_eq!(ev, Some(AnimFinishedEvent { entity: 3, fin: hash("fire") }));
    assert_eq!(anim.queued.id, None);
}

#[test]
fn change_restarts_and_drops_queue() {
    let defs = definition();
    let (mut data, mut anim) = playing("death", &defs);
    anim.queue("walk");
    advance_anims(1, &mut data, &mut anim, Some(&defs), 450 * MS);
    assert_eq!(data.curr_idx, 2);
    anim.change_now("fire");
    assert_eq!(anim.queued.id, None);
    assert_eq!(on_change_anim(&mut data, &mut anim, Some(&defs)), ChangeOutcome::Applied);
    assert_eq!(data.curr_idx, 0);
    assert_eq!(data.elapsed_nanos, 0);
    assert_eq!(data.meta.frame_nanos, 100 * MS);
    assert_eq!(anim.queued.id, None);
    advance_anims(1, &mut data, &mut anim, Some(&defs), 150 * MS);
    assert_eq!(data.curr_idx, 1);
}

#[test]
fn change_if_new_keeps_same_clip() {
    let defs = definition();
    let (mut data, mut anim) = playing("walk", &defs);
    advance_anims(1, &mut data, &mut anim, Some(&defs), 250 * MS);
    anim.change_if_new("walk");
    assert_eq!(on_change_anim(&mut data, &mut anim, Some(&defs)), ChangeOutcome::Unchanged);
    assert_eq!(data.curr_idx, 2);
    anim.change_if_new("idle");
    assert_eq!(on_change_anim(&mut data, &mut anim, Some(&defs)), ChangeOutcome::Applied);
    assert_eq!(data.curr_idx, 0);
}

#[test]
fn missing_clip_leaves_state() {
    let defs = definition();
    let (mut data, mut anim) = playing("walk", &defs);
    advance_anims(1, &mut data, &mut anim, Some(&defs), 250 * MS);
    let before = data;
    anim.change_now("nope");
    assert_eq!(on_change_anim(&mut data, &mut anim, Some(&defs)), ChangeOutcome::NotFound);
    assert_eq!(data, before);
    assert!(!anim.curr.changed);
}

#[test]
fn unloaded_definition_retries() {
    let defs = definition();
    let mut data = AnimatedData::default();
    let mut anim = Animated::new("walk");
    assert_eq!(on_change_anim(&mut data, &mut anim, None), ChangeOutcome::NotReady);
    assert_eq!(data, AnimatedData::default());
    assert!(anim.curr.changed);
    assert_eq!(on_change_anim(&mut data, &mut anim, Some(&defs)), ChangeOutcome::Applied);
    assert_eq!(data.meta.len, 6);
}

#[test]
fn reload_applies_new_duration() {
    let defs = definition();
    let (mut data, mut anim) = playing("idle", &defs);
    let entries = vec![entry("idle", 0, 4, 100 * MS, DeAnimMode::Repeating)];
    let reloaded = Animation::from_entries(&entries).unwrap();
    on_load_anim(&mut anim, 9, &vec![3, 4]);
    assert!(!anim.curr.changed);
    on_load_anim(&mut anim, 9, &vec![3, 9]);
    assert!(anim.curr.changed);
    assert_eq!(on_change_anim(&mut data, &mut anim, Some(&reloaded)), ChangeOutcome::Applied);
    advance_anims(1, &mut data, &mut anim, Some(&reloaded), 250 * MS);
    assert_eq!(data.curr_idx, 2);
}

#[test]
fn malformed_entries_are_rejected() {
    let entries = vec![
        entry("idle", 0, 4, 250 * MS, DeAnimMode::Repeating),
        entry("bad", 0, 0, 250 * MS, DeAnimMode::Repeating),
    ];
    assert_eq!(Animation::from_entries(&entries).err(), Some(DefinitionError::Malformed(1)));
    let entries = vec![entry("slow", 0, 1, 0, DeAnimMode::Repeating)];
    assert_eq!(Animation::from_entries(&entries).err(), Some(DefinitionError::Malformed(0)));
    let entries = vec![entry("far", usize::MAX, 1, 5, DeAnimMode::Repeating)];
    assert_eq!(Animation::from_entries(&entries).err(), Some(DefinitionError::Malformed(0)));
}

#[test]
fn lookups_by_name_and_id() {
    let defs = definition();
    let m = AnimMeta { start_idx: 13, len: 2, frame_nanos: 50 * MS, mode: AnimMode::Once(Some(hash("idle"))) };
    assert_eq!(defs.get_with_str("hit"), Some(&m));
    assert_eq!(defs.get_with_hash(hash("hit")), Some(&m));
    assert_eq!(defs.get_with_id("hit"), Some(&m));
    assert_eq!(defs.get_with_str("missing"), None);
}

#[test]
fn later_entry_with_same_name_wins() {
    let entries = vec![
        entry("idle", 0, 4, 250 * MS, DeAnimMode::Repeating),
        entry("idle", 8, 2, 250 * MS, DeAnimMode::Repeating),
    ];
    let defs = Animation::from_entries(&entries).unwrap();
    assert_eq!(defs.get_with_str("idle").unwrap().start_idx, 8);
}

#[test]
fn queue_and_pop() {
    let mut anim = Animated::new("idle");
    anim.queue(hash("walk"));
    assert_eq!(anim.pop_queue(), Some(hash("walk")));
    assert_eq!(anim.pop_queue(), None);
}

#[test]
fn defaults() {
    let m = AnimMeta::default();
    assert_eq!((m.start_idx, m.len, m.frame_nanos, m.mode), (0, 1, 500 * MS, AnimMode::Repeating));
    let d = DeAnimMeta::default();
    assert_eq!((d.start_idx, d.len, d.frame_nanos), (0, 1, 100 * MS));
    assert!(matches!(d.mode, DeAnimMode::Repeating));
}

#[test]
fn advance_limits() {
    let defs = definition();
    let (data, _) = playing("idle", &defs);
    assert!(can_advance(&data, 1000 * MS));
    assert!(!can_advance(&data, u64::MAX));
    let (mut data, mut anim) = playing("walk", &defs);
    advance_anims(1, &mut data, &mut anim, Some(&defs), 50 * MS);
    assert!(!can_advance(&data, u64::MAX - 10 * MS));
    assert_eq!(data.sprite_index(), 4);
}
