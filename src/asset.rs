//! Animation definitions: clip metadata keyed by clip identifier.
use std::collections::HashMap;
use vstd::prelude::*;

use crate::component::ToAnimId;
use crate::hash::{hash, name_id};

verus! {

/// Runtime identifier of a clip, derived from its name.
pub type AnimId = u64;

/// Nanoseconds in one second.
pub const NANOS_PER_SEC: u64 = 1_000_000_000;

/// Clip entry as written in a definition document, with its follow-up by name.
pub struct DeAnimMeta {
    pub start_idx: usize,
    pub len: usize,
    /// Time each frame is shown, in nanoseconds.
    pub frame_nanos: u64,
    pub mode: DeAnimMode,
}

/// Playback mode as written in a definition document.
pub enum DeAnimMode {
    Repeating,
    Once(Option<String>),
}

/// Clip metadata: where the clip starts in the atlas, how many frames it has,
/// how long each frame shows, and what happens when it ends.
#[derive(Clone, Copy, Debug, PartialEq, Eq, Structural)]
pub struct AnimMeta {
    pub start_idx: usize,
    pub len: usize,
    /// Time each frame is shown, in nanoseconds.
    pub frame_nanos: u64,
    pub mode: AnimMode,
}

/// Playback mode of a clip. A `Once` clip may name a default follow-up clip.
#[derive(Clone, Copy, Debug, PartialEq, Eq, Structural)]
pub enum AnimMode {
    Repeating,
    Once(Option<AnimId>),
}

impl AnimMeta {
    /// At least one frame, a positive frame time, and every frame index of
    /// the clip representable.
    pub open spec fn wf(&self) -> bool {
        &&& self.len >= 1
        &&& self.frame_nanos >= 1
        &&& self.start_idx + self.len <= usize::MAX
    }

    /// Checks well-formedness at run time.
    pub fn is_valid(&self) -> (r: bool)
        ensures
            r == self.wf(),
    {
        self.len >= 1 && self.frame_nanos >= 1 && self.start_idx <= usize::MAX - self.len
    }
}

/// A single repeating frame shown for half a second.
pub open spec fn default_meta() -> AnimMeta {
    AnimMeta { start_idx: 0, len: 1, frame_nanos: NANOS_PER_SEC / 2, mode: AnimMode::Repeating }
}

impl Default for AnimMeta {
    fn default() -> (r: Self)
        ensures
            r == default_meta(),
    {
        AnimMeta { start_idx: 0, len: 1, frame_nanos: NANOS_PER_SEC / 2, mode: AnimMode::Repeating }
    }
}

impl Default for DeAnimMode {
    fn default() -> (r: Self)
        ensures
            r is Repeating,
    {
        DeAnimMode::Repeating
    }
}

impl Default for DeAnimMeta {
    fn default() -> (r: Self)
        ensures
            r.start_idx == 0,
            r.len == 1,
            r.frame_nanos == NANOS_PER_SEC / 10,
            r.mode is Repeating,
    {
        DeAnimMeta {
            start_idx: 0,
            len: 1,
            frame_nanos: NANOS_PER_SEC / 10,
            mode: DeAnimMode::Repeating,
        }
    }
}

/// The runtime metadata of a document entry: the follow-up name becomes its id.
pub open spec fn meta_of(d: DeAnimMeta) -> AnimMeta {
    AnimMeta {
        start_idx: d.start_idx,
        len: d.len,
        frame_nanos: d.frame_nanos,
        mode: match d.mode {
            DeAnimMode::Repeating => AnimMode::Repeating,
            DeAnimMode::Once(None) => AnimMode::Once(None),
            DeAnimMode::Once(Some(s)) => AnimMode::Once(Some(name_id(s@))),
        },
    }
}

/// The clip table built from document entries in order; a later entry whose
/// name hashes to the same id replaces an earlier one.
pub open spec fn clips_of(entries: Seq<(String, DeAnimMeta)>) -> Map<AnimId, AnimMeta>
    decreases entries.len(),
{
    if entries.len() == 0 {
        Map::empty()
    } else {
        clips_of(entries.drop_last()).insert(
            name_id(entries.last().0@),
            meta_of(entries.last().1),
        )
    }
}

/// Every entry describes a well-formed clip.
pub open spec fn entries_wf(entries: Seq<(String, DeAnimMeta)>) -> bool {
    forall|i: int| 0 <= i < entries.len() ==> #[trigger] meta_of(entries[i].1).wf()
}

/// A definition that cannot be played.
#[derive(Clone, Copy, Debug, PartialEq, Eq, Structural)]
pub enum DefinitionError {
    /// The entry at this position has no frames, a zero frame time, or frame
    /// indices past `usize::MAX`.
    Malformed(usize),
}

/// A resolved animation definition: the clips of one sprite sheet.
pub struct Animation {
    pub map: HashMap<AnimId, AnimMeta>,
}

impl Animation {
    pub open spec fn view(&self) -> Map<AnimId, AnimMeta> {
        self.map@
    }

    /// Every clip in the table is well formed.
    pub open spec fn wf(&self) -> bool {
        forall|k: AnimId| #[trigger] self.map@.contains_key(k) ==> self.map@[k].wf()
    }

    /// Builds the clip table from named document entries, hashing each name.
    /// Fails on the first malformed entry.
    pub fn from_entries(entries: &Vec<(String, DeAnimMeta)>) -> (r: Result<Animation, DefinitionError>)
        ensures
            match r {
                Ok(a) => entries_wf(entries@) && a.wf() && a.map@ == clips_of(entries@),
                Err(DefinitionError::Malformed(i)) => {
                    &&& i < entries@.len()
                    &&& !meta_of(entries@[i as int].1).wf()
                    &&& forall|j: int| 0 <= j < i ==> #[trigger] meta_of(entries@[j].1).wf()
                },
            },
    {
        let mut map: HashMap<AnimId, AnimMeta> = HashMap::new();
        let mut i: usize = 0;
        while i < entries.len()
            invariant
                i <= entries@.len(),
                map@ == clips_of(entries@.subrange(0, i as int)),
                forall|j: int| 0 <= j < i ==> #[trigger] meta_of(entries@[j].1).wf(),
                forall|k: AnimId| #[trigger] map@.contains_key(k) ==> map@[k].wf(),
            decreases entries@.len() - i,
        {
            let entry = &entries[i];
            let d = &entry.1;
            let mode = match &d.mode {
                DeAnimMode::Repeating => AnimMode::Repeating,
                DeAnimMode::Once(None) => AnimMode::Once(None),
                DeAnimMode::Once(Some(s)) => AnimMode::Once(Some(hash(s.as_str()))),
            };
            let meta = AnimMeta { start_idx: d.start_idx, len: d.len, frame_nanos: d.frame_nanos, mode };
            assert(meta == meta_of(entries@[i as int].1));
            if !meta.is_valid() {
                return Err(DefinitionError::Malformed(i));
            }
            let id = hash(entry.0.as_str());
            map.insert(id, meta);
            proof {
                let prefix = entries@.subrange(0, i as int + 1);
                assert(prefix.drop_last() =~= entries@.subrange(0, i as int));
                assert(prefix.last() == entries@[i as int]);
            }
            i = i + 1;
        }
        assert(entries@.subrange(0, i as int) =~= entries@);
        Ok(Animation { map })
    }

    /// Looks a clip up by its id.
    pub fn get_with_hash(&self, hash: AnimId) -> (r: Option<&AnimMeta>)
        ensures
            match r {
                Some(m) => self.map@.contains_key(hash) && *m == self.map@[hash],
                None => !self.map@.contains_key(hash),
            },
    {
        self.map.get(&hash)
    }

    /// Looks a clip up by anything that denotes its id.
    pub fn get_with_id<T: ToAnimId>(&self, id: T) -> (r: Option<&AnimMeta>)
        ensures
            match r {
                Some(m) => self.map@.contains_key(id.spec_id()) && *m == self.map@[id.spec_id()],
                None => !self.map@.contains_key(id.spec_id()),
            },
    {
        self.map.get(&id.id())
    }

    /// Looks a clip up by its name.
    pub fn get_with_str(&self, str: &str) -> (r: Option<&AnimMeta>)
        ensures
            match r {
                Some(m) => self.map@.contains_key(name_id(str@)) && *m == self.map@[name_id(str@)],
                None => !self.map@.contains_key(name_id(str@)),
            },
    {
        self.map.get(&hash(str))
    }
}

} // verus!
