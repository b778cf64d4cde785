use vstd::prelude::*;

verus! {

/// Keyframe payload of a clip. Only translation channels are sampled; other
/// channel kinds are carried but ignored.
pub enum Keyframes<V> {
    Translation(Vec<V>),
    Other,
}

/// A named animation channel: keyframe values and their timestamps, the
/// latter in microseconds since the start of playback.
pub struct AnimationClip<V> {
    pub name: String,
    pub keyframes: Keyframes<V>,
    pub timestamps: Vec<u64>,
}

/// Number of timestamps among the first `upto` that are at or before `t`.
pub open spec fn reached_count(ts: Seq<u64>, t: u64, upto: nat) -> nat
    decreases upto,
{
    if upto == 0 || upto > ts.len() {
        0
    } else {
        reached_count(ts, t, (upto - 1) as nat) + if ts[upto - 1] <= t { 1nat } else { 0nat }
    }
}

/// The keyframe active at time `t`: one step for every timestamp reached,
/// never past the last keyframe.
pub open spec fn keyframe_index_at(ts: Seq<u64>, t: u64) -> nat {
    if ts.len() == 0 {
        0
    } else {
        let c = reached_count(ts, t, ts.len());
        if c < ts.len() - 1 { c } else { (ts.len() - 1) as nat }
    }
}

pub open spec fn timestamps_sorted(ts: Seq<u64>) -> bool {
    forall|i: int, j: int| 0 <= i <= j < ts.len() ==> ts[i] <= ts[j]
}

proof fn lemma_reached_count_monotone(ts: Seq<u64>, t0: u64, t1: u64, upto: nat)
    requires
        t0 <= t1,
    ensures
        reached_count(ts, t0, upto) <= reached_count(ts, t1, upto),
    decreases upto,
{
    if upto > 0 && upto <= ts.len() {
        lemma_reached_count_monotone(ts, t0, t1, (upto - 1) as nat);
    }
}

proof fn lemma_reached_count_none(ts: Seq<u64>, t: u64, upto: nat)
    requires
        forall|j: int| 0 <= j < upto && j < ts.len() ==> t < ts[j],
    ensures
        reached_count(ts, t, upto) == 0,
    decreases upto,
{
    if upto > 0 && upto <= ts.len() {
        lemma_reached_count_none(ts, t, (upto - 1) as nat);
    }
}

proof fn lemma_reached_count_all(ts: Seq<u64>, t: u64, upto: nat)
    requires
        upto <= ts.len(),
        forall|j: int| 0 <= j < upto ==> ts[j] <= t,
    ensures
        reached_count(ts, t, upto) == upto,
    decreases upto,
{
    if upto > 0 {
        lemma_reached_count_all(ts, t, (upto - 1) as nat);
    }
}

/// Feeding the sampler a non-decreasing sequence of times yields a
/// non-decreasing sequence of keyframe indices, none past the last keyframe.
pub proof fn keyframe_index_monotone(ts: Seq<u64>, times: Seq<u64>)
    requires
        forall|i: int, j: int| 0 <= i <= j < times.len() ==> times[i] <= times[j],
    ensures
        forall|i: int, j: int|
            0 <= i <= j < times.len() ==> keyframe_index_at(ts, times[i]) <= keyframe_index_at(
                ts,
                times[j],
            ),
        forall|i: int|
            0 <= i < times.len() && ts.len() > 0 ==> keyframe_index_at(ts, times[i]) <= ts.len()
                - 1,
{
    assert forall|i: int, j: int| 0 <= i <= j < times.len() implies keyframe_index_at(
        ts,
        times[i],
    ) <= keyframe_index_at(ts, times[j]) by {
        lemma_reached_count_monotone(ts, times[i], times[j], ts.len());
    }
}

/// With sorted timestamps, a time before the first timestamp selects the
/// first keyframe, and any time at or after the last timestamp selects the
/// last keyframe, which later times keep.
pub proof fn keyframe_index_boundaries(ts: Seq<u64>, t: u64)
    requires
        ts.len() > 0,
        timestamps_sorted(ts),
    ensures
        t < ts[0] ==> keyframe_index_at(ts, t) == 0,
        t >= ts[ts.len() - 1] ==> keyframe_index_at(ts, t) == ts.len() - 1,
        t >= ts[ts.len() - 1] ==> forall|later: u64|
            later >= t ==> #[trigger] keyframe_index_at(ts, later) == ts.len() - 1,
{
    if t < ts[0] {
        lemma_reached_count_none(ts, t, ts.len());
    }
    if t >= ts[ts.len() - 1] {
        lemma_reached_count_all(ts, t, ts.len());
        assert forall|later: u64| later >= t implies #[trigger] keyframe_index_at(ts, later)
            == ts.len() - 1 by {
            lemma_reached_count_all(ts, later, ts.len());
        }
    }
}

impl<V> AnimationClip<V> {
    /// A translation clip has exactly one timestamp per keyframe.
    pub open spec fn wf(&self) -> bool {
        match self.keyframes {
            Keyframes::Translation(frames) => frames@.len() == self.timestamps@.len(),
            Keyframes::Other => true,
        }
    }

    /// Index of the keyframe active `t` microseconds into playback.
    pub fn keyframe_index(&self, t: u64) -> (r: usize)
        ensures
            r == keyframe_index_at(self.timestamps@, t),
    {
        let len = self.timestamps.len();
        if len == 0 {
            return 0;
        }
        let mut index: usize = 0;
        let mut j: usize = 0;
        while j < len
            invariant
                len == self.timestamps@.len(),
                0 < len,
                j <= len,
                index as nat == (if reached_count(self.timestamps@, t, j as nat) < len - 1 {
                    reached_count(self.timestamps@, t, j as nat)
                } else {
                    (len - 1) as nat
                }),
            decreases len - j,
        {
            if self.timestamps[j] <= t && index < len - 1 {
                index = index + 1;
            }
            j = j + 1;
            assert(reached_count(self.timestamps@, t, j as nat) == reached_count(
                self.timestamps@,
                t,
                (j - 1) as nat,
            ) + if self.timestamps@[j - 1] <= t { 1nat } else { 0nat });
        }
        index
    }

    /// The translation keyframe active at time `t`: none for a clip of
    /// another kind or without keyframes.
    pub open spec fn sample_spec(&self, t: u64) -> Option<&V> {
        match self.keyframes {
            Keyframes::Translation(frames) => if frames@.len() == 0 {
                None
            } else {
                Some(&frames@[keyframe_index_at(self.timestamps@, t) as int])
            },
            Keyframes::Other => None,
        }
    }

    /// The translation keyframe active at time `t`, if this is a translation
    /// clip with at least one keyframe.
    pub fn sample(&self, t: u64) -> (r: Option<&V>)
        requires
            self.wf(),
        ensures
            r == self.sample_spec(t),
    {
        match &self.keyframes {
            Keyframes::Translation(frames) => {
                if frames.len() == 0 {
                    None
                } else {
                    let index = self.keyframe_index(t);
                    Some(&frames[index])
                }
            },
            Keyframes::Other => None,
        }
    }
}

} // verus!
