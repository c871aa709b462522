//! Keyframe animation: playback time, keyframe search and the layout of
//! keyframe values, per channel and per clip.
use vstd::prelude::*;

verus! {

/// The node property a channel drives.
#[derive(Clone, Copy, Debug, PartialEq, Eq, Structural)]
pub enum AnimatedProperty {
    Translation,
    Rotation,
    Scale,
    MorphWeights,
}

/// How values between two keyframes are found.
#[derive(Clone, Copy, Debug, PartialEq, Eq, Structural)]
pub enum Interpolation {
    Step,
    Linear,
    CubicSpline,
}

/// What happens to a time past the end of a clip.
#[derive(Clone, Copy, Debug, PartialEq, Eq, Structural)]
pub enum PlaybackMode {
    /// Wrap around to the start.
    Loop,
    /// Hold the end.
    Clamp,
}

/// Which of a cubic-spline keyframe's three stored values is meant; other
/// channels store only the value.
#[derive(Clone, Copy, Debug, PartialEq, Eq, Structural)]
pub enum ValuePart {
    InTangent,
    Value,
    OutTangent,
}

/// One animated property of one node. Times are in microseconds; values are
/// the raw little-endian bytes of the keyframe values, one record per
/// keyframe, or three (in-tangent, value, out-tangent) for cubic splines.
#[derive(Clone, Debug)]
pub struct Channel {
    pub node_index: usize,
    pub property: AnimatedProperty,
    pub interpolation_type: Interpolation,
    pub keyframe_timings: Vec<u64>,
    pub keyframe_values_u8: Vec<u8>,
}

/// A clip: its length in microseconds and its channels, applied in order
/// (where two channels drive the same property, the later one wins).
#[derive(Clone, Debug)]
pub struct Animation {
    pub length_micros: u64,
    pub channels: Vec<Channel>,
}

/// Where a time falls among a channel's keyframes: the keyframes before and
/// after it, how far past the first it is and how far apart the two are.
/// Where the time lies outside the keyframes, both are the nearest one.
#[derive(Clone, Copy, Debug, PartialEq, Eq, Structural)]
pub struct KeyframeSpan {
    pub prev: usize,
    pub next: usize,
    pub elapsed: u64,
    pub duration: u64,
}

/// One channel's sample at a time: the node and property to write, how to
/// interpolate, and between which keyframes.
#[derive(Clone, Copy, Debug, PartialEq, Eq, Structural)]
pub struct ChannelSample {
    pub node_index: usize,
    pub property: AnimatedProperty,
    pub interpolation_type: Interpolation,
    pub span: KeyframeSpan,
}

pub open spec fn strictly_increasing(s: Seq<u64>) -> bool {
    forall|i: int, j: int| 0 <= i < j < s.len() ==> s[i] < s[j]
}

/// The time, in microseconds, at which a clip of `length` is sampled.
pub open spec fn playback_time_spec(time: u64, length: u64, mode: PlaybackMode) -> u64 {
    match mode {
        PlaybackMode::Loop => if length == 0 {
            0
        } else {
            (time % length) as u64
        },
        PlaybackMode::Clamp => if time > length {
            length
        } else {
            time
        },
    }
}

/// The span of `t` among the strictly increasing, non-empty `times`.
pub open spec fn is_span_of(times: Seq<u64>, t: u64, s: KeyframeSpan) -> bool {
    let last = times.len() - 1;
    if t <= times[0] {
        s == KeyframeSpan { prev: 0, next: 0, elapsed: 0, duration: 0 }
    } else if t >= times[last] {
        s == KeyframeSpan { prev: last as usize, next: last as usize, elapsed: 0, duration: 0 }
    } else {
        &&& s.next == s.prev + 1
        &&& s.next < times.len()
        &&& times[s.prev as int] <= t < times[s.next as int]
        &&& s.elapsed == t - times[s.prev as int]
        &&& s.duration == times[s.next as int] - times[s.prev as int]
    }
}

/// Number of stored values per keyframe.
pub open spec fn parts_per_keyframe(interpolation: Interpolation) -> nat {
    match interpolation {
        Interpolation::CubicSpline => 3,
        _ => 1,
    }
}

/// Position of a part within a keyframe's record.
pub open spec fn part_index(part: ValuePart) -> nat {
    match part {
        ValuePart::InTangent => 0,
        ValuePart::Value => 1,
        ValuePart::OutTangent => 2,
    }
}

/// Offset of a part within a keyframe record; a non-spline channel stores
/// only the value.
pub open spec fn part_offset(interpolation: Interpolation, part: ValuePart) -> nat {
    match interpolation {
        Interpolation::CubicSpline => part_index(part),
        _ => 0,
    }
}

/// Whether a stored value of `size` bytes holds a value of `property`:
/// three 32-bit floats for a translation or a scale, four for a rotation
/// quaternion, and a whole number of them (one per morph target) for
/// morph weights.
pub open spec fn value_size_fits(property: AnimatedProperty, size: nat) -> bool {
    match property {
        AnimatedProperty::Translation | AnimatedProperty::Scale => size == 12,
        AnimatedProperty::Rotation => size == 16,
        AnimatedProperty::MorphWeights => size % 4 == 0,
    }
}

impl Channel {
    pub open spec fn keyframe_count(&self) -> nat {
        self.keyframe_timings@.len()
    }

    pub open spec fn record_count(&self) -> nat {
        self.keyframe_count() * parts_per_keyframe(self.interpolation_type)
    }

    /// Bytes of one stored value.
    pub open spec fn value_size(&self) -> nat {
        self.keyframe_values_u8@.len() / self.record_count()
    }

    /// At least one keyframe, times strictly increasing, and the value bytes
    /// split evenly into one record per stored value, each the size of the
    /// property's value.
    pub open spec fn wf(&self) -> bool {
        &&& self.keyframe_count() > 0
        &&& strictly_increasing(self.keyframe_timings@)
        &&& self.keyframe_values_u8@.len() % self.record_count() == 0
        &&& value_size_fits(self.property, self.value_size())
    }

    /// Whether the channel is well formed.
    pub fn is_valid(&self) -> (r: bool)
        ensures
            r == self.wf(),
    {
        let n = self.keyframe_timings.len();
        if n == 0 {
            return false;
        }
        let mut i: usize = 1;
        while i < n
            invariant
                n == self.keyframe_timings@.len(),
                1 <= i <= n,
                forall|a: int, b: int|
                    0 <= a < b < i ==> self.keyframe_timings@[a] < self.keyframe_timings@[b],
            decreases n - i,
        {
            if self.keyframe_timings[i - 1] >= self.keyframe_timings[i] {
                return false;
            }
            i += 1;
        }
        let parts: u128 = match self.interpolation_type {
            Interpolation::CubicSpline => 3,
            _ => 1,
        };
        let records: u128 = n as u128 * parts;
        let value_bytes = self.keyframe_values_u8.len() as u128;
        if value_bytes % records != 0 {
            return false;
        }
        let size = value_bytes / records;
        match self.property {
            AnimatedProperty::Translation | AnimatedProperty::Scale => size == 12,
            AnimatedProperty::Rotation => size == 16,
            AnimatedProperty::MorphWeights => size % 4 == 0,
        }
    }
}

impl Channel {
    /// The byte range `[start, end)` of one stored value of keyframe
    /// `keyframe`; `None` where a tangent is asked of a channel that is not a
    /// cubic spline.
    pub fn value_byte_range(&self, keyframe: usize, part: ValuePart) -> (r: Option<(usize, usize)>)
        requires
            self.wf(),
            keyframe < self.keyframe_count(),
        ensures
            r is None <==> (self.interpolation_type != Interpolation::CubicSpline && part
                != ValuePart::Value),
            r matches Some((start, end)) ==> {
                &&& start == (keyframe * parts_per_keyframe(self.interpolation_type) + part_offset(
                    self.interpolation_type,
                    part,
                )) * self.value_size()
                &&& end == start + self.value_size()
                &&& end <= self.keyframe_values_u8@.len()
            },
    {
        let cubic = match self.interpolation_type {
            Interpolation::CubicSpline => true,
            _ => false,
        };
        if !cubic && part != ValuePart::Value {
            return None;
        }
        let parts: u128 = if cubic {
            3
        } else {
            1
        };
        let offset: u128 = if cubic {
            match part {
                ValuePart::InTangent => 0,
                ValuePart::Value => 1,
                ValuePart::OutTangent => 2,
            }
        } else {
            0
        };
        let n = self.keyframe_timings.len() as u128;
        let len = self.keyframe_values_u8.len() as u128;
        let records: u128 = n * parts;
        let size: u128 = len / records;
        let index: u128 = keyframe as u128 * parts + offset;
        proof {
            let rc = records as int;
            let sz = size as int;
            let idx = index as int;
            vstd::arithmetic::div_mod::lemma_fundamental_div_mod(len as int, rc);
            assert(len == rc * sz);
            assert(idx + 1 <= rc) by (nonlinear_arith)
                requires
                    idx == keyframe * parts + offset,
                    offset < parts,
                    keyframe < n,
                    rc == n * parts,
            ;
            assert((idx + 1) * sz <= rc * sz) by (nonlinear_arith)
                requires
                    idx + 1 <= rc,
                    sz >= 0,
            ;
            assert(idx * sz + sz == (idx + 1) * sz) by (nonlinear_arith);
        }
        let start = index * size;
        Some((start as usize, (start + size) as usize))
    }
}

/// The span of a channel's keyframes at time `t`, and what it drives.
pub fn sample_channel(channel: &Channel, t: u64) -> (r: ChannelSample)
    requires
        channel.wf(),
    ensures
        r.node_index == channel.node_index,
        r.property == channel.property,
        r.interpolation_type == channel.interpolation_type,
        is_span_of(channel.keyframe_timings@, t, r.span),
{
    ChannelSample {
        node_index: channel.node_index,
        property: channel.property,
        interpolation_type: channel.interpolation_type,
        span: find_keyframe_span(&channel.keyframe_timings, t),
    }
}

impl Animation {
    /// Every channel is well formed.
    pub open spec fn channels_wf(&self) -> bool {
        forall|i: int| 0 <= i < self.channels@.len() ==> (#[trigger] self.channels@[i]).wf()
    }

    /// Every channel is well formed and drives one of `node_count` nodes.
    pub open spec fn wf(&self, node_count: nat) -> bool {
        &&& self.channels_wf()
        &&& forall|i: int|
            0 <= i < self.channels@.len() ==> (#[trigger] self.channels@[i]).node_index
                < node_count
    }

    /// Whether the clip is well formed for a scene of `node_count` nodes.
    pub fn is_valid(&self, node_count: usize) -> (r: bool)
        ensures
            r == self.wf(node_count as nat),
    {
        let mut i: usize = 0;
        while i < self.channels.len()
            invariant
                i <= self.channels@.len(),
                forall|j: int|
                    0 <= j < i ==> (#[trigger] self.channels@[j]).wf()
                        && self.channels@[j].node_index < node_count,
            decreases self.channels@.len() - i,
        {
            if !self.channels[i].is_valid() || self.channels[i].node_index >= node_count {
                return false;
            }
            i += 1;
        }
        true
    }

    /// Samples every channel at `time` (wrapped or clamped into the clip by
    /// `mode`), in channel order: applying the samples in this order makes
    /// the last channel on a node's property win.
    pub fn sample(&self, time: u64, mode: PlaybackMode) -> (r: Vec<ChannelSample>)
        requires
            self.channels_wf(),
        ensures
            r@.len() == self.channels@.len(),
            forall|i: int|
                0 <= i < r@.len() ==> {
                    let c = self.channels@[i];
                    let s = #[trigger] r@[i];
                    &&& s.node_index == c.node_index
                    &&& s.property == c.property
                    &&& s.interpolation_type == c.interpolation_type
                    &&& is_span_of(
                        c.keyframe_timings@,
                        playback_time_spec(time, self.length_micros, mode),
                        s.span,
                    )
                },
    {
        let t = playback_time(time, self.length_micros, mode);
        let mut samples: Vec<ChannelSample> = Vec::new();
        let mut i: usize = 0;
        while i < self.channels.len()
            invariant
                self.channels_wf(),
                t == playback_time_spec(time, self.length_micros, mode),
                i <= self.channels@.len(),
                samples@.len() == i,
                forall|j: int|
                    0 <= j < i ==> {
                        let c = self.channels@[j];
                        let s = #[trigger] samples@[j];
                        &&& s.node_index == c.node_index
                        &&& s.property == c.property
                        &&& s.interpolation_type == c.interpolation_type
                        &&& is_span_of(c.keyframe_timings@, t, s.span)
                    },
            decreases self.channels@.len() - i,
        {
            proof {
                assert(self.channels@[i as int].wf());
            }
            let s = sample_channel(&self.channels[i], t);
            samples.push(s);
            i += 1;
        }
        samples
    }
}

/// The time, in microseconds, at which a clip of `length` is sampled:
/// wrapped into the clip when looping, held at its end when clamping.
pub fn playback_time(time: u64, length: u64, mode: PlaybackMode) -> (r: u64)
    ensures
        r == playback_time_spec(time, length, mode),
        r <= length,
{
    match mode {
        PlaybackMode::Loop => if length == 0 {
            0
        } else {
            time % length
        },
        PlaybackMode::Clamp => if time > length {
            length
        } else {
            time
        },
    }
}

/// Finds, by binary search, the keyframes that bracket `t`.
pub fn find_keyframe_span(times: &Vec<u64>, t: u64) -> (r: KeyframeSpan)
    requires
        times@.len() > 0,
        strictly_increasing(times@),
    ensures
        is_span_of(times@, t, r),
{
    let last = times.len() - 1;
    if t <= times[0] {
        return KeyframeSpan { prev: 0, next: 0, elapsed: 0, duration: 0 };
    }
    if t >= times[last] {
        return KeyframeSpan { prev: last, next: last, elapsed: 0, duration: 0 };
    }
    let mut lo: usize = 0;
    let mut hi: usize = last;
    while hi - lo > 1
        invariant
            last == times@.len() - 1,
            strictly_increasing(times@),
            lo < hi <= last,
            times@[lo as int] <= t < times@[hi as int],
        decreases hi - lo,
    {
        let mid = lo + (hi - lo) / 2;
        if times[mid] <= t {
            lo = mid;
        } else {
            hi = mid;
        }
    }
    KeyframeSpan { prev: lo, next: hi, elapsed: t - times[lo], duration: times[hi] - times[lo] }
}

} // verus!
