//! The frame timeline: which scene is on screen at which frame.

use vstd::prelude::*;
use crate::decimal::{Decimal, lemma_scaled_floor_nonnegative, spec_clamp_u32, spec_scaled_floor};
use crate::script::{Scene, VideoScript};

verus! {

/// The frames that `duration` seconds take at `fps` frames per second:
/// `floor(duration * fps)`.
pub open spec fn spec_frames(duration: Decimal, fps: u32) -> int {
    spec_scaled_floor(duration.millis as int, fps as int)
}

/// The frames that the first `n` scenes take together, each scene rounded
/// down by itself.
pub open spec fn spec_frames_before(scenes: Seq<Scene>, fps: u32, n: int) -> int
    decreases n,
{
    if n <= 0 {
        0
    } else {
        spec_frames_before(scenes, fps, n - 1) + spec_frames(scenes[n - 1].duration, fps)
    }
}

/// The thousandths of a second that the first `n` scenes last together.
/// Scenes of negative length count as empty.
pub open spec fn spec_millis_before(scenes: Seq<Scene>, n: int) -> int
    decreases n,
{
    if n <= 0 {
        0
    } else {
        spec_millis_before(scenes, n - 1) + if scenes[n - 1].duration.millis > 0 {
            scenes[n - 1].duration.millis as int
        } else {
            0
        }
    }
}

/// A segment as a plain value: the scene shown on the frames from `start`
/// up to, not including, `end`.
pub struct SegmentModel {
    pub scene_id: Seq<char>,
    pub start: int,
    pub end: int,
}

/// The segment of scene `i` of a script: it begins where the scenes before
/// it end. Frame numbers stop at `u32::MAX`.
pub open spec fn spec_segment_of(scenes: Seq<Scene>, fps: u32, i: int) -> SegmentModel {
    SegmentModel {
        scene_id: scenes[i].id@,
        start: spec_clamp_u32(spec_frames_before(scenes, fps, i)),
        end: spec_clamp_u32(spec_frames_before(scenes, fps, i + 1)),
    }
}

/// The segments of a script, one for each scene, in script order.
pub open spec fn spec_segments_of(scenes: Seq<Scene>, fps: u32) -> Seq<SegmentModel> {
    Seq::new(scenes.len(), |i: int| spec_segment_of(scenes, fps, i))
}

/// Segments that lie one behind the other from frame 0 on: none overlaps
/// another, and no frame is left out between them.
pub open spec fn spec_contiguous(segments: Seq<SegmentModel>) -> bool {
    &&& segments.len() > 0 ==> segments[0].start == 0
    &&& forall|i: int| 0 <= i < segments.len() ==> (#[trigger] segments[i]).start <= segments[i].end
    &&& forall|i: int|
        0 < i < segments.len() ==> (#[trigger] segments[i]).start == segments[i - 1].end
}

/// The frame behind the last segment.
pub open spec fn spec_covered(segments: Seq<SegmentModel>) -> int {
    if segments.len() == 0 {
        0
    } else {
        segments.last().end
    }
}

/// The first segment at or after `from` that holds `frame`.
pub open spec fn spec_find_segment(segments: Seq<SegmentModel>, frame: int, from: int) -> Option<
    int,
>
    decreases segments.len() - from,
{
    if from >= segments.len() {
        None
    } else if segments[from].start <= frame < segments[from].end {
        Some(from)
    } else {
        spec_find_segment(segments, frame, from + 1)
    }
}

/// One scene's stretch of the timeline.
#[derive(Clone, Debug)]
pub struct SceneSegment {
    pub scene_id: String,
    pub start_frame: u32,
    pub end_frame: u32,
}

impl SceneSegment {
    /// The segment as a plain value.
    pub open spec fn model(&self) -> SegmentModel {
        SegmentModel {
            scene_id: self.scene_id@,
            start: self.start_frame as int,
            end: self.end_frame as int,
        }
    }
}

/// Timeline for managing scene playback.
pub struct Timeline {
    fps: u32,
    total_frames: u32,
    scenes: Vec<SceneSegment>,
}

impl Timeline {
    /// Frames per second.
    pub closed spec fn spec_fps(&self) -> u32 {
        self.fps
    }

    /// The number of frames of the whole video.
    pub closed spec fn spec_total_frames(&self) -> u32 {
        self.total_frames
    }

    /// The segments, in script order.
    pub closed spec fn spec_segments(&self) -> Seq<SegmentModel> {
        self.scenes@.map_values(|s: SceneSegment| s.model())
    }

    /// The segments lie one behind the other from frame 0 on.
    #[verifier::type_invariant]
    pub open spec fn wf(&self) -> bool {
        spec_contiguous(self.spec_segments())
    }

    /// The scene on screen at `frame`, if any: the index of its segment.
    pub open spec fn spec_segment_at(&self, frame: int) -> Option<int> {
        spec_find_segment(self.spec_segments(), frame, 0)
    }

    /// Create timeline from video script: one segment for each scene, each
    /// as long as the scene's duration at the script's frame rate, rounded
    /// down, and each beginning where the one before it ends.
    pub fn from_script(script: &VideoScript) -> (timeline: Timeline)
        ensures
            timeline.wf(),
            timeline.spec_fps() == script.metadata.fps,
            timeline.spec_total_frames() == spec_clamp_u32(
                spec_frames(script.metadata.duration, script.metadata.fps),
            ),
            timeline.spec_segments() == spec_segments_of(script.scenes@, script.metadata.fps),
    {
        let fps: u32 = script.metadata.fps;
        let total_frames: u32 = script.metadata.duration.scale_u32(fps);
        let mut segments: Vec<SceneSegment> = Vec::new();
        let mut current_frame: u32 = 0;
        let ghost scenes = script.scenes@;
        let count: usize = script.scenes.len();
        let mut i: usize = 0;
        while i < count
            invariant
                scenes == script.scenes@,
                count == scenes.len(),
                i <= count,
                0 <= spec_frames_before(scenes, fps, i as int),
                current_frame == spec_clamp_u32(spec_frames_before(scenes, fps, i as int)),
                segments@.len() == i,
                forall|j: int|
                    0 <= j < i ==> (#[trigger] segments@[j]).model() == spec_segment_of(
                        scenes,
                        fps,
                        j,
                    ),
            decreases count - i,
        {
            let scene = &script.scenes[i];
            let scene_frames: u32 = scene.duration.scale_u32(fps);
            let wide: u64 = (current_frame as u64) + (scene_frames as u64);
            let end_frame: u32 = if wide > u32::MAX as u64 {
                u32::MAX
            } else {
                wide as u32
            };
            proof {
                lemma_scaled_floor_nonnegative(scene.duration.millis as int, fps as int);
            }
            segments.push(
                SceneSegment { scene_id: scene.id.clone(), start_frame: current_frame, end_frame },
            );
            current_frame = end_frame;
            i = i + 1;
        }
        let timeline = Timeline { fps, total_frames, scenes: segments };
        proof {
            assert(timeline.spec_segments() =~= spec_segments_of(scenes, fps));
            lemma_script_segments_contiguous(scenes, fps);
        }
        timeline
    }

    /// Get scene at given frame number: the id of the scene whose segment
    /// holds the frame, or `None` where no segment holds it.
    pub fn get_scene_at_frame(&self, frame: u32) -> (scene_id: Option<&str>)
        ensures
            match scene_id {
                Some(id) => {
                    &&& self.spec_segment_at(frame as int).is_some()
                    &&& id@ == self.spec_segments()[self.spec_segment_at(
                        frame as int,
                    ).unwrap()].scene_id
                },
                None => self.spec_segment_at(frame as int).is_none(),
            },
    {
        let mut i: usize = 0;
        while i < self.scenes.len()
            invariant
                i <= self.scenes@.len(),
                spec_find_segment(self.spec_segments(), frame as int, 0) == spec_find_segment(
                    self.spec_segments(),
                    frame as int,
                    i as int,
                ),
            decreases self.scenes@.len() - i,
        {
            let segment = &self.scenes[i];
            assert(self.spec_segments()[i as int] == segment.model());
            if frame >= segment.start_frame && frame < segment.end_frame {
                return Some(segment.scene_id.as_str());
            }
            i = i + 1;
        }
        None
    }

    /// Get total frame count.
    pub fn total_frames(&self) -> (frames: u32)
        ensures
            frames == self.spec_total_frames(),
    {
        self.total_frames
    }

    /// Get FPS.
    pub fn fps(&self) -> (fps: u32)
        ensures
            fps == self.spec_fps(),
    {
        self.fps
    }

    /// Convert frame number to time in seconds, rounded down to a whole
    /// number of thousandths. `None` for a timeline at zero frames per
    /// second, on which no frame has a time.
    pub fn frame_to_time(&self, frame: u32) -> (time: Option<Decimal>)
        ensures
            match time {
                Some(t) => self.spec_fps() > 0 && t.millis == (frame * 1000) / (
                self.spec_fps() as int),
                None => self.spec_fps() == 0,
            },
    {
        if self.fps == 0 {
            None
        } else {
            let millis: u64 = ((frame as u64) * 1000) / (self.fps as u64);
            Some(Decimal { millis: millis as i64 })
        }
    }

    /// The number of segments.
    pub fn segment_count(&self) -> (count: usize)
        ensures
            count == self.spec_segments().len(),
    {
        self.scenes.len()
    }

    /// The half-open frame range `[start, end)` of segment `index`, or
    /// `None` where there is no such segment.
    pub fn segment_range(&self, index: usize) -> (range: Option<(u32, u32)>)
        ensures
            match range {
                Some((start, end)) => {
                    &&& index < self.spec_segments().len()
                    &&& start == self.spec_segments()[index as int].start
                    &&& end == self.spec_segments()[index as int].end
                },
                None => index >= self.spec_segments().len(),
            },
    {
        if index < self.scenes.len() {
            let segment = &self.scenes[index];
            assert(self.spec_segments()[index as int] == segment.model());
            Some((segment.start_frame, segment.end_frame))
        } else {
            None
        }
    }
}

/// More scenes never take fewer frames.
pub proof fn lemma_frames_before_monotone(scenes: Seq<Scene>, fps: u32, m: int, n: int)
    requires
        0 <= m <= n,
    ensures
        0 <= spec_frames_before(scenes, fps, m) <= spec_frames_before(scenes, fps, n),
    decreases n,
{
    if m < n {
        lemma_frames_before_monotone(scenes, fps, m, n - 1);
        lemma_scaled_floor_nonnegative(scenes[n - 1].duration.millis as int, fps as int);
    } else if m > 0 {
        lemma_frames_before_monotone(scenes, fps, m - 1, m - 1);
        lemma_scaled_floor_nonnegative(scenes[m - 1].duration.millis as int, fps as int);
    }
}

/// The segments of any script lie one behind the other from frame 0 on.
pub proof fn lemma_script_segments_contiguous(scenes: Seq<Scene>, fps: u32)
    ensures
        spec_contiguous(spec_segments_of(scenes, fps)),
{
    let segments = spec_segments_of(scenes, fps);
    assert forall|i: int| 0 <= i < segments.len() implies (#[trigger] segments[i]).start
        <= segments[i].end by {
        lemma_frames_before_monotone(scenes, fps, i, i + 1);
    }
}

/// In contiguous segments a later segment begins and ends no earlier than
/// an earlier one ends.
pub proof fn lemma_contiguous_ordered(segments: Seq<SegmentModel>, i: int, j: int)
    requires
        spec_contiguous(segments),
        0 <= i < j < segments.len(),
    ensures
        segments[i].end <= segments[j].start,
        segments[i].end <= segments[j].end,
    decreases j - i,
{
    if i + 1 < j {
        lemma_contiguous_ordered(segments, i, j - 1);
        assert(segments[j].start == segments[j - 1].end);
    } else {
        assert(segments[j].start == segments[j - 1].end);
    }
    assert(segments[j].start <= segments[j].end);
}

/// Contiguous segments do not overlap: a frame lies in at most one of them.
pub proof fn lemma_segments_disjoint(segments: Seq<SegmentModel>, frame: int, i: int, j: int)
    requires
        spec_contiguous(segments),
        0 <= i < segments.len(),
        0 <= j < segments.len(),
        segments[i].start <= frame < segments[i].end,
        segments[j].start <= frame < segments[j].end,
    ensures
        i == j,
{
    if i < j {
        lemma_contiguous_ordered(segments, i, j);
    } else if j < i {
        lemma_contiguous_ordered(segments, j, i);
    }
}

/// What a search finds: a segment that holds the frame, such that no
/// segment searched before it does; or nothing, if none holds the frame.
pub proof fn lemma_find_segment(segments: Seq<SegmentModel>, frame: int, from: int)
    requires
        0 <= from,
    ensures
        match spec_find_segment(segments, frame, from) {
            Some(i) => {
                &&& from <= i < segments.len()
                &&& segments[i].start <= frame < segments[i].end
                &&& forall|j: int|
                    from <= j < i ==> !((#[trigger] segments[j]).start <= frame < segments[j].end)
            },
            None => forall|j: int|
                from <= j < segments.len() ==> !((#[trigger] segments[j]).start <= frame
                    < segments[j].end),
        },
    decreases segments.len() - from,
{
    if from < segments.len() && !(segments[from].start <= frame < segments[from].end) {
        lemma_find_segment(segments, frame, from + 1);
    }
}

/// A frame inside a segment resolves to that segment.
pub proof fn lemma_frame_in_segment(segments: Seq<SegmentModel>, frame: int, i: int)
    requires
        spec_contiguous(segments),
        0 <= i < segments.len(),
        segments[i].start <= frame < segments[i].end,
    ensures
        spec_find_segment(segments, frame, 0) == Some(i),
{
    lemma_find_segment(segments, frame, 0);
    match spec_find_segment(segments, frame, 0) {
        Some(k) => {
            lemma_segments_disjoint(segments, frame, i, k);
        },
        None => {
            assert(!(segments[i].start <= frame < segments[i].end));
        },
    }
}

/// A frame at or behind the end of the last segment resolves to no scene.
pub proof fn lemma_frame_past_segments(segments: Seq<SegmentModel>, frame: int)
    requires
        spec_contiguous(segments),
        frame >= spec_covered(segments),
    ensures
        spec_find_segment(segments, frame, 0).is_none(),
{
    lemma_find_segment(segments, frame, 0);
    match spec_find_segment(segments, frame, 0) {
        Some(k) => {
            if k < segments.len() - 1 {
                lemma_contiguous_ordered(segments, k, segments.len() - 1);
            }
        },
        None => {},
    }
}

/// Contiguous segments leave no gap: every frame before the end of the last
/// segment lies in one of them.
pub proof fn lemma_frame_before_end_is_covered(segments: Seq<SegmentModel>, frame: int)
    requires
        spec_contiguous(segments),
        0 <= frame < spec_covered(segments),
    ensures
        spec_find_segment(segments, frame, 0).is_some(),
{
    lemma_cover_upto(segments, frame, segments.len() - 1);
    let i = choose|i: int|
        0 <= i < segments.len() && (#[trigger] segments[i]).start <= frame < segments[i].end;
    lemma_frame_in_segment(segments, frame, i);
}

/// A frame before the end of segment `last` lies in a segment up to `last`.
proof fn lemma_cover_upto(segments: Seq<SegmentModel>, frame: int, last: int)
    requires
        spec_contiguous(segments),
        0 <= last < segments.len(),
        0 <= frame < segments[last].end,
    ensures
        exists|i: int|
            0 <= i < segments.len() && (#[trigger] segments[i]).start <= frame < segments[i].end,
    decreases last,
{
    if segments[last].start <= frame {
        assert(segments[last].start <= frame < segments[last].end);
    } else {
        assert(last > 0);
        assert(segments[last].start == segments[last - 1].end);
        lemma_cover_upto(segments, frame, last - 1);
    }
}

/// Rounding each scene down by itself never yields more frames than
/// rounding their sum down.
pub proof fn lemma_frames_before_at_most_floor(scenes: Seq<Scene>, fps: u32, n: int)
    requires
        0 <= n,
    ensures
        spec_frames_before(scenes, fps, n) <= spec_scaled_floor(
            spec_millis_before(scenes, n),
            fps as int,
        ),
        spec_millis_before(scenes, n) >= 0,
    decreases n,
{
    if n > 0 {
        lemma_frames_before_at_most_floor(scenes, fps, n - 1);
        let before = spec_millis_before(scenes, n - 1);
        let millis = scenes[n - 1].duration.millis as int;
        let f = fps as int;
        if millis > 0 && f > 0 {
            assert((before + millis) * f == before * f + millis * f) by (nonlinear_arith);
            assert(before * f >= 0 && millis * f >= 0) by (nonlinear_arith)
                requires
                    before >= 0,
                    millis > 0,
                    f > 0,
            ;
        }
    }
}

/// Rounding each scene down by itself loses less than one frame for each
/// scene.
pub proof fn lemma_frames_before_drift(scenes: Seq<Scene>, fps: u32, n: int)
    requires
        0 <= n,
    ensures
        spec_scaled_floor(spec_millis_before(scenes, n), fps as int) <= spec_frames_before(
            scenes,
            fps,
            n,
        ) + n,
    decreases n,
{
    if n > 0 {
        lemma_frames_before_drift(scenes, fps, n - 1);
        lemma_frames_before_at_most_floor(scenes, fps, n - 1);
        let before = spec_millis_before(scenes, n - 1);
        let millis = scenes[n - 1].duration.millis as int;
        let f = fps as int;
        if millis > 0 && f > 0 {
            assert((before + millis) * f == before * f + millis * f) by (nonlinear_arith);
            assert(before * f >= 0 && millis * f >= 0) by (nonlinear_arith)
                requires
                    before >= 0,
                    millis > 0,
                    f > 0,
            ;
        }
    }
}

/// Where every scene lasts a whole number of frames, rounding loses
/// nothing.
pub proof fn lemma_frames_before_exact(scenes: Seq<Scene>, fps: u32, n: int)
    requires
        0 <= n <= scenes.len(),
        forall|i: int|
            0 <= i < n ==> (#[trigger] scenes[i]).duration.millis * fps % 1000 == 0,
    ensures
        spec_frames_before(scenes, fps, n) == spec_scaled_floor(
            spec_millis_before(scenes, n),
            fps as int,
        ),
    decreases n,
{
    if n > 0 {
        lemma_frames_before_exact(scenes, fps, n - 1);
        lemma_frames_before_at_most_floor(scenes, fps, n - 1);
        let before = spec_millis_before(scenes, n - 1);
        let millis = scenes[n - 1].duration.millis as int;
        let f = fps as int;
        assert(scenes[n - 1].duration.millis * fps % 1000 == 0);
        if millis > 0 && f > 0 {
            assert((before + millis) * f == before * f + millis * f) by (nonlinear_arith);
            assert(before * f >= 0 && millis * f >= 0) by (nonlinear_arith)
                requires
                    before >= 0,
                    millis > 0,
                    f > 0,
            ;
        }
    }
}

/// A longer duration never takes fewer frames.
pub proof fn lemma_scaled_floor_monotone(a: int, b: int, n: int)
    requires
        a <= b,
    ensures
        spec_scaled_floor(a, n) <= spec_scaled_floor(b, n),
{
    lemma_scaled_floor_nonnegative(b, n);
    if a > 0 && n > 0 {
        assert(a * n <= b * n) by (nonlinear_arith)
            requires
                a <= b,
                n > 0,
        ;
    }
}

/// The timeline of a script whose scenes together last no longer than the
/// video: the segments lie within the video, so a frame at or past the
/// total frame count resolves to no scene.
pub proof fn lemma_frame_past_total(script: VideoScript, timeline: Timeline, frame: int)
    requires
        timeline.wf(),
        timeline.spec_total_frames() == spec_clamp_u32(
            spec_frames(script.metadata.duration, script.metadata.fps),
        ),
        timeline.spec_segments() == spec_segments_of(script.scenes@, script.metadata.fps),
        spec_millis_before(script.scenes@, script.scenes@.len() as int)
            <= script.metadata.duration.millis,
        frame >= timeline.spec_total_frames(),
    ensures
        spec_covered(timeline.spec_segments()) <= timeline.spec_total_frames(),
        timeline.spec_segment_at(frame).is_none(),
{
    let scenes = script.scenes@;
    let fps = script.metadata.fps;
    let n = scenes.len() as int;
    lemma_frames_before_at_most_floor(scenes, fps, n);
    lemma_frames_before_monotone(scenes, fps, 0, n);
    lemma_scaled_floor_monotone(
        spec_millis_before(scenes, n),
        script.metadata.duration.millis as int,
        fps as int,
    );
    lemma_frame_past_segments(timeline.spec_segments(), frame);
}

/// The timeline of a script whose scenes each last a whole number of
/// frames and together last as long as the video: the segments partition
/// the frames `[0, total_frames)`. Every frame of the video lies in exactly
/// one segment.
pub proof fn lemma_segments_partition_video(script: VideoScript, timeline: Timeline, frame: int)
    requires
        timeline.wf(),
        timeline.spec_total_frames() == spec_clamp_u32(
            spec_frames(script.metadata.duration, script.metadata.fps),
        ),
        timeline.spec_segments() == spec_segments_of(script.scenes@, script.metadata.fps),
        spec_millis_before(script.scenes@, script.scenes@.len() as int)
            == script.metadata.duration.millis,
        forall|i: int|
            0 <= i < script.scenes@.len() ==> (#[trigger] script.scenes@[i]).duration.millis
                * script.metadata.fps % 1000 == 0,
        0 <= frame < timeline.spec_total_frames(),
    ensures
        spec_covered(timeline.spec_segments()) == timeline.spec_total_frames(),
        timeline.spec_segment_at(frame).is_some(),
        forall|j: int|
            0 <= j < timeline.spec_segments().len() && (#[trigger] timeline.spec_segments()[j]).start
                <= frame < timeline.spec_segments()[j].end ==> timeline.spec_segment_at(frame)
                == Some(j),
{
    let scenes = script.scenes@;
    let fps = script.metadata.fps;
    let n = scenes.len() as int;
    let segments = timeline.spec_segments();
    lemma_frames_before_exact(scenes, fps, n);
    lemma_frame_before_end_is_covered(segments, frame);
    assert forall|j: int|
        0 <= j < segments.len() && (#[trigger] segments[j]).start <= frame
            < segments[j].end implies timeline.spec_segment_at(frame) == Some(j) by {
        lemma_frame_in_segment(segments, frame, j);
    }
}

/// Whatever the script, the video is at most one frame for each scene
/// longer than its segments, provided the scenes together last as long as
/// the video and no frame count runs into `u32::MAX`.
pub proof fn lemma_timeline_drift(script: VideoScript, timeline: Timeline)
    requires
        timeline.wf(),
        timeline.spec_total_frames() == spec_clamp_u32(
            spec_frames(script.metadata.duration, script.metadata.fps),
        ),
        timeline.spec_segments() == spec_segments_of(script.scenes@, script.metadata.fps),
        spec_millis_before(script.scenes@, script.scenes@.len() as int)
            == script.metadata.duration.millis,
        spec_frames(script.metadata.duration, script.metadata.fps) <= u32::MAX,
    ensures
        spec_covered(timeline.spec_segments()) <= timeline.spec_total_frames(),
        timeline.spec_total_frames() <= spec_covered(timeline.spec_segments())
            + script.scenes@.len(),
{
    let scenes = script.scenes@;
    let fps = script.metadata.fps;
    let n = scenes.len() as int;
    lemma_frames_before_at_most_floor(scenes, fps, n);
    lemma_frames_before_drift(scenes, fps, n);
    lemma_frames_before_monotone(scenes, fps, 0, n);
}

} // verus!
