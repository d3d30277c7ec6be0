//! The mixing plan of the audio mixer.
//!
//! The mixer knows each track's sample count, rate, channel count, start
//! and volume, and decides which sample of which track goes into which
//! position of the interleaved output. Adding the sample values up and
//! clipping them softly is arithmetic on the samples themselves, which the
//! caller holds.

use vstd::prelude::*;
use crate::decimal::{Decimal, lemma_scaled_floor_nonnegative, spec_scaled_floor};

verus! {

/// A track as the mixer sees it.
#[derive(Clone, Copy, Debug)]
pub struct MixedTrack {
    /// The number of interleaved samples of the track.
    pub sample_count: usize,
    pub sample_rate: u32,
    pub channels: u32,
    /// Where the track starts in the output, in seconds.
    pub start_time: Decimal,
    pub volume: Decimal,
}

/// The format of the exported audio file: interleaved 32-bit samples.
#[derive(Clone, Copy, Debug, PartialEq, Eq, Structural)]
pub struct WavFormat {
    pub channels: u16,
    pub sample_rate: u32,
    pub bits_per_sample: u16,
}

/// The number of interleaved samples of `duration` seconds of output:
/// `floor(duration * rate) * channels`.
pub open spec fn spec_output_len(duration: Decimal, rate: u32, channels: u32) -> int {
    spec_scaled_floor(duration.millis as int, rate as int) * channels
}

/// The position in the output at which a track starts: the output frame
/// at its start time, times the number of output channels.
pub open spec fn spec_start_offset(track: MixedTrack, out_rate: u32, out_channels: u32) -> int {
    spec_scaled_floor(track.start_time.millis as int, out_rate as int) * out_channels
}

/// The sample of `track` that goes into output position `position`, if
/// any.
///
/// Positions before the track's start take nothing. Behind it, the output
/// frame is mapped to the input frame at the same time, rounded down
/// (nearest-neighbour resampling by the ratio of the two rates). A mono
/// track gives its one channel to every output channel; any other track
/// gives the channel whose number is the output channel's modulo the
/// track's channel count. A sample index behind the end of the track
/// takes nothing.
pub open spec fn spec_source_index(
    track: MixedTrack,
    out_rate: u32,
    out_channels: u32,
    position: int,
) -> Option<int> {
    let start = spec_start_offset(track, out_rate, out_channels);
    if out_rate == 0 || out_channels == 0 || track.channels == 0 || position < start {
        None
    } else {
        let frame = (position - start) / (out_channels as int);
        let channel = (position - start) % (out_channels as int);
        let input_frame = (frame * track.sample_rate) / (out_rate as int);
        let input_channel = if track.channels == 1 {
            0
        } else {
            channel % (track.channels as int)
        };
        let index = input_frame * track.channels + input_channel;
        if index < track.sample_count {
            Some(index)
        } else {
            None
        }
    }
}

/// What goes into one position of the mix: for each of the first `n`
/// tracks that gives a sample to the position, in track order, the track
/// and the sample. The samples, each times its track's volume, are added
/// up; nothing is averaged.
pub open spec fn spec_contributions(
    tracks: Seq<MixedTrack>,
    out_rate: u32,
    out_channels: u32,
    position: int,
    n: int,
) -> Seq<(int, int)>
    decreases n,
{
    if n <= 0 {
        Seq::empty()
    } else {
        let before = spec_contributions(tracks, out_rate, out_channels, position, n - 1);
        match spec_source_index(tracks[n - 1], out_rate, out_channels, position) {
            Some(index) => before.push((n - 1, index)),
            None => before,
        }
    }
}

/// Mixes multiple audio tracks.
pub struct AudioMixer {
    output_sample_rate: u32,
    output_channels: u32,
    tracks: Vec<MixedTrack>,
}

impl AudioMixer {
    /// The sample rate of the output.
    pub closed spec fn spec_sample_rate(&self) -> u32 {
        self.output_sample_rate
    }

    /// The number of channels of the output.
    pub closed spec fn spec_channels(&self) -> u32 {
        self.output_channels
    }

    /// The tracks, in the order in which they were added.
    pub closed spec fn spec_tracks(&self) -> Seq<MixedTrack> {
        self.tracks@
    }

    /// The sample of track `track` that goes into output position
    /// `position`, if there is such a track and it gives one.
    pub open spec fn spec_source(&self, track: int, position: int) -> Option<int> {
        if 0 <= track < self.spec_tracks().len() {
            spec_source_index(
                self.spec_tracks()[track],
                self.spec_sample_rate(),
                self.spec_channels(),
                position,
            )
        } else {
            None
        }
    }

    /// A mixer for the given output format, without tracks.
    pub fn new(sample_rate: u32, channels: u32) -> (mixer: AudioMixer)
        ensures
            mixer.spec_sample_rate() == sample_rate,
            mixer.spec_channels() == channels,
            mixer.spec_tracks() == Seq::<MixedTrack>::empty(),
    {
        AudioMixer { output_sample_rate: sample_rate, output_channels: channels, tracks: Vec::new() }
    }

    /// Add a track. It is stored as it is; nothing is resampled yet.
    pub fn add_track(
        &mut self,
        sample_count: usize,
        sample_rate: u32,
        channels: u32,
        start_time: Decimal,
        volume: Decimal,
    )
        ensures
            final(self).spec_sample_rate() == old(self).spec_sample_rate(),
            final(self).spec_channels() == old(self).spec_channels(),
            final(self).spec_tracks() == old(self).spec_tracks().push(
                MixedTrack { sample_count, sample_rate, channels, start_time, volume },
            ),
    {
        self.tracks.push(MixedTrack { sample_count, sample_rate, channels, start_time, volume });
    }

    /// The number of tracks.
    pub fn track_count(&self) -> (count: usize)
        ensures
            count == self.spec_tracks().len(),
    {
        self.tracks.len()
    }

    /// Track `index`, or `None` where there is no such track.
    pub fn track(&self, index: usize) -> (track: Option<MixedTrack>)
        ensures
            track == if index < self.spec_tracks().len() {
                Some(self.spec_tracks()[index as int])
            } else {
                None
            },
    {
        if index < self.tracks.len() {
            Some(self.tracks[index])
        } else {
            None
        }
    }

    /// The number of interleaved samples that a mix of `duration` seconds
    /// has, or `None` where that number does not fit a `usize`.
    pub fn output_len(&self, duration: Decimal) -> (len: Option<usize>)
        ensures
            len == if spec_output_len(duration, self.spec_sample_rate(), self.spec_channels())
                <= usize::MAX {
                Some(
                    spec_output_len(
                        duration,
                        self.spec_sample_rate(),
                        self.spec_channels(),
                    ) as usize,
                )
            } else {
                None
            },
    {
        scaled_samples(duration, self.output_sample_rate, self.output_channels)
    }

    /// The sample of track `track` that goes into output position
    /// `position`, or `None` where the track gives nothing to that position
    /// and where there is no such track.
    pub fn source_index(&self, track: usize, position: usize) -> (index: Option<usize>)
        ensures
            match index {
                Some(i) => self.spec_source(track as int, position as int) == Some(i as int),
                None => self.spec_source(track as int, position as int).is_none(),
            },
    {
        if track >= self.tracks.len() {
            return None;
        }
        let t = self.tracks[track];
        let out_rate: u32 = self.output_sample_rate;
        let out_channels: u32 = self.output_channels;
        if out_rate == 0 || out_channels == 0 || t.channels == 0 {
            return None;
        }
        proof {
            lemma_scaled_floor_nonnegative(t.start_time.millis as int, out_rate as int);
            assert(spec_start_offset(t, out_rate, out_channels) >= 0) by (nonlinear_arith)
                requires
                    spec_start_offset(t, out_rate, out_channels) == spec_scaled_floor(
                        t.start_time.millis as int,
                        out_rate as int,
                    ) * out_channels,
                    spec_scaled_floor(t.start_time.millis as int, out_rate as int) >= 0,
                    out_channels > 0,
            ;
        }
        let start: usize = match scaled_samples(t.start_time, out_rate, out_channels) {
            Some(s) => s,
            None => {
                return None;
            },
        };
        if position < start {
            return None;
        }
        let rel: usize = position - start;
        let frame: u128 = (rel / (out_channels as usize)) as u128;
        let channel: u128 = (rel % (out_channels as usize)) as u128;
        assert(frame * t.sample_rate <= usize::MAX * u32::MAX) by (nonlinear_arith)
            requires
                0 <= frame <= usize::MAX,
                0 <= t.sample_rate <= u32::MAX,
        ;
        assert(frame * t.sample_rate >= 0) by (nonlinear_arith)
            requires
                0 <= frame,
                0 <= t.sample_rate,
        ;
        let input_frame: u128 = (frame * (t.sample_rate as u128)) / (out_rate as u128);
        let input_channel: u128 = if t.channels == 1 {
            0
        } else {
            channel % (t.channels as u128)
        };
        assert(input_frame * t.channels <= usize::MAX * u32::MAX * u32::MAX) by (nonlinear_arith)
            requires
                0 <= input_frame <= usize::MAX * u32::MAX,
                0 <= t.channels <= u32::MAX,
        ;
        assert(input_frame * t.channels >= 0) by (nonlinear_arith)
            requires
                0 <= input_frame,
                0 <= t.channels,
        ;
        let index: u128 = input_frame * (t.channels as u128) + input_channel;
        if index < t.sample_count as u128 {
            Some(index as usize)
        } else {
            None
        }
    }

    /// What goes into output position `position`: each track that gives a
    /// sample to it, with the index of that sample, in track order.
    pub fn contributions(&self, position: usize) -> (sources: Vec<(usize, usize)>)
        ensures
            sources@.map_values(|s: (usize, usize)| (s.0 as int, s.1 as int))
                == spec_contributions(
                self.spec_tracks(),
                self.spec_sample_rate(),
                self.spec_channels(),
                position as int,
                self.spec_tracks().len() as int,
            ),
    {
        let mut sources: Vec<(usize, usize)> = Vec::new();
        let ghost tracks = self.spec_tracks();
        assert(sources@.map_values(|s: (usize, usize)| (s.0 as int, s.1 as int))
            =~= spec_contributions(
            tracks,
            self.spec_sample_rate(),
            self.spec_channels(),
            position as int,
            0,
        ));
        let mut t: usize = 0;
        while t < self.tracks.len()
            invariant
                t <= tracks.len(),
                tracks == self.spec_tracks(),
                tracks == self.tracks@,
                sources@.map_values(|s: (usize, usize)| (s.0 as int, s.1 as int))
                    == spec_contributions(
                    tracks,
                    self.spec_sample_rate(),
                    self.spec_channels(),
                    position as int,
                    t as int,
                ),
            decreases tracks.len() - t,
        {
            let ghost before = sources@.map_values(|s: (usize, usize)| (s.0 as int, s.1 as int));
            match self.source_index(t, position) {
                Some(index) => {
                    sources.push((t, index));
                    assert(sources@.map_values(|s: (usize, usize)| (s.0 as int, s.1 as int))
                        =~= before.push((t as int, index as int)));
                },
                None => {},
            }
            t = t + 1;
        }
        sources
    }

    /// The format in which a mix is exported: the mixer's rate and channel
    /// count, the latter cut down to 16 bits, and 32 bits for each sample.
    pub fn export_format(&self) -> (format: WavFormat)
        ensures
            format.channels == (self.spec_channels() % 0x1_0000) as u16,
            format.sample_rate == self.spec_sample_rate(),
            format.bits_per_sample == 32,
    {
        WavFormat {
            channels: (self.output_channels % 0x1_0000) as u16,
            sample_rate: self.output_sample_rate,
            bits_per_sample: 32,
        }
    }
}

/// `floor(seconds * rate) * channels`, or `None` where it does not fit.
fn scaled_samples(seconds: Decimal, rate: u32, channels: u32) -> (len: Option<usize>)
    ensures
        len == if spec_scaled_floor(seconds.millis as int, rate as int) * channels <= usize::MAX {
            Some((spec_scaled_floor(seconds.millis as int, rate as int) * channels) as usize)
        } else {
            None
        },
{
    proof {
        lemma_scaled_floor_nonnegative(seconds.millis as int, rate as int);
    }
    if seconds.millis <= 0 || rate == 0 {
        return Some(0);
    }
    assert(0 < seconds.millis * rate <= i64::MAX * u32::MAX) by (nonlinear_arith)
        requires
            0 < seconds.millis <= i64::MAX,
            0 < rate <= u32::MAX,
    ;
    let frames: u128 = ((seconds.millis as u128) * (rate as u128)) / 1000;
    assert(0 <= frames * channels <= i64::MAX * u32::MAX * u32::MAX) by (nonlinear_arith)
        requires
            0 <= frames <= i64::MAX * u32::MAX,
            0 <= channels <= u32::MAX,
    ;
    let total: u128 = frames * (channels as u128);
    if total > usize::MAX as u128 {
        None
    } else {
        Some(total as usize)
    }
}

/// A mix of no time, or at no rate, or without channels, is empty; any
/// other has `floor(duration * rate)` samples for each channel.
pub proof fn lemma_output_len(duration: Decimal, rate: u32, channels: u32)
    ensures
        spec_output_len(duration, rate, channels) >= 0,
        spec_output_len(duration, rate, channels) % (channels as int) == 0 || channels == 0,
        (duration.millis <= 0 || rate == 0 || channels == 0) ==> spec_output_len(
            duration,
            rate,
            channels,
        ) == 0,
{
    lemma_scaled_floor_nonnegative(duration.millis as int, rate as int);
    let frames = spec_scaled_floor(duration.millis as int, rate as int);
    assert(frames * channels >= 0) by (nonlinear_arith)
        requires
            frames >= 0,
            channels >= 0,
    ;
    if channels > 0 {
        vstd::arithmetic::div_mod::lemma_mod_multiples_basic(frames, channels as int);
    }
    if duration.millis <= 0 || rate == 0 {
        assert(frames == 0);
        assert(frames * channels == 0) by (nonlinear_arith)
            requires
                frames == 0,
        ;
    }
}

/// A mixer without tracks has nothing to add at any position: its mix is
/// silence.
pub proof fn lemma_no_tracks_no_source(mixer: AudioMixer, track: int, position: int)
    requires
        mixer.spec_tracks().len() == 0,
    ensures
        mixer.spec_source(track, position).is_none(),
        spec_contributions(
            mixer.spec_tracks(),
            mixer.spec_sample_rate(),
            mixer.spec_channels(),
            position,
            mixer.spec_tracks().len() as int,
        ) == Seq::<(int, int)>::empty(),
{
}

/// Every sample that the plan names is a sample of its track.
pub proof fn lemma_source_in_track(mixer: AudioMixer, track: int, position: int)
    requires
        mixer.spec_source(track, position).is_some(),
        position >= 0,
    ensures
        0 <= track < mixer.spec_tracks().len(),
        0 <= mixer.spec_source(track, position).unwrap() < mixer.spec_tracks()[track].sample_count,
{
    let t = mixer.spec_tracks()[track];
    let out_rate = mixer.spec_sample_rate();
    let out_channels = mixer.spec_channels();
    let start = spec_start_offset(t, out_rate, out_channels);
    let c = out_channels as int;
    let frame = (position - start) / c;
    let channel = (position - start) % c;
    vstd::arithmetic::div_mod::lemma_div_pos_is_pos(position - start, c);
    vstd::arithmetic::div_mod::lemma_mod_bound(position - start, c);
    assert(frame * t.sample_rate >= 0) by (nonlinear_arith)
        requires
            frame >= 0,
            t.sample_rate >= 0,
    ;
    let input_frame = (frame * t.sample_rate) / (out_rate as int);
    vstd::arithmetic::div_mod::lemma_div_pos_is_pos(frame * t.sample_rate, out_rate as int);
    assert(input_frame * t.channels >= 0) by (nonlinear_arith)
        requires
            input_frame >= 0,
            t.channels >= 0,
    ;
    if t.channels != 1 {
        vstd::arithmetic::div_mod::lemma_mod_bound(channel, t.channels as int);
    }
}

/// A mono track at the output's rate that starts at the beginning gives
/// its sample `f` to every channel of output frame `f`, for each frame
/// that the track has a sample for.
pub proof fn lemma_mono_track_reproduced(
    track: MixedTrack,
    out_rate: u32,
    out_channels: u32,
    frame: int,
    channel: int,
)
    requires
        track.channels == 1,
        track.sample_rate == out_rate,
        track.start_time.millis == 0,
        out_rate > 0,
        0 <= channel < out_channels,
        0 <= frame,
    ensures
        spec_source_index(track, out_rate, out_channels, frame * out_channels + channel) == if frame
            < track.sample_count {
            Some(frame)
        } else {
            None
        },
{
    let c = out_channels as int;
    let position = frame * c + channel;
    assert(spec_start_offset(track, out_rate, out_channels) == 0) by (nonlinear_arith)
        requires
            spec_start_offset(track, out_rate, out_channels) == 0 * c,
    ;
    assert(position >= 0) by (nonlinear_arith)
        requires
            position == frame * c + channel,
            frame >= 0,
            c > 0,
            channel >= 0,
    ;
    vstd::arithmetic::div_mod::lemma_fundamental_div_mod_converse(position, c, frame, channel);
    let r = out_rate as int;
    vstd::arithmetic::div_mod::lemma_div_multiples_vanish(frame, r);
    assert(frame * r == r * frame) by (nonlinear_arith);
    assert((position - 0) / c == frame);
    assert((position - 0) % c == channel);
    assert((frame * track.sample_rate) / r == frame);
    assert(frame * track.channels + 0 == frame) by (nonlinear_arith)
        requires
            track.channels == 1,
    ;
}

} // verus!
