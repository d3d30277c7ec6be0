//! The scene script: what a video consists of.
//!
//! Fractional quantities are [`Decimal`]s and paths are plain strings, so
//! that a script is a value of plain data throughout.

use vstd::prelude::*;
use crate::decimal::Decimal;
use crate::digits::{parse_u32, spec_parse_u32};

verus! {

/// Width of a frame where the script names none that can be read.
pub const DEFAULT_WIDTH: u32 = 1920;

/// Height of a frame where the script names none that can be read.
pub const DEFAULT_HEIGHT: u32 = 1080;

/// Main video script structure that defines the entire video.
#[derive(Clone, Debug)]
pub struct VideoScript {
    pub metadata: Metadata,
    pub scenes: Vec<Scene>,
    pub audio: Option<AudioConfig>,
}

/// Video metadata and configuration.
#[derive(Clone, Debug)]
pub struct Metadata {
    pub title: String,
    pub resolution: Resolution,
    pub fps: u32,
    /// Length of the video in seconds.
    pub duration: Decimal,
    pub description: Option<String>,
    pub citations: Vec<String>,
}

/// Video resolution.
#[derive(Clone, Debug)]
pub enum Resolution {
    /// A name such as `1920x1080`.
    Named(String),
    Dimensions { width: u32, height: u32 },
}

/// The part a scene plays in the narrative.
#[derive(Clone, Copy, Debug, PartialEq, Eq, Structural)]
pub enum SceneType {
    Hook,
    Body,
    Payoff,
}

/// A scene in the video.
#[derive(Clone, Debug)]
pub struct Scene {
    pub id: String,
    /// Length of the scene in seconds.
    pub duration: Decimal,
    pub scene_type: SceneType,
    pub layers: Vec<Layer>,
    pub transition: Option<Transition>,
}

/// A layer within a scene.
#[derive(Clone, Debug)]
pub enum Layer {
    Video { source: String, effects: Vec<Effect>, transform: Transform },
    Image { source: String, effects: Vec<Effect>, transform: Transform },
    Text {
        content: String,
        font: String,
        font_size: Decimal,
        color: Color,
        position: Position,
        effects: Vec<Effect>,
    },
}

/// Transform for positioning and scaling layers.
#[derive(Clone, Copy, Debug)]
pub struct Transform {
    pub position: Position,
    pub scale: Decimal,
    pub rotation: Decimal,
    pub opacity: Decimal,
}

/// Position in the frame.
#[derive(Clone, Copy, Debug, PartialEq, Eq, Structural)]
pub struct Position {
    pub x: i32,
    pub y: i32,
}

/// Color representation.
#[derive(Clone, Copy, Debug, PartialEq, Eq, Structural)]
pub struct Color {
    pub r: u8,
    pub g: u8,
    pub b: u8,
    pub a: u8,
}

/// Visual effects.
#[derive(Clone, Debug)]
pub enum Effect {
    FadeIn,
    FadeOut,
    Blur { radius: Decimal },
    ColorGrade { adjustment: String },
}

/// Transition between scenes.
#[derive(Clone, Debug)]
pub enum Transition {
    Cut,
    Fade { duration: Decimal },
    Dissolve { duration: Decimal },
    Wipe { duration: Decimal, direction: String },
}

/// Audio configuration.
#[derive(Clone, Debug)]
pub struct AudioConfig {
    pub tracks: Vec<AudioTrack>,
}

/// Individual audio track.
#[derive(Clone, Debug)]
pub struct AudioTrack {
    pub source: String,
    pub track_type: AudioTrackType,
    pub volume: Decimal,
    /// Where the track starts, in seconds from the start of the video.
    pub start_time: Decimal,
}

/// Type of audio track.
#[derive(Clone, Copy, Debug, PartialEq, Eq, Structural)]
pub enum AudioTrackType {
    Music,
    Voiceover,
    SoundEffect,
}

/// The first position at or after `from` that holds `b`, or the length of
/// `bytes` if there is none.
pub open spec fn spec_find_byte(bytes: Seq<u8>, b: u8, from: int) -> int
    decreases bytes.len() - from,
{
    if from >= bytes.len() {
        bytes.len() as int
    } else if bytes[from] == b {
        from
    } else {
        spec_find_byte(bytes, b, from + 1)
    }
}

/// The size that a resolution name stands for. A name is a width and a
/// height with exactly one `x` between them; a side that is no number is
/// the default for that side, and any other name is the default size.
pub open spec fn spec_named_resolution(name: Seq<u8>) -> (u32, u32) {
    let k = spec_find_byte(name, 120, 0);
    if k < name.len() && spec_find_byte(name, 120, k + 1) == name.len() {
        (
            match spec_parse_u32(name.subrange(0, k)) {
                Some(w) => w,
                None => DEFAULT_WIDTH,
            },
            match spec_parse_u32(name.subrange(k + 1, name.len() as int)) {
                Some(h) => h,
                None => DEFAULT_HEIGHT,
            },
        )
    } else {
        (DEFAULT_WIDTH, DEFAULT_HEIGHT)
    }
}

/// The first position at or after `from` that holds `b`, or the length of
/// `bytes` if there is none.
pub fn find_byte(bytes: &[u8], b: u8, from: usize) -> (at: usize)
    requires
        from <= bytes@.len(),
    ensures
        at == spec_find_byte(bytes@, b, from as int),
        from <= at <= bytes@.len(),
{
    let mut i: usize = from;
    while i < bytes.len()
        invariant
            from <= i <= bytes@.len(),
            spec_find_byte(bytes@, b, from as int) == spec_find_byte(bytes@, b, i as int),
        decreases bytes@.len() - i,
    {
        if bytes[i] == b {
            return i;
        }
        i = i + 1;
    }
    i
}

impl Resolution {
    /// Width and height in pixels.
    pub open spec fn spec_dimensions(&self) -> (u32, u32) {
        match self {
            Resolution::Named(name) => spec_named_resolution(vstd::utf8::encode_utf8(name@)),
            Resolution::Dimensions { width, height } => (*width, *height),
        }
    }

    /// Width and height in pixels.
    pub fn dimensions(&self) -> (dims: (u32, u32))
        ensures
            dims == self.spec_dimensions(),
    {
        match self {
            Resolution::Named(name) => {
                let bytes = name.as_str().as_bytes();
                let len: usize = bytes.len();
                let k: usize = find_byte(bytes, 120, 0);
                if k == len {
                    return (DEFAULT_WIDTH, DEFAULT_HEIGHT);
                }
                if find_byte(bytes, 120, k + 1) != len {
                    return (DEFAULT_WIDTH, DEFAULT_HEIGHT);
                }
                let width: u32 = match parse_u32(bytes, 0, k) {
                    Some(w) => w,
                    None => DEFAULT_WIDTH,
                };
                let height: u32 = match parse_u32(bytes, k + 1, len) {
                    Some(h) => h,
                    None => DEFAULT_HEIGHT,
                };
                (width, height)
            },
            Resolution::Dimensions { width, height } => (*width, *height),
        }
    }
}

impl Color {
    /// The colour as the four bytes of a pixel.
    pub fn to_rgba(&self) -> (rgba: [u8; 4])
        ensures
            rgba@ == seq![self.r, self.g, self.b, self.a],
    {
        let rgba: [u8; 4] = [self.r, self.g, self.b, self.a];
        assert(rgba@ =~= seq![self.r, self.g, self.b, self.a]);
        rgba
    }
}

impl Default for Position {
    fn default() -> (position: Position)
        ensures
            position.x == 0,
            position.y == 0,
    {
        Position { x: 0, y: 0 }
    }
}

impl Default for Transform {
    fn default() -> (transform: Transform)
        ensures
            transform.position == (Position { x: 0, y: 0 }),
            transform.scale.millis == 0,
            transform.rotation.millis == 0,
            transform.opacity.millis == 0,
    {
        Transform {
            position: Position { x: 0, y: 0 },
            scale: Decimal { millis: 0 },
            rotation: Decimal { millis: 0 },
            opacity: Decimal { millis: 0 },
        }
    }
}

impl Default for SceneType {
    fn default() -> (scene_type: SceneType)
        ensures
            scene_type == SceneType::Body,
    {
        SceneType::Body
    }
}

impl Default for AudioTrackType {
    fn default() -> (track_type: AudioTrackType)
        ensures
            track_type == AudioTrackType::Music,
    {
        AudioTrackType::Music
    }
}

/// The scale of a layer whose script names none: 1.
pub fn default_scale() -> (scale: Decimal)
    ensures
        scale.millis == 1000,
{
    Decimal { millis: 1000 }
}

/// The opacity of a layer whose script names none: 1.
pub fn default_opacity() -> (opacity: Decimal)
    ensures
        opacity.millis == 1000,
{
    Decimal { millis: 1000 }
}

/// The alpha of a colour whose script names none: fully opaque.
pub fn default_alpha() -> (alpha: u8)
    ensures
        alpha == 255,
{
    255
}

/// The volume of a track whose script names none: 1.
pub fn default_volume() -> (volume: Decimal)
    ensures
        volume.millis == 1000,
{
    Decimal { millis: 1000 }
}

} // verus!
