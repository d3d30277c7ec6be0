//! Checking a script before it is rendered, and summing it up in words.

use vstd::prelude::*;
use crate::decimal::spec_fixed_chars;
use crate::digits::{append_decimal, spec_decimal_chars};
use crate::script::{Scene, VideoScript};

verus! {

/// How far the scenes' durations together may differ from the video's
/// duration before the difference is worth a warning: a tenth of a second.
pub const DURATION_TOLERANCE_MILLIS: i64 = 100;

/// Why a script was rejected.
#[derive(Clone, Copy, Debug, PartialEq, Eq, Structural)]
pub enum ValidationError {
    /// The title is empty.
    EmptyTitle,
    /// The frame rate is zero.
    ZeroFps,
    /// The video's duration is zero or negative.
    NonPositiveDuration,
    /// There is no scene.
    NoScenes,
    /// The scene with this index has an empty id.
    EmptySceneId { index: usize },
    /// The scene with this index has a duration of zero or less.
    NonPositiveSceneDuration { index: usize },
    /// The scene with this index has no layer.
    NoLayers { index: usize },
}

/// What is wrong with a single scene, if anything: an empty id, else a
/// duration that is not positive, else a lack of layers.
pub open spec fn spec_scene_error(scene: Scene, index: usize) -> Option<ValidationError> {
    if scene.id@.len() == 0 {
        Some(ValidationError::EmptySceneId { index })
    } else if scene.duration.millis <= 0 {
        Some(ValidationError::NonPositiveSceneDuration { index })
    } else if scene.layers@.len() == 0 {
        Some(ValidationError::NoLayers { index })
    } else {
        None
    }
}

/// The error of the first scene at or after `from` that has one.
pub open spec fn spec_first_scene_error(scenes: Seq<Scene>, from: int) -> Option<ValidationError>
    decreases scenes.len() - from,
{
    if from < 0 || from >= scenes.len() {
        None
    } else {
        match spec_scene_error(scenes[from], from as usize) {
            Some(e) => Some(e),
            None => spec_first_scene_error(scenes, from + 1),
        }
    }
}

/// The first rule that a script breaks, in the order: title, frame rate,
/// duration, presence of scenes, and then scene by scene.
pub open spec fn spec_validation_error(script: VideoScript) -> Option<ValidationError> {
    if script.metadata.title@.len() == 0 {
        Some(ValidationError::EmptyTitle)
    } else if script.metadata.fps == 0 {
        Some(ValidationError::ZeroFps)
    } else if script.metadata.duration.millis <= 0 {
        Some(ValidationError::NonPositiveDuration)
    } else if script.scenes@.len() == 0 {
        Some(ValidationError::NoScenes)
    } else {
        spec_first_scene_error(script.scenes@, 0)
    }
}

/// The thousandths of a second that the first `n` scenes last together.
pub open spec fn spec_total_scene_millis(scenes: Seq<Scene>, n: int) -> int
    decreases n,
{
    if n <= 0 {
        0
    } else {
        spec_total_scene_millis(scenes, n - 1) + scenes[n - 1].duration.millis
    }
}

/// Whether the scenes together last more than a tenth of a second longer
/// or shorter than the video.
pub open spec fn spec_duration_mismatch(script: VideoScript) -> bool {
    let diff = spec_total_scene_millis(script.scenes@, script.scenes@.len() as int)
        - script.metadata.duration.millis;
    diff > DURATION_TOLERANCE_MILLIS || -diff > DURATION_TOLERANCE_MILLIS
}

/// A script that passed validation is what the renderer expects: it has a
/// scene, a positive frame rate, and every scene has a positive duration
/// and a layer.
pub proof fn lemma_valid_script(script: VideoScript, i: int)
    requires
        spec_validation_error(script).is_none(),
        0 <= i < script.scenes@.len(),
    ensures
        script.metadata.fps > 0,
        script.metadata.duration.millis > 0,
        script.scenes@.len() > 0,
        script.scenes@[i].id@.len() > 0,
        script.scenes@[i].duration.millis > 0,
        script.scenes@[i].layers@.len() > 0,
{
    lemma_no_scene_error(script.scenes@, 0, i);
}

/// Where no scene from `from` on has an error, scene `i` has none.
proof fn lemma_no_scene_error(scenes: Seq<Scene>, from: int, i: int)
    requires
        0 <= from <= i < scenes.len(),
        spec_first_scene_error(scenes, from).is_none(),
    ensures
        spec_scene_error(scenes[i], i as usize).is_none(),
    decreases i - from,
{
    if from < i {
        lemma_no_scene_error(scenes, from + 1, i);
    }
}

/// The line of a summary that describes scene `i`: its number, counted
/// from one, its id, its duration with two decimals, and the number of its
/// layers.
pub open spec fn spec_scene_line(scene: Scene, i: int) -> Seq<char> {
    "  Scene "@ + spec_decimal_chars((i + 1) as nat) + ": '"@ + scene.id@ + "' ("@
        + spec_fixed_chars(scene.duration.millis as int, 2) + "s, "@ + spec_decimal_chars(
        scene.layers@.len(),
    ) + " layers)\n"@
}

/// The lines of the first `n` scenes.
pub open spec fn spec_scene_lines(scenes: Seq<Scene>, n: int) -> Seq<char>
    decreases n,
{
    if n <= 0 {
        Seq::empty()
    } else {
        spec_scene_lines(scenes, n - 1) + spec_scene_line(scenes[n - 1], n - 1)
    }
}

/// The head of a summary: title, resolution, frame rate, duration with two
/// decimals and the number of scenes, a line each.
pub open spec fn spec_summary_head(script: VideoScript) -> Seq<char> {
    "Title: "@ + script.metadata.title@ + "\n"@ + "Resolution: "@ + spec_decimal_chars(
        script.metadata.resolution.spec_dimensions().0 as nat,
    ) + "x"@ + spec_decimal_chars(script.metadata.resolution.spec_dimensions().1 as nat) + "\n"@
        + "FPS: "@ + spec_decimal_chars(script.metadata.fps as nat) + "\n"@ + "Duration: "@
        + spec_fixed_chars(script.metadata.duration.millis as int, 2) + "s\n"@ + "Scenes: "@
        + spec_decimal_chars(script.scenes@.len()) + "\n"@
}

/// The last line of a summary: the number of audio tracks, where the
/// script has an audio part.
pub open spec fn spec_summary_audio(script: VideoScript) -> Seq<char> {
    match script.audio {
        Some(audio) => "Audio tracks: "@ + spec_decimal_chars(audio.tracks@.len()) + "\n"@,
        None => Seq::empty(),
    }
}

/// The summary of a script: head, one line for each scene, audio line.
pub open spec fn spec_summary(script: VideoScript) -> Seq<char> {
    spec_summary_head(script) + spec_scene_lines(script.scenes@, script.scenes@.len() as int)
        + spec_summary_audio(script)
}

/// Script parser: validation and summary of a script.
pub struct ScriptParser;

impl ScriptParser {
    /// Validate the script structure. The first broken rule is the error.
    pub fn validate_script(script: &VideoScript) -> (result: Result<(), ValidationError>)
        ensures
            match result {
                Ok(()) => spec_validation_error(*script).is_none(),
                Err(e) => spec_validation_error(*script) == Some(e),
            },
    {
        if script.metadata.title.as_str().as_bytes().len() == 0 {
            proof {
                lemma_empty_bytes(script.metadata.title@);
            }
            return Err(ValidationError::EmptyTitle);
        }
        proof {
            lemma_empty_bytes(script.metadata.title@);
        }
        if script.metadata.fps == 0 {
            return Err(ValidationError::ZeroFps);
        }
        if script.metadata.duration.millis <= 0 {
            return Err(ValidationError::NonPositiveDuration);
        }
        if script.scenes.len() == 0 {
            return Err(ValidationError::NoScenes);
        }
        let mut i: usize = 0;
        while i < script.scenes.len()
            invariant
                i <= script.scenes@.len(),
                spec_validation_error(*script) == spec_first_scene_error(script.scenes@, 0),
                spec_first_scene_error(script.scenes@, 0) == spec_first_scene_error(
                    script.scenes@,
                    i as int,
                ),
            decreases script.scenes@.len() - i,
        {
            let scene = &script.scenes[i];
            proof {
                lemma_empty_bytes(scene.id@);
            }
            if scene.id.as_str().as_bytes().len() == 0 {
                return Err(ValidationError::EmptySceneId { index: i });
            }
            if scene.duration.millis <= 0 {
                return Err(ValidationError::NonPositiveSceneDuration { index: i });
            }
            if scene.layers.len() == 0 {
                return Err(ValidationError::NoLayers { index: i });
            }
            i = i + 1;
        }
        Ok(())
    }

    /// Get a summary of the script structure.
    pub fn summarize(script: &VideoScript) -> (summary: String)
        ensures
            summary@ == spec_summary(*script),
    {
        let (width, height) = script.metadata.resolution.dimensions();
        let mut summary = String::from_str("Title: ");
        summary.append(script.metadata.title.as_str());
        summary.append("\n");
        summary.append("Resolution: ");
        append_decimal(&mut summary, width as u64);
        summary.append("x");
        append_decimal(&mut summary, height as u64);
        summary.append("\n");
        summary.append("FPS: ");
        append_decimal(&mut summary, script.metadata.fps as u64);
        summary.append("\n");
        summary.append("Duration: ");
        script.metadata.duration.append_fixed(&mut summary, 2);
        summary.append("s\n");
        summary.append("Scenes: ");
        append_decimal(&mut summary, script.scenes.len() as u64);
        summary.append("\n");
        assert(summary@ =~= spec_summary_head(*script));
        let ghost head = summary@;
        let mut i: usize = 0;
        while i < script.scenes.len()
            invariant
                i <= script.scenes@.len(),
                head == spec_summary_head(*script),
                summary@ == head + spec_scene_lines(script.scenes@, i as int),
            decreases script.scenes@.len() - i,
        {
            let scene = &script.scenes[i];
            let ghost before = summary@;
            summary.append("  Scene ");
            append_decimal(&mut summary, (i as u64) + 1);
            summary.append(": '");
            summary.append(scene.id.as_str());
            summary.append("' (");
            scene.duration.append_fixed(&mut summary, 2);
            summary.append("s, ");
            append_decimal(&mut summary, scene.layers.len() as u64);
            summary.append(" layers)\n");
            assert(summary@ =~= before + spec_scene_line(*scene, i as int));
            assert(summary@ =~= head + spec_scene_lines(script.scenes@, i as int + 1));
            i = i + 1;
        }
        let ghost lines = summary@;
        match &script.audio {
            Some(audio) => {
                summary.append("Audio tracks: ");
                append_decimal(&mut summary, audio.tracks.len() as u64);
                summary.append("\n");
                assert(summary@ =~= lines + spec_summary_audio(*script));
            },
            None => {
                assert(summary@ =~= lines + spec_summary_audio(*script));
            },
        }
        summary
    }

    /// Whether the scenes together last more than a tenth of a second
    /// longer or shorter than the video: worth a warning, no error.
    pub fn duration_mismatch(script: &VideoScript) -> (mismatch: bool)
        ensures
            mismatch == spec_duration_mismatch(*script),
    {
        let mut total: i128 = 0;
        let mut i: usize = 0;
        while i < script.scenes.len()
            invariant
                i <= script.scenes@.len(),
                total == spec_total_scene_millis(script.scenes@, i as int),
                -(i as int) * 0x8000_0000_0000_0000 <= total <= (i as int)
                    * 0x7fff_ffff_ffff_ffff,
            decreases script.scenes@.len() - i,
        {
            proof {
                lemma_sum_bounds(i as int + 1);
            }
            total = total + (script.scenes[i].duration.millis as i128);
            i = i + 1;
        }
        proof {
            lemma_sum_bounds(i as int);
        }
        let diff: i128 = total - (script.metadata.duration.millis as i128);
        diff > DURATION_TOLERANCE_MILLIS as i128 || -diff > DURATION_TOLERANCE_MILLIS as i128
    }
}

impl ValidationError {
    /// The error in words.
    pub open spec fn spec_message(&self, script: VideoScript) -> Seq<char> {
        match self {
            ValidationError::EmptyTitle => "Script title cannot be empty"@,
            ValidationError::ZeroFps => "FPS must be greater than 0"@,
            ValidationError::NonPositiveDuration => "Duration must be positive"@,
            ValidationError::NoScenes => "Script must contain at least one scene"@,
            ValidationError::EmptySceneId { index } => "Scene "@ + spec_decimal_chars(*index as nat)
                + " has empty ID"@,
            ValidationError::NonPositiveSceneDuration { index } => "Scene '"@
                + script.scenes@[*index as int].id@ + "' duration must be positive"@,
            ValidationError::NoLayers { index } => "Scene '"@ + script.scenes@[*index as int].id@
                + "' must have at least one layer"@,
        }
    }

    /// The error in words. A scene is named by its id, or by its index
    /// where the id is what is missing.
    pub fn message(&self, script: &VideoScript) -> (text: String)
        requires
            match self {
                ValidationError::NonPositiveSceneDuration { index } => *index
                    < script.scenes@.len(),
                ValidationError::NoLayers { index } => *index < script.scenes@.len(),
                _ => true,
            },
        ensures
            text@ == self.spec_message(*script),
    {
        match self {
            ValidationError::EmptyTitle => String::from_str("Script title cannot be empty"),
            ValidationError::ZeroFps => String::from_str("FPS must be greater than 0"),
            ValidationError::NonPositiveDuration => String::from_str("Duration must be positive"),
            ValidationError::NoScenes => String::from_str("Script must contain at least one scene"),
            ValidationError::EmptySceneId { index } => {
                let mut text = String::from_str("Scene ");
                append_decimal(&mut text, *index as u64);
                text.append(" has empty ID");
                text
            },
            ValidationError::NonPositiveSceneDuration { index } => {
                let mut text = String::from_str("Scene '");
                text.append(script.scenes[*index].id.as_str());
                text.append("' duration must be positive");
                text
            },
            ValidationError::NoLayers { index } => {
                let mut text = String::from_str("Scene '");
                text.append(script.scenes[*index].id.as_str());
                text.append("' must have at least one layer");
                text
            },
        }
    }
}

/// The sum of at most `usize::MAX` 64-bit numbers leaves room for one more
/// in 128 bits.
proof fn lemma_sum_bounds(n: int)
    requires
        0 <= n <= usize::MAX + 1,
    ensures
        n * 0x7fff_ffff_ffff_ffff == (n - 1) * 0x7fff_ffff_ffff_ffff + 0x7fff_ffff_ffff_ffff,
        -n * 0x8000_0000_0000_0000 == -(n - 1) * 0x8000_0000_0000_0000 - 0x8000_0000_0000_0000,
        n <= usize::MAX ==> n * 0x7fff_ffff_ffff_ffff + 0x8000_0000_0000_0000 <= i128::MAX,
        n <= usize::MAX ==> -n * 0x8000_0000_0000_0000 - 0x7fff_ffff_ffff_ffff >= i128::MIN + 1,
        n * 0x7fff_ffff_ffff_ffff <= i128::MAX,
        -n * 0x8000_0000_0000_0000 >= i128::MIN,
{
    assert(n * 0x7fff_ffff_ffff_ffff == (n - 1) * 0x7fff_ffff_ffff_ffff + 0x7fff_ffff_ffff_ffff)
        by (nonlinear_arith);
    assert(-n * 0x8000_0000_0000_0000 == -(n - 1) * 0x8000_0000_0000_0000 - 0x8000_0000_0000_0000)
        by (nonlinear_arith);
    assert(n * 0x7fff_ffff_ffff_ffff <= 0x1_0000_0000_0000_0000 * 0x7fff_ffff_ffff_ffff)
        by (nonlinear_arith)
        requires
            0 <= n <= 0x1_0000_0000_0000_0000,
    ;
    assert(n * 0x8000_0000_0000_0000 <= 0x1_0000_0000_0000_0000 * 0x8000_0000_0000_0000)
        by (nonlinear_arith)
        requires
            0 <= n <= 0x1_0000_0000_0000_0000,
    ;
    if n <= usize::MAX {
        assert(n * 0x7fff_ffff_ffff_ffff <= 0xffff_ffff_ffff_ffff * 0x7fff_ffff_ffff_ffff)
            by (nonlinear_arith)
            requires
                0 <= n <= 0xffff_ffff_ffff_ffff,
        ;
        assert(n * 0x8000_0000_0000_0000 <= 0xffff_ffff_ffff_ffff * 0x8000_0000_0000_0000)
            by (nonlinear_arith)
            requires
                0 <= n <= 0xffff_ffff_ffff_ffff,
        ;
    }
}

/// A text has no bytes exactly if it has no characters.
pub proof fn lemma_empty_bytes(text: Seq<char>)
    ensures
        (vstd::utf8::encode_utf8(text).len() == 0) == (text.len() == 0),
{
    vstd::utf8::encode_utf8_decode_utf8(text);
    if text.len() == 0 {
        assert(vstd::utf8::encode_utf8(text).len() == 0);
    } else {
        if vstd::utf8::encode_utf8(text).len() == 0 {
            assert(vstd::utf8::encode_utf8(text) =~= Seq::<u8>::empty());
            assert(vstd::utf8::decode_utf8(Seq::<u8>::empty()).len() == 0);
        }
    }
}

} // verus!
