//! Script templates: a three-scene script of a given length to start from.

use vstd::prelude::*;
use crate::decimal::{Decimal, spec_clamp_i64, spec_percent};
use crate::script::{Color, Layer, Metadata, Position, Resolution, Scene, SceneType, VideoScript};

verus! {

/// The kinds of template.
#[derive(Clone, Copy, Debug, PartialEq, Eq, Structural)]
pub enum TemplateType {
    Explainer,
    Tutorial,
    Storytelling,
}

/// The larger of two numbers.
pub open spec fn spec_max(a: int, b: int) -> int {
    if a >= b {
        a
    } else {
        b
    }
}

/// The lengths of the three scenes of a template, in thousandths of a
/// second.
///
/// An explainer opens with 15% of the video, at least 3 s, and closes with
/// 10%, at least 3 s. A tutorial opens with 10%, at least 3 s, and closes
/// with 15%, at least 5 s. In both the middle takes what is left. A story
/// is divided 20%, 50%, 30%.
pub open spec fn spec_template_durations(template_type: TemplateType, total: int) -> (int, int, int) {
    match template_type {
        TemplateType::Explainer => {
            let first = spec_max(spec_percent(total, 15), 3000);
            let last = spec_max(spec_percent(total, 10), 3000);
            (first, spec_clamp_i64(spec_clamp_i64(total - first) - last), last)
        },
        TemplateType::Tutorial => {
            let first = spec_max(spec_percent(total, 10), 3000);
            let last = spec_max(spec_percent(total, 15), 5000);
            (first, spec_clamp_i64(spec_clamp_i64(total - first) - last), last)
        },
        TemplateType::Storytelling => (
            spec_percent(total, 20),
            spec_percent(total, 50),
            spec_percent(total, 30),
        ),
    }
}

/// The title of a template.
pub open spec fn spec_template_title(template_type: TemplateType) -> Seq<char> {
    match template_type {
        TemplateType::Explainer => "Explainer Video"@,
        TemplateType::Tutorial => "Tutorial Video"@,
        TemplateType::Storytelling => "Story Video"@,
    }
}

/// The description of a template.
pub open spec fn spec_template_description(template_type: TemplateType) -> Seq<char> {
    match template_type {
        TemplateType::Explainer => "Generated explainer template"@,
        TemplateType::Tutorial => "Generated tutorial template"@,
        TemplateType::Storytelling => "Generated storytelling template"@,
    }
}

/// The id of scene `i` of a template.
pub open spec fn spec_template_id(template_type: TemplateType, i: int) -> Seq<char> {
    match template_type {
        TemplateType::Explainer => if i == 0 {
            "Hook"@
        } else if i == 1 {
            "Body"@
        } else {
            "Payoff"@
        },
        TemplateType::Tutorial => if i == 0 {
            "Intro"@
        } else if i == 1 {
            "Steps"@
        } else {
            "Recap"@
        },
        TemplateType::Storytelling => if i == 0 {
            "Setup"@
        } else if i == 1 {
            "Conflict"@
        } else {
            "Resolution"@
        },
    }
}

/// The text of scene `i` of a template.
pub open spec fn spec_template_text(template_type: TemplateType, i: int) -> Seq<char> {
    match template_type {
        TemplateType::Explainer => if i == 0 {
            "Hook: Grab Attention"@
        } else if i == 1 {
            "Body: Explain Concept"@
        } else {
            "Payoff: Call to Action"@
        },
        TemplateType::Tutorial => if i == 0 {
            "Intro: What we'll build"@
        } else if i == 1 {
            "Steps: Step-by-step guide"@
        } else {
            "Recap: Summary & Next Steps"@
        },
        TemplateType::Storytelling => if i == 0 {
            "Setup: The World & Characters"@
        } else if i == 1 {
            "Conflict: The Challenge"@
        } else {
            "Resolution: The Change"@
        },
    }
}

/// The narrative part of scene `i` of any template: hook, body, payoff.
pub open spec fn spec_template_scene_type(i: int) -> SceneType {
    if i == 0 {
        SceneType::Hook
    } else if i == 1 {
        SceneType::Body
    } else {
        SceneType::Payoff
    }
}

/// Whether `scene` is a template scene: the given id, part and length, no
/// transition, and a single layer of white text, in the bold face at size
/// 60, in the middle of a 1920x1080 frame.
pub open spec fn spec_is_template_scene(
    scene: Scene,
    id: Seq<char>,
    scene_type: SceneType,
    millis: int,
    text: Seq<char>,
) -> bool {
    &&& scene.id@ == id
    &&& scene.scene_type == scene_type
    &&& scene.duration.millis == millis
    &&& scene.transition.is_none()
    &&& scene.layers@.len() == 1
    &&& match scene.layers@[0] {
        Layer::Text { content, font, font_size, color, position, effects } => {
            &&& content@ == text
            &&& font@ == "assets/fonts/Inter-Bold.ttf"@
            &&& font_size.millis == 60_000
            &&& color == (Color { r: 255, g: 255, b: 255, a: 255 })
            &&& position == (Position { x: 960, y: 540 })
            &&& effects@.len() == 0
        },
        _ => false,
    }
}

/// Whether `script` is the template of the given kind and length.
pub open spec fn spec_is_template(
    script: VideoScript,
    template_type: TemplateType,
    total: Decimal,
) -> bool {
    let durations = spec_template_durations(template_type, total.millis as int);
    &&& script.metadata.title@ == spec_template_title(template_type)
    &&& match script.metadata.resolution {
        Resolution::Named(name) => name@ == "1920x1080"@,
        _ => false,
    }
    &&& script.metadata.fps == 30
    &&& script.metadata.duration == total
    &&& match script.metadata.description {
        Some(text) => text@ == spec_template_description(template_type),
        None => false,
    }
    &&& script.metadata.citations@.len() == 0
    &&& script.audio.is_none()
    &&& script.scenes@.len() == 3
    &&& spec_is_template_scene(
        script.scenes@[0],
        spec_template_id(template_type, 0),
        spec_template_scene_type(0),
        durations.0,
        spec_template_text(template_type, 0),
    )
    &&& spec_is_template_scene(
        script.scenes@[1],
        spec_template_id(template_type, 1),
        spec_template_scene_type(1),
        durations.1,
        spec_template_text(template_type, 1),
    )
    &&& spec_is_template_scene(
        script.scenes@[2],
        spec_template_id(template_type, 2),
        spec_template_scene_type(2),
        durations.2,
        spec_template_text(template_type, 2),
    )
}

/// Generator of script templates.
pub struct ScriptTemplate;

impl ScriptTemplate {
    /// The template of the given kind for a video of `duration` seconds.
    pub fn generate(template_type: TemplateType, duration: Decimal) -> (script: VideoScript)
        ensures
            spec_is_template(script, template_type, duration),
    {
        match template_type {
            TemplateType::Explainer => Self::generate_explainer(duration),
            TemplateType::Tutorial => Self::generate_tutorial(duration),
            TemplateType::Storytelling => Self::generate_storytelling(duration),
        }
    }

    fn generate_explainer(total_duration: Decimal) -> (script: VideoScript)
        ensures
            spec_is_template(script, TemplateType::Explainer, total_duration),
    {
        let hook_duration = total_duration.percent(15).max(Decimal { millis: 3000 });
        let payoff_duration = total_duration.percent(10).max(Decimal { millis: 3000 });
        let body_duration = total_duration.saturating_sub(hook_duration).saturating_sub(
            payoff_duration,
        );
        let mut scenes: Vec<Scene> = Vec::new();
        scenes.push(Self::create_scene("Hook", SceneType::Hook, hook_duration, "Hook: Grab Attention"));
        scenes.push(
            Self::create_scene("Body", SceneType::Body, body_duration, "Body: Explain Concept"),
        );
        scenes.push(
            Self::create_scene(
                "Payoff",
                SceneType::Payoff,
                payoff_duration,
                "Payoff: Call to Action",
            ),
        );
        VideoScript {
            metadata: Metadata {
                title: String::from_str("Explainer Video"),
                resolution: Resolution::Named(String::from_str("1920x1080")),
                fps: 30,
                duration: total_duration,
                description: Some(String::from_str("Generated explainer template")),
                citations: Vec::new(),
            },
            scenes,
            audio: None,
        }
    }

    fn generate_tutorial(total_duration: Decimal) -> (script: VideoScript)
        ensures
            spec_is_template(script, TemplateType::Tutorial, total_duration),
    {
        let intro_duration = total_duration.percent(10).max(Decimal { millis: 3000 });
        let recap_duration = total_duration.percent(15).max(Decimal { millis: 5000 });
        let steps_duration = total_duration.saturating_sub(intro_duration).saturating_sub(
            recap_duration,
        );
        let mut scenes: Vec<Scene> = Vec::new();
        scenes.push(
            Self::create_scene("Intro", SceneType::Hook, intro_duration, "Intro: What we'll build"),
        );
        scenes.push(
            Self::create_scene(
                "Steps",
                SceneType::Body,
                steps_duration,
                "Steps: Step-by-step guide",
            ),
        );
        scenes.push(
            Self::create_scene(
                "Recap",
                SceneType::Payoff,
                recap_duration,
                "Recap: Summary & Next Steps",
            ),
        );
        VideoScript {
            metadata: Metadata {
                title: String::from_str("Tutorial Video"),
                resolution: Resolution::Named(String::from_str("1920x1080")),
                fps: 30,
                duration: total_duration,
                description: Some(String::from_str("Generated tutorial template")),
                citations: Vec::new(),
            },
            scenes,
            audio: None,
        }
    }

    fn generate_storytelling(total_duration: Decimal) -> (script: VideoScript)
        ensures
            spec_is_template(script, TemplateType::Storytelling, total_duration),
    {
        let setup_duration = total_duration.percent(20);
        let conflict_duration = total_duration.percent(50);
        let resolution_duration = total_duration.percent(30);
        let mut scenes: Vec<Scene> = Vec::new();
        scenes.push(
            Self::create_scene(
                "Setup",
                SceneType::Hook,
                setup_duration,
                "Setup: The World & Characters",
            ),
        );
        scenes.push(
            Self::create_scene(
                "Conflict",
                SceneType::Body,
                conflict_duration,
                "Conflict: The Challenge",
            ),
        );
        scenes.push(
            Self::create_scene(
                "Resolution",
                SceneType::Payoff,
                resolution_duration,
                "Resolution: The Change",
            ),
        );
        VideoScript {
            metadata: Metadata {
                title: String::from_str("Story Video"),
                resolution: Resolution::Named(String::from_str("1920x1080")),
                fps: 30,
                duration: total_duration,
                description: Some(String::from_str("Generated storytelling template")),
                citations: Vec::new(),
            },
            scenes,
            audio: None,
        }
    }

    fn create_scene(id: &str, scene_type: SceneType, duration: Decimal, text: &str) -> (scene: Scene)
        ensures
            spec_is_template_scene(scene, id@, scene_type, duration.millis as int, text@),
    {
        let mut layers: Vec<Layer> = Vec::new();
        layers.push(
            Layer::Text {
                content: String::from_str(text),
                font: String::from_str("assets/fonts/Inter-Bold.ttf"),
                font_size: Decimal { millis: 60_000 },
                color: Color { r: 255, g: 255, b: 255, a: 255 },
                position: Position { x: 960, y: 540 },
                effects: Vec::new(),
            },
        );
        Scene { id: String::from_str(id), scene_type, duration, layers, transition: None }
    }
}

} // verus!
