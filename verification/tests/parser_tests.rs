use interstellar_triangulum::config::AppConfig;
use interstellar_triangulum::decimal::Decimal;
use interstellar_triangulum::parser::{ScriptParser, ValidationError};
use interstellar_triangulum::renderer::encoder::VideoEncoder;
use interstellar_triangulum::script::{
    AudioConfig, AudioTrack, AudioTrackType, Layer, Metadata, Resolution, Scene, SceneType,
    Transform, VideoScript,
};
use interstellar_triangulum::templates::{ScriptTemplate, TemplateType};

fn image(source: &str) -> Layer {
    Layer::Image { source: source.into(), effects: vec![], transform: Transform::default() }
}

fn scene(id: &str, millis: i64, layers: Vec<Layer>) -> Scene {
    Scene {
        id: id.into(),
        duration: Decimal::from_millis(millis),
        scene_type: SceneType::default(),
        layers,
        transition: None,
    }
}

fn script(title: &str, resolution: &str, fps: u32, millis: i64, scenes: Vec<Scene>) -> VideoScript {
    VideoScript {
        metadata: Metadata {
            title: title.into(),
            resolution: Resolution::Named(resolution.into()),
            fps,
            duration: Decimal::from_millis(millis),
            description: None,
            citations: vec![],
        },
        scenes,
        audio: None,
    }
}

#[test]
fn test_summarize() {
    let script =
        script("My Video", "1920x1080", 30, 5_000, vec![scene("intro", 5_000, vec![image("bg.png")])]);
    let summary = ScriptParser::summarize(&script);
    assert!(summary.contains("My Video"));
    assert!(summary.contains("1920x1080"));
    assert!(summary.contains("30"));
    assert_eq!(
        summary,
        "Title: My Video\nResolution: 1920x1080\nFPS: 30\nDuration: 5.00s\nScenes: 1\n  Scene 1: 'intro' (5.00s, 1 layers)\n"
    );
}

#[test]
fn test_validate_script_edge_cases() {
    // Test scene with no layers
    let script = script("Test", "1920x1080", 30, 5_000, vec![scene("s1", 5_000, vec![])]);
    let result = ScriptParser::validate_script(&script);
    assert!(result.is_err());
    assert!(result
        .unwrap_err()
        .message(&script)
        .contains("must have at least one layer"));
}

#[test]
fn test_validate_script_duration_mismatch() {
    // Test duration warning (should succeed but log warning)
    let script = script("Test", "1920x1080", 30, 10_000, vec![scene("s1", 5_000, vec![image("t.png")])]);
    let result = ScriptParser::validate_script(&script);
    assert!(result.is_ok());
    assert!(ScriptParser::duration_mismatch(&script));
}

#[test]
fn test_summarize_with_audio() {
    let mut script =
        script("Test", "1280x720", 24, 3_000, vec![scene("s1", 3_000, vec![image("t.png")])]);
    script.audio = Some(AudioConfig {
        tracks: vec![AudioTrack {
            source: "music.mp3".into(),
            track_type: AudioTrackType::default(),
            volume: Decimal::from_units(1),
            start_time: Decimal::from_units(0),
        }],
    });
    let summary = ScriptParser::summarize(&script);
    assert!(summary.contains("1280x720"));
    assert!(summary.contains("24"));
    assert!(summary.contains("Audio tracks: 1"));
    assert!(summary.ends_with("  Scene 1: 's1' (3.00s, 1 layers)\nAudio tracks: 1\n"));
}

#[test]
fn every_validation_error_in_order() {
    let good = || scene("s", 1_000, vec![image("a.png")]);
    let check = |s: &VideoScript| ScriptParser::validate_script(s);
    assert_eq!(check(&script("T", "1x1", 30, 1_000, vec![good()])), Ok(()));
    assert_eq!(check(&script("", "1x1", 0, 0, vec![])), Err(ValidationError::EmptyTitle));
    assert_eq!(check(&script("T", "1x1", 0, 0, vec![])), Err(ValidationError::ZeroFps));
    assert_eq!(check(&script("T", "1x1", 1, 0, vec![])), Err(ValidationError::NonPositiveDuration));
    assert_eq!(check(&script("T", "1x1", 1, -5, vec![good()])), Err(ValidationError::NonPositiveDuration));
    assert_eq!(check(&script("T", "1x1", 1, 1, vec![])), Err(ValidationError::NoScenes));
    let bad_id = script("T", "1x1", 1, 1, vec![good(), scene("", 0, vec![])]);
    assert_eq!(check(&bad_id), Err(ValidationError::EmptySceneId { index: 1 }));
    assert_eq!(ValidationError::EmptySceneId { index: 1 }.message(&bad_id), "Scene 1 has empty ID");
    let bad_duration = script("T", "1x1", 1, 1, vec![good(), good(), scene("late", 0, vec![])]);
    assert_eq!(check(&bad_duration), Err(ValidationError::NonPositiveSceneDuration { index: 2 }));
    assert_eq!(
        ValidationError::NonPositiveSceneDuration { index: 2 }.message(&bad_duration),
        "Scene 'late' duration must be positive"
    );
    let no_layers = script("T", "1x1", 1, 1, vec![scene("bare", 5, vec![]), scene("", 0, vec![])]);
    assert_eq!(check(&no_layers), Err(ValidationError::NoLayers { index: 0 }));
    assert_eq!(
        ValidationError::NoLayers { index: 0 }.message(&no_layers),
        "Scene 'bare' must have at least one layer"
    );
    assert_eq!(ValidationError::EmptyTitle.message(&no_layers), "Script title cannot be empty");
    assert_eq!(ValidationError::ZeroFps.message(&no_layers), "FPS must be greater than 0");
    assert_eq!(ValidationError::NonPositiveDuration.message(&no_layers), "Duration must be positive");
    assert_eq!(
        ValidationError::NoScenes.message(&no_layers),
        "Script must contain at least one scene"
    );
}

#[test]
fn duration_mismatch_has_a_tolerance() {
    let with = |total: i64, parts: &[i64]| {
        script("T", "1x1", 1, total, parts.iter().map(|m| scene("s", *m, vec![])).collect())
    };
    assert!(!ScriptParser::duration_mismatch(&with(10_000, &[5_000, 5_000])));
    assert!(!ScriptParser::duration_mismatch(&with(10_000, &[5_000, 5_100])));
    assert!(ScriptParser::duration_mismatch(&with(10_000, &[5_000, 5_101])));
    assert!(!ScriptParser::duration_mismatch(&with(10_000, &[5_000, 4_900])));
    assert!(ScriptParser::duration_mismatch(&with(10_000, &[5_000, 4_899])));
    assert!(ScriptParser::duration_mismatch(&with(i64::MIN, &[i64::MAX, i64::MAX])));
    assert!(!ScriptParser::duration_mismatch(&with(0, &[])));
}

#[test]
fn test_generate_explainer() {
    let script = ScriptTemplate::generate(TemplateType::Explainer, Decimal::from_units(60));
    assert_eq!(script.scenes.len(), 3);
    assert_eq!(script.scenes[0].scene_type, SceneType::Hook);
    assert_eq!(script.scenes[2].scene_type, SceneType::Payoff);
    assert_eq!(script.scenes[0].duration, Decimal::from_units(9)); // 15% of 60 = 9
    assert_eq!(script.scenes[1].duration, Decimal::from_units(45));
    assert_eq!(script.scenes[2].duration, Decimal::from_units(6));
    assert_eq!(script.metadata.title, "Explainer Video");
    assert_eq!(script.metadata.fps, 30);
    assert_eq!(script.metadata.resolution.dimensions(), (1920, 1080));
    assert_eq!(script.scenes[1].id, "Body");
    assert_eq!(ScriptParser::validate_script(&script), Ok(()));
    assert!(!ScriptParser::duration_mismatch(&script));
}

#[test]
fn test_generate_tutorial() {
    let script = ScriptTemplate::generate(TemplateType::Tutorial, Decimal::from_units(100));
    assert_eq!(script.scenes.len(), 3);
    assert_eq!(script.scenes[0].scene_type, SceneType::Hook); // Intro maps to Hook
    let millis: Vec<i64> = script.scenes.iter().map(|s| s.duration.millis).collect();
    assert_eq!(millis, vec![10_000, 75_000, 15_000]);
    let ids: Vec<&str> = script.scenes.iter().map(|s| s.id.as_str()).collect();
    assert_eq!(ids, vec!["Intro", "Steps", "Recap"]);
}

#[test]
fn short_templates_keep_their_minimum() {
    let explainer = ScriptTemplate::generate(TemplateType::Explainer, Decimal::from_units(10));
    let millis: Vec<i64> = explainer.scenes.iter().map(|s| s.duration.millis).collect();
    assert_eq!(millis, vec![3_000, 4_000, 3_000]);
    let tutorial = ScriptTemplate::generate(TemplateType::Tutorial, Decimal::from_units(10));
    let millis: Vec<i64> = tutorial.scenes.iter().map(|s| s.duration.millis).collect();
    assert_eq!(millis, vec![3_000, 2_000, 5_000]);
    let story = ScriptTemplate::generate(TemplateType::Storytelling, Decimal::from_millis(10_001));
    let millis: Vec<i64> = story.scenes.iter().map(|s| s.duration.millis).collect();
    assert_eq!(millis, vec![2_000, 5_000, 3_000]);
    assert_eq!(story.metadata.description.as_deref(), Some("Generated storytelling template"));
    match &story.scenes[2].layers[0] {
        Layer::Text { content, font, font_size, color, position, effects } => {
            assert_eq!(content, "Resolution: The Change");
            assert_eq!(font, "assets/fonts/Inter-Bold.ttf");
            assert_eq!(font_size.millis, 60_000);
            assert_eq!((color.r, color.g, color.b, color.a), (255, 255, 255, 255));
            assert_eq!((position.x, position.y), (960, 540));
            assert!(effects.is_empty());
        }
        _ => panic!("a template scene holds a text"),
    }
    let extreme = ScriptTemplate::generate(TemplateType::Explainer, Decimal::from_millis(i64::MIN));
    assert_eq!(extreme.scenes[1].duration.millis, i64::MIN);
}

#[test]
fn encoder_arguments() {
    let plain = VideoEncoder::encode_args("out/frame_%d.ppm", "output.mp4", 30, 1920, 1080, None);
    assert_eq!(
        plain,
        vec![
            "-y", "-f", "image2", "-framerate", "30", "-i", "out/frame_%d.ppm", "-c:v", "libx264",
            "-pix_fmt", "yuv420p", "-s", "1920x1080", "output.mp4"
        ]
    );
    let with_audio =
        VideoEncoder::encode_args("f_%d.ppm", "o.mp4", 24, 640, 480, Some("out/audio.wav"));
    assert_eq!(
        with_audio,
        vec![
            "-y", "-f", "image2", "-framerate", "24", "-i", "f_%d.ppm", "-i", "out/audio.wav",
            "-c:v", "libx264", "-pix_fmt", "yuv420p", "-s", "640x480", "-c:a", "aac", "-shortest",
            "o.mp4"
        ]
    );
    assert_eq!(VideoEncoder::program(), "ffmpeg");
}

#[test]
fn default_settings() {
    let config = AppConfig::default();
    assert_eq!(config.renderer.engine, "native");
    assert_eq!(config.renderer.output_dir, "output");
    assert_eq!(config.video.default_resolution, "1920x1080");
    assert_eq!(config.video.default_fps, 30);
    assert_eq!(config.assets.base_path, ".");
    assert!(!config.uses_blender());
    let mut other = config.clone();
    other.renderer.engine = "blender".into();
    assert!(other.uses_blender());
}
