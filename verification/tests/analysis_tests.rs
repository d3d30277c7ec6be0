use interstellar_triangulum::analysis::credibility::CredibilityAnalyzer;
use interstellar_triangulum::analysis::narrative::{NarrativeAnalyzer, Severity};
use interstellar_triangulum::decimal::Decimal;
use interstellar_triangulum::renderer::blender::BlenderRenderer;
use interstellar_triangulum::script::{
    Color, Layer, Metadata, Position, Resolution, Scene, SceneType, Transform, Transition,
    VideoScript,
};

fn text_layer(text: &str) -> Layer {
    Layer::Text {
        content: text.into(),
        font: "font.ttf".into(),
        font_size: Decimal::from_units(24),
        color: Color { r: 0, g: 0, b: 0, a: 255 },
        position: Position { x: 0, y: 0 },
        effects: vec![],
    }
}

fn credibility_script(citations: Vec<String>, text: &str) -> VideoScript {
    VideoScript {
        metadata: Metadata {
            title: "Test".into(),
            resolution: Resolution::Named("1920x1080".into()),
            fps: 30,
            duration: Decimal::from_units(0),
            description: None,
            citations,
        },
        scenes: vec![Scene {
            id: "test".into(),
            duration: Decimal::from_units(5),
            scene_type: SceneType::Body,
            layers: vec![text_layer(text)],
            transition: None,
        }],
        audio: None,
    }
}

fn narrative_script(scenes: Vec<Scene>) -> VideoScript {
    VideoScript {
        metadata: Metadata {
            title: "Test".into(),
            resolution: Resolution::Named("1920x1080".into()),
            fps: 30,
            duration: Decimal::from_units(0),
            description: None,
            citations: vec![],
        },
        scenes,
        audio: None,
    }
}

fn create_scene(scene_type: SceneType, millis: i64, text: &str) -> Scene {
    Scene {
        id: "test".into(),
        scene_type,
        duration: Decimal::from_millis(millis),
        layers: vec![text_layer(text)],
        transition: None,
    }
}

#[test]
fn test_claim_detection_stats() {
    let script = credibility_script(vec![], "Rust is 10x faster than Python");
    let report = CredibilityAnalyzer::analyze(&script);

    assert_eq!(report.claims.len(), 1);
    assert_eq!(report.claims[0].reason, "Contains statistics");
    assert!(!report.claims[0].verified); // No citations
    assert!(report.score < 100);
    assert_eq!(report.score, 0);
    assert_eq!(report.claims[0].text, "Rust is 10x faster than Python");
    assert_eq!(report.claims[0].scene_index, 0);
}

#[test]
fn test_claim_detection_superlative() {
    let script = credibility_script(vec![], "The best programming language");
    let report = CredibilityAnalyzer::analyze(&script);

    assert_eq!(report.claims.len(), 1);
    assert_eq!(report.claims[0].reason, "Uses superlative language");
}

#[test]
fn test_claim_verification() {
    let script = credibility_script(vec!["Benchmark results 2024".into()], "Rust is 10x faster");
    let report = CredibilityAnalyzer::analyze(&script);

    assert_eq!(report.claims.len(), 1);
    assert!(report.claims[0].verified); // Has citations
    assert_eq!(report.score, 100);
    assert_eq!(report.citations, vec!["Benchmark results 2024"]);
}

#[test]
fn test_checklist_citations() {
    // Test with no citations
    let script = credibility_script(vec![], "Some content");
    let report = CredibilityAnalyzer::analyze(&script);

    let citation_check = report
        .checklist
        .iter()
        .find(|i| i.category == "Citations")
        .unwrap();
    assert!(!citation_check.passed);

    // Test with vague citation
    let script = credibility_script(vec!["Google".into()], "Some content");
    let report = CredibilityAnalyzer::analyze(&script);

    let citation_check = report
        .checklist
        .iter()
        .find(|i| i.category == "Citations")
        .unwrap();
    assert!(!citation_check.passed);
    assert!(citation_check.message.contains("too vague"));

    // Test with valid URL
    let script = credibility_script(vec!["https://rust-lang.org".into()], "Some content");
    let report = CredibilityAnalyzer::analyze(&script);

    let citation_check = report
        .checklist
        .iter()
        .find(|i| i.category == "Citations")
        .unwrap();
    assert!(citation_check.passed);
}

#[test]
fn test_checklist_weasel_words() {
    let script = credibility_script(vec![], "Many people say this is good.");
    let report = CredibilityAnalyzer::analyze(&script);

    let clarity_check = report
        .checklist
        .iter()
        .find(|i| i.category == "Clarity")
        .unwrap();
    assert!(!clarity_check.passed);
    assert!(clarity_check.message.contains("weasel words"));
}

#[test]
fn test_checklist_tone() {
    let script = credibility_script(
        vec![],
        "This is the most amazing, incredible, revolutionary product ever!",
    );
    let report = CredibilityAnalyzer::analyze(&script);

    let tone_check = report
        .checklist
        .iter()
        .find(|i| i.category == "Tone")
        .unwrap();
    assert!(!tone_check.passed);
    assert!(tone_check.message.contains("High hype factor"));
}

#[test]
fn test_structure_validation() {
    let script = narrative_script(vec![
        create_scene(SceneType::Hook, 5_000, "Hook"),
        create_scene(SceneType::Body, 5_000, "Body"),
    ]);

    let report = NarrativeAnalyzer::analyze(&script);
    assert!(!report.structure_valid);
    assert!(report
        .structure_errors
        .contains(&"Missing 'Payoff' scene".to_string()));
}

#[test]
fn test_pacing_analysis() {
    // Hook target: 140-170 WPM.
    // 10 words in 2 seconds = 300 WPM (Too fast)
    let script = narrative_script(vec![
        create_scene(
            SceneType::Hook,
            2_000,
            "One two three four five six seven eight nine ten",
        ),
        create_scene(SceneType::Body, 5_000, "Body"),
        create_scene(SceneType::Payoff, 5_000, "Payoff"),
    ]);

    let report = NarrativeAnalyzer::analyze(&script);
    assert!(!report.pacing_alerts.is_empty());
    assert!(report.pacing_alerts[0].wpm > Decimal::from_units(170));
    assert_eq!(report.pacing_alerts[0].wpm, Decimal::from_units(300));
    assert_eq!(
        report.pacing_alerts[0].message,
        "Scene 1 is too fast (300 WPM). Target: 140-170"
    );
    assert_eq!(report.pacing_alerts[1].message, "Scene 2 is too slow (12 WPM). Target: 130-150");
    assert_eq!(report.pacing_alerts[2].message, "Scene 3 is too slow (12 WPM). Target: 120-140");
    assert_eq!(report.pacing_alerts.len(), 3);
    // 100 - 3 alerts of 10 - 3 for the hook that takes more than 15%
    assert_eq!(report.score, 67);
    assert!(report.structure_valid);
}

#[test]
fn claims_by_kind_and_scene() {
    let mut script = credibility_script(vec![], "Nobody expects this");
    script.scenes[0].layers.push(text_layer("plain words"));
    script.scenes[0].layers.push(Layer::Image {
        source: "the best.png".into(),
        effects: vec![],
        transform: Transform::default(),
    });
    script.scenes.push(Scene {
        id: "two".into(),
        duration: Decimal::from_units(1),
        scene_type: SceneType::Payoff,
        layers: vec![text_layer("9 out of 10 agree; the BEST"), text_layer("Proven!")],
        transition: None,
    });
    let claims = CredibilityAnalyzer::detect_claims(&script);
    let seen: Vec<(usize, &str, &str)> =
        claims.iter().map(|c| (c.scene_index, c.text.as_str(), c.reason.as_str())).collect();
    assert_eq!(
        seen,
        vec![
            (0, "Nobody expects this", "Uses absolute terms"),
            (1, "9 out of 10 agree; the BEST", "Contains statistics"),
            (1, "Proven!", "Uses superlative language"),
        ]
    );
    assert_eq!(CredibilityAnalyzer::analyze(&script).score, 0);
}

#[test]
fn credibility_score_formula() {
    assert_eq!(CredibilityAnalyzer::score(0, 0), 100);
    assert_eq!(CredibilityAnalyzer::score(3, 3), 100);
    assert_eq!(CredibilityAnalyzer::score(0, 3), 0);
    // 9 of 10: 90 - 10
    assert_eq!(CredibilityAnalyzer::score(9, 10), 80);
    // 2 of 3: 66 - 10
    assert_eq!(CredibilityAnalyzer::score(2, 3), 56);
    assert_eq!(CredibilityAnalyzer::score(1, 10), 0);
    assert_eq!(CredibilityAnalyzer::score(usize::MAX, usize::MAX), 100);
}

#[test]
fn whole_checklist() {
    let script = credibility_script(
        vec!["Google".into(), "[Doe, 2020]".into(), "http://x".into(), "a longer reference".into(), "[open".into()],
        "Studies show it is amazing. Experts agree, some people say.",
    );
    let report = CredibilityAnalyzer::analyze(&script);
    let seen: Vec<(bool, &str, &str)> = report
        .checklist
        .iter()
        .map(|i| (i.passed, i.category.as_str(), i.message.as_str()))
        .collect();
    assert_eq!(
        seen,
        vec![
            (false, "Citations", "Citation 'Google' is too vague. Use a URL or academic format."),
            (false, "Citations", "Citation '[open' is too vague. Use a URL or academic format."),
            (true, "Citations", "5 citations provided."),
            (
                false,
                "Clarity",
                "Detected 1 instance(s) of weasel words (e.g., 'many people'). Be specific."
            ),
            // one hype word in ten words: more than one in twenty
            (
                false,
                "Tone",
                "High hype factor detected. Tone down superlatives for better credibility."
            ),
        ]
    );
    assert!(CredibilityAnalyzer::is_vague("Google"));
    assert!(!CredibilityAnalyzer::is_vague("Google Inc"));
    assert!(!CredibilityAnalyzer::is_vague("http"));
    assert!(CredibilityAnalyzer::is_vague("htt"));
    assert!(!CredibilityAnalyzer::is_vague("]["));
    assert!(CredibilityAnalyzer::is_vague(""));
}

#[test]
fn tone_threshold_is_one_word_in_twenty() {
    let twenty = "amazing a b c d e f g h i j k l m n o p q r s";
    let report = CredibilityAnalyzer::analyze(&credibility_script(vec![], twenty));
    let tone = report.checklist.iter().find(|i| i.category == "Tone").unwrap();
    assert!(tone.passed);
    assert_eq!(tone.message, "Tone appears professional and balanced.");
    let nineteen = "amazing a b c d e f g h i j k l m n o p q r";
    let report = CredibilityAnalyzer::analyze(&credibility_script(vec![], nineteen));
    assert!(!report.checklist.iter().find(|i| i.category == "Tone").unwrap().passed);
    let none = CredibilityAnalyzer::analyze(&credibility_script(vec![], "  "));
    assert!(none.checklist.iter().all(|i| i.category != "Tone"));
    let clarity = none.checklist.iter().find(|i| i.category == "Clarity").unwrap();
    assert_eq!(clarity.message, "No vague 'weasel words' detected.");
    assert_eq!(
        none.checklist[0].message,
        "No citations provided. Add sources to build trust."
    );
}

#[test]
fn structure_errors_in_order() {
    let (valid, errors) = NarrativeAnalyzer::validate_structure(&narrative_script(vec![]));
    assert!(!valid);
    assert_eq!(
        errors,
        vec!["Missing 'Hook' scene", "Missing 'Body' scene", "Missing 'Payoff' scene"]
    );
    let (valid, errors) = NarrativeAnalyzer::validate_structure(&narrative_script(vec![
        create_scene(SceneType::Payoff, 1, ""),
        create_scene(SceneType::Hook, 1, ""),
        create_scene(SceneType::Body, 1, ""),
    ]));
    assert!(valid);
    assert!(errors.is_empty());
    let (_, errors) = NarrativeAnalyzer::validate_structure(&narrative_script(vec![create_scene(
        SceneType::Body,
        1,
        "",
    )]));
    assert_eq!(errors, vec!["Missing 'Hook' scene", "Missing 'Payoff' scene"]);
}

#[test]
fn structure_recommendations() {
    assert!(NarrativeAnalyzer::analyze_structure_enhancements(&narrative_script(vec![])).is_empty());
    let mut second = create_scene(SceneType::Hook, 4_000, "");
    second.transition = Some(Transition::Cut);
    let script = narrative_script(vec![
        create_scene(SceneType::Body, 3_001, ""),
        second,
        create_scene(SceneType::Payoff, 1_000, ""),
        create_scene(SceneType::Body, 12_000, ""),
    ]);
    let seen: Vec<(Severity, String, String)> =
        NarrativeAnalyzer::analyze_structure_enhancements(&script)
            .into_iter()
            .map(|r| (r.severity, r.category, r.message))
            .collect();
    let expect = |s: Severity, c: &str, m: &str| (s, c.to_string(), m.to_string());
    assert_eq!(
        seen,
        vec![
            expect(Severity::Error, "Scene Order", "First scene should be a Hook to grab attention"),
            expect(Severity::Warning, "Scene Order", "Last scene should be a Payoff to drive action"),
            // 4.000 of 20.001 seconds
            expect(
                Severity::Warning,
                "Duration Balance",
                "Hook is too long (20.0% of video). Keep it under 15% for best retention."
            ),
            expect(
                Severity::Info,
                "Duration Balance",
                "Payoff is short (5.0% of video). Consider expanding to 10%+ for stronger CTA."
            ),
            expect(
                Severity::Info,
                "Transitions",
                "Scene 1 \u{2192} 2 has no transition. Consider adding fade/dissolve for smoother flow."
            ),
        ]
    );
    let short = narrative_script(vec![create_scene(SceneType::Hook, 3_000, "")]);
    let seen: Vec<String> = NarrativeAnalyzer::analyze_structure_enhancements(&short)
        .into_iter()
        .map(|r| r.message)
        .collect();
    assert_eq!(
        seen,
        vec![
            "Last scene should be a Payoff to drive action",
            "Hook is too long (100.0% of video). Keep it under 15% for best retention.",
            "Only 1 scene(s) detected. Videos with 3-7 scenes typically perform better.",
        ]
    );
    let many: Vec<Scene> = (0..8)
        .map(|i| {
            create_scene(
                if i == 0 { SceneType::Hook } else if i == 7 { SceneType::Payoff } else { SceneType::Body },
                1_000,
                "",
            )
        })
        .collect();
    let seen: Vec<String> = NarrativeAnalyzer::analyze_structure_enhancements(&narrative_script(many))
        .into_iter()
        .map(|r| r.message)
        .collect();
    assert_eq!(
        seen,
        vec!["8 scenes detected. Consider consolidating for better pacing (optimal: 3-7)."]
    );
}

#[test]
fn retention_warnings_and_word_counts() {
    let mut crowded = create_scene(SceneType::Body, 20_000, "one");
    crowded.layers.push(text_layer("two, three"));
    let script = narrative_script(vec![
        create_scene(SceneType::Hook, 10_000, ""),
        create_scene(SceneType::Body, 10_001, ""),
        crowded,
        create_scene(SceneType::Payoff, 12_345, ""),
    ]);
    let seen: Vec<(usize, String)> = NarrativeAnalyzer::analyze_visual_density(&script)
        .into_iter()
        .map(|w| (w.scene_index, w.message))
        .collect();
    assert_eq!(
        seen,
        vec![
            (
                1,
                "Scene 2 is long (10.0s) but has low visual density. Consider adding more layers."
                    .to_string()
            ),
            (
                3,
                "Scene 4 is long (12.3s) but has low visual density. Consider adding more layers."
                    .to_string()
            ),
        ]
    );
    assert_eq!(NarrativeAnalyzer::count_words(&script.scenes[2]), 3);
    assert_eq!(NarrativeAnalyzer::count_words(&script.scenes[0]), 0);
    let quoted = create_scene(SceneType::Body, 1, "The quick (\"brown\") fox can't jump 32.3 feet, right?");
    assert_eq!(NarrativeAnalyzer::count_words(&quoted), 9);
}

#[test]
fn pacing_of_unusual_scenes() {
    let script = narrative_script(vec![
        create_scene(SceneType::Hook, 0, "no time at all"),
        create_scene(SceneType::Body, -1_000, "back in time"),
        // 7 words in 3 seconds: 140 a minute
        create_scene(SceneType::Payoff, 3_000, "a b c d e f g"),
        // 13 words in 6 seconds: 130 a minute
        create_scene(SceneType::Body, 6_000, "a b c d e f g h i j k l m"),
    ]);
    let alerts = NarrativeAnalyzer::analyze_pacing(&script);
    let seen: Vec<(usize, i64, &str)> =
        alerts.iter().map(|a| (a.scene_index, a.wpm.millis, a.message.as_str())).collect();
    assert_eq!(seen, vec![(1, -180_000, "Scene 2 is too slow (-180 WPM). Target: 130-150")]);
}

#[test]
fn narrative_score_never_goes_below_zero() {
    let scenes: Vec<Scene> = (0..12).map(|_| create_scene(SceneType::Body, 11_000, "slow")).collect();
    let report = NarrativeAnalyzer::analyze(&narrative_script(scenes));
    assert_eq!(report.pacing_alerts.len(), 12);
    assert_eq!(report.retention_warnings.len(), 12);
    assert_eq!(report.score, 0);
    let fine = NarrativeAnalyzer::analyze(&narrative_script(vec![
        create_scene(SceneType::Hook, 0, ""),
        create_scene(SceneType::Body, 0, ""),
        create_scene(SceneType::Payoff, 0, ""),
    ]));
    assert_eq!(fine.score, 100);
    // no hook and payoff: 30 off; first scene no hook (error), last no payoff (warning), one scene (warning): 6 off
    let bare = NarrativeAnalyzer::analyze(&narrative_script(vec![create_scene(SceneType::Body, 0, "")]));
    assert_eq!(bare.score, 64);
}

#[test]
fn test_generate_python_script() {
    let script = VideoScript {
        metadata: Metadata {
            title: "Test".into(),
            resolution: Resolution::Named("1920x1080".into()),
            fps: 30,
            duration: Decimal::from_units(5),
            description: None,
            citations: vec![],
        },
        scenes: vec![Scene {
            id: "scene1".into(),
            duration: Decimal::from_units(5),
            scene_type: SceneType::default(),
            layers: vec![],
            transition: None,
        }],
        audio: None,
    };

    let renderer = BlenderRenderer::new(script, "output".to_string());
    let py_script = renderer.generate_python_script(0, 150);

    assert!(py_script.contains("import bpy"));
    assert!(py_script.contains("scene.render.resolution_x = 1920"));
    assert!(py_script.contains("scene.render.resolution_y = 1080"));
    assert!(py_script.contains("scene.frame_end = 150"));
    assert!(py_script.contains("scene.render.fps = 30\nimport sys\n"));
    assert!(py_script.contains("else:\n    scene.frame_start = 0\n    scene.frame_end = 150\n"));
    assert!(py_script.contains("cam_data.ortho_scale = 10.8\n"));
    assert!(py_script.contains("def to_blender_coords(x, y, res_x, res_y):"));
    assert!(py_script.ends_with("\n# Render animation\nbpy.ops.render.render(animation=True)\n"));
    assert!(py_script.starts_with("import bpy\nimport math\n\n# Clear scene\n"));
    assert_eq!(renderer.total_frames(), 150);
    assert_eq!(renderer.output_dir(), "output");
    assert_eq!(renderer.cache_dir(), ".cache/blender");
    assert!(renderer.parallel_jobs() >= 1 && renderer.parallel_jobs() <= 2);
}

#[test]
fn blender_program_for_layers() {
    let mut script = narrative_script(vec![
        create_scene(SceneType::Hook, 1_000, "Hello"),
        create_scene(SceneType::Body, 2_000, "World"),
    ]);
    script.metadata.resolution = Resolution::Dimensions { width: 640, height: 480 };
    script.scenes[0].id = "a".into();
    script.scenes[1].id = "b".into();
    script.scenes[1].layers.insert(
        0,
        Layer::Image {
            source: "C:\\pics\\one.png".into(),
            effects: vec![],
            transform: Transform {
                position: Position { x: -5, y: 7 },
                scale: Decimal::from_millis(1_500),
                rotation: Decimal::from_millis(0),
                opacity: Decimal::from_millis(1_000),
            },
        },
    );
    script.scenes[1].layers.push(Layer::Video {
        source: "clip.mp4".into(),
        effects: vec![],
        transform: Transform::default(),
    });
    let renderer = BlenderRenderer::with_processors(script, "out".to_string(), 8);
    assert_eq!(renderer.parallel_jobs(), 2);
    let program = renderer.generate_python_script(3, 9);
    let image = "\n# Layer: Image_b_0\nmat, img_w, img_h = create_image_material('Mat_Image_b_0', 'C:/pics/one.png')\nif mat:\n    bpy.ops.mesh.primitive_plane_add(size=1)\n    obj = bpy.context.active_object\n    obj.name = 'Image_b_0'\n    obj.data.materials.append(mat)\n    obj.scale.x = img_w / 100.0\n    obj.scale.y = img_h / 100.0\n    bx, by = to_blender_coords(-5, 7, 640, 480)\n    obj.location.x = bx\n    obj.location.y = by\n    obj.scale.x *= 1.5\n    obj.scale.y *= 1.5\n    keyframe_visibility(obj, 30, 90)\n";
    let text = "\n# Layer: Text_b_1\nbpy.ops.object.text_add()\nobj = bpy.context.active_object\nobj.name = 'Text_b_1'\nobj.data.body = 'World'\ntry:\n    fnt = bpy.data.fonts.load('font.ttf')\n    obj.data.font = fnt\nexcept:\n    pass\nobj.data.size = 24 / 100.0\nmat = create_text_material('Mat_Text_b_1', (0 / 255.0, 0 / 255.0, 0 / 255.0, 255 / 255.0))\nobj.data.materials.append(mat)\nbx, by = to_blender_coords(0, 0, 640, 480)\nobj.location.x = bx\nobj.location.y = by\nkeyframe_visibility(obj, 30, 90)\n";
    let tail = format!("{}{}\n# Render animation\nbpy.ops.render.render(animation=True)\n", image, text);
    assert!(program.ends_with(&tail));
    assert!(program.contains("obj.name = 'Text_a_0'\nobj.data.body = 'Hello'\n"));
    assert!(program.contains("keyframe_visibility(obj, 0, 30)\n\n# Layer: Image_b_0\n"));
    assert!(program.contains("cam_data.ortho_scale = 4.8\n"));
    assert!(program.contains("    scene.frame_start = 3\n    scene.frame_end = 9\n"));
    assert!(!program.contains("clip.mp4"));
}

#[test]
fn blender_cache_key_and_jobs() {
    let renderer = BlenderRenderer::with_processors(narrative_script(vec![]), "out".into(), 0);
    assert_eq!(renderer.parallel_jobs(), 1);
    assert_eq!(
        renderer.calculate_hash("abc"),
        "ba7816bf8f01cfea414140de5dae2223b00361a396177a9cb410ff61f20015ad"
    );
    assert_eq!(
        renderer.calculate_hash(""),
        "e3b0c44298fc1c149afbf4c8996fb92427ae41e4649b934ca495991b7852b855"
    );
    let hash = renderer.calculate_hash("import bpy\n");
    assert!(BlenderRenderer::is_cache_hit(true, true, &format!("  {}\n", hash), &hash));
    assert!(BlenderRenderer::is_cache_hit(true, true, &hash, &hash));
    assert!(!BlenderRenderer::is_cache_hit(false, true, &hash, &hash));
    assert!(!BlenderRenderer::is_cache_hit(true, false, &hash, &hash));
    assert!(!BlenderRenderer::is_cache_hit(true, true, "", &hash));
    assert!(!BlenderRenderer::is_cache_hit(true, true, &format!("x{}", hash), &hash));
    assert_eq!(renderer.job_ranges(150), vec![(0, 150)]);
    assert_eq!(renderer.job_ranges(0), vec![]);
    let two = BlenderRenderer::with_processors(narrative_script(vec![]), "out".into(), 2);
    assert_eq!(two.job_ranges(150), vec![(0, 75), (75, 150)]);
    assert_eq!(two.job_ranges(151), vec![(0, 76), (76, 151)]);
    assert_eq!(two.job_ranges(1), vec![(0, 1)]);
    assert_eq!(two.job_ranges(0), vec![]);
    assert_eq!(two.job_ranges(u32::MAX), vec![(0, 2147483648), (2147483648, u32::MAX)]);
    assert_eq!(
        BlenderRenderer::job_args(".cache/blender/k.py", 75, 150, "out/frame_"),
        vec!["-b", "-P", ".cache/blender/k.py", "--", "--start", "75", "--end", "150", "--output", "out/frame_"]
    );
}
