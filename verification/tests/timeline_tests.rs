use interstellar_triangulum::decimal::Decimal;
use interstellar_triangulum::renderer::timeline::Timeline;
use interstellar_triangulum::script::{
    Layer, Metadata, Resolution, Scene, SceneType, Transform, VideoScript,
};

fn image_layer(source: &str) -> Layer {
    Layer::Image {
        source: source.to_string(),
        effects: vec![],
        transform: Transform::default(),
    }
}

fn scene(id: &str, millis: i64, source: &str) -> Scene {
    Scene {
        id: id.to_string(),
        duration: Decimal::from_millis(millis),
        scene_type: SceneType::default(),
        layers: vec![image_layer(source)],
        transition: None,
    }
}

fn script(fps: u32, millis: i64, scenes: Vec<Scene>) -> VideoScript {
    VideoScript {
        metadata: Metadata {
            title: "Test".to_string(),
            resolution: Resolution::Named("1920x1080".to_string()),
            fps,
            duration: Decimal::from_millis(millis),
            description: None,
            citations: vec![],
        },
        scenes,
        audio: None,
    }
}

fn create_test_script() -> VideoScript {
    script(
        30,
        10_000,
        vec![scene("scene1", 5_000, "test.png"), scene("scene2", 5_000, "test2.png")],
    )
}

#[test]
fn test_timeline_creation() {
    let script = create_test_script();
    let timeline = Timeline::from_script(&script);

    assert_eq!(timeline.fps(), 30);
    assert_eq!(timeline.total_frames(), 300); // 10 seconds at 30fps
}

#[test]
fn test_get_scene_at_frame() {
    let script = create_test_script();
    let timeline = Timeline::from_script(&script);

    // First scene: 0-150 frames (5 seconds)
    assert_eq!(timeline.get_scene_at_frame(0), Some("scene1"));
    assert_eq!(timeline.get_scene_at_frame(100), Some("scene1"));

    // Second scene: 150-300 frames
    assert_eq!(timeline.get_scene_at_frame(150), Some("scene2"));
    assert_eq!(timeline.get_scene_at_frame(200), Some("scene2"));
}

#[test]
fn one_scene_of_five_seconds_at_thirty_fps() {
    let timeline = Timeline::from_script(&script(30, 5_000, vec![scene("only", 5_000, "a.png")]));
    assert_eq!(timeline.total_frames(), 150);
    assert_eq!(timeline.segment_count(), 1);
    assert_eq!(timeline.segment_range(0), Some((0, 150)));
    assert_eq!(timeline.get_scene_at_frame(149), Some("only"));
    assert_eq!(timeline.get_scene_at_frame(150), None);
}

#[test]
fn two_scenes_at_ten_fps() {
    let timeline = Timeline::from_script(&script(
        10,
        5_000,
        vec![scene("first", 3_000, "a.png"), scene("second", 2_000, "b.png")],
    ));
    assert_eq!(timeline.total_frames(), 50);
    assert_eq!(timeline.segment_range(0), Some((0, 30)));
    assert_eq!(timeline.segment_range(1), Some((30, 50)));
    assert_eq!(timeline.segment_range(2), None);
    assert_eq!(timeline.get_scene_at_frame(29), Some("first"));
    assert_eq!(timeline.get_scene_at_frame(30), Some("second"));
    assert_eq!(timeline.get_scene_at_frame(50), None);
}

#[test]
fn segments_partition_the_video() {
    let timeline = Timeline::from_script(&script(
        24,
        6_000,
        vec![
            scene("a", 1_000, "a.png"),
            scene("b", 2_500, "b.png"),
            scene("c", 2_500, "c.png"),
        ],
    ));
    assert_eq!(timeline.total_frames(), 144);
    let mut expected_start = 0;
    for i in 0..timeline.segment_count() {
        let (start, end) = timeline.segment_range(i).unwrap();
        assert_eq!(start, expected_start);
        assert!(start <= end);
        expected_start = end;
    }
    assert_eq!(expected_start, timeline.total_frames());
    for frame in 0..timeline.total_frames() {
        let mut holders = 0;
        for i in 0..timeline.segment_count() {
            let (start, end) = timeline.segment_range(i).unwrap();
            if start <= frame && frame < end {
                holders += 1;
            }
        }
        assert_eq!(holders, 1);
        assert!(timeline.get_scene_at_frame(frame).is_some());
    }
}

#[test]
fn each_scene_is_rounded_down_by_itself() {
    // 0.05 s at 30 fps is one and a half frames: one frame each, three in all.
    let timeline = Timeline::from_script(&script(
        30,
        100,
        vec![scene("a", 50, "a.png"), scene("b", 50, "b.png")],
    ));
    assert_eq!(timeline.total_frames(), 3);
    assert_eq!(timeline.segment_range(0), Some((0, 1)));
    assert_eq!(timeline.segment_range(1), Some((1, 2)));
    assert_eq!(timeline.get_scene_at_frame(2), None);
}

#[test]
fn scenes_shorter_than_the_video_leave_the_rest_empty() {
    let timeline = Timeline::from_script(&script(60, 10_000, vec![scene("test", 5_000, "t.png")]));
    assert_eq!(timeline.total_frames(), 600);
    assert_eq!(timeline.segment_range(0), Some((0, 300)));
    assert_eq!(timeline.get_scene_at_frame(299), Some("test"));
    assert_eq!(timeline.get_scene_at_frame(300), None);
}

#[test]
fn frame_counts_stop_at_the_largest_number() {
    let timeline = Timeline::from_script(&script(
        u32::MAX,
        i64::MAX,
        vec![scene("a", i64::MAX, "a.png"), scene("b", 1_000, "b.png")],
    ));
    assert_eq!(timeline.total_frames(), u32::MAX);
    assert_eq!(timeline.segment_range(0), Some((0, u32::MAX)));
    assert_eq!(timeline.segment_range(1), Some((u32::MAX, u32::MAX)));
}

#[test]
fn negative_durations_take_no_frame() {
    let timeline = Timeline::from_script(&script(
        30,
        -1_000,
        vec![scene("a", -5_000, "a.png"), scene("b", 1_000, "b.png")],
    ));
    assert_eq!(timeline.total_frames(), 0);
    assert_eq!(timeline.segment_range(0), Some((0, 0)));
    assert_eq!(timeline.segment_range(1), Some((0, 30)));
    assert_eq!(timeline.get_scene_at_frame(0), Some("b"));
}

#[test]
fn frame_to_time_is_frame_over_rate() {
    let timeline = Timeline::from_script(&create_test_script());
    assert_eq!(timeline.frame_to_time(0), Some(Decimal::from_millis(0)));
    assert_eq!(timeline.frame_to_time(30), Some(Decimal::from_millis(1_000)));
    assert_eq!(timeline.frame_to_time(45), Some(Decimal::from_millis(1_500)));
    assert_eq!(timeline.frame_to_time(1), Some(Decimal::from_millis(33)));
    let still = Timeline::from_script(&script(0, 1_000, vec![]));
    assert_eq!(still.frame_to_time(5), None);
}

#[test]
fn decimal_scaling_rounds_down_and_saturates() {
    assert_eq!(Decimal::from_millis(700).scale_u32(10), 7);
    assert_eq!(Decimal::from_millis(999).scale_u32(1), 0);
    assert_eq!(Decimal::from_millis(1_999).scale_u32(1), 1);
    assert_eq!(Decimal::from_millis(-1).scale_u32(1000), 0);
    assert_eq!(Decimal::from_millis(1_000).scale_u32(0), 0);
    assert_eq!(Decimal::from_millis(i64::MAX).scale_u32(2), u32::MAX);
    assert_eq!(Decimal::from_units(3), Decimal::from_millis(3_000));
    assert_eq!(Decimal::from_units(-2).millis, -2_000);
}

#[test]
fn decimal_arithmetic() {
    assert_eq!(Decimal::from_millis(60_000).percent(15).millis, 9_000);
    assert_eq!(Decimal::from_millis(1_001).percent(15).millis, 150);
    assert_eq!(Decimal::from_millis(-1_001).percent(15).millis, -150);
    assert_eq!(Decimal::from_millis(5).max(Decimal::from_millis(7)).millis, 7);
    assert_eq!(Decimal::from_millis(9).max(Decimal::from_millis(7)).millis, 9);
    assert_eq!(Decimal::from_millis(i64::MIN).saturating_sub(Decimal::from_millis(1)).millis, i64::MIN);
    assert_eq!(Decimal::from_millis(10).saturating_sub(Decimal::from_millis(4)).millis, 6);
    assert_eq!(Decimal::from_millis(i64::MAX).saturating_add(Decimal::from_millis(1)).millis, i64::MAX);
    assert_eq!(Decimal::from_millis(10).saturating_add(Decimal::from_millis(4)).millis, 14);
}

fn fixed(millis: i64, places: u8) -> String {
    let mut out = String::new();
    Decimal::from_millis(millis).append_fixed(&mut out, places);
    out
}

fn shortest(millis: i64) -> String {
    let mut out = String::from("x=");
    Decimal::from_millis(millis).append_shortest(&mut out);
    out
}

#[test]
fn decimal_formatting() {
    assert_eq!(fixed(5_000, 2), "5.00");
    assert_eq!(fixed(1_234, 2), "1.23");
    assert_eq!(fixed(1_235, 2), "1.24");
    assert_eq!(fixed(1_225, 2), "1.22");
    assert_eq!(fixed(1_226, 2), "1.23");
    assert_eq!(fixed(999, 0), "1");
    assert_eq!(fixed(500, 0), "0");
    assert_eq!(fixed(1_500, 0), "2");
    assert_eq!(fixed(2_500, 0), "2");
    assert_eq!(fixed(-1_250, 1), "-1.2");
    assert_eq!(fixed(-1, 2), "-0.00");
    assert_eq!(fixed(12_345, 3), "12.345");
    assert_eq!(fixed(7, 3), "0.007");
    assert_eq!(fixed(i64::MIN, 3), "-9223372036854775.808");
    assert_eq!(shortest(10_800), "x=10.8");
    assert_eq!(shortest(1_000), "x=1");
    assert_eq!(shortest(0), "x=0");
    assert_eq!(shortest(-2_050), "x=-2.05");
    assert_eq!(shortest(3_007), "x=3.007");
    assert_eq!(shortest(i64::MAX), "x=9223372036854775.807");
}
