use interstellar_triangulum::digits::{append_decimal, parse_u32, push_decimal};
use interstellar_triangulum::renderer::compositor::Compositor;
use interstellar_triangulum::renderer::frame_buffer::FrameBuffer;
use interstellar_triangulum::script::{
    default_alpha, default_opacity, default_scale, default_volume, find_byte, AudioTrackType,
    Color, Resolution, SceneType, Transform,
};
use interstellar_triangulum::text::str_equal;

#[test]
fn test_default_functions() {
    assert_eq!(default_scale().millis, 1000);
    assert_eq!(default_opacity().millis, 1000);
    assert_eq!(default_alpha(), 255);
    assert_eq!(default_volume().millis, 1000);
}

#[test]
fn defaults_of_script_types() {
    let transform = Transform::default();
    assert_eq!(transform.position.x, 0);
    assert_eq!(transform.position.y, 0);
    assert_eq!(transform.scale.millis, 0);
    assert_eq!(transform.rotation.millis, 0);
    assert_eq!(transform.opacity.millis, 0);
    assert_eq!(SceneType::default(), SceneType::Body);
    assert_eq!(AudioTrackType::default(), AudioTrackType::Music);
    assert_eq!(Color { r: 1, g: 2, b: 3, a: 4 }.to_rgba(), [1, 2, 3, 4]);
}

#[test]
fn new_buffer_is_zeroed() {
    let fb = FrameBuffer::new(3, 2);
    assert_eq!(fb.as_bytes(), &[0u8; 24][..]);
    let empty = FrameBuffer::new(0, 7);
    assert_eq!(empty.as_bytes().len(), 0);
    assert_eq!(empty.get_pixel(0, 0), None);
}

#[test]
fn clear_then_get_pixel_everywhere() {
    let mut fb = FrameBuffer::new(7, 5);
    let color = [9, 8, 7, 6];
    fb.clear(color);
    for y in 0..8 {
        for x in 0..9 {
            let expected = if x < 7 && y < 5 { Some(color) } else { None };
            assert_eq!(fb.get_pixel(x, y), expected);
        }
    }
    assert_eq!(fb.get_pixel(u32::MAX, u32::MAX), None);
}

#[test]
fn set_pixel_out_of_bounds_is_ignored() {
    let mut fb = FrameBuffer::new(4, 4);
    fb.clear([1, 2, 3, 4]);
    let before = fb.as_bytes().to_vec();
    fb.set_pixel(4, 0, [9, 9, 9, 9]);
    fb.set_pixel(0, 4, [9, 9, 9, 9]);
    fb.blend_pixel(4, 4, [9, 9, 9, 9]);
    assert_eq!(fb.as_bytes(), &before[..]);
}

#[test]
fn set_pixel_touches_one_pixel_only() {
    let mut fb = FrameBuffer::new(3, 3);
    fb.set_pixel(2, 1, [10, 20, 30, 40]);
    for y in 0..3 {
        for x in 0..3 {
            let expected = if x == 2 && y == 1 { [10, 20, 30, 40] } else { [0, 0, 0, 0] };
            assert_eq!(fb.get_pixel(x, y), Some(expected));
        }
    }
    assert_eq!(&fb.as_bytes()[20..24], &[10, 20, 30, 40]);
}

#[test]
fn blend_opaque_replaces_and_transparent_keeps() {
    let mut fb = FrameBuffer::new(2, 1);
    fb.clear([10, 20, 30, 40]);
    fb.blend_pixel(0, 0, [200, 100, 50, 255]);
    assert_eq!(fb.get_pixel(0, 0), Some([200, 100, 50, 255]));
    fb.blend_pixel(1, 0, [200, 100, 50, 0]);
    assert_eq!(fb.get_pixel(1, 0), Some([10, 20, 30, 255]));
}

#[test]
fn blend_formula() {
    let mut fb = FrameBuffer::new(1, 1);
    fb.clear([255, 255, 255, 255]);
    fb.blend_pixel(0, 0, [255, 0, 0, 128]);
    // (0 * 128 + 255 * 127) / 255 = 127
    assert_eq!(fb.get_pixel(0, 0), Some([255, 127, 127, 255]));
    fb.clear([0, 100, 200, 7]);
    fb.blend_pixel(0, 0, [100, 0, 50, 51]);
    // (100*51 + 0*204)/255 = 20; (0*51 + 100*204)/255 = 80; (50*51 + 200*204)/255 = 170
    assert_eq!(fb.get_pixel(0, 0), Some([20, 80, 170, 255]));
}

#[test]
fn copy_from_slice_takes_the_bytes_as_they_are() {
    let mut fb = FrameBuffer::new(2, 2);
    let data: Vec<u8> = (0..16).collect();
    fb.copy_from_slice(&data);
    assert_eq!(fb.as_bytes(), &data[..]);
    assert_eq!(fb.get_pixel(1, 1), Some([12, 13, 14, 15]));
    assert_eq!(fb.dimensions(), (2, 2));
}

#[test]
fn ppm_image() {
    let mut fb = FrameBuffer::new(2, 1);
    fb.set_pixel(0, 0, [1, 2, 3, 4]);
    fb.set_pixel(1, 0, [5, 6, 7, 8]);
    let magic = [b'P', b'6', b'\n'];
    let mut expected = magic.to_vec();
    expected.extend_from_slice(b"2 1\n255\n");
    expected.extend_from_slice(&[1, 2, 3, 5, 6, 7]);
    assert_eq!(fb.to_ppm(), expected);
    let wide = FrameBuffer::new(1920, 0);
    let mut expected = magic.to_vec();
    expected.extend_from_slice(b"1920 0\n255\n");
    assert_eq!(wide.to_ppm(), expected);
}

#[test]
fn fill_rect_clips_to_the_buffer() {
    let mut fb = FrameBuffer::new(4, 3);
    Compositor::fill_rect(&mut fb, -2, -1, 4, 3, [1, 1, 1, 1]);
    for y in 0..3 {
        for x in 0..4 {
            let inside = x < 2 && y < 2;
            let expected = if inside { [1, 1, 1, 1] } else { [0, 0, 0, 0] };
            assert_eq!(fb.get_pixel(x, y), Some(expected), "at {} {}", x, y);
        }
    }
    let before = fb.as_bytes().to_vec();
    Compositor::fill_rect(&mut fb, 4, 0, 10, 10, [2, 2, 2, 2]);
    Compositor::fill_rect(&mut fb, 0, 3, 10, 10, [2, 2, 2, 2]);
    Compositor::fill_rect(&mut fb, 1, 1, 0, 5, [2, 2, 2, 2]);
    Compositor::fill_rect(&mut fb, i32::MIN, i32::MIN, 5, 5, [2, 2, 2, 2]);
    assert_eq!(fb.as_bytes(), &before[..]);
    Compositor::fill_rect(&mut fb, i32::MAX, 0, u32::MAX, u32::MAX, [2, 2, 2, 2]);
    assert_eq!(fb.as_bytes(), &before[..]);
    Compositor::fill_rect(&mut fb, -1, -1, u32::MAX, u32::MAX, [3, 3, 3, 3]);
    assert_eq!(fb.as_bytes(), &[3u8; 48][..]);
}

#[test]
fn fill_rect_is_idempotent() {
    let mut once = FrameBuffer::new(9, 7);
    once.clear([5, 6, 7, 8]);
    Compositor::fill_rect(&mut once, 3, -2, 4, 6, [1, 2, 3, 4]);
    let mut twice = FrameBuffer::new(9, 7);
    twice.clear([5, 6, 7, 8]);
    Compositor::fill_rect(&mut twice, 3, -2, 4, 6, [1, 2, 3, 4]);
    Compositor::fill_rect(&mut twice, 3, -2, 4, 6, [1, 2, 3, 4]);
    assert_eq!(once.as_bytes(), twice.as_bytes());
    assert_eq!(once.get_pixel(3, 0), Some([1, 2, 3, 4]));
    assert_eq!(once.get_pixel(6, 3), Some([1, 2, 3, 4]));
    assert_eq!(once.get_pixel(7, 3), Some([5, 6, 7, 8]));
    assert_eq!(once.get_pixel(3, 4), Some([5, 6, 7, 8]));
}

#[test]
fn fill_rect_overwrites_without_blending() {
    let mut fb = FrameBuffer::new(2, 2);
    fb.clear([255, 255, 255, 255]);
    Compositor::fill_rect(&mut fb, 0, 0, 1, 1, [10, 20, 30, 0]);
    assert_eq!(fb.get_pixel(0, 0), Some([10, 20, 30, 0]));
}

#[test]
fn text_placeholder_box() {
    assert_eq!(Compositor::text_width(""), 0);
    assert_eq!(Compositor::text_width("abc"), 24);
    assert_eq!(Compositor::text_width("123456789012345678901234"), 192);
    assert_eq!(Compositor::text_width("1234567890123456789012345"), 200);
    assert_eq!(Compositor::text_width(&"x".repeat(1000)), 200);
    // two bytes each
    assert_eq!(Compositor::text_width("\u{e9}\u{e9}"), 32);
    let mut fb = FrameBuffer::new(40, 20);
    Compositor::draw_text_placeholder(&mut fb, "abc", 2, 1, [7, 7, 7, 255]);
    assert_eq!(fb.get_pixel(2, 1), Some([7, 7, 7, 255]));
    assert_eq!(fb.get_pixel(25, 16), Some([7, 7, 7, 255]));
    assert_eq!(fb.get_pixel(26, 16), Some([0, 0, 0, 0]));
    assert_eq!(fb.get_pixel(25, 17), Some([0, 0, 0, 0]));
    assert_eq!(fb.get_pixel(1, 1), Some([0, 0, 0, 0]));
    assert_eq!(fb.get_pixel(2, 0), Some([0, 0, 0, 0]));
}

#[test]
fn resolution_names() {
    let named = |s: &str| Resolution::Named(s.to_string()).dimensions();
    assert_eq!(named("1280x720"), (1280, 720));
    assert_eq!(named("+12x+34"), (12, 34));
    assert_eq!(named("x"), (1920, 1080));
    assert_eq!(named("640x"), (640, 1080));
    assert_eq!(named("x480"), (1920, 480));
    assert_eq!(named("1x2x3"), (1920, 1080));
    assert_eq!(named("12 x 34"), (1920, 1080));
    assert_eq!(named("-1x5"), (1920, 5));
    assert_eq!(named("4294967295x4294967296"), (4294967295, 1080));
    assert_eq!(named("007x0"), (7, 0));
    assert_eq!(named("+x1"), (1920, 1));
    assert_eq!(named("1920X1080"), (1920, 1080));
}

#[test]
fn numerals() {
    let mut out = vec![b'#'];
    push_decimal(&mut out, 0);
    push_decimal(&mut out, 1234567890);
    push_decimal(&mut out, u64::MAX);
    assert_eq!(out, b"#0123456789018446744073709551615".to_vec());
    let mut text = String::from("n=");
    append_decimal(&mut text, 42);
    append_decimal(&mut text, 0);
    assert_eq!(text, "n=420");
    let bytes = b"ab+123c";
    assert_eq!(parse_u32(bytes, 2, 6), Some(123));
    assert_eq!(parse_u32(bytes, 3, 6), Some(123));
    assert_eq!(parse_u32(bytes, 2, 7), None);
    assert_eq!(parse_u32(bytes, 2, 3), None);
    assert_eq!(parse_u32(bytes, 3, 3), None);
    assert_eq!(parse_u32(b"4294967295", 0, 10), Some(u32::MAX));
    assert_eq!(parse_u32(b"4294967296", 0, 10), None);
    assert_eq!(parse_u32(b"99999999999999999999999", 0, 23), None);
    for n in [0u32, 9, 10, 99, 100, 65535, u32::MAX] {
        let mut digits = Vec::new();
        push_decimal(&mut digits, n as u64);
        assert_eq!(parse_u32(&digits, 0, digits.len()), Some(n));
    }
}

#[test]
fn bytes_and_strings() {
    assert_eq!(find_byte(b"abcabc", b'b', 0), 1);
    assert_eq!(find_byte(b"abcabc", b'b', 2), 4);
    assert_eq!(find_byte(b"abcabc", b'z', 0), 6);
    assert_eq!(find_byte(b"abc", b'a', 3), 3);
    assert!(str_equal("", ""));
    assert!(str_equal("sc\u{e8}ne", "sc\u{e8}ne"));
    assert!(!str_equal("scene", "scenf"));
    assert!(!str_equal("scene", "scene1"));
}
