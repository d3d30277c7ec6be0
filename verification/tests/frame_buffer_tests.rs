use interstellar_triangulum::renderer::compositor::Compositor;
use interstellar_triangulum::renderer::frame_buffer::FrameBuffer;
use interstellar_triangulum::script::{Position, Resolution, Transform};

#[test]
fn test_frame_buffer_creation() {
    let fb = FrameBuffer::new(1920, 1080);
    assert_eq!(fb.dimensions(), (1920, 1080));
    assert_eq!(fb.as_bytes().len(), 1920 * 1080 * 4);
}

#[test]
fn test_clear() {
    let mut fb = FrameBuffer::new(100, 100);
    fb.clear([255, 0, 0, 255]); // Red

    assert_eq!(fb.get_pixel(0, 0), Some([255, 0, 0, 255]));
    assert_eq!(fb.get_pixel(50, 50), Some([255, 0, 0, 255]));
}

#[test]
fn test_set_get_pixel() {
    let mut fb = FrameBuffer::new(100, 100);
    fb.set_pixel(10, 20, [100, 150, 200, 255]);

    assert_eq!(fb.get_pixel(10, 20), Some([100, 150, 200, 255]));
    assert_eq!(fb.get_pixel(100, 100), None); // Out of bounds
}

#[test]
fn test_alpha_blending() {
    let mut fb = FrameBuffer::new(100, 100);
    fb.clear([255, 255, 255, 255]); // White background

    // Blend 50% transparent red
    fb.blend_pixel(50, 50, [255, 0, 0, 128]);

    let pixel = fb.get_pixel(50, 50).unwrap();
    // Should be approximately pink (255, 127, 127, 255)
    assert!(pixel[0] == 255);
    assert!(pixel[1] > 120 && pixel[1] < 135);
    assert!(pixel[2] > 120 && pixel[2] < 135);
}

#[test]
fn test_fill_rect() {
    let mut fb = FrameBuffer::new(100, 100);
    fb.clear([0, 0, 0, 255]);

    Compositor::fill_rect(&mut fb, 10, 10, 20, 20, [255, 0, 0, 255]);

    // Inside rectangle should be red
    assert_eq!(fb.get_pixel(15, 15), Some([255, 0, 0, 255]));

    // Outside should be black
    assert_eq!(fb.get_pixel(5, 5), Some([0, 0, 0, 255]));
}

#[test]
fn test_apply_transform() {
    let transform = Transform {
        position: Position { x: 100, y: 50 },
        scale: interstellar_triangulum::decimal::Decimal::from_units(1),
        rotation: interstellar_triangulum::decimal::Decimal::from_units(0),
        opacity: interstellar_triangulum::decimal::Decimal::from_units(1),
    };

    let (tx, ty) = Compositor::apply_transform(10, 20, &transform);
    assert_eq!((tx, ty), (110, 70));
}

#[test]
fn test_resolution_parsing() {
    let res = Resolution::Named("1920x1080".to_string());
    assert_eq!(res.dimensions(), (1920, 1080));

    let res = Resolution::Dimensions {
        width: 1280,
        height: 720,
    };
    assert_eq!(res.dimensions(), (1280, 720));
}

#[test]
fn test_position_default() {
    let pos = Position::default();
    assert_eq!(pos.x, 0);
    assert_eq!(pos.y, 0);
}

#[test]
fn test_resolution_invalid_format() {
    let res = Resolution::Named("invalid".to_string());
    assert_eq!(res.dimensions(), (1920, 1080)); // Should default

    let res = Resolution::Named("1920".to_string());
    assert_eq!(res.dimensions(), (1920, 1080)); // Should default

    let res = Resolution::Named("".to_string());
    assert_eq!(res.dimensions(), (1920, 1080)); // Should default
}
