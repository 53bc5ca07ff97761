use ray_trace::buffer::{ConfigError, PixelBuffer};
use ray_trace::materials::{scatter_verdict, MaterialKind, Mirror};
use ray_trace::scene::nearest_hit_step;
use ray_trace::trace::{ray_color_step, BounceEvent, TraceAction};
use ray_trace::Rgb;

#[test]
fn new_buffer_is_all_black() {
    let buf = PixelBuffer::new(3, 2).unwrap();
    assert_eq!(buf.width(), 3);
    assert_eq!(buf.height(), 2);
    for row in 0..2 {
        for col in 0..3 {
            assert_eq!(buf.get_pixel(row, col), Rgb::black());
        }
    }
}

#[test]
fn zero_width_is_rejected() {
    match PixelBuffer::new(0, 7) {
        Err(ConfigError::NonPositiveDimensions) => {}
        _ => panic!("a zero-width image must be rejected"),
    }
}

#[test]
fn zero_height_is_rejected() {
    match PixelBuffer::new(7, 0) {
        Err(ConfigError::NonPositiveDimensions) => {}
        _ => panic!("a zero-height image must be rejected"),
    }
}

#[test]
fn set_then_get_returns_the_pixel() {
    let mut buf = PixelBuffer::new(4, 3).unwrap();
    let c = Rgb { r: 10, g: 20, b: 30 };
    buf.set_pixel(2, 1, c);
    assert_eq!(buf.get_pixel(2, 1), c);
    assert_eq!(buf.get_pixel(2, 0), Rgb { r: 0, g: 0, b: 0 });
    assert_eq!(buf.get_pixel(1, 1), Rgb { r: 0, g: 0, b: 0 });
}

#[test]
fn bytes_are_row_major_rgb_triples() {
    let mut buf = PixelBuffer::new(2, 2).unwrap();
    buf.set_pixel(0, 0, Rgb { r: 1, g: 2, b: 3 });
    buf.set_pixel(0, 1, Rgb { r: 4, g: 5, b: 6 });
    buf.set_pixel(1, 0, Rgb { r: 7, g: 8, b: 9 });
    buf.set_pixel(1, 1, Rgb { r: 10, g: 11, b: 12 });
    let bytes = buf.as_bytes();
    assert_eq!(bytes, vec![1, 2, 3, 4, 5, 6, 7, 8, 9, 10, 11, 12]);
}

#[test]
fn bytes_length_is_three_per_pixel() {
    let buf = PixelBuffer::new(5, 4).unwrap();
    assert_eq!(buf.as_bytes().len(), 3 * 5 * 4);
}

#[test]
fn rows_assemble_in_row_major_order() {
    let rows = vec![
        vec![Rgb { r: 1, g: 2, b: 3 }, Rgb { r: 4, g: 5, b: 6 }],
        vec![Rgb { r: 7, g: 8, b: 9 }, Rgb { r: 10, g: 11, b: 12 }],
        vec![Rgb { r: 13, g: 14, b: 15 }, Rgb { r: 16, g: 17, b: 18 }],
    ];
    let buf = PixelBuffer::from_rows(2, &rows).unwrap();
    assert_eq!(buf.width(), 2);
    assert_eq!(buf.height(), 3);
    assert_eq!(buf.get_pixel(0, 0), Rgb { r: 1, g: 2, b: 3 });
    assert_eq!(buf.get_pixel(1, 1), Rgb { r: 10, g: 11, b: 12 });
    assert_eq!(buf.get_pixel(2, 0), Rgb { r: 13, g: 14, b: 15 });
    let bytes = buf.as_bytes();
    assert_eq!(bytes, (1..=18).collect::<Vec<u8>>());
}

#[test]
fn row_assembly_agrees_with_pixelwise_assembly() {
    let pixel = |row: u32, col: u32| Rgb {
        r: (10 * row + col) as u8,
        g: (20 * row + col) as u8,
        b: (30 * row + col) as u8,
    };
    let rows: Vec<Vec<Rgb>> = (0..4)
        .map(|row| (0..3).map(|col| pixel(row, col)).collect())
        .collect();
    let assembled = PixelBuffer::from_rows(3, &rows).unwrap();
    let mut written = PixelBuffer::new(3, 4).unwrap();
    for row in 0..4 {
        for col in 0..3 {
            written.set_pixel(row, col, pixel(row, col));
        }
    }
    assert_eq!(assembled.as_bytes(), written.as_bytes());
}

#[test]
fn ragged_rows_are_rejected() {
    let rows = vec![
        vec![Rgb { r: 0, g: 0, b: 0 }, Rgb { r: 0, g: 0, b: 0 }],
        vec![Rgb { r: 0, g: 0, b: 0 }],
    ];
    match PixelBuffer::from_rows(2, &rows) {
        Err(ConfigError::RaggedRows) => {}
        _ => panic!("rows of unequal width must be rejected"),
    }
}

#[test]
fn empty_row_set_is_rejected() {
    let rows: Vec<Vec<Rgb>> = Vec::new();
    match PixelBuffer::from_rows(4, &rows) {
        Err(ConfigError::NonPositiveDimensions) => {}
        _ => panic!("an image of no rows must be rejected"),
    }
}

#[test]
fn exhausted_depth_is_black_for_every_event() {
    for event in [BounceEvent::Miss, BounceEvent::Absorbed, BounceEvent::Scattered] {
        assert_eq!(ray_color_step(0, event), TraceAction::Black);
    }
}

#[test]
fn miss_shows_the_background() {
    assert_eq!(ray_color_step(50, BounceEvent::Miss), TraceAction::Background);
}

#[test]
fn absorbed_ray_is_black() {
    assert_eq!(ray_color_step(50, BounceEvent::Absorbed), TraceAction::Black);
}

#[test]
fn scattered_ray_spends_one_bounce() {
    assert_eq!(
        ray_color_step(50, BounceEvent::Scattered),
        TraceAction::Recurse { remaining: 49 }
    );
    assert_eq!(
        ray_color_step(1, BounceEvent::Scattered),
        TraceAction::Recurse { remaining: 0 }
    );
}

#[test]
fn scan_returns_the_nearer_of_two_overlapping_spheres() {
    // Two overlapping spheres along one ray, at distances 2.0 ("near") and
    // 5.0 ("far"), in both insertion orders. Nearer first: the farther
    // sphere cannot report inside the range narrowed to distance 2.0, so
    // the nearer stays. Farther first: the nearer sphere reports inside the
    // narrowed range and displaces it. Either order ends on the nearer hit.
    let near_first = nearest_hit_step(nearest_hit_step(None, Some("near")), None);
    assert_eq!(near_first, Some("near"));
    let far_first = nearest_hit_step(nearest_hit_step(None, Some("far")), Some("near"));
    assert_eq!(far_first, Some("near"));
}

#[test]
fn scan_with_no_report_ends_empty() {
    let all_missed: Option<u32> = nearest_hit_step(nearest_hit_step(None, None), None);
    assert_eq!(all_missed, None);
}

#[test]
fn diffuse_and_dielectric_always_scatter() {
    for flag in [false, true] {
        assert!(scatter_verdict(MaterialKind::Lambertian, flag));
        assert!(scatter_verdict(MaterialKind::Dielectric, flag));
    }
}

#[test]
fn specular_materials_absorb_a_backfacing_scatter() {
    for kind in [MaterialKind::Metal, MaterialKind::Mirror] {
        assert!(scatter_verdict(kind, true));
        assert!(!scatter_verdict(kind, false));
    }
}

#[test]
fn mirror_is_shared_by_handle() {
    let m = Mirror::new();
    let m2 = m.clone();
    assert_eq!(*m, *m2);
}
