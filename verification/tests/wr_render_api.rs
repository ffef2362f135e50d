use wrela::wr_render_api::{ColorRgba8, OffscreenRenderRequest, RenderSize, clear_color_from_seed_hex};

#[test]
fn seed_derived_clear_colors_are_opaque_and_non_zero() {
    let color = clear_color_from_seed_hex("0x00000000DEADBEEF");

    assert_eq!(color.alpha, 255);
    assert!(u16::from(color.red) + u16::from(color.green) + u16::from(color.blue) > 0);
}

#[test]
fn render_size_rejects_zero_dimensions() {
    let error = RenderSize::new(0, 360).validate().expect_err("zero width should fail");

    assert!(error.contains("greater than zero"));
}

#[test]
fn render_size_counts_pixels_and_accepts_positive_sides() {
    let size = RenderSize::new(640, 360);
    assert_eq!(size.pixel_count(), 230_400);
    assert_eq!(size.validate(), Ok(size));
    let request = OffscreenRenderRequest { size, clear_color: ColorRgba8::new(1, 2, 3, 255) };
    assert_eq!(request.validate(), Ok(()));
    let request = OffscreenRenderRequest {
        size: RenderSize::new(640, 0),
        clear_color: ColorRgba8::new(1, 2, 3, 255),
    };
    assert!(request.validate().is_err());
}

#[test]
fn clear_color_reads_the_last_four_hex_pairs() {
    let color = clear_color_from_seed_hex("0x00000000DEADBEEF");
    assert_eq!(color, ColorRgba8::new(254, 221, 254, 255));

    let color = clear_color_from_seed_hex("  0x0102  ");
    assert_eq!(color, ColorRgba8::new(32, 48, 65, 255));

    let color = clear_color_from_seed_hex("zz");
    assert_eq!(color, ColorRgba8::new(32, 48, 64, 255));
}
