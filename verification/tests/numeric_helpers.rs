use wrela::wr_math::mix_seed;
use wrela::wr_platform::clock::{Duration, step_duration_for_rate};
use wrela::wr_platform::shell::{default_clear_color, render_interval};
use wrela::wr_render_api::{ColorRgba8, RenderSize};
use wrela::wr_render_wgpu::{align_to, clamp_surface_size, count_non_empty_pixels, unpad_rows};
use wrela::wr_telemetry::percentile_index;
use wrela::wr_world_seed::{RootSeed, SeedRng};

#[test]
fn math_mix_seed_is_splitmix_of_the_mixed_state() {
    assert_eq!(mix_seed(0, 0), 0);
    let mut rng = SeedRng::new(RootSeed::parse_hex("0x0").expect("zero seed"));
    assert_eq!(mix_seed(0, 1), rng.next_u64());
    assert_ne!(mix_seed(1, 1), mix_seed(0, 1));
}

#[test]
fn wgpu_pixel_and_alignment_helpers() {
    assert_eq!(count_non_empty_pixels(&[0, 0, 0, 0, 0, 0, 0, 1, 9, 9]), 1);
    assert_eq!(count_non_empty_pixels(&[]), 0);
    assert_eq!(count_non_empty_pixels(&[1, 0, 0, 0, 0, 2, 0, 0]), 2);
    assert_eq!(align_to(1, 256), 256);
    assert_eq!(align_to(512, 256), 512);
    assert_eq!(align_to(0, 4), 0);
    assert_eq!(clamp_surface_size(RenderSize::new(9000, 100), 8192), RenderSize::new(8192, 100));
}

#[test]
fn telemetry_percentile_index() {
    assert_eq!(percentile_index(0, 95), 0);
    assert_eq!(percentile_index(1, 95), 0);
    assert_eq!(percentile_index(21, 95), 19);
    assert_eq!(percentile_index(100, 50), 49);
}

#[test]
fn platform_render_interval_matches_the_float_step() {
    let expected = std::time::Duration::from_secs_f64(1.0 / 60.0).as_nanos();
    assert_eq!(render_interval().as_nanos(), expected);
    for rate in [1u32, 3, 7, 60, 90, 120, 144, 1000, 999_999] {
        let expected = std::time::Duration::from_secs_f64(1.0 / f64::from(rate)).as_nanos();
        assert_eq!(step_duration_for_rate(rate).as_nanos(), expected, "rate {rate}");
    }
    assert_eq!(render_interval(), step_duration_for_rate(60));
    assert_ne!(render_interval(), Duration::zero());
    assert_eq!(default_clear_color(), ColorRgba8::new(46, 78, 126, 255));
}

#[test]
fn readback_rows_lose_their_padding() {
    let data = [1u8, 2, 3, 9, 4, 5, 6, 9];
    assert_eq!(unpad_rows(&data, 3, 4, 2), vec![1, 2, 3, 4, 5, 6]);
    assert_eq!(unpad_rows(&data, 4, 4, 2), data.to_vec());
    assert_eq!(unpad_rows(&data, 2, 4, 1), vec![1, 2]);
    assert!(unpad_rows(&data, 0, 4, 2).is_empty());
    let padded = align_to(3 * 4, 256);
    let readback = vec![7u8; padded as usize * 2];
    assert_eq!(unpad_rows(&readback, 12, padded, 2), vec![7u8; 24]);
}
