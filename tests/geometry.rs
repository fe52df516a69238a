use ex_webp::codec::{webp_config, ContentHint, DEFAULT_QUALITY_HUNDREDTHS};
use ex_webp::geometry::{
    calc_dimension, clamp_crop, resize_percent_dimensions, select_geometry, CropConfig,
    GeometrySpec,
};

#[test]
fn landscape_sixteen_by_nine_keeps_width() {
    assert_eq!(calc_dimension(1920, 1080, 320, 999), (320, 180));
}

#[test]
fn square_source_keeps_width() {
    assert_eq!(calc_dimension(500, 500, 200, 7), (200, 200));
}

#[test]
fn landscape_four_by_three_ignores_height() {
    assert_eq!(calc_dimension(640, 480, 320, 0), (320, 240));
}

#[test]
fn portrait_three_by_four_keeps_height() {
    assert_eq!(calc_dimension(300, 400, 999, 200), (150, 200));
}

#[test]
fn fit_rounds_to_nearest() {
    // 100 * 2 / 3 = 66.67 rounds to 67; 1 * 1 / 2 = 0.5 rounds up to 1.
    assert_eq!(calc_dimension(3, 2, 100, 1), (100, 67));
    assert_eq!(calc_dimension(2, 1, 1, 1), (1, 1));
}

#[test]
fn fit_within_one_pixel_of_float_reference() {
    for &(sw, sh, w) in &[(1920u32, 1080u32, 333u32), (1024, 768, 101), (777, 333, 250)] {
        let (ow, oh) = calc_dimension(sw, sh, w, 1);
        let reference = (sh as f64 / sw as f64 * w as f64).round();
        assert_eq!(ow, w);
        assert!((oh as f64 - reference).abs() <= 1.0);
    }
}

#[test]
fn half_size_rounds_each_side() {
    assert_eq!(resize_percent_dimensions(640, 480, 5000), (320, 240));
    assert_eq!(resize_percent_dimensions(641, 481, 5000), (321, 241));
    assert_eq!(resize_percent_dimensions(1, 1, 5000), (1, 1));
}

#[test]
fn percent_above_hundred_enlarges() {
    assert_eq!(resize_percent_dimensions(100, 50, 25000), (250, 125));
    assert_eq!(resize_percent_dimensions(u32::MAX, 1, 20000), (2 * u32::MAX as u64, 2));
}

#[test]
fn crop_request_is_clamped_into_source() {
    let c = CropConfig { x: 150, y: 10, width: 500, height: 20 };
    assert_eq!(
        clamp_crop(100, 80, c),
        CropConfig { x: 100, y: 10, width: 100, height: 20 }
    );
}

#[test]
fn crop_takes_precedence() {
    let c = CropConfig { x: 1, y: 2, width: 3, height: 4 };
    assert_eq!(select_geometry(10, 20, 5000, Some(c)), GeometrySpec::Crop(c));
}

#[test]
fn percent_beats_dimensions() {
    assert_eq!(select_geometry(10, 20, 5000, None), GeometrySpec::Percent(5000));
}

#[test]
fn dimensions_need_both_sides() {
    assert_eq!(select_geometry(10, 20, 0, None), GeometrySpec::Dimensions(10, 20));
    assert_eq!(select_geometry(10, 0, 0, None), GeometrySpec::NoOp);
    assert_eq!(select_geometry(0, 0, 0, None), GeometrySpec::NoOp);
}

#[test]
fn omitted_quality_resolves_to_sixty() {
    assert_eq!(DEFAULT_QUALITY_HUNDREDTHS, 6000);
    let implicit = webp_config(0, None, ContentHint::Picture);
    assert_eq!(implicit.quality_hundredths, 6000);
    assert_eq!(implicit, webp_config(0, Some(6000), ContentHint::Picture));
}

#[test]
fn codec_tuning_is_fixed() {
    let c = webp_config(1, Some(8050), ContentHint::Photo);
    assert_eq!(c.lossless, 1);
    assert_eq!(c.quality_hundredths, 8050);
    assert_eq!(c.method, 2);
    assert_eq!(c.image_hint, ContentHint::Photo);
    assert_eq!(c.sns_strength, 70);
    assert_eq!(c.filter_sharpness, 0);
    assert_eq!(c.filter_strength, 25);
}
