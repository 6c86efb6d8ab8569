use render_to_video::textured_rect::{
    mag_filter, min_filter, rect_distortion, rect_distortion_for_entity, textured_rect_from_image,
    CalibratedResolution, MagnificationFilter, PinholeInfo, TextureFilterMag, TextureFilterMin,
};

fn calibrated(width: f32, height: f32) -> CalibratedResolution<(f32, f32)> {
    CalibratedResolution {
        resolution: (width, height),
        width_degenerate: width <= 0.0,
        height_degenerate: height <= 0.0,
    }
}

#[test]
fn none_when_nothing_to_rectify() {
    let coeffs = [0.1, 0.0, 0.0, 0.0, 0.0, 0.0, 0.0, 0.0];

    // No distortion component -> nothing to rectify.
    assert!(rect_distortion(None::<[f64; 8]>, Some(calibrated(640.0, 480.0))).is_none());
    // Distortion but no resolution -> can't normalize the intrinsics.
    assert!(rect_distortion(Some(coeffs), None::<CalibratedResolution<(f32, f32)>>).is_none());
    // Degenerate resolution -> guarded against divide-by-zero.
    assert!(rect_distortion(Some(coeffs), Some(calibrated(0.0, 480.0))).is_none());
    assert!(rect_distortion(Some(coeffs), Some(calibrated(640.0, -1.0))).is_none());
}

#[test]
fn a_calibrated_distortion_is_rectified() {
    let coeffs = [-0.32, -0.31, 0.0006, -0.0003, 0.66, 0.0, 0.0, 0.0];
    let rectify = rect_distortion(Some(coeffs), Some(calibrated(640.0, 480.0)));
    assert_eq!(rectify, Some((coeffs, (640.0, 480.0))));

    let camera = PinholeInfo {
        distortion: Some(coeffs),
        resolution: Some(calibrated(640.0, 480.0)),
    };
    assert_eq!(rect_distortion_for_entity(Some(camera)), Some((coeffs, (640.0, 480.0))));
    assert!(rect_distortion_for_entity::<[f64; 8], (f32, f32)>(None).is_none());
}

#[test]
fn filters_follow_the_request() {
    assert_eq!(mag_filter(MagnificationFilter::Nearest), TextureFilterMag::Nearest);
    assert_eq!(mag_filter(MagnificationFilter::Linear), TextureFilterMag::Linear);
    assert_eq!(mag_filter(MagnificationFilter::Bicubic), TextureFilterMag::Bicubic);
    assert_eq!(min_filter(MagnificationFilter::Nearest, true), TextureFilterMin::Nearest);
    assert_eq!(min_filter(MagnificationFilter::Nearest, false), TextureFilterMin::Linear);
    assert_eq!(min_filter(MagnificationFilter::Linear, true), TextureFilterMin::Linear);
    assert_eq!(min_filter(MagnificationFilter::Bicubic, true), TextureFilterMin::Linear);
}

#[test]
fn a_rectangle_combines_them() {
    let options = textured_rect_from_image(
        MagnificationFilter::Nearest,
        true,
        Some(PinholeInfo { distortion: Some(7u8), resolution: Some(calibrated(2.0, 2.0)) }),
    );
    assert_eq!(options.texture_filter_magnification, TextureFilterMag::Nearest);
    assert_eq!(options.texture_filter_minification, TextureFilterMin::Nearest);
    assert_eq!(options.distortion, Some((7u8, (2.0, 2.0))));
}
