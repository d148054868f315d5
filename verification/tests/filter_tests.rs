use clipstitch::filter::{fill_cover_dims, fill_output_dims, filter_chain, fit_scaled_dims};
use clipstitch::types::ImageFitMode;

#[test]
fn fit_chain_is_the_fixed_expression() {
    assert_eq!(
        filter_chain(ImageFitMode::Fit),
        "scale=iw*min(1\\,min(1920/iw\\,1080/ih)):ih*min(1\\,min(1920/iw\\,1080/ih)),pad=1920:1080:(ow-iw)/2:(oh-ih)/2:black,format=yuv444p"
    );
}

#[test]
fn fill_chain_is_the_fixed_expression() {
    assert_eq!(
        filter_chain(ImageFitMode::Fill),
        "scale=1920:1080:force_original_aspect_ratio=increase,crop=1920:1080,format=yuv444p"
    );
}

#[test]
fn fit_never_upscales_a_small_source() {
    assert_eq!(fit_scaled_dims(800, 600), (800, 600));
    assert_eq!(fit_scaled_dims(1, 1), (1, 1));
    assert_eq!(fit_scaled_dims(1920, 1080), (1920, 1080));
}

#[test]
fn fit_shrinks_a_large_source_into_the_canvas() {
    assert_eq!(fit_scaled_dims(3840, 2160), (1920, 1080));
    assert_eq!(fit_scaled_dims(3000, 1000), (1920, 640));
    assert_eq!(fit_scaled_dims(1000, 3000), (360, 1080));
}

#[test]
fn fill_covers_the_canvas_in_both_dimensions() {
    let square = fill_cover_dims(1000, 1000);
    assert_eq!(square, (1920, 1920));
    let wide = fill_cover_dims(4000, 1000);
    assert_eq!(wide, (4320, 1080));
    let tall = fill_cover_dims(1080, 3840);
    assert!(tall.0 >= 1920 && tall.1 >= 1080);
}

#[test]
fn fill_output_is_exactly_the_canvas_for_any_aspect_ratio() {
    for (w, h) in [(1, 1), (10_000, 1), (1, 10_000), (1920, 1080), (333, 777)] {
        assert_eq!(fill_output_dims(w, h), (1920, 1080));
    }
}
