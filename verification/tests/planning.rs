use thumbnailer::formats::{resolve_output, FormatError, OutputFormat};
use thumbnailer::planner::plan_width;

#[test]
fn aspect_height_is_truncating() {
    assert_eq!(plan_width(1000, 500, 750, true), Some((750, 375)));
    assert_eq!(plan_width(1000, 500, 750, false), Some((750, 375)));
}

#[test]
fn no_upscale_keeps_source_dimensions() {
    assert_eq!(plan_width(300, 200, 500, true), Some((300, 200)));
    assert_eq!(plan_width(300, 200, 300, true), Some((300, 200)));
}

#[test]
fn upscaling_when_allowed_uses_the_formula() {
    assert_eq!(plan_width(300, 200, 600, false), Some((600, 400)));
}

#[test]
fn truncation_can_reach_zero_height() {
    assert_eq!(plan_width(300, 1, 128, true), Some((128, 0)));
}

#[test]
fn resolve_output_maps_the_known_image_types() {
    assert_eq!(resolve_output(&"image/jpeg".to_string(), None), Ok(OutputFormat::Jpeg));
    assert_eq!(resolve_output(&"image/png".to_string(), None), Ok(OutputFormat::Png));
    assert_eq!(resolve_output(&"image/webp".to_string(), None), Ok(OutputFormat::Webp));
}

#[test]
fn resolve_output_rejects_everything_else() {
    assert_eq!(
        resolve_output(&"text/plain".to_string(), None),
        Err(FormatError::Unsupported)
    );
    assert_eq!(
        resolve_output(&"image/gif".to_string(), None),
        Err(FormatError::Unsupported)
    );
    assert_eq!(resolve_output(&"".to_string(), None), Err(FormatError::Unsupported));
}

#[test]
fn forced_format_always_wins() {
    assert_eq!(
        resolve_output(&"image/png".to_string(), Some(OutputFormat::Webp)),
        Ok(OutputFormat::Webp)
    );
    assert_eq!(
        resolve_output(&"text/plain".to_string(), Some(OutputFormat::Jpeg)),
        Ok(OutputFormat::Jpeg)
    );
}
