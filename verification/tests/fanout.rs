use thumbnailer::formats::OutputFormat;
use thumbnailer::pipeline::{derive_variants, ObjectOutcome, OutputPolicy, SizeOutcome};

fn png_bytes(width: u32, height: u32) -> Vec<u8> {
    let img = image::DynamicImage::ImageRgb8(image::RgbImage::new(width, height));
    let mut cursor = std::io::Cursor::new(Vec::new());
    img.write_to(&mut cursor, image::ImageOutputFormat::Png).unwrap();
    cursor.into_inner()
}

fn policy() -> OutputPolicy {
    OutputPolicy { force_format: None, skip_upscaling: true, jpeg_quality: 90 }
}

fn results_of(outcome: ObjectOutcome) -> Vec<SizeOutcome> {
    match outcome {
        ObjectOutcome::Processed { results } => results,
        ObjectOutcome::DecodeFailed => panic!("expected the object to be processed"),
    }
}

#[test]
fn multi_size_fanout_resizes_down_and_copies_at_native_size() {
    let outcome = derive_variants(
        &"photos/dog.png".to_string(),
        &"image/png".to_string(),
        &png_bytes(300, 200),
        &vec![128, 500],
        &policy(),
        &Vec::new(),
    );
    let results = results_of(outcome);
    assert_eq!(results.len(), 2);
    match &results[0] {
        SizeOutcome::Ready { upload } => {
            assert_eq!(upload.key, "photos/dog_rrs_w128.png");
            assert_eq!(upload.content_type, "image/png");
            assert_eq!((upload.width, upload.height), (128, 85));
            let img = image::load_from_memory(&upload.bytes).unwrap();
            assert_eq!((image::GenericImageView::width(&img), image::GenericImageView::height(&img)), (128, 85));
        }
        other => panic!("expected a ready upload, got {:?}", other),
    }
    match &results[1] {
        SizeOutcome::Ready { upload } => {
            assert_eq!(upload.key, "photos/dog_rrs_w500.png");
            assert_eq!((upload.width, upload.height), (300, 200));
            let img = image::load_from_memory(&upload.bytes).unwrap();
            assert_eq!((image::GenericImageView::width(&img), image::GenericImageView::height(&img)), (300, 200));
        }
        other => panic!("expected a ready upload, got {:?}", other),
    }
}

#[test]
fn malformed_bytes_abandon_the_object() {
    let outcome = derive_variants(
        &"photos/dog.png".to_string(),
        &"image/png".to_string(),
        &vec![0, 1, 2, 3, 4, 5, 6, 7],
        &vec![128, 500],
        &policy(),
        &Vec::new(),
    );
    assert!(matches!(outcome, ObjectOutcome::DecodeFailed));
}

#[test]
fn a_listed_variant_is_skipped_and_siblings_continue() {
    let outcome = derive_variants(
        &"photos/dog.png".to_string(),
        &"image/png".to_string(),
        &png_bytes(300, 200),
        &vec![128, 500],
        &policy(),
        &vec!["photos/dog_rrs_w128.png".to_string()],
    );
    let results = results_of(outcome);
    match &results[0] {
        SizeOutcome::AlreadyExists { key } => assert_eq!(key, "photos/dog_rrs_w128.png"),
        other => panic!("expected an existing-variant skip, got {:?}", other),
    }
    assert!(matches!(&results[1], SizeOutcome::Ready { .. }));
}

#[test]
fn unresolvable_format_fails_each_size_without_aborting() {
    let outcome = derive_variants(
        &"anim.gif".to_string(),
        &"image/gif".to_string(),
        &png_bytes(50, 50),
        &vec![128, 500],
        &policy(),
        &Vec::new(),
    );
    let results = results_of(outcome);
    assert_eq!(results.len(), 2);
    assert!(matches!(&results[0], SizeOutcome::UnsupportedFormat));
    assert!(matches!(&results[1], SizeOutcome::UnsupportedFormat));
}

#[test]
fn degenerate_planned_height_fails_only_that_size() {
    let outcome = derive_variants(
        &"line.png".to_string(),
        &"image/png".to_string(),
        &png_bytes(300, 1),
        &vec![128, 500],
        &policy(),
        &Vec::new(),
    );
    let results = results_of(outcome);
    assert!(matches!(&results[0], SizeOutcome::ResizeFailed));
    match &results[1] {
        SizeOutcome::Ready { upload } => assert_eq!((upload.width, upload.height), (300, 1)),
        other => panic!("expected a ready upload, got {:?}", other),
    }
}

#[test]
fn forcing_webp_renames_and_reencodes_every_variant() {
    let outcome = derive_variants(
        &"photos/dog.png".to_string(),
        &"image/png".to_string(),
        &png_bytes(300, 200),
        &vec![128],
        &OutputPolicy {
            force_format: Some(OutputFormat::Webp),
            skip_upscaling: true,
            jpeg_quality: 90,
        },
        &Vec::new(),
    );
    let results = results_of(outcome);
    match &results[0] {
        SizeOutcome::Ready { upload } => {
            assert_eq!(upload.key, "photos/dog_rrs_w128.webp");
            assert_eq!(upload.content_type, "image/webp");
            let img = image::load_from_memory(&upload.bytes).unwrap();
            assert_eq!(image::GenericImageView::width(&img), 128);
        }
        other => panic!("expected a ready upload, got {:?}", other),
    }
}

#[test]
fn rerunning_the_fanout_yields_the_same_keys() {
    let bytes = png_bytes(300, 200);
    let first = results_of(derive_variants(
        &"photos/dog.png".to_string(),
        &"image/png".to_string(),
        &bytes,
        &vec![128, 500],
        &policy(),
        &Vec::new(),
    ));
    let second = results_of(derive_variants(
        &"photos/dog.png".to_string(),
        &"image/png".to_string(),
        &bytes,
        &vec![128, 500],
        &policy(),
        &Vec::new(),
    ));
    for (a, b) in first.iter().zip(second.iter()) {
        match (a, b) {
            (SizeOutcome::Ready { upload: ua }, SizeOutcome::Ready { upload: ub }) => {
                assert_eq!(ua.key, ub.key);
                assert_eq!(ua.bytes, ub.bytes);
            }
            _ => panic!("expected ready uploads on both runs"),
        }
    }
}
