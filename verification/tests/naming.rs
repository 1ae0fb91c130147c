use thumbnailer::filter::decode_event_key;
use thumbnailer::naming::{calculate_thumb_name, derive_key, is_derived_key};

#[test]
fn derive_key_appends_marker_width_and_extension() {
    assert_eq!(derive_key("photo", 500, "webp"), "photo_rrs_w500.webp");
}

#[test]
fn derive_key_strips_the_source_extension() {
    assert_eq!(derive_key("photos/dog.png", 128, "png"), "photos/dog_rrs_w128.png");
    assert_eq!(derive_key("a.b.c.jpeg", 64, "jpg"), "a.b.c_rrs_w64.jpg");
}

#[test]
fn derive_key_without_dot_uses_whole_key_as_stem() {
    assert_eq!(derive_key("archive/raw", 1080, "jpg"), "archive/raw_rrs_w1080.jpg");
}

#[test]
fn derive_key_is_deterministic_across_calls() {
    let a = derive_key("photos/cat.jpg", 750, "webp");
    let b = derive_key("photos/cat.jpg", 750, "webp");
    assert_eq!(a, b);
}

#[test]
fn derive_key_distinct_widths_give_distinct_keys() {
    let keys: Vec<String> =
        [128u32, 256, 384, 640, 750, 828, 1080, 1200, 1440, 1920]
            .iter()
            .map(|w| derive_key("photos/cat.jpg", *w, "webp"))
            .collect();
    for i in 0..keys.len() {
        for j in 0..keys.len() {
            if i != j {
                assert_ne!(keys[i], keys[j]);
            }
        }
    }
}

#[test]
fn derived_keys_are_recognized_as_derived() {
    assert!(is_derived_key(&derive_key("photo.png", 500, "png")));
    assert!(is_derived_key(&derive_key("no_extension", 128, "webp")));
    assert!(is_derived_key(&derive_key("", 1, "jpg")));
}

#[test]
fn is_derived_key_spots_the_marker() {
    assert!(is_derived_key("img_rrs_w500.jpg"));
    assert!(is_derived_key("a/b/c_rrs_w1920.webp"));
    assert!(!is_derived_key("img.jpg"));
    assert!(!is_derived_key(""));
    assert!(!is_derived_key("_rrs_v500.jpg"));
}

#[test]
fn calculate_thumb_name_keeps_the_source_extension() {
    assert_eq!(calculate_thumb_name(&"img.jpg".to_string(), &500), "img_rrs_w500.jpg");
    assert_eq!(
        calculate_thumb_name(&"photos/dog.png".to_string(), &128),
        "photos/dog_rrs_w128.png"
    );
}

#[test]
fn calculate_thumb_name_without_dot_repeats_the_key() {
    assert_eq!(calculate_thumb_name(&"photo".to_string(), &500), "photo_rrs_w500.photo");
}

#[test]
fn decode_event_key_turns_plus_into_space() {
    assert_eq!(decode_event_key("my+holiday+photo.jpg"), "my holiday photo.jpg");
    assert_eq!(decode_event_key("plain.jpg"), "plain.jpg");
    assert_eq!(decode_event_key(""), "");
}
