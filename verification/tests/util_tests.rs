use asset_store::paths::{asset_main_path, asset_path, join_path};
use asset_store::util::{get_readable_timestamp, get_time_meta, get_timestamp, get_uuid};

#[test]
fn readable_timestamp_renders_the_epoch() {
    assert_eq!(get_readable_timestamp(0), "1970-01-01 00:00:00.000000000");
}

#[test]
fn readable_timestamp_renders_a_known_second() {
    assert_eq!(get_readable_timestamp(1_000_000_000), "2001-09-09 01:46:40.000000000");
}

#[test]
fn uuid_has_the_hyphenated_shape() {
    let u = get_uuid();
    assert_eq!(u.len(), 36);
    let bytes = u.as_bytes();
    for (i, b) in bytes.iter().enumerate() {
        if i == 8 || i == 13 || i == 18 || i == 23 {
            assert_eq!(*b, b'-');
        } else {
            assert!(b.is_ascii_hexdigit());
        }
    }
    // Collision-resistant: two draws differ.
    assert_ne!(u, get_uuid());
}

#[test]
fn timestamp_is_past_the_epoch() {
    assert!(get_timestamp() >= 1_000_000_000);
}

#[test]
fn time_meta_pairs_timestamp_with_its_rendering() {
    let (ts, readable) = get_time_meta();
    assert_eq!(readable, get_readable_timestamp(ts));
}

#[test]
fn paths_compose_exactly() {
    assert_eq!(asset_main_path(), "assets");
    assert_eq!(join_path("assets", "media"), "assets/media");
    assert_eq!(join_path("a/b", "c"), "a/b/c");
    assert_eq!(asset_path("assets/media", "abc", "mp4"), "assets/media/abc.mp4");
}
