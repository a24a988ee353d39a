use std::io::Write;
use virtualos::storage::{layer_contents, verify_layer_blob};
use virtualos::paths::join_path;
use virtualos::storage::{layer_diff_id, overlay_mount_data, verify_layer_digest, Store, StoreError};

#[test]
fn digest_names_replace_colons() {
    assert_eq!(Store::digest_dir_name("sha256:abc"), "sha256_abc");
    assert_eq!(Store::digest_dir_name("a:b:c"), "a_b_c");
    assert_eq!(Store::digest_dir_name("plain"), "plain");
}

#[test]
fn layer_paths() {
    let s = Store::new("/data/store".to_string());
    assert_eq!(s.root, "/data/store");
    assert_eq!(s.layer_path("sha256:ff"), "/data/store/layers/sha256_ff");
    let t = Store::new("./data/store/".to_string());
    assert_eq!(t.layer_path("sha256:01"), "./data/store/layers/sha256_01");
}

#[test]
fn path_join_rules() {
    assert_eq!(join_path("/a", "b"), "/a/b");
    assert_eq!(join_path("/a/", "b"), "/a/b");
    assert_eq!(join_path("", "b"), "b");
    assert_eq!(join_path("/a", "/b"), "/b");
    assert_eq!(join_path("/a", ""), "/a/");
    for (base, comp) in [("/x/y", "z"), ("rel", "z"), ("/x/", "z/w"), ("/x", "/abs")] {
        let expected = std::path::Path::new(base).join(comp);
        assert_eq!(join_path(base, comp), expected.to_str().unwrap());
    }
}

#[test]
fn diff_id_of_known_contents() {
    assert_eq!(
        layer_diff_id(b""),
        "sha256:e3b0c44298fc1c149afbf4c8996fb92427ae41e4649b934ca495991b7852b855"
    );
    assert_eq!(
        layer_diff_id(b"abc"),
        "sha256:ba7816bf8f01cfea414140de5dae2223b00361a396177a9cb410ff61f20015ad"
    );
}

#[test]
fn digest_check() {
    let good = "sha256:ba7816bf8f01cfea414140de5dae2223b00361a396177a9cb410ff61f20015ad";
    assert_eq!(verify_layer_digest(b"abc", good), Ok(()));
    match verify_layer_digest(b"abd", good) {
        Err(StoreError::DigestMismatch { expected, actual }) => {
            assert_eq!(expected, good);
            assert!(actual.starts_with("sha256:"));
            assert_eq!(actual.len(), 71);
            assert_ne!(actual, good);
        }
        other => panic!("unexpected {:?}", other),
    }
}

#[test]
fn overlay_options() {
    let lower = vec!["/l/top".to_string(), "/l/base".to_string()];
    assert_eq!(
        overlay_mount_data(&lower, "/t/upper", "/t/work"),
        "lowerdir=/l/top:/l/base,upperdir=/t/upper,workdir=/t/work"
    );
}

#[test]
fn lower_dirs_are_reversed() {
    let s = Store::new("/s".to_string());
    let ids = vec!["sha256:base".to_string(), "sha256:mid".to_string(), "sha256:top".to_string()];
    let dirs = s.lower_dirs_top_first(&ids).unwrap();
    assert_eq!(dirs, vec!["/s/layers/sha256_top", "/s/layers/sha256_mid", "/s/layers/sha256_base"]);
    assert_eq!(s.lower_dirs_top_first(&vec![]), Err(StoreError::NoLowerLayers));
}

#[test]
fn missing_layers_do_not_exist() {
    let store = Store::new("/nonexistent/virtualos-store".to_string());
    assert!(!store.layer_exists("sha256:abc"));
}

fn gzip(data: &[u8]) -> Vec<u8> {
    let mut e = flate2::write::GzEncoder::new(Vec::new(), flate2::Compression::default());
    e.write_all(data).unwrap();
    e.finish().unwrap()
}

#[test]
fn layer_blobs_are_decompressed_and_checked() {
    let good = "sha256:ba7816bf8f01cfea414140de5dae2223b00361a396177a9cb410ff61f20015ad";
    let packed = gzip(b"abc");
    assert_eq!(layer_contents(&packed, true), Some(b"abc".to_vec()));
    assert_eq!(layer_contents(b"abc", false), Some(b"abc".to_vec()));
    assert_eq!(layer_contents(b"not gzip", true), None);
    assert_eq!(verify_layer_blob(&packed, true, good), Ok(b"abc".to_vec()));
    assert_eq!(verify_layer_blob(b"abc", false, good), Ok(b"abc".to_vec()));
    // the compressed bytes themselves do not hash to the diff id
    assert!(matches!(verify_layer_blob(&packed, false, good), Err(StoreError::DigestMismatch { .. })));
    assert_eq!(verify_layer_blob(b"abc", true, good), Err(StoreError::BadCompression));
}
