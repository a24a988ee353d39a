use virtualos::image::{
    blob_url, expect_image_manifest, is_gzip_layer, linux_amd64_manifest, manifest_url,
    normalize_reference, parse_image_reference, plan_layers, resolve_manifest, token_url,
    ImageConfig, ImageError, ImageIndex, ImageManifest, LayerRef, ManifestConfigRef,
    ManifestDescriptor, ManifestNext, ManifestResponse, Platform, Rootfs,
};

#[test]
fn normalizes_short_references() {
    assert_eq!(normalize_reference("alpine"), "library/alpine");
    assert_eq!(normalize_reference("alpine:3.19"), "library/alpine:3.19");
    assert_eq!(normalize_reference("myorg/app"), "myorg/app");
    let once = normalize_reference("busybox");
    assert_eq!(normalize_reference(&once), once);
}

#[test]
fn splits_references() {
    let t = |r: &str| parse_image_reference(r).unwrap();
    assert_eq!(
        t("docker.io/library/alpine:latest"),
        ("docker.io".to_string(), "library/alpine".to_string(), "latest".to_string())
    );
    assert_eq!(
        t("library/alpine:3.19"),
        ("registry-1.docker.io".to_string(), "library/alpine".to_string(), "3.19".to_string())
    );
    assert_eq!(
        t("library/alpine"),
        ("registry-1.docker.io".to_string(), "library/alpine".to_string(), "latest".to_string())
    );
    assert_eq!(
        t("localhost:5000/team/app:v1"),
        ("localhost:5000".to_string(), "team/app".to_string(), "v1".to_string())
    );
    assert_eq!(
        t("localhost/app"),
        ("localhost".to_string(), "app".to_string(), "latest".to_string())
    );
    // a ':' followed by a '/' is a port, not a tag
    assert_eq!(
        t("team:x/app"),
        ("team:x".to_string(), "app".to_string(), "latest".to_string())
    );
}

fn descriptor(digest: &str, os: &str, arch: &str) -> ManifestDescriptor {
    ManifestDescriptor {
        digest: digest.to_string(),
        platform: Platform { architecture: arch.to_string(), os: os.to_string() },
    }
}

#[test]
fn picks_first_linux_amd64() {
    let index = ImageIndex {
        manifests: vec![
            descriptor("sha256:a", "linux", "arm64"),
            descriptor("sha256:b", "linux", "amd64"),
            descriptor("sha256:c", "linux", "amd64"),
        ],
    };
    assert_eq!(linux_amd64_manifest(&index), Ok(1));
    let none = ImageIndex { manifests: vec![descriptor("sha256:a", "windows", "amd64")] };
    assert_eq!(linux_amd64_manifest(&none), Err(ImageError::NoPlatformManifest));
}

fn manifest(layers: Vec<LayerRef>) -> ImageManifest {
    ImageManifest {
        schema_version: 2,
        config: ManifestConfigRef { digest: "sha256:cfg".to_string() },
        layers,
    }
}

#[test]
fn resolves_indexes() {
    let index = ImageIndex { manifests: vec![descriptor("sha256:x", "linux", "amd64")] };
    match resolve_manifest(ManifestResponse::Index(index)) {
        Ok(ManifestNext::FetchDigest(d)) => assert_eq!(d, "sha256:x"),
        _ => panic!("expected a digest to fetch"),
    }
    assert!(matches!(resolve_manifest(ManifestResponse::Image(manifest(vec![]))), Ok(ManifestNext::Ready(_))));
    let empty = ImageIndex { manifests: vec![] };
    assert!(matches!(resolve_manifest(ManifestResponse::Index(empty)), Err(ImageError::NoPlatformManifest)));
    assert!(expect_image_manifest(ManifestResponse::Image(manifest(vec![]))).is_ok());
    assert!(matches!(
        expect_image_manifest(ManifestResponse::Index(ImageIndex { manifests: vec![] })),
        Err(ImageError::NestedIndex)
    ));
}

#[test]
fn gzip_media_types() {
    assert!(is_gzip_layer(&Some("application/vnd.docker.image.rootfs.diff.tar.gzip".to_string())));
    assert!(is_gzip_layer(&Some("application/vnd.oci.image.layer.v1.tar+gzip".to_string())));
    assert!(!is_gzip_layer(&Some("application/vnd.oci.image.layer.v1.tar".to_string())));
    assert!(!is_gzip_layer(&None));
}

#[test]
fn pairs_layers_with_diff_ids() {
    let m = manifest(vec![
        LayerRef { digest: "sha256:l1".to_string(), media_type: Some("tar+gzip".to_string()) },
        LayerRef { digest: "sha256:l2".to_string(), media_type: None },
    ]);
    let c = ImageConfig { rootfs: Rootfs { diff_ids: vec!["sha256:d1".to_string(), "sha256:d2".to_string()] } };
    let plan = plan_layers(&m, &c).unwrap();
    assert_eq!(plan.len(), 2);
    assert_eq!(plan[0].digest, "sha256:l1");
    assert_eq!(plan[0].diff_id, "sha256:d1");
    assert!(plan[0].gzip);
    assert_eq!(plan[1].diff_id, "sha256:d2");
    assert!(!plan[1].gzip);
    let short = ImageConfig { rootfs: Rootfs { diff_ids: vec!["sha256:d1".to_string()] } };
    assert!(matches!(
        plan_layers(&m, &short),
        Err(ImageError::LayerCountMismatch { layers: 2, diff_ids: 1 })
    ));
}

#[test]
fn registry_locations() {
    assert_eq!(
        token_url("library/alpine"),
        "https://auth.docker.io/token?service=registry.docker.io&scope=repository:library/alpine:pull"
    );
    assert_eq!(
        manifest_url("registry-1.docker.io", "library/alpine", "latest"),
        "https://registry-1.docker.io/v2/library/alpine/manifests/latest"
    );
    assert_eq!(
        blob_url("r.io", "a/b", "sha256:00"),
        "https://r.io/v2/a/b/blobs/sha256:00"
    );
}

#[test]
fn joined_references_split_back() {
    let full = format!("{}/{}:{}", "quay.io", "org/app", "v1.2");
    assert_eq!(
        parse_image_reference(&full),
        Ok(("quay.io".to_string(), "org/app".to_string(), "v1.2".to_string()))
    );
    let short = format!("{}/{}", "localhost", "app");
    assert_eq!(
        parse_image_reference(&short),
        Ok(("localhost".to_string(), "app".to_string(), "latest".to_string()))
    );
}
