//! Image references, registry locations and the layer bookkeeping of an image
//! pull: the manifest and configuration records, selection of the platform
//! manifest from an index, and the pairing of layers with their diff ids.
use vstd::prelude::*;
use crate::text::{
    chars_of, concat, contains_infix, find_first, find_last, has_infix, last_index_of,
    prefix_len_before, push_str, range_contains, range_equals, string_of_range,
};

verus! {

/// Registry used when a reference names none.
pub const DEFAULT_REGISTRY: &'static str = "registry-1.docker.io";

/// Token service of the default registry.
pub const AUTH_URL: &'static str = "https://auth.docker.io/token";

/// Media types accepted for manifests: single-platform manifests and indexes.
pub const ACCEPT_HEADER: &'static str = "application/vnd.oci.image.index.v1+json, application/vnd.oci.image.manifest.v1+json, application/vnd.docker.distribution.manifest.list.v2+json, application/vnd.docker.distribution.manifest.v2+json";

pub struct ImageConfig {
    pub rootfs: Rootfs,
}

pub struct Rootfs {
    pub diff_ids: Vec<String>,
}

pub struct ImageIndex {
    pub manifests: Vec<ManifestDescriptor>,
}

pub struct ManifestDescriptor {
    pub digest: String,
    pub platform: Platform,
}

pub struct Platform {
    pub architecture: String,
    pub os: String,
}

pub struct ImageManifest {
    pub schema_version: u32,
    pub config: ManifestConfigRef,
    pub layers: Vec<LayerRef>,
}

pub struct ManifestConfigRef {
    pub digest: String,
}

pub struct LayerRef {
    pub digest: String,
    pub media_type: Option<String>,
}

pub enum ManifestResponse {
    Image(ImageManifest),
    Index(ImageIndex),
}

/// Errors of the image logic.
#[derive(Debug, PartialEq, Eq)]
pub enum ImageError {
    /// The manifest and the configuration disagree on the number of layers.
    LayerCountMismatch { layers: usize, diff_ids: usize },
    /// An index lists no manifest for linux/amd64.
    NoPlatformManifest,
    /// A manifest that should describe one image is an index again.
    NestedIndex,
    /// The image has no layers.
    NoLayers,
}

/// A short reference ("alpine") stands for an official image ("library/alpine");
/// one that already has a '/' is kept.
pub open spec fn normalized(reference: Seq<char>) -> Seq<char> {
    if reference.contains('/') {
        reference
    } else {
        "library/"@ + reference
    }
}

/// Normalizes a short image reference to its full form.
pub fn normalize_reference(reference: &str) -> (r: String)
    ensures
        r@ == normalized(reference@),
        reference@.contains('/') ==> r@ == reference@,
        !reference@.contains('/') ==> r@ == "library/"@ + reference@,
{
    let chars = chars_of(reference);
    if range_contains(&chars, 0, chars.len(), '/') {
        assert(chars@.subrange(0, chars@.len() as int) =~= chars@);
        reference.to_owned()
    } else {
        assert(chars@.subrange(0, chars@.len() as int) =~= chars@);
        concat("library/", reference)
    }
}

/// Whether the first component of a reference names a registry: it has a
/// '.' or a ':' or is "localhost".
pub open spec fn names_registry(first: Seq<char>) -> bool {
    first.contains('.') || first.contains(':') || first == "localhost"@
}

/// The first '/'-separated component of a reference.
pub open spec fn first_component(reference: Seq<char>) -> Seq<char> {
    reference.take(prefix_len_before(reference, '/'))
}

/// The references that `parse_image_reference` can split: a first component
/// that names a registry must be followed by a '/'.
pub open spec fn splittable(reference: Seq<char>) -> bool {
    names_registry(first_component(reference)) ==> reference.contains('/')
}

/// Registry, repository and tag of a reference. A first component naming a
/// registry is taken as the registry, else the default registry is used; the
/// tag follows the last ':' unless that part holds a '/', else it is "latest".
pub open spec fn split_reference(reference: Seq<char>) -> (Seq<char>, Seq<char>, Seq<char>) {
    let n = prefix_len_before(reference, '/');
    let first = reference.take(n);
    let registry = if names_registry(first) { first } else { DEFAULT_REGISTRY@ };
    let rest = if names_registry(first) { reference.skip(n + 1) } else { reference };
    let j = last_index_of(rest, ':');
    if j >= 0 && !rest.skip(j + 1).contains('/') {
        (registry, rest.take(j), rest.skip(j + 1))
    } else {
        (registry, rest, "latest"@)
    }
}

/// Splits an image reference into registry, repository and tag.
pub fn parse_image_reference(reference: &str) -> (r: Result<(String, String, String), ImageError>)
    requires
        splittable(reference@),
    ensures
        r matches Ok((registry, repo, tag)) && (registry@, repo@, tag@) == split_reference(
            reference@,
        ),
{
    let chars = chars_of(reference);
    let n = find_first(&chars, '/');
    proof {
        crate::text::lemma_prefix_len_before(chars@, '/');
    }
    let localhost = chars_of("localhost");
    let names_reg = range_contains(&chars, 0, n, '.') || range_contains(&chars, 0, n, ':')
        || range_equals(&chars, 0, n, &localhost);
    assert(chars@.subrange(0, n as int) =~= chars@.take(n as int));
    assert(names_reg == names_registry(first_component(reference@)));
    assert(names_reg ==> n < chars.len());
    let registry: String;
    let rest_start: usize;
    if names_reg {
        registry = string_of_range(&chars, 0, n);
        rest_start = n + 1;
    } else {
        registry = DEFAULT_REGISTRY.to_owned();
        rest_start = 0;
    }
    let ghost rest = chars@.subrange(rest_start as int, chars@.len() as int);
    assert(names_reg ==> rest =~= chars@.skip(n + 1));
    assert(!names_reg ==> rest =~= chars@);
    // the part after the registry, as its own character vector
    let mut tail: Vec<char> = Vec::new();
    let mut i = rest_start;
    while i < chars.len()
        invariant
            rest_start <= i <= chars@.len(),
            tail@ == chars@.subrange(rest_start as int, i as int),
        decreases chars@.len() - i,
    {
        tail.push(chars[i]);
        i += 1;
        assert(tail@ =~= chars@.subrange(rest_start as int, i as int));
    }
    assert(tail@ == rest);
    proof {
        crate::text::lemma_last_index_of(rest, ':');
    }
    match find_last(&tail, ':') {
        Some(j) => {
            if !range_contains(&tail, j + 1, tail.len(), '/') {
                assert(tail@.subrange(j + 1, tail@.len() as int) =~= rest.skip(j + 1));
                assert(tail@.subrange(0, j as int) =~= rest.take(j as int));
                let repo = string_of_range(&tail, 0, j);
                let tag = string_of_range(&tail, j + 1, tail.len());
                return Ok((registry, repo, tag));
            }
            assert(tail@.subrange(j + 1, tail@.len() as int) =~= rest.skip(j + 1));
        },
        None => {},
    }
    assert(tail@.subrange(0, tail@.len() as int) =~= rest);
    let repo = string_of_range(&tail, 0, tail.len());
    Ok((registry, repo, "latest".to_owned()))
}

/// The index entry is the linux/amd64 image.
pub open spec fn is_linux_amd64(d: ManifestDescriptor) -> bool {
    d.platform.os@ == "linux"@ && d.platform.architecture@ == "amd64"@
}

/// Position of the first linux/amd64 entry of an index.
pub fn linux_amd64_manifest(index: &ImageIndex) -> (r: Result<usize, ImageError>)
    ensures
        match r {
            Ok(i) => i < index.manifests@.len() && is_linux_amd64(index.manifests@[i as int])
                && forall|j: int| 0 <= j < i ==> !is_linux_amd64(#[trigger] index.manifests@[j]),
            Err(e) => e == ImageError::NoPlatformManifest && forall|j: int|
                0 <= j < index.manifests@.len() ==> !is_linux_amd64(#[trigger] index.manifests@[j]),
        },
{
    let linux = "linux".to_owned();
    let amd64 = "amd64".to_owned();
    let mut i: usize = 0;
    while i < index.manifests.len()
        invariant
            i <= index.manifests@.len(),
            linux@ == "linux"@,
            amd64@ == "amd64"@,
            forall|j: int| 0 <= j < i ==> !is_linux_amd64(#[trigger] index.manifests@[j]),
        decreases index.manifests@.len() - i,
    {
        let d = &index.manifests[i];
        if d.platform.os == linux && d.platform.architecture == amd64 {
            return Ok(i);
        }
        i += 1;
    }
    Err(ImageError::NoPlatformManifest)
}

/// One layer to fetch: its compressed digest, the diff id of its
/// uncompressed contents, and whether the blob is gzip-compressed.
pub struct LayerPlan {
    pub digest: String,
    pub diff_id: String,
    pub gzip: bool,
}

/// A layer blob is decompressed when its media type mentions "gzip".
pub open spec fn is_gzip_media(media_type: Option<Seq<char>>) -> bool {
    match media_type {
        Some(mt) => crate::text::has_infix(mt, "gzip"@),
        None => false,
    }
}

/// The view of an optional string.
pub open spec fn opt_chars(s: Option<String>) -> Option<Seq<char>> {
    match s {
        Some(v) => Some(v@),
        None => None,
    }
}

/// Whether the blob of a layer with this media type must be gunzipped.
pub fn is_gzip_layer(media_type: &Option<String>) -> (r: bool)
    ensures
        r == is_gzip_media(opt_chars(*media_type)),
{
    match media_type {
        Some(mt) => {
            let chars = chars_of(mt.as_str());
            let pattern = chars_of("gzip");
            contains_infix(&chars, &pattern)
        },
        None => false,
    }
}

/// Pairs the manifest's layers with the configuration's diff ids, in order;
/// the two lists must have the same length.
pub fn plan_layers(manifest: &ImageManifest, config: &ImageConfig) -> (r: Result<Vec<LayerPlan>, ImageError>)
    ensures
        r is Ok <==> manifest.layers@.len() == config.rootfs.diff_ids@.len(),
        r matches Err(e) ==> e == (ImageError::LayerCountMismatch {
            layers: manifest.layers@.len() as usize,
            diff_ids: config.rootfs.diff_ids@.len() as usize,
        }),
        r matches Ok(plan) ==> plan@.len() == manifest.layers@.len() && forall|i: int|
            0 <= i < plan@.len() ==> {
                &&& (#[trigger] plan@[i]).digest@ == manifest.layers@[i].digest@
                &&& plan@[i].diff_id@ == config.rootfs.diff_ids@[i]@
                &&& plan@[i].gzip == is_gzip_media(opt_chars(manifest.layers@[i].media_type))
            },
{
    let n = manifest.layers.len();
    if config.rootfs.diff_ids.len() != n {
        return Err(ImageError::LayerCountMismatch { layers: n, diff_ids: config.rootfs.diff_ids.len() });
    }
    let mut plan: Vec<LayerPlan> = Vec::new();
    let mut i: usize = 0;
    while i < n
        invariant
            n == manifest.layers@.len(),
            n == config.rootfs.diff_ids@.len(),
            i <= n,
            plan@.len() == i,
            forall|k: int|
                0 <= k < i ==> {
                    &&& (#[trigger] plan@[k]).digest@ == manifest.layers@[k].digest@
                    &&& plan@[k].diff_id@ == config.rootfs.diff_ids@[k]@
                    &&& plan@[k].gzip == is_gzip_media(opt_chars(manifest.layers@[k].media_type))
                },
        decreases n - i,
    {
        let layer = &manifest.layers[i];
        let gzip = is_gzip_layer(&layer.media_type);
        plan.push(LayerPlan {
            digest: layer.digest.clone(),
            diff_id: config.rootfs.diff_ids[i].clone(),
            gzip,
        });
        i += 1;
    }
    Ok(plan)
}

/// The token request for pulling from `repository` on the default registry.
pub open spec fn token_location(repository: Seq<char>) -> Seq<char> {
    AUTH_URL@ + "?service=registry.docker.io&scope=repository:"@ + repository + ":pull"@
}

/// The location of a manifest (by tag or digest) in a registry.
pub open spec fn manifest_location(registry: Seq<char>, repo: Seq<char>, reference: Seq<char>) -> Seq<char> {
    "https://"@ + registry + "/v2/"@ + repo + "/manifests/"@ + reference
}

/// The location of a blob (configuration or layer) in a registry.
pub open spec fn blob_location(registry: Seq<char>, repo: Seq<char>, digest: Seq<char>) -> Seq<char> {
    "https://"@ + registry + "/v2/"@ + repo + "/blobs/"@ + digest
}

pub fn token_url(repository: &str) -> (r: String)
    ensures
        r@ == token_location(repository@),
{
    let mut r = concat(AUTH_URL, "?service=registry.docker.io&scope=repository:");
    push_str(&mut r, repository);
    push_str(&mut r, ":pull");
    r
}

pub fn manifest_url(registry: &str, repo: &str, reference: &str) -> (r: String)
    ensures
        r@ == manifest_location(registry@, repo@, reference@),
{
    let mut r = concat("https://", registry);
    push_str(&mut r, "/v2/");
    push_str(&mut r, repo);
    push_str(&mut r, "/manifests/");
    push_str(&mut r, reference);
    r
}

pub fn blob_url(registry: &str, repo: &str, digest: &str) -> (r: String)
    ensures
        r@ == blob_location(registry@, repo@, digest@),
{
    let mut r = concat("https://", registry);
    push_str(&mut r, "/v2/");
    push_str(&mut r, repo);
    push_str(&mut r, "/blobs/");
    push_str(&mut r, digest);
    r
}

/// What to do after the first manifest answer: use the image manifest it
/// carries, or fetch the platform manifest named by the index.
pub enum ManifestNext {
    Ready(ImageManifest),
    FetchDigest(String),
}

/// First step of resolving a tag: an image manifest is used as it is; an
/// index leads to its first linux/amd64 entry, whose digest is fetched next.
pub fn resolve_manifest(first: ManifestResponse) -> (r: Result<ManifestNext, ImageError>)
    ensures
        first is Image ==> r is Ok && r->Ok_0 is Ready,
        first matches ManifestResponse::Index(index) ==> match r {
            Ok(ManifestNext::FetchDigest(d)) => exists|i: int|
                0 <= i < index.manifests@.len() && is_linux_amd64(#[trigger] index.manifests@[i])
                    && d@ == index.manifests@[i].digest@ && forall|j: int|
                    0 <= j < i ==> !is_linux_amd64(#[trigger] index.manifests@[j]),
            Ok(ManifestNext::Ready(_)) => false,
            Err(e) => e == ImageError::NoPlatformManifest && forall|j: int|
                0 <= j < index.manifests@.len() ==> !is_linux_amd64(#[trigger] index.manifests@[j]),
        },
{
    match first {
        ManifestResponse::Image(m) => Ok(ManifestNext::Ready(m)),
        ManifestResponse::Index(index) => {
            let i = linux_amd64_manifest(&index)?;
            Ok(ManifestNext::FetchDigest(index.manifests[i].digest.clone()))
        },
    }
}

/// Second step: the manifest fetched by digest must describe one image.
pub fn expect_image_manifest(second: ManifestResponse) -> (r: Result<ImageManifest, ImageError>)
    ensures
        second is Image <==> r is Ok,
        r matches Err(e) ==> e == ImageError::NestedIndex,
{
    match second {
        ManifestResponse::Image(m) => Ok(m),
        ManifestResponse::Index(_) => Err(ImageError::NestedIndex),
    }
}

/// Normalizing twice is normalizing once: a normalized reference always has
/// a '/'.
/// A reference that has a '/' anywhere is kept exactly as it is (so
/// "localhost:5000/app" stays); only a reference without any '/' gets
/// "library/" in front. Either way the result has a '/' and ends with the
/// reference.
pub proof fn lemma_normalized_keeps_qualified(reference: Seq<char>)
    ensures
        reference.contains('/') ==> normalized(reference) == reference,
        !reference.contains('/') ==> normalized(reference) == "library/"@ + reference,
        normalized(reference).contains('/'),
        normalized(reference).len() >= reference.len(),
        normalized(reference).skip(normalized(reference).len() - reference.len()) == reference,
{
    reveal_strlit("library/");
    let n = normalized(reference);
    if !reference.contains('/') {
        assert(n[7] == '/');
        assert(n.skip(8) =~= reference);
    } else {
        assert(n.skip(0) =~= reference);
    }
}

pub proof fn lemma_normalize_idempotent(reference: Seq<char>)
    ensures
        normalized(normalized(reference)) == normalized(reference),
{
    if !reference.contains('/') {
        reveal_strlit("library/");
        let n = "library/"@ + reference;
        assert(n[7] == '/');
        assert(n.contains('/'));
    }
}

/// The part of a reference after its registry component (the whole
/// reference when it names no registry).
pub open spec fn after_registry(reference: Seq<char>) -> Seq<char> {
    let n = prefix_len_before(reference, '/');
    if names_registry(reference.take(n)) {
        reference.skip(n + 1)
    } else {
        reference
    }
}

/// Nothing is lost when a reference is split: a registry taken from the
/// reference is followed by '/' and the rest in the reference, and the rest
/// is either the repository with the default tag, or repository, ':' and tag.
pub proof fn lemma_split_reassembles(reference: Seq<char>)
    requires
        splittable(reference),
    ensures
        ({
            let (registry, repo, tag) = split_reference(reference);
            let rest = after_registry(reference);
            &&& names_registry(first_component(reference)) ==> reference == registry + seq!['/'] + rest
            &&& (repo == rest && tag == "latest"@) || rest == repo + seq![':'] + tag
        }),
{
    let n = prefix_len_before(reference, '/');
    crate::text::lemma_prefix_len_before(reference, '/');
    if names_registry(reference.take(n)) {
        assert(reference[n] == '/');
        assert(reference == reference.take(n) + seq!['/'] + reference.skip(n + 1));
    }
    let rest = after_registry(reference);
    let j = last_index_of(rest, ':');
    crate::text::lemma_last_index_of(rest, ':');
    if j >= 0 && !rest.skip(j + 1).contains('/') {
        assert(rest == rest.take(j) + seq![':'] + rest.skip(j + 1));
    }
}

/// Splitting undoes joining: a registry (no '/', naming a registry), a
/// repository and a tag (neither with ':', the tag without '/') joined as
/// "registry/repository:tag" split back into the three parts, and
/// "registry/repository" splits into the two parts and the tag "latest".
pub proof fn lemma_reference_round_trip(registry: Seq<char>, repo: Seq<char>, tag: Seq<char>)
    requires
        registry.len() > 0,
        repo.len() > 0,
        tag.len() > 0,
        !registry.contains('/'),
        names_registry(registry),
        !repo.contains(':'),
        !tag.contains(':'),
        !tag.contains('/'),
    ensures
        splittable(registry + seq!['/'] + repo + seq![':'] + tag),
        split_reference(registry + seq!['/'] + repo + seq![':'] + tag) == (registry, repo, tag),
        splittable(registry + seq!['/'] + repo),
        split_reference(registry + seq!['/'] + repo) == (registry, repo, "latest"@),
{
    let full = registry + seq!['/'] + repo + seq![':'] + tag;
    let short = registry + seq!['/'] + repo;
    let n = registry.len() as int;
    // the first component of both is the registry
    crate::text::lemma_prefix_len_before(full, '/');
    crate::text::lemma_prefix_len_before(short, '/');
    assert forall|i: int| 0 <= i < n implies full[i] != '/' && short[i] != '/' by {
        assert(full[i] == registry[i] && short[i] == registry[i]);
    }
    assert(full[n] == '/' && short[n] == '/');
    assert(prefix_len_before(full, '/') == n);
    assert(prefix_len_before(short, '/') == n);
    assert(full.take(n) =~= registry);
    assert(short.take(n) =~= registry);
    assert(full.contains('/') && short.contains('/'));
    // what follows the registry
    let rest = repo + seq![':'] + tag;
    assert(full.skip(n + 1) =~= rest);
    assert(short.skip(n + 1) =~= repo);
    let m = repo.len() as int;
    crate::text::lemma_last_index_of(rest, ':');
    assert(rest[m] == ':');
    assert forall|i: int| m < i < rest.len() implies rest[i] != ':' by {
        assert(rest[i] == tag[i - m - 1]);
    }
    assert(last_index_of(rest, ':') == m);
    assert(rest.take(m) =~= repo);
    assert(rest.skip(m + 1) =~= tag);
    crate::text::lemma_last_index_of(repo, ':');
    assert(last_index_of(repo, ':') == -1);
}

} // verus!
