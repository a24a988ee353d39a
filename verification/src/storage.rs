//! Content-addressed layer store: where each layer lives, how a layer's
//! contents are checked against its diff id, and the OverlayFS mount options
//! that stack layers into a container root.
use vstd::prelude::*;
use crate::paths::{join_path, path_exists, path_join};
use crate::text::{chars_of, concat, join, joined, push_char, push_str, views};
use sha2::Digest;
use std::io::Read;

verus! {

/// Content-addressable store for image layers, rooted at a directory.
pub struct Store {
    pub root: String,
}

/// A digest turned into a directory name: every ':' becomes '_'.
pub open spec fn dir_name_of(digest: Seq<char>) -> Seq<char> {
    digest.map_values(|c: char| if c == ':' { '_' } else { c })
}

/// Where the layer with the given diff id is stored below `root`.
pub open spec fn layer_location(root: Seq<char>, diff_id: Seq<char>) -> Seq<char> {
    path_join(path_join(root, "layers"@), dir_name_of(diff_id))
}

impl Store {
    /// A store rooted at `root`.
    pub fn new(root: String) -> (s: Self)
        ensures
            s.root == root,
    {
        Store { root }
    }

    /// The directory name for a digest: ':' replaced by '_'.
    pub fn digest_dir_name(digest: &str) -> (r: String)
        ensures
            r@ == dir_name_of(digest@),
    {
        let chars = chars_of(digest);
        let mut r = String::new();
        let mut i: usize = 0;
        while i < chars.len()
            invariant
                i <= chars@.len(),
                r@ == dir_name_of(chars@.take(i as int)),
            decreases chars@.len() - i,
        {
            let c = chars[i];
            push_char(&mut r, if c == ':' { '_' } else { c });
            i += 1;
            assert(r@ =~= dir_name_of(chars@.take(i as int)));
        }
        assert(chars@.take(chars@.len() as int) =~= chars@);
        r
    }

    /// The path where the layer with `diff_id` is stored.
    pub fn layer_path(&self, diff_id: &str) -> (r: String)
        ensures
            r@ == layer_location(self.root@, diff_id@),
    {
        let layers = join_path(self.root.as_str(), "layers");
        let name = Self::digest_dir_name(diff_id);
        join_path(layers.as_str(), name.as_str())
    }

    /// Whether the layer with `diff_id` is already stored: whether the
    /// directory at `layer_path(diff_id)` exists. The answer comes from the
    /// file system at the time of the call, so no clause states it.
    pub fn layer_exists(&self, diff_id: &str) -> (r: bool) {
        let path = self.layer_path(diff_id);
        path_exists(path.as_str())
    }
}

/// The SHA-256 digest of a byte sequence, as `sha2::Sha256::digest` computes it.
pub uninterp spec fn sha256_of(data: Seq<u8>) -> Seq<u8>;

/// `sha2::Sha256::digest`: the SHA-256 digest of `data`. The contract claims
/// that the result is the digest named `sha256_of` of the input bytes and
/// that it has 32 bytes; the hash function itself is not restated.
#[verifier::external_body]
fn sha256(data: &[u8]) -> (d: Vec<u8>)
    ensures
        d@ == sha256_of(data@),
        d@.len() == 32,
{
    sha2::Sha256::digest(data).to_vec()
}

/// The lower-case hexadecimal digit for a value below 16.
pub open spec fn hex_digit(v: int) -> char {
    if v < 10 { ((v + 48) as u8) as char } else { ((v + 87) as u8) as char }
}

/// Lower-case hexadecimal encoding, two digits per byte, high nibble first.
pub open spec fn hex_lower(data: Seq<u8>) -> Seq<char>
    decreases data.len(),
{
    if data.len() == 0 {
        Seq::empty()
    } else {
        hex_lower(data.drop_last()) + seq![hex_digit(data.last() as int / 16), hex_digit(data.last() as int % 16)]
    }
}

/// `hex::encode`: each byte becomes two lower-case hexadecimal digits, high
/// nibble first (the `HEX_CHARS_LOWER` table of hex 0.4).
#[verifier::external_body]
fn hex_encode(data: &[u8]) -> (s: String)
    ensures
        s@ == hex_lower(data@),
{
    hex::encode(data)
}

/// The diff id of an uncompressed layer: "sha256:" and the hexadecimal digest.
pub open spec fn diff_id_of(data: Seq<u8>) -> Seq<char> {
    "sha256:"@ + hex_lower(sha256_of(data))
}

/// Errors of the layer store.
#[derive(Debug, PartialEq, Eq)]
pub enum StoreError {
    /// The layer's contents do not hash to the expected diff id.
    DigestMismatch { expected: String, actual: String },
    /// An overlay needs at least one lower layer.
    NoLowerLayers,
    /// A layer blob marked as gzip-compressed does not decompress.
    BadCompression,
}

/// Computes the diff id of uncompressed layer contents.
pub fn layer_diff_id(data: &[u8]) -> (r: String)
    ensures
        r@ == diff_id_of(data@),
{
    let digest = sha256(data);
    let hex = hex_encode(digest.as_slice());
    concat("sha256:", hex.as_str())
}

/// Accepts layer contents only when they hash to the expected diff id.
pub fn verify_layer_digest(data: &[u8], expected_diff_id: &str) -> (r: Result<(), StoreError>)
    ensures
        r is Ok <==> diff_id_of(data@) == expected_diff_id@,
        r matches Err(e) ==> e matches StoreError::DigestMismatch { expected, actual }
            && expected@ == expected_diff_id@ && actual@ == diff_id_of(data@),
{
    let actual = layer_diff_id(data);
    let expected = expected_diff_id.to_owned();
    if actual == expected {
        Ok(())
    } else {
        Err(StoreError::DigestMismatch { expected, actual })
    }
}

/// What `flate2::read::GzDecoder` yields when read to the end over a blob:
/// the decompressed bytes, or `None` where it reports an error.
pub uninterp spec fn gunzip_of(data: Seq<u8>) -> Option<Seq<u8>>;

/// `flate2::read::GzDecoder`, read to the end. The contract claims only that
/// the result is the one named `gunzip_of` of the blob; the gzip format is
/// not restated.
#[verifier::external_body]
fn gunzip(data: &[u8]) -> (r: Option<Vec<u8>>)
    ensures
        match gunzip_of(data@) {
            Some(s) => r matches Some(v) && v@ == s,
            None => r is None,
        },
{
    let mut out: Vec<u8> = Vec::new();
    match flate2::read::GzDecoder::new(data).read_to_end(&mut out) {
        Ok(_) => Some(out),
        Err(_) => None,
    }
}

/// The uncompressed contents of a layer blob: the blob decompressed when it
/// is gzip-compressed, else the blob itself.
pub open spec fn layer_contents_of(blob: Seq<u8>, gzip: bool) -> Option<Seq<u8>> {
    if gzip {
        gunzip_of(blob)
    } else {
        Some(blob)
    }
}

/// The uncompressed contents of a downloaded layer blob.
pub fn layer_contents(blob: &[u8], gzip: bool) -> (r: Option<Vec<u8>>)
    ensures
        match layer_contents_of(blob@, gzip) {
            Some(s) => r matches Some(v) && v@ == s,
            None => r is None,
        },
{
    if gzip {
        gunzip(blob)
    } else {
        Some(vstd::slice::slice_to_vec(blob))
    }
}

/// Turns a downloaded layer blob into the contents to unpack: decompressed
/// when the layer is gzip-compressed, and accepted only when the contents
/// hash to the expected diff id.
pub fn verify_layer_blob(blob: &[u8], gzip: bool, expected_diff_id: &str) -> (r: Result<Vec<u8>, StoreError>)
    ensures
        match layer_contents_of(blob@, gzip) {
            None => r matches Err(e) && e == StoreError::BadCompression,
            Some(c) => {
                &&& r is Ok <==> diff_id_of(c) == expected_diff_id@
                &&& r matches Ok(v) ==> v@ == c
                &&& r matches Err(e) ==> e matches StoreError::DigestMismatch { expected, actual }
                    && expected@ == expected_diff_id@ && actual@ == diff_id_of(c)
            },
        },
{
    let contents = match layer_contents(blob, gzip) {
        Some(c) => c,
        None => return Err(StoreError::BadCompression),
    };
    match verify_layer_digest(contents.as_slice(), expected_diff_id) {
        Ok(()) => Ok(contents),
        Err(e) => Err(e),
    }
}

/// OverlayFS mount data: the lower directories (topmost first) separated by
/// ':', then the upper and work directories.
pub open spec fn overlay_data(lower: Seq<Seq<char>>, upper: Seq<char>, work: Seq<char>) -> Seq<char> {
    "lowerdir="@ + joined(lower, ":"@) + ",upperdir="@ + upper + ",workdir="@ + work
}

/// The mount data string for an overlay of `lower_dirs` under `upper` and `work`.
pub fn overlay_mount_data(lower_dirs: &Vec<String>, upper: &str, work: &str) -> (r: String)
    ensures
        r@ == overlay_data(views(lower_dirs@), upper@, work@),
{
    let lower = join(lower_dirs, ":");
    let mut r = concat("lowerdir=", lower.as_str());
    push_str(&mut r, ",upperdir=");
    push_str(&mut r, upper);
    push_str(&mut r, ",workdir=");
    push_str(&mut r, work);
    r
}

impl Store {
    /// The layer directories of an image for an overlay: the diff ids run from
    /// the base layer to the top one, the overlay wants the topmost first.
    pub fn lower_dirs_top_first(&self, diff_ids: &Vec<String>) -> (r: Result<Vec<String>, StoreError>)
        ensures
            diff_ids@.len() == 0 <==> r is Err,
            r matches Err(e) ==> e == StoreError::NoLowerLayers,
            r matches Ok(dirs) ==> dirs@.len() == diff_ids@.len() && forall|i: int|
                0 <= i < dirs@.len() ==> #[trigger] dirs@[i]@ == layer_location(
                    self.root@,
                    diff_ids@[diff_ids@.len() - 1 - i]@,
                ),
    {
        if diff_ids.len() == 0 {
            return Err(StoreError::NoLowerLayers);
        }
        let mut dirs: Vec<String> = Vec::new();
        let mut i = diff_ids.len();
        while i > 0
            invariant
                i <= diff_ids@.len(),
                dirs@.len() == diff_ids@.len() - i,
                forall|k: int|
                    0 <= k < dirs@.len() ==> #[trigger] dirs@[k]@ == layer_location(
                        self.root@,
                        diff_ids@[diff_ids@.len() - 1 - k]@,
                    ),
            decreases i,
        {
            i -= 1;
            let p = self.layer_path(diff_ids[i].as_str());
            dirs.push(p);
        }
        Ok(dirs)
    }
}

/// A directory name made from a digest has the digest's length and no ':';
/// every other character is kept.
pub proof fn lemma_dir_name_has_no_colon(digest: Seq<char>)
    ensures
        dir_name_of(digest).len() == digest.len(),
        !dir_name_of(digest).contains(':'),
        forall|i: int| 0 <= i < digest.len() && digest[i] != ':' ==> #[trigger] dir_name_of(digest)[i] == digest[i],
{
    let d = dir_name_of(digest);
    assert forall|i: int| 0 <= i < d.len() implies d[i] != ':' by {}
}

} // verus!
