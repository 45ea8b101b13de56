//! Per-file parameters of the artifact publisher: the remote key, the
//! guessed content type, and the content hash attached as integrity field.
//!
//! Hashing and MIME guessing are outside calls; their results are named
//! and the composition around them is verified.

use vstd::prelude::*;
use base64::Engine;

verus! {

use vstd::string::StringExecFns;

/// The MD5 digest of a byte string.  Named only: the algorithm is not
/// restated here.
pub uninterp spec fn md5_of(bytes: Seq<u8>) -> Seq<u8>;

/// Relies on Md5 of the md-5 crate: the digest is a function of the input
/// bytes alone.
#[verifier::external_body]
fn md5_digest(bytes: &[u8]) -> (r: Vec<u8>)
    ensures
        r@ == md5_of(bytes@),
{
    let digest = <md5::Md5 as md5::Digest>::digest(bytes);
    digest.to_vec()
}

/// The standard, padded base64 encoding of a byte string.  Named only.
pub uninterp spec fn base64_of(bytes: Seq<u8>) -> Seq<char>;

/// Relies on the base64 crate's STANDARD engine: the encoding is a
/// function of the input bytes alone.
#[verifier::external_body]
fn base64_encode(bytes: &[u8]) -> (r: String)
    ensures
        r@ == base64_of(bytes@),
{
    base64::engine::general_purpose::STANDARD.encode(bytes)
}

/// The MIME type guessed from a path's extension, when the extension is a
/// known one.
pub uninterp spec fn mime_guess_of(path: Seq<char>) -> Option<Seq<char>>;

/// Relies on mime_guess::from_path and MimeGuess::first: the guess is a
/// function of the path alone.
#[verifier::external_body]
fn guess_mime(path: &str) -> (r: Option<String>)
    ensures
        r is Some <==> mime_guess_of(path@) is Some,
        r matches Some(m) ==> (mime_guess_of(path@) matches Some(v) && m@ == v),
{
    match mime_guess::from_path(path).first() {
        Some(m) => Some(m.as_ref().to_owned()),
        None => None,
    }
}

/// The content type a file is uploaded under: the guessed MIME type, or
/// the octet-stream default when the extension is unknown.
pub open spec fn content_type_view(path: Seq<char>) -> Seq<char> {
    match mime_guess_of(path) {
        Some(m) => m,
        None => "application/octet-stream"@,
    }
}

/// Guess a file's content type, with the octet-stream default.
pub fn content_type_for(path: &str) -> (r: String)
    ensures
        r@ == content_type_view(path@),
{
    match guess_mime(path) {
        Some(m) => m,
        None => "application/octet-stream".to_owned(),
    }
}

/// The integrity field of one upload: the base64 form of the MD5 digest
/// of the full file content.
pub fn content_md5_for(content: &[u8]) -> (r: String)
    ensures
        r@ == base64_of(md5_of(content@)),
{
    let digest = md5_digest(content);
    base64_encode(digest.as_slice())
}

/// The remote key of one file: the prefix, a slash, and the file's path
/// relative to the published directory.
pub fn object_key(prefix: &str, relative_path: &str) -> (r: String)
    ensures
        r@ == prefix@ + "/"@ + relative_path@,
{
    let mut key = prefix.to_owned();
    key.append("/");
    key.append(relative_path);
    key
}

/// The remote prefix a client's assets are published under.
pub fn asset_key_prefix(client_id: &str) -> (r: String)
    ensures
        r@ == client_id@ + "/_nuxt"@,
{
    let mut prefix = client_id.to_owned();
    prefix.append("/_nuxt");
    prefix
}

/// Everything one upload call needs besides the bytes themselves.
#[derive(Debug)]
pub struct UploadParams {
    pub key: String,
    pub content_type: String,
    pub content_md5: String,
}

/// Compute the upload parameters of one file from its relative path and
/// its content.
pub fn upload_params(prefix: &str, relative_path: &str, content: &[u8]) -> (p: UploadParams)
    ensures
        p.key@ == prefix@ + "/"@ + relative_path@,
        p.content_type@ == content_type_view(relative_path@),
        p.content_md5@ == base64_of(md5_of(content@)),
{
    UploadParams {
        key: object_key(prefix, relative_path),
        content_type: content_type_for(relative_path),
        content_md5: content_md5_for(content),
    }
}

} // verus!
