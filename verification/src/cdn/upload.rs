//! File upload preparation: hash, key, sizes, the upload URL and the result.
//!
//! Reading the file and the HTTP calls (`getUploadUrl`, the CDN POST) are the
//! caller's; this module computes everything they send and return.
use vstd::prelude::*;
use vstd::utf8::*;
use vstd::string::StringExecFns;
use md5::Digest;
use crate::cdn::aes_ecb::{law_hex_key_parses_back, padded_size, spec_padded_size, spec_parse_aes_key};
use crate::cdn::cdn_upload::{build_cdn_upload_url, spec_upload_url};
use crate::error::Error;
use crate::types::{build_base_info, is_current_base_info, GetUploadUrlRequest, GetUploadUrlResponse, UploadMediaType};
use crate::util::b64::{base64_decode, base64_encode, base64_encode_bytes};
use crate::util::random::{hex_encode, is_hex_of_len, random_hex, random_key};
use crate::util::text::{chars_of, hex_lower, opt_view, string_from_chars, trim, trim_chars};

verus! {

/// Result of a successful CDN upload.
#[derive(Debug, Clone)]
pub struct CdnUploadResult {
    /// CDN download encrypted query parameter.
    pub encrypt_query_param: String,
    /// AES key as base64 string (for `CdnMedia.aes_key`).
    pub aes_key_base64: String,
    /// AES key as hex string.
    pub aes_key_hex: String,
    /// Plaintext file size.
    pub file_size: u64,
    /// Ciphertext file size.
    pub file_size_ciphertext: u64,
    /// File key used for upload.
    pub filekey: String,
}

/// Generate a 32-character hex filekey.
pub fn generate_filekey() -> (s: String)
    ensures
        is_hex_of_len(s@, 16),
{
    random_hex(16)
}

/// The MD5 digest of `data`, as the `md-5` crate computes it.
pub uninterp spec fn md5_digest(data: Seq<u8>) -> Seq<u8>;

/// MD5 through `md5::Md5::digest`.
/// Trusted: the result is the named 16-byte digest.
#[verifier::external_body]
fn md5_bytes(data: &[u8]) -> (d: Vec<u8>)
    ensures
        d@ == md5_digest(data@),
        d@.len() == 16,
{
    md5::Md5::digest(data).to_vec()
}

/// What is sent to `getUploadUrl` and the key the file is encrypted with.
pub struct UploadPlan {
    /// The `getUploadUrl` request.
    pub request: GetUploadUrlRequest,
    /// The AES-128 key for the file.
    pub aes_key: [u8; 16],
}

/// Prepares the upload of `plaintext`: random file key and AES key, MD5,
/// plaintext and ciphertext sizes, no thumbnail.
pub fn plan_upload(plaintext: &[u8], media_type: UploadMediaType, to_user_id: &str) -> (p: UploadPlan)
    requires
        plaintext@.len() + 16 <= usize::MAX,
    ensures
        is_hex_of_len(p.request.filekey@, 16),
        p.request.media_type == media_type,
        p.request.to_user_id@ == to_user_id@,
        p.request.rawsize == plaintext@.len(),
        p.request.rawfilemd5@ == hex_lower(md5_digest(plaintext@)),
        p.request.filesize == spec_padded_size(plaintext@.len() as int),
        p.request.no_need_thumb == Some(true),
        p.request.thumb_rawsize is None,
        p.request.thumb_rawfilemd5 is None,
        p.request.thumb_filesize is None,
        p.request.aeskey@ == hex_lower(p.aes_key@),
        is_current_base_info(p.request.base_info),
{
    let n = plaintext.len();
    let rawsize = n as u64;
    let digest = md5_bytes(plaintext);
    let rawfilemd5 = hex_encode(digest.as_slice());
    let filesize = padded_size(n) as u64;
    let filekey = generate_filekey();
    let aes_key = random_key();
    let aeskey = hex_encode(aes_key.as_slice());
    UploadPlan {
        request: GetUploadUrlRequest {
            filekey,
            media_type,
            to_user_id: String::from_str(to_user_id),
            rawsize,
            rawfilemd5,
            filesize,
            no_need_thumb: Some(true),
            thumb_rawsize: None,
            thumb_rawfilemd5: None,
            thumb_filesize: None,
            aeskey,
            base_info: build_base_info(),
        },
        aes_key,
    }
}

/// The URL the file is posted to: the server's full upload URL when it is
/// non-blank after trimming, else one built from the upload parameter.
pub open spec fn spec_resolve_upload_url(
    full_url: Option<Seq<char>>,
    upload_param: Option<Seq<char>>,
    cdn_base_url: Seq<char>,
    filekey: Seq<char>,
) -> Option<Seq<char>> {
    if full_url is Some && trim(full_url->0).len() > 0 {
        Some(trim(full_url->0))
    } else {
        match upload_param {
            Some(p) => Some(spec_upload_url(cdn_base_url, p, filekey)),
            None => None,
        }
    }
}

/// Chooses the CDN URL from a `getUploadUrl` response.
pub fn resolve_upload_url(resp: &GetUploadUrlResponse, cdn_base_url: &str, filekey: &str) -> (r: Result<String, Error>)
    ensures
        match spec_resolve_upload_url(opt_view(resp.upload_full_url), opt_view(resp.upload_param), cdn_base_url@, filekey@) {
            Some(u) => r matches Ok(s) && s@ == u,
            None => r matches Err(Error::CdnUpload(m)) && m@ == "getUploadUrl returned no upload URL"@,
        },
{
    if let Some(full) = &resp.upload_full_url {
        let v = chars_of(full.as_str());
        let t = trim_chars(&v);
        if t.len() > 0 {
            return Ok(string_from_chars(&t));
        }
    }
    match &resp.upload_param {
        Some(p) => Ok(build_cdn_upload_url(cdn_base_url, p.as_str(), filekey)),
        None => Err(Error::CdnUpload(String::from_str("getUploadUrl returned no upload URL"))),
    }
}

/// The result of an upload whose CDN POST returned `download_param`.
pub fn upload_result(download_param: String, plan: &UploadPlan) -> (r: CdnUploadResult)
    ensures
        r.encrypt_query_param == download_param,
        r.aes_key_hex@ == plan.request.aeskey@,
        r.aes_key_base64@ == base64_encode(encode_utf8(plan.request.aeskey@)),
        r.file_size == plan.request.rawsize,
        r.file_size_ciphertext == plan.request.filesize,
        r.filekey@ == plan.request.filekey@,
        base64_decode(r.aes_key_base64@) == Ok::<Seq<u8>, Seq<char>>(encode_utf8(plan.request.aeskey@)),
        plan.request.aeskey@ == hex_lower(plan.aes_key@) ==> spec_parse_aes_key(
            r.aes_key_base64@,
        ) == Ok::<Seq<u8>, Seq<char>>(plan.aes_key@),
{
    let hex = plan.request.aeskey.clone();
    let b64 = base64_encode_bytes(hex.as_str().as_bytes());
    proof {
        if plan.request.aeskey@ == hex_lower(plan.aes_key@) {
            law_hex_key_parses_back(plan.aes_key@);
        }
    }
    CdnUploadResult {
        encrypt_query_param: download_param,
        aes_key_base64: b64,
        aes_key_hex: hex,
        file_size: plan.request.rawsize,
        file_size_ciphertext: plan.request.filesize,
        filekey: plan.request.filekey.clone(),
    }
}

} // verus!
