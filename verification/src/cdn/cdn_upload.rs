//! CDN upload URLs and the retry decisions of a CDN upload.
//!
//! The HTTP exchange itself is performed by the caller, which reports each
//! attempt's outcome to [`UploadAttempts::record`] and follows the returned step.
use vstd::prelude::*;
use vstd::utf8::*;
use vstd::string::StringExecFns;
use crate::error::Error;
use crate::types::UPLOAD_MAX_RETRIES;
use crate::util::text::{decimal, push_decimal, push_str, string_from_chars};
use crate::util::urls::{percent_encode, url_encode};

verus! {

/// What [`build_cdn_upload_url`] returns.
pub open spec fn spec_upload_url(base: Seq<char>, upload_param: Seq<char>, filekey: Seq<char>) -> Seq<char> {
    base + "/upload?encrypted_query_param="@ + percent_encode(encode_utf8(upload_param))
        + "&filekey="@ + percent_encode(encode_utf8(filekey))
}

/// What [`build_cdn_download_url`] returns.
pub open spec fn spec_download_url(base: Seq<char>, param: Seq<char>) -> Seq<char> {
    base + "/download?encrypted_query_param="@ + percent_encode(encode_utf8(param))
}

/// Build a CDN upload URL from `upload_param` and `filekey`.
pub fn build_cdn_upload_url(cdn_base_url: &str, upload_param: &str, filekey: &str) -> (r: String)
    ensures
        r@ == spec_upload_url(cdn_base_url@, upload_param@, filekey@),
{
    let p = url_encode(upload_param);
    let k = url_encode(filekey);
    let mut out: Vec<char> = Vec::new();
    push_str(&mut out, cdn_base_url);
    push_str(&mut out, "/upload?encrypted_query_param=");
    push_str(&mut out, p.as_str());
    push_str(&mut out, "&filekey=");
    push_str(&mut out, k.as_str());
    string_from_chars(&out)
}

/// Build a CDN download URL from `encrypt_query_param`.
pub fn build_cdn_download_url(cdn_base_url: &str, encrypted_query_param: &str) -> (r: String)
    ensures
        r@ == spec_download_url(cdn_base_url@, encrypted_query_param@),
{
    let p = url_encode(encrypted_query_param);
    let mut out: Vec<char> = Vec::new();
    push_str(&mut out, cdn_base_url);
    push_str(&mut out, "/download?encrypted_query_param=");
    push_str(&mut out, p.as_str());
    string_from_chars(&out)
}

/// The outcome of one upload attempt.
pub enum CdnAttempt {
    /// The server answered with `status`; `encrypted_param` is its `x-encrypted-param` header.
    Response { status: u16, encrypted_param: Option<String> },
    /// The request failed before a response; `message` describes the failure.
    NetworkError { message: String },
}

/// What to do after an attempt.
pub enum UploadStep {
    /// The upload succeeded; the value is the download parameter.
    Done(String),
    /// The server rejected the request (4xx): read the body, then fail with [`cdn_client_error`].
    ClientError(u16),
    /// Try again.
    Retry,
    /// All attempts are used up; fail with this error.
    GiveUp(Error),
}

/// Retry state of one upload.
pub struct UploadAttempts {
    attempts: u32,
    last_error: Option<Error>,
}

/// Message describing a failed attempt, if the attempt failed without a client error.
pub open spec fn attempt_error_message(a: CdnAttempt) -> Option<Seq<char>> {
    match a {
        CdnAttempt::Response { status, encrypted_param } => if 400 <= status < 500 {
            None
        } else if status != 200 {
            Some("server error "@ + decimal(status as nat))
        } else if encrypted_param is None {
            Some("missing x-encrypted-param header"@)
        } else {
            None
        },
        CdnAttempt::NetworkError { message } => Some(message@),
    }
}

/// The message of a `CdnUpload` error.
pub open spec fn cdn_message(e: Error) -> Option<Seq<char>> {
    match e {
        Error::CdnUpload(m) => Some(m@),
        _ => None,
    }
}

impl UploadAttempts {
    /// Number of attempts recorded so far.
    pub closed spec fn spec_attempts(&self) -> u32 {
        self.attempts
    }

    /// Message of the last failed attempt, if any.
    pub closed spec fn spec_last_error(&self) -> Option<Seq<char>> {
        match self.last_error {
            Some(e) => cdn_message(e),
            None => None,
        }
    }

    /// Retry state before the first attempt.
    pub fn new() -> (s: Self)
        ensures
            s.spec_attempts() == 0,
            s.spec_last_error() is None,
    {
        UploadAttempts { attempts: 0, last_error: None }
    }

    /// Number of attempts recorded so far.
    pub fn attempts(&self) -> (n: u32)
        ensures
            n == self.spec_attempts(),
    {
        self.attempts
    }

    /// Records the outcome of the next attempt and says what to do.
    ///
    /// A 4xx status stops at once; a 200 with the download parameter finishes;
    /// any other outcome is retried until `UPLOAD_MAX_RETRIES` attempts are spent,
    /// after which the last failure is returned.
    pub fn record(&mut self, attempt: CdnAttempt) -> (step: UploadStep)
        requires
            old(self).spec_attempts() < UPLOAD_MAX_RETRIES,
        ensures
            final(self).spec_attempts() == old(self).spec_attempts() + 1,
            match attempt {
                CdnAttempt::Response { status, encrypted_param } => {
                    &&& 400 <= status < 500 ==> (step matches UploadStep::ClientError(s) && s
                        == status)
                    &&& (status == 200 && encrypted_param is Some) ==> (step matches UploadStep::Done(
                        p,
                    ) && p@ == encrypted_param->0@)
                },
                CdnAttempt::NetworkError { .. } => true,
            },
            attempt_error_message(attempt) matches Some(m) ==> {
                &&& final(self).spec_last_error() == Some(m)
                &&& final(self).spec_attempts() < UPLOAD_MAX_RETRIES ==> step is Retry
                &&& final(self).spec_attempts() == UPLOAD_MAX_RETRIES ==> (step matches UploadStep::GiveUp(
                    e,
                ) && cdn_message(e) == Some(m))
            },
    {
        self.attempts = self.attempts + 1;
        let message = match attempt {
            CdnAttempt::Response { status, encrypted_param } => {
                if 400 <= status && status < 500 {
                    return UploadStep::ClientError(status);
                }
                if status != 200 {
                    let mut out: Vec<char> = Vec::new();
                    push_str(&mut out, "server error ");
                    push_decimal(&mut out, status as u128);
                    string_from_chars(&out)
                } else {
                    match encrypted_param {
                        Some(p) => {
                            return UploadStep::Done(p);
                        },
                        None => String::from_str("missing x-encrypted-param header"),
                    }
                }
            },
            CdnAttempt::NetworkError { message } => message,
        };
        self.last_error = Some(Error::CdnUpload(message.clone()));
        if self.attempts < UPLOAD_MAX_RETRIES {
            return UploadStep::Retry;
        }
        UploadStep::GiveUp(Error::CdnUpload(message))
    }
}

/// The error for a 4xx answer with response body `body`: `client error {status}: {body}`.
pub fn cdn_client_error(status: u16, body: &str) -> (e: Error)
    ensures
        cdn_message(e) == Some("client error "@ + decimal(status as nat) + ": "@ + body@),
{
    let mut out: Vec<char> = Vec::new();
    push_str(&mut out, "client error ");
    push_decimal(&mut out, status as u128);
    push_str(&mut out, ": ");
    push_str(&mut out, body);
    Error::CdnUpload(string_from_chars(&out))
}

} // verus!
