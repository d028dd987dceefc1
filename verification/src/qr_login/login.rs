//! QR code login API — request paths and response interpretation, no credential persistence.
//!
//! The HTTP GETs are the caller's: it fetches `start_endpoint` and
//! `poll_status_endpoint` relative to the API base URL and hands the decoded
//! responses back.
use vstd::prelude::*;
use vstd::utf8::*;
use vstd::string::StringExecFns;
use crate::types::{QrCodeResponse, QrStatusResponse, DEFAULT_ILINK_BOT_TYPE};
use crate::util::text::{opt_view, push_str, str_eq, string_from_chars};
use crate::util::urls::{percent_encode, url_encode};

verus! {

/// QR login session returned by the start request.
#[derive(Debug, Clone)]
pub struct QrLoginSession {
    /// QR code token string.
    pub qrcode: String,
    /// QR code image URL.
    pub qrcode_img_content: String,
}

/// Login status of a QR session.
#[derive(Debug, Clone)]
pub enum LoginStatus {
    /// Waiting for scan.
    Wait,
    /// QR code scanned, awaiting confirmation.
    Scanned,
    /// Scanned but needs IDC redirect.
    ScannedButRedirect {
        /// New host to redirect polling to.
        redirect_host: String,
    },
    /// Login confirmed.
    Confirmed {
        /// Bot authentication token.
        bot_token: String,
        /// Bot ID.
        ilink_bot_id: String,
        /// API base URL.
        base_url: String,
        /// User ID of the person who scanned.
        ilink_user_id: String,
    },
    /// QR code expired.
    Expired,
}

/// QR login API handle for one API base URL.
pub struct QrLoginApi {
    base_url: String,
}

/// An optional string's characters, empty when absent (`unwrap_or_default`).
pub open spec fn or_empty(s: Option<String>) -> Seq<char> {
    match s {
        Some(x) => x@,
        None => Seq::<char>::empty(),
    }
}

/// True when `st` is the status the server's `resp` reports: `scaned`,
/// `scaned_but_redirect`, `confirmed` and `expired` by name, anything else waiting.
pub open spec fn is_status_for(st: LoginStatus, resp: QrStatusResponse) -> bool {
    if resp.status@ == "scaned"@ {
        st is Scanned
    } else if resp.status@ == "scaned_but_redirect"@ {
        st matches LoginStatus::ScannedButRedirect { redirect_host } && redirect_host@ == or_empty(
            resp.redirect_host,
        )
    } else if resp.status@ == "confirmed"@ {
        st matches LoginStatus::Confirmed { bot_token, ilink_bot_id, base_url, ilink_user_id }
            && bot_token@ == or_empty(resp.bot_token) && ilink_bot_id@ == or_empty(
            resp.ilink_bot_id,
        ) && base_url@ == or_empty(resp.baseurl) && ilink_user_id@ == or_empty(
            resp.ilink_user_id,
        )
    } else if resp.status@ == "expired"@ {
        st is Expired
    } else {
        st is Wait
    }
}

fn take_or_empty(s: Option<String>) -> (r: String)
    ensures
        r@ == or_empty(s),
{
    match s {
        Some(x) => x,
        None => String::new(),
    }
}

impl QrLoginApi {
    /// The API base URL this handle talks to.
    pub closed spec fn spec_base_url(&self) -> Seq<char> {
        self.base_url@
    }

    /// Create a new QR login API handle for `base_url`.
    pub fn new(base_url: &str) -> (api: Self)
        ensures
            api.spec_base_url() == base_url@,
    {
        QrLoginApi { base_url: String::from_str(base_url) }
    }

    /// The API base URL this handle talks to.
    pub fn base_url(&self) -> (r: &str)
        ensures
            r@ == self.spec_base_url(),
    {
        self.base_url.as_str()
    }

    /// Path of the request that fetches a new QR code; `bot_type` defaults to `"3"`.
    pub fn start_endpoint(&self, bot_type: Option<&str>) -> (r: String)
        ensures
            r@ == "ilink/bot/get_bot_qrcode?bot_type="@ + percent_encode(
                encode_utf8(
                    match bot_type {
                        Some(b) => b@,
                        None => DEFAULT_ILINK_BOT_TYPE@,
                    },
                ),
            ),
    {
        let bt = match bot_type {
            Some(b) => b,
            None => DEFAULT_ILINK_BOT_TYPE,
        };
        let enc = url_encode(bt);
        let mut out: Vec<char> = Vec::new();
        push_str(&mut out, "ilink/bot/get_bot_qrcode?bot_type=");
        push_str(&mut out, enc.as_str());
        string_from_chars(&out)
    }

    /// The session a QR code response starts.
    pub fn session_from_response(resp: QrCodeResponse) -> (s: QrLoginSession)
        ensures
            s.qrcode == resp.qrcode,
            s.qrcode_img_content == resp.qrcode_img_content,
    {
        QrLoginSession { qrcode: resp.qrcode, qrcode_img_content: resp.qrcode_img_content }
    }

    /// Path of the request that polls the status of `session`.
    pub fn poll_status_endpoint(&self, session: &QrLoginSession) -> (r: String)
        ensures
            r@ == "ilink/bot/get_qrcode_status?qrcode="@ + percent_encode(
                encode_utf8(session.qrcode@),
            ),
    {
        let enc = url_encode(session.qrcode.as_str());
        let mut out: Vec<char> = Vec::new();
        push_str(&mut out, "ilink/bot/get_qrcode_status?qrcode=");
        push_str(&mut out, enc.as_str());
        string_from_chars(&out)
    }

    /// The login status a poll yields: `resp` is the decoded response, `None`
    /// when the request timed out (a timeout means the user has not acted yet).
    pub fn status_from_poll(resp: Option<QrStatusResponse>) -> (st: LoginStatus)
        ensures
            match resp {
                Some(r) => is_status_for(st, r),
                None => st is Wait,
            },
    {
        match resp {
            None => LoginStatus::Wait,
            Some(r) => Self::status_from_response(r),
        }
    }

    /// The login status a decoded status response reports.
    pub fn status_from_response(resp: QrStatusResponse) -> (st: LoginStatus)
        ensures
            is_status_for(st, resp),
    {
        let status = resp.status.as_str();
        if str_eq(status, "scaned") {
            LoginStatus::Scanned
        } else if str_eq(status, "scaned_but_redirect") {
            LoginStatus::ScannedButRedirect { redirect_host: take_or_empty(resp.redirect_host) }
        } else if str_eq(status, "confirmed") {
            LoginStatus::Confirmed {
                bot_token: take_or_empty(resp.bot_token),
                ilink_bot_id: take_or_empty(resp.ilink_bot_id),
                base_url: take_or_empty(resp.baseurl),
                ilink_user_id: take_or_empty(resp.ilink_user_id),
            }
        } else if str_eq(status, "expired") {
            LoginStatus::Expired
        } else {
            LoginStatus::Wait
        }
    }
}

} // verus!
