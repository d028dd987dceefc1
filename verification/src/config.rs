//! Protocol-level configuration for the SDK.
use vstd::prelude::*;
use vstd::string::StringExecFns;
use crate::error::Error;
use crate::util::text::opt_view;

verus! {

/// Default API base URL.
pub const DEFAULT_BASE_URL: &'static str = "https://ilinkai.weixin.qq.com/";
/// Default CDN base URL (no trailing slash).
pub const DEFAULT_CDN_BASE_URL: &'static str = "https://novac2c.cdn.weixin.qq.com/c2c";
/// Default long-poll timeout in milliseconds.
pub const DEFAULT_LONG_POLL_TIMEOUT_MS: u64 = 35_000;
/// Default API request timeout in milliseconds.
pub const DEFAULT_API_TIMEOUT_MS: u64 = 15_000;

/// SDK protocol configuration — no persistence paths.
#[derive(Debug, Clone)]
pub struct WeixinConfig {
    /// iLink API base URL.
    pub base_url: String,
    /// CDN base URL.
    pub cdn_base_url: String,
    /// Bot authentication token.
    pub token: String,
    /// Optional route tag header value.
    pub route_tag: Option<u32>,
    /// Long-poll timeout for `getUpdates`, in milliseconds.
    pub long_poll_timeout_ms: u64,
    /// Timeout for regular API calls, in milliseconds.
    pub api_timeout_ms: u64,
}

/// Builder for [`WeixinConfig`].
#[derive(Debug)]
pub struct WeixinConfigBuilder {
    base_url: Option<String>,
    cdn_base_url: Option<String>,
    token: Option<String>,
    route_tag: Option<u32>,
    long_poll_timeout_ms: Option<u64>,
    api_timeout_ms: Option<u64>,
}

impl WeixinConfigBuilder {
    /// The base URL set so far.
    pub closed spec fn spec_base_url(&self) -> Option<Seq<char>> {
        opt_view(self.base_url)
    }

    /// The CDN base URL set so far.
    pub closed spec fn spec_cdn_base_url(&self) -> Option<Seq<char>> {
        opt_view(self.cdn_base_url)
    }

    /// The token set so far.
    pub closed spec fn spec_token(&self) -> Option<Seq<char>> {
        opt_view(self.token)
    }

    /// The route tag set so far.
    pub closed spec fn spec_route_tag(&self) -> Option<u32> {
        self.route_tag
    }

    /// The long-poll timeout set so far.
    pub closed spec fn spec_long_poll_timeout_ms(&self) -> Option<u64> {
        self.long_poll_timeout_ms
    }

    /// The API timeout set so far.
    pub closed spec fn spec_api_timeout_ms(&self) -> Option<u64> {
        self.api_timeout_ms
    }

    /// True when nothing has been set.
    pub open spec fn is_empty_builder(&self) -> bool {
        &&& self.spec_base_url() is None
        &&& self.spec_cdn_base_url() is None
        &&& self.spec_token() is None
        &&& self.spec_route_tag() is None
        &&& self.spec_long_poll_timeout_ms() is None
        &&& self.spec_api_timeout_ms() is None
    }
}

impl WeixinConfig {
    /// Create a new builder.
    pub fn builder() -> (b: WeixinConfigBuilder)
        ensures
            b.is_empty_builder(),
    {
        WeixinConfigBuilder {
            base_url: None,
            cdn_base_url: None,
            token: None,
            route_tag: None,
            long_poll_timeout_ms: None,
            api_timeout_ms: None,
        }
    }
}

impl WeixinConfigBuilder {
    /// Set the API base URL (default: `https://ilinkai.weixin.qq.com/`).
    pub fn base_url(self, url: &str) -> (r: Self)
        ensures
            r.spec_base_url() == Some(url@),
            r.spec_cdn_base_url() == self.spec_cdn_base_url(),
            r.spec_token() == self.spec_token(),
            r.spec_route_tag() == self.spec_route_tag(),
            r.spec_long_poll_timeout_ms() == self.spec_long_poll_timeout_ms(),
            r.spec_api_timeout_ms() == self.spec_api_timeout_ms(),
    {
        WeixinConfigBuilder { base_url: Some(String::from_str(url)), ..self }
    }

    /// Set the CDN base URL.
    pub fn cdn_base_url(self, url: &str) -> (r: Self)
        ensures
            r.spec_base_url() == self.spec_base_url(),
            r.spec_cdn_base_url() == Some(url@),
            r.spec_token() == self.spec_token(),
            r.spec_route_tag() == self.spec_route_tag(),
            r.spec_long_poll_timeout_ms() == self.spec_long_poll_timeout_ms(),
            r.spec_api_timeout_ms() == self.spec_api_timeout_ms(),
    {
        WeixinConfigBuilder { cdn_base_url: Some(String::from_str(url)), ..self }
    }

    /// Set the bot token (required).
    pub fn token(self, token: &str) -> (r: Self)
        ensures
            r.spec_base_url() == self.spec_base_url(),
            r.spec_cdn_base_url() == self.spec_cdn_base_url(),
            r.spec_token() == Some(token@),
            r.spec_route_tag() == self.spec_route_tag(),
            r.spec_long_poll_timeout_ms() == self.spec_long_poll_timeout_ms(),
            r.spec_api_timeout_ms() == self.spec_api_timeout_ms(),
    {
        WeixinConfigBuilder { token: Some(String::from_str(token)), ..self }
    }

    /// Set the optional route tag.
    pub fn route_tag(self, tag: u32) -> (r: Self)
        ensures
            r.spec_base_url() == self.spec_base_url(),
            r.spec_cdn_base_url() == self.spec_cdn_base_url(),
            r.spec_token() == self.spec_token(),
            r.spec_route_tag() == Some(tag),
            r.spec_long_poll_timeout_ms() == self.spec_long_poll_timeout_ms(),
            r.spec_api_timeout_ms() == self.spec_api_timeout_ms(),
    {
        WeixinConfigBuilder { route_tag: Some(tag), ..self }
    }

    /// Set the long-poll timeout, in milliseconds.
    pub fn long_poll_timeout(self, timeout_ms: u64) -> (r: Self)
        ensures
            r.spec_base_url() == self.spec_base_url(),
            r.spec_cdn_base_url() == self.spec_cdn_base_url(),
            r.spec_token() == self.spec_token(),
            r.spec_route_tag() == self.spec_route_tag(),
            r.spec_long_poll_timeout_ms() == Some(timeout_ms),
            r.spec_api_timeout_ms() == self.spec_api_timeout_ms(),
    {
        WeixinConfigBuilder { long_poll_timeout_ms: Some(timeout_ms), ..self }
    }

    /// Set the regular API timeout, in milliseconds.
    pub fn api_timeout(self, timeout_ms: u64) -> (r: Self)
        ensures
            r.spec_base_url() == self.spec_base_url(),
            r.spec_cdn_base_url() == self.spec_cdn_base_url(),
            r.spec_token() == self.spec_token(),
            r.spec_route_tag() == self.spec_route_tag(),
            r.spec_long_poll_timeout_ms() == self.spec_long_poll_timeout_ms(),
            r.spec_api_timeout_ms() == Some(timeout_ms),
    {
        WeixinConfigBuilder { api_timeout_ms: Some(timeout_ms), ..self }
    }

    /// Build the config. Returns an error if `token` is missing.
    pub fn build(self) -> (r: Result<WeixinConfig, Error>)
        ensures
            self.spec_token() is None <==> r is Err,
            r matches Err(e) ==> e matches Error::Config(m) && m@ == "token is required"@,
            r matches Ok(c) ==> {
                &&& Some(c.token@) == self.spec_token()
                &&& c.base_url@ == match self.spec_base_url() {
                    Some(u) => u,
                    None => DEFAULT_BASE_URL@,
                }
                &&& c.cdn_base_url@ == match self.spec_cdn_base_url() {
                    Some(u) => u,
                    None => DEFAULT_CDN_BASE_URL@,
                }
                &&& c.route_tag == self.spec_route_tag()
                &&& c.long_poll_timeout_ms == match self.spec_long_poll_timeout_ms() {
                    Some(t) => t,
                    None => DEFAULT_LONG_POLL_TIMEOUT_MS,
                }
                &&& c.api_timeout_ms == match self.spec_api_timeout_ms() {
                    Some(t) => t,
                    None => DEFAULT_API_TIMEOUT_MS,
                }
            },
    {
        let token = match self.token {
            Some(t) => t,
            None => {
                return Err(Error::Config(String::from_str("token is required")));
            },
        };
        let base_url = match self.base_url {
            Some(u) => u,
            None => String::from_str(DEFAULT_BASE_URL),
        };
        let cdn_base_url = match self.cdn_base_url {
            Some(u) => u,
            None => String::from_str(DEFAULT_CDN_BASE_URL),
        };
        let long_poll_timeout_ms = match self.long_poll_timeout_ms {
            Some(t) => t,
            None => DEFAULT_LONG_POLL_TIMEOUT_MS,
        };
        let api_timeout_ms = match self.api_timeout_ms {
            Some(t) => t,
            None => DEFAULT_API_TIMEOUT_MS,
        };
        Ok(
            WeixinConfig {
                base_url,
                cdn_base_url,
                token,
                route_tag: self.route_tag,
                long_poll_timeout_ms,
                api_timeout_ms,
            },
        )
    }
}

impl Default for WeixinConfigBuilder {
    fn default() -> (b: Self)
        ensures
            b.is_empty_builder(),
    {
        WeixinConfig::builder()
    }
}

} // verus!
