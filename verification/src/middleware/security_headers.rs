//! The security headers that a service adds to every response.

use vstd::prelude::*;
use vstd::string::StringExecFns;
use vstd::string::to_string_from_display_ensures;
use crate::text::trim_range;
use crate::text::trimmed;
use vstd::utf8::encode_utf8;

verus! {

/// Value of the `X-Content-Type-Options` header.
pub const CONTENT_TYPE_OPTIONS: &'static str = "nosniff";

/// Value of the `X-Frame-Options` header.
pub const FRAME_OPTIONS: &'static str = "DENY";

/// Value of the `X-XSS-Protection` header.
pub const XSS_PROTECTION: &'static str = "1; mode=block";

/// Sent as `Strict-Transport-Security` where the configured value is no
/// header value.
pub const FALLBACK_HSTS: &'static str = "max-age=31536000; includeSubDomains";

/// Sent as `Referrer-Policy` where the configured value is no header value.
pub const FALLBACK_REFERRER_POLICY: &'static str = "strict-origin-when-cross-origin";

/// Sent as `Content-Security-Policy` where the configured value is no header
/// value.
pub const FALLBACK_CONTENT_SECURITY_POLICY: &'static str = "default-src 'self'";

/// Sent as `Permissions-Policy` where the configured value is no header value.
pub const FALLBACK_PERMISSIONS_POLICY: &'static str = "geolocation=()";

/// The settings of the security headers.
pub struct SecurityHeadersMiddleware {
    pub content_security_policy: Option<String>,
    pub hsts_preload: bool,
    pub hsts_max_age_seconds: u64,
    pub hsts_include_subdomains: bool,
    pub referrer_policy: String,
    pub permissions_policy: Option<String>,
}

/// The settings of the security headers as plain values.
pub struct HeaderSettings {
    pub content_security_policy: Option<Seq<char>>,
    pub hsts_preload: bool,
    pub hsts_max_age_seconds: u64,
    pub hsts_include_subdomains: bool,
    pub referrer_policy: Seq<char>,
    pub permissions_policy: Option<Seq<char>>,
}

impl HeaderSettings {
    /// The settings that every server of the fleet starts with.
    pub open spec fn standard() -> Self {
        HeaderSettings {
            content_security_policy: Some("default-src 'self'"@),
            hsts_preload: true,
            hsts_max_age_seconds: 31536000,
            hsts_include_subdomains: true,
            referrer_policy: "strict-origin-when-cross-origin"@,
            permissions_policy: None,
        }
    }

    /// The `Strict-Transport-Security` value, given the maximum age in digits.
    pub open spec fn hsts_text(self, digits: Seq<char>) -> Seq<char> {
        "max-age="@ + digits + (if self.hsts_include_subdomains {
            "; includeSubDomains"@
        } else {
            Seq::<char>::empty()
        }) + (if self.hsts_preload {
            "; preload"@
        } else {
            Seq::<char>::empty()
        })
    }
}

impl View for SecurityHeadersMiddleware {
    type V = HeaderSettings;

    open spec fn view(&self) -> HeaderSettings {
        HeaderSettings {
            content_security_policy: match self.content_security_policy {
                Some(policy) => Some(policy@),
                None => None,
            },
            hsts_preload: self.hsts_preload,
            hsts_max_age_seconds: self.hsts_max_age_seconds,
            hsts_include_subdomains: self.hsts_include_subdomains,
            referrer_policy: self.referrer_policy@,
            permissions_policy: match self.permissions_policy {
                Some(policy) => Some(policy@),
                None => None,
            },
        }
    }
}

/// A text that holds nothing but whitespace.
pub open spec fn is_blank(text: Seq<char>) -> bool {
    trimmed(encode_utf8(text)).len() == 0
}

/// A policy is sent when it is set and holds more than whitespace.
pub open spec fn policy_to_send(policy: Option<Seq<char>>) -> Option<Seq<char>> {
    match policy {
        Some(text) => if is_blank(text) {
            None
        } else {
            Some(text)
        },
        None => None,
    }
}

fn sendable(policy: &Option<String>) -> (value: Option<&str>)
    ensures
        match value {
            Some(text) => policy.is_some() && policy_to_send(Some(policy.unwrap()@)) == Some(
                text@,
            ),
            None => policy.is_none() || policy_to_send(Some(policy.unwrap()@)).is_none(),
        },
{
    match policy {
        Some(text) => {
            let bytes = text.as_str().as_bytes();
            let (start, end) = trim_range(bytes, 0, bytes.len());
            assert(bytes@.subrange(0, bytes@.len() as int) =~= bytes@);
            if start == end {
                None
            } else {
                Some(text.as_str())
            }
        },
        None => None,
    }
}

impl SecurityHeadersMiddleware {
    /// The value of the `Strict-Transport-Security` header: the maximum age,
    /// then the two directives that are switched on.
    pub fn hsts_value(&self) -> (value: String)
        ensures
            exists|digits: String| #[trigger]
                to_string_from_display_ensures::<u64>(&self.hsts_max_age_seconds, digits)
                    && value@ == self@.hsts_text(digits@),
    {
        let digits = self.hsts_max_age_seconds.to_string();
        let mut value = String::from_str("max-age=").concat(digits.as_str());
        if self.hsts_include_subdomains {
            value.append("; includeSubDomains");
        }
        if self.hsts_preload {
            value.append("; preload");
        }
        assert(value@ =~= self@.hsts_text(digits@));
        value
    }

    /// The value of the `Referrer-Policy` header.
    pub fn referrer_policy_value(&self) -> (value: &str)
        ensures
            value@ == self@.referrer_policy,
    {
        self.referrer_policy.as_str()
    }

    /// The value of the `Content-Security-Policy` header, if one is sent.
    pub fn content_security_policy_value(&self) -> (value: Option<&str>)
        ensures
            match value {
                Some(text) => policy_to_send(self@.content_security_policy) == Some(text@),
                None => policy_to_send(self@.content_security_policy).is_none(),
            },
    {
        sendable(&self.content_security_policy)
    }

    /// The value of the `Permissions-Policy` header, if one is sent.
    pub fn permissions_policy_value(&self) -> (value: Option<&str>)
        ensures
            match value {
                Some(text) => policy_to_send(self@.permissions_policy) == Some(text@),
                None => policy_to_send(self@.permissions_policy).is_none(),
            },
    {
        sendable(&self.permissions_policy)
    }
}

} // verus!
