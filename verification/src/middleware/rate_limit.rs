//! The admission rule of the request middleware.

use vstd::prelude::*;
use vstd::string::StringSliceAdditionalSpecFns;
use crate::middleware::auth_guard::bearer_of;
use crate::middleware::auth_guard::bearer_token;
use crate::middleware::auth_guard::bytes_in;
use crate::text::begins_with;
use crate::text::starts_with;

verus! {

/// The admission limit that the middleware applies to each client.
pub struct RateLimitMiddleware {
    pub max_requests: u32,
    pub window_seconds: u64,
}

/// The most bytes of a token that go into a client's key.
pub const TOKEN_PREFIX_LENGTH: usize = 16;

/// Requests to these paths are never limited: internal routes, health checks
/// and metrics.
pub open spec fn exempt_path(path: Seq<u8>) -> bool {
    begins_with(path, "/internal".spec_bytes()) || begins_with(path, "/health".spec_bytes())
        || begins_with(path, "/api/v1/health".spec_bytes()) || begins_with(
        path,
        "/metrics".spec_bytes(),
    )
}

/// Whether requests to `path` are never limited.
pub fn is_exempt(path: &[u8]) -> (exempt: bool)
    ensures
        exempt == exempt_path(path@),
{
    starts_with(path, "/internal".as_bytes()) || starts_with(path, "/health".as_bytes())
        || starts_with(path, "/api/v1/health".as_bytes()) || starts_with(
        path,
        "/metrics".as_bytes(),
    )
}

/// The first bytes of a token, sixteen at most.
pub open spec fn token_prefix(token: Seq<u8>) -> Seq<u8> {
    if token.len() > TOKEN_PREFIX_LENGTH {
        token.take(TOKEN_PREFIX_LENGTH as int)
    } else {
        token
    }
}

/// The part of a key that names the client apart from its address: the API
/// key, the first bytes of the bearer token, or both joined by a plus sign.
pub open spec fn identity_part(api_key: Option<Seq<u8>>, token: Option<Seq<u8>>) -> Seq<u8> {
    let api = match api_key {
        Some(key) => "api:".spec_bytes() + key,
        None => Seq::empty(),
    };
    let bearer = match token {
        Some(token) => "token:".spec_bytes() + token_prefix(token),
        None => Seq::empty(),
    };
    if api_key.is_some() && token.is_some() {
        api + "+".spec_bytes() + bearer
    } else {
        api + bearer
    }
}

/// The key under which a client is limited: its identity, where the request
/// shows one, followed by its address; else the address alone.
pub open spec fn key_of(
    api_key: Option<Seq<u8>>,
    authorization: Option<Seq<u8>>,
    address: Seq<u8>,
) -> Seq<u8> {
    let token = match authorization {
        Some(header) => bearer_of(header),
        None => None,
    };
    if api_key.is_some() || token.is_some() {
        identity_part(api_key, token) + "|ip:".spec_bytes() + address
    } else {
        address
    }
}

/// The key under which a client is limited, given the API key header and the
/// `Authorization` header of its request, as far as it has them, and its
/// address.
pub fn client_key(api_key: Option<&[u8]>, authorization: Option<&[u8]>, address: &[u8]) -> (key:
    Vec<u8>)
    ensures
        key@ == key_of(bytes_in(api_key), bytes_in(authorization), address@),
{
    let token = match authorization {
        Some(header) => bearer_token(header),
        None => None,
    };
    let mut key: Vec<u8> = Vec::new();
    match api_key {
        Some(value) => {
            append_bytes(&mut key, "api:".as_bytes());
            append_bytes(&mut key, value);
        },
        None => {},
    }
    match &token {
        Some(value) => {
            if api_key.is_some() {
                append_bytes(&mut key, "+".as_bytes());
            }
            append_bytes(&mut key, "token:".as_bytes());
            let bytes = value.as_slice();
            if bytes.len() > TOKEN_PREFIX_LENGTH {
                append_bytes(&mut key, vstd::slice::slice_subrange(bytes, 0, TOKEN_PREFIX_LENGTH));
            } else {
                append_bytes(&mut key, bytes);
            }
        },
        None => {},
    }
    if api_key.is_some() || token.is_some() {
        append_bytes(&mut key, "|ip:".as_bytes());
    }
    append_bytes(&mut key, address);
    assert(key@ =~= key_of(bytes_in(api_key), bytes_in(authorization), address@));
    key
}

fn append_bytes(text: &mut Vec<u8>, more: &[u8])
    ensures
        final(text)@ == old(text)@ + more@,
{
    text.extend_from_slice(more);
    assert(final(text)@ =~= old(text)@ + more@);
}

} // verus!
