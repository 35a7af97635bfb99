//! The values that the authentication guard works with.

use vstd::prelude::*;
use vstd::string::StringSliceAdditionalSpecFns;
use vstd::utf8::encode_utf8;
use crate::text::begins_with;
use crate::text::copy_range;
use crate::text::find_byte;
use crate::text::first_index;
use crate::text::same_bytes;
use crate::text::starts_with;
use crate::text::trim_range;
use crate::text::trimmed;

verus! {

/// The issuer that a token must name.
pub const TOKEN_ISSUER: &'static str = "lanai-auth";

/// The claims of an access token.
#[derive(Debug, Clone)]
pub struct Claims {
    pub sub: String,
    pub email: String,
    pub username: String,
    pub role: String,
    pub org_id: Option<String>,
    pub vertical: Option<String>,
    pub exp: i64,
    pub iat: i64,
    pub iss: String,
    pub jti: String,
}

/// The guard that lets through requests with a valid token only.
pub struct AuthGuard {
    pub public_key_pem: String,
}

impl AuthGuard {
    /// A guard that checks tokens against the public key in `public_key_pem`.
    pub fn new(public_key_pem: String) -> (guard: Self)
        ensures
            guard.public_key_pem == public_key_pem,
    {
        AuthGuard { public_key_pem }
    }
}

/// A backslash, which with a following `n` stands for a line feed in a key
/// that was written on one line.
pub const BACKSLASH: u8 = 92;

/// The letter `n`.
pub const LETTER_N: u8 = 110;

/// A line feed.
pub const LINE_FEED: u8 = 10;

/// `text` with every backslash that an `n` follows, and that `n`, replaced by
/// one line feed, read from left to right.
pub open spec fn unescaped(text: Seq<u8>) -> Seq<u8>
    decreases text.len(),
{
    if text.len() == 0 {
        text
    } else if text.len() >= 2 && text[0] == BACKSLASH && text[1] == LETTER_N {
        seq![LINE_FEED] + unescaped(text.skip(2))
    } else {
        seq![text[0]] + unescaped(text.skip(1))
    }
}

/// Computes [`unescaped`].
pub fn unescape_newlines(text: &[u8]) -> (plain: Vec<u8>)
    ensures
        plain@ == unescaped(text@),
{
    let mut plain: Vec<u8> = Vec::new();
    let mut i: usize = 0;
    assert(text@.skip(0) =~= text@);
    while i < text.len()
        invariant
            i <= text@.len(),
            unescaped(text@) == plain@ + unescaped(text@.skip(i as int)),
        decreases text@.len() - i,
    {
        let ghost rest = text@.skip(i as int);
        let ghost before = plain@;
        if text[i] == BACKSLASH && i + 1 < text.len() && text[i + 1] == LETTER_N {
            plain.push(LINE_FEED);
            proof {
                assert(rest.skip(2) =~= text@.skip(i + 2));
                assert(plain@ + unescaped(text@.skip(i + 2)) =~= before + (seq![LINE_FEED]
                    + unescaped(rest.skip(2))));
            }
            i += 2;
        } else {
            plain.push(text[i]);
            proof {
                assert(rest.skip(1) =~= text@.skip(i + 1));
                assert(plain@ + unescaped(text@.skip(i + 1)) =~= before + (seq![rest[0]]
                    + unescaped(rest.skip(1))));
            }
            i += 1;
        }
    }
    assert(plain@ + unescaped(text@.skip(text@.len() as int)) =~= plain@);
    plain
}

impl AuthGuard {
    /// The public key with its line feeds restored.
    pub fn key_pem(&self) -> (pem: Vec<u8>)
        ensures
            pem@ == unescaped(encode_utf8(self.public_key_pem@)),
    {
        unescape_newlines(self.public_key_pem.as_str().as_bytes())
    }
}

/// Why the guard refuses a request.
#[derive(Debug, Clone, Copy, PartialEq, Eq, Structural)]
pub enum Refusal {
    /// The request carries no token.
    MissingToken,
    /// The token is invalid or has expired.
    InvalidToken,
}

impl Refusal {
    /// The words of the refusal.
    pub fn message(&self) -> (words: &'static str)
        ensures
            words@ == match self {
                Refusal::MissingToken => "Missing authentication token"@,
                Refusal::InvalidToken => "Invalid or expired token"@,
            },
    {
        match self {
            Refusal::MissingToken => "Missing authentication token",
            Refusal::InvalidToken => "Invalid or expired token",
        }
    }
}

/// What the guard does with a request.
#[derive(Debug, Clone, PartialEq, Eq)]
pub enum GuardStep {
    /// Hand the request on.
    Forward,
    /// Answer that the request is unauthorized.
    Refuse(Refusal),
    /// Validate this token, and go by the outcome.
    Validate(Vec<u8>),
}

/// The guard's step before any validation: a preflight request is handed
/// on as it is, a request without token is refused, any other has its token
/// validated.
pub fn before_validation(preflight: bool, token: Option<Vec<u8>>) -> (step: GuardStep)
    ensures
        step == (if preflight {
            GuardStep::Forward
        } else {
            match token {
                Some(found) => GuardStep::Validate(found),
                None => GuardStep::Refuse(Refusal::MissingToken),
            }
        }),
{
    if preflight {
        GuardStep::Forward
    } else {
        match token {
            Some(found) => GuardStep::Validate(found),
            None => GuardStep::Refuse(Refusal::MissingToken),
        }
    }
}

/// The guard's step after validation: a request with a valid token is handed
/// on, any other is refused.
pub fn after_validation(valid: bool) -> (step: GuardStep)
    ensures
        step == (if valid {
            GuardStep::Forward
        } else {
            GuardStep::Refuse(Refusal::InvalidToken)
        }),
{
    if valid {
        GuardStep::Forward
    } else {
        GuardStep::Refuse(Refusal::InvalidToken)
    }
}

/// The claims that a token must carry.
pub fn required_claims() -> (claims: Vec<&'static str>)
    ensures
        claims@ == seq!["exp", "sub"],
{
    vec!["exp", "sub"]
}

/// The separator of the cookies in a header.
pub const SEMICOLON: u8 = 59;

/// The separator of a cookie's name and value.
pub const EQUALS: u8 = 61;

/// The token of an `Authorization` header: what follows the word `Bearer`
/// and one space, where the header begins so.
pub open spec fn bearer_of(header: Seq<u8>) -> Option<Seq<u8>> {
    if begins_with(header, "Bearer ".spec_bytes()) {
        Some(header.skip("Bearer ".spec_bytes().len() as int))
    } else {
        None
    }
}

/// The value that a piece of a cookie header gives `name`: the piece is a
/// name, an equals sign and a value, with the whitespace around name and value
/// left out. A piece without an equals sign, or with another name, gives none.
pub open spec fn pair_value(piece: Seq<u8>, name: Seq<u8>) -> Option<Seq<u8>> {
    let cut = first_index(piece, EQUALS);
    if 0 <= cut < piece.len() && trimmed(piece.take(cut)) == name {
        Some(trimmed(piece.skip(cut + 1)))
    } else {
        None
    }
}

/// The value of the cookie `name` in a cookie header, whose pieces are
/// separated by semicolons. Of several cookies with that name the last counts.
pub open spec fn cookie_of(header: Seq<u8>, name: Seq<u8>) -> Option<Seq<u8>>
    decreases header.len(),
{
    let cut = first_index(header, SEMICOLON);
    if cut < 0 || cut >= header.len() {
        pair_value(header, name)
    } else {
        match cookie_of(header.skip(cut + 1), name) {
            Some(value) => Some(value),
            None => pair_value(header.take(cut), name),
        }
    }
}

/// The access token of a request. A bearer token in the `Authorization`
/// header comes first. Else the cookie `access_token` counts, and only
/// together with a cookie `csrf_token` whose value the request repeats in its
/// cross-site request forgery header.
pub open spec fn token_of(
    authorization: Option<Seq<u8>>,
    cookies: Option<Seq<u8>>,
    csrf: Option<Seq<u8>>,
) -> Option<Seq<u8>> {
    if authorization.is_some() && bearer_of(authorization.unwrap()).is_some() {
        bearer_of(authorization.unwrap())
    } else if cookies.is_some() {
        let access = cookie_of(cookies.unwrap(), "access_token".spec_bytes());
        let guard = cookie_of(cookies.unwrap(), "csrf_token".spec_bytes());
        if access.is_some() && guard.is_some() && csrf == guard {
            access
        } else {
            None
        }
    } else {
        None
    }
}

/// The bytes of an optional text.
pub open spec fn bytes_in(text: Option<&[u8]>) -> Option<Seq<u8>> {
    match text {
        Some(slice) => Some(slice@),
        None => None,
    }
}

/// The bytes of an optional vector.
pub open spec fn bytes_held(text: Option<Vec<u8>>) -> Option<Seq<u8>> {
    match text {
        Some(vector) => Some(vector@),
        None => None,
    }
}

/// The bearer token of an `Authorization` header, if it holds one.
pub fn bearer_token(header: &[u8]) -> (token: Option<Vec<u8>>)
    ensures
        bytes_held(token) == bearer_of(header@),
{
    let word = "Bearer ".as_bytes();
    if starts_with(header, word) {
        let token = copy_range(header, word.len(), header.len());
        assert(header@.skip(word@.len() as int) =~= header@.subrange(
            word@.len() as int,
            header@.len() as int,
        ));
        Some(token)
    } else {
        None
    }
}

/// The value of the cookie `name` in a cookie header, if it holds one.
pub fn cookie_value(header: &[u8], name: &[u8]) -> (value: Option<Vec<u8>>)
    ensures
        bytes_held(value) == cookie_of(header@, name@),
{
    let mut found: Option<Vec<u8>> = None;
    let mut start: usize = 0;
    let mut done = false;
    assert(header@.skip(0) =~= header@);
    while !done
        invariant
            start <= header@.len(),
            !done ==> cookie_of(header@, name@) == (match cookie_of(
                header@.skip(start as int),
                name@,
            ) {
                Some(value) => Some(value),
                None => bytes_held(found),
            }),
            done ==> cookie_of(header@, name@) == bytes_held(found),
        decreases header@.len() - start + (if done { 0int } else { 1int }),
    {
        let end = find_byte(header, start, header.len(), SEMICOLON);
        let equals = find_byte(header, start, end, EQUALS);
        let ghost rest = header@.skip(start as int);
        let ghost piece = header@.subrange(start as int, end as int);
        proof {
            assert(rest =~= header@.subrange(start as int, header@.len() as int));
            assert(first_index(rest, SEMICOLON) == end - start);
            assert(rest.take(end - start) =~= piece);
            assert(first_index(piece, EQUALS) == equals - start);
        }
        if equals < end {
            let (a, b) = trim_range(header, start, equals);
            proof {
                assert(piece.take(equals - start) =~= header@.subrange(
                    start as int,
                    equals as int,
                ));
                assert(piece.skip(equals - start + 1) =~= header@.subrange(
                    equals + 1,
                    end as int,
                ));
            }
            let key = vstd::slice::slice_subrange(header, a, b);
            if same_bytes(key, name) {
                let (c, d) = trim_range(header, equals + 1, end);
                found = Some(copy_range(header, c, d));
            }
        }
        if end == header.len() {
            proof {
                assert(rest.take(end - start) =~= rest);
            }
            done = true;
        } else {
            proof {
                assert(rest.skip(end - start + 1) =~= header@.skip(end + 1));
            }
            start = end + 1;
        }
    }
    found
}

/// The access token of a request, given its `Authorization` header, its
/// cookie header and its cross-site request forgery header, as far as it has
/// them.
pub fn extract_token(
    authorization: Option<&[u8]>,
    cookies: Option<&[u8]>,
    csrf: Option<&[u8]>,
) -> (token: Option<Vec<u8>>)
    ensures
        bytes_held(token) == token_of(bytes_in(authorization), bytes_in(cookies), bytes_in(csrf)),
{
    match authorization {
        Some(header) => {
            let bearer = bearer_token(header);
            if bearer.is_some() {
                return bearer;
            }
        },
        None => {},
    }
    match cookies {
        Some(header) => {
            let access = cookie_value(header, "access_token".as_bytes());
            let guard = cookie_value(header, "csrf_token".as_bytes());
            match (access, guard, csrf) {
                (Some(token), Some(expected), Some(sent)) => {
                    if same_bytes(sent, expected.as_slice()) {
                        Some(token)
                    } else {
                        None
                    }
                },
                _ => None,
            }
        },
        None => None,
    }
}

} // verus!
