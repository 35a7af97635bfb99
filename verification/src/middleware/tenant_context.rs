//! Where a request's organisation comes from.

use vstd::prelude::*;

verus! {

/// The middleware that attaches an organisation to each request.
pub struct TenantMiddleware;

/// The text that names a request's organisation: the claim of an
/// authenticated request, and the header of a request without claims. An
/// authenticated request whose claims name no organisation has none, whatever
/// its header says.
pub open spec fn organisation_source(
    authenticated: bool,
    claimed: Option<Seq<char>>,
    header: Option<Seq<char>>,
) -> Option<Seq<char>> {
    if authenticated {
        claimed
    } else {
        header
    }
}

impl TenantMiddleware {
    /// The text to read the organisation from, if there is one.
    /// `authenticated` says whether the request carries claims, `claimed` is
    /// the organisation in them, `header` the organisation header.
    pub fn organisation<'a>(
        authenticated: bool,
        claimed: Option<&'a str>,
        header: Option<&'a str>,
    ) -> (source: Option<&'a str>)
        ensures
            source.is_some() == organisation_source(
                authenticated,
                text_of(claimed),
                text_of(header),
            ).is_some(),
            source.is_some() ==> Some(source.unwrap()@) == organisation_source(
                authenticated,
                text_of(claimed),
                text_of(header),
            ),
    {
        if authenticated {
            claimed
        } else {
            header
        }
    }
}

/// The organisation that a request belongs to.
#[derive(Debug, Clone, Copy, PartialEq, Eq, Structural)]
pub struct TenantContext {
    /// The organisation's identifier as a 128-bit number.
    pub org_id: u128,
}

/// What `uuid::Uuid::parse_str` makes of a text: the identifier that the text
/// writes, as a 128-bit number, or none where the text writes no identifier.
pub uninterp spec fn uuid_of(text: Seq<char>) -> Option<u128>;

/// Calls `uuid::Uuid::parse_str` on the text and turns an identifier into its
/// 128-bit number with `Uuid::as_u128`.
#[verifier::external_body]
fn parse_uuid(text: &str) -> (id: Option<u128>)
    ensures
        id == uuid_of(text@),
{
    match uuid::Uuid::parse_str(text) {
        Ok(id) => Some(id.as_u128()),
        Err(_) => None,
    }
}

/// The organisation with the identifier that a text was read as, if it was
/// read as one.
pub open spec fn tenant_with(id: Option<u128>) -> Option<TenantContext> {
    match id {
        Some(number) => Some(TenantContext { org_id: number }),
        None => None,
    }
}

/// The organisation of a request: the identifier that its source writes.
pub open spec fn tenant_of(
    authenticated: bool,
    claimed: Option<Seq<char>>,
    header: Option<Seq<char>>,
) -> Option<TenantContext> {
    match organisation_source(authenticated, claimed, header) {
        Some(text) => tenant_with(uuid_of(text)),
        None => None,
    }
}

impl TenantContext {
    /// The organisation with the identifier that a text was read as, if it
    /// was read as one.
    pub fn from_parsed(id: Option<u128>) -> (tenant: Option<TenantContext>)
        ensures
            tenant == tenant_with(id),
    {
        match id {
            Some(number) => Some(TenantContext { org_id: number }),
            None => None,
        }
    }
}

impl TenantMiddleware {
    /// The organisation of a request, if its source names one.
    pub fn resolve(authenticated: bool, claimed: Option<&str>, header: Option<&str>) -> (tenant:
        Option<TenantContext>)
        ensures
            tenant == tenant_of(authenticated, text_of(claimed), text_of(header)),
    {
        match Self::organisation(authenticated, claimed, header) {
            Some(text) => TenantContext::from_parsed(parse_uuid(text)),
            None => None,
        }
    }
}

/// The characters of an optional text.
pub open spec fn text_of(text: Option<&str>) -> Option<Seq<char>> {
    match text {
        Some(slice) => Some(slice@),
        None => None,
    }
}

} // verus!
