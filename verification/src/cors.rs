//! The cross-origin rules of a service: which origins, methods and headers
//! are allowed.

use vstd::prelude::*;
use crate::text::copy_range;
use crate::text::find_byte;
use crate::text::first_index;
use crate::text::trim_range;
use crate::text::trimmed;
use crate::text::texts;
use crate::text::bytes_of;
use vstd::string::StringSliceAdditionalSpecFns;

verus! {

/// The name of the environment variable that lists the allowed origins,
/// separated by commas.
pub const CORS_ALLOWED_ORIGINS_ENV: &'static str = "CORS_ALLOWED_ORIGINS";

/// Seconds for which a browser may keep the answer to a preflight request.
pub const MAX_AGE_SECONDS: usize = 3600;

/// The separator of the origins in a list.
pub const COMMA: u8 = 44;

/// The methods that a cross-origin request may use.
pub fn allowed_methods() -> (methods: Vec<&'static str>)
    ensures
        methods@ == seq!["GET", "POST", "PUT", "PATCH", "DELETE", "OPTIONS"],
{
    vec!["GET", "POST", "PUT", "PATCH", "DELETE", "OPTIONS"]
}

/// The headers that a cross-origin request may carry, in lower case.
pub fn allowed_headers() -> (headers: Vec<&'static str>)
    ensures
        headers@ == seq![
            "authorization",
            "accept",
            "content-type",
            "origin",
            "x-csrf-token",
            "x-organization-id",
            "x-tenant-id",
            "x-user-id",
            "x-store-id",
            "x-request-id",
        ],
{
    vec![
        "authorization",
        "accept",
        "content-type",
        "origin",
        "x-csrf-token",
        "x-organization-id",
        "x-tenant-id",
        "x-user-id",
        "x-store-id",
        "x-request-id",
    ]
}

/// The response headers that a page of another origin may read.
pub fn exposed_headers() -> (headers: Vec<&'static str>)
    ensures
        headers@ == seq!["x-request-id", "x-rate-limit-remaining"],
{
    vec!["x-request-id", "x-rate-limit-remaining"]
}

/// The origins of a development machine.
pub fn dev_origins() -> (origins: Vec<&'static str>)
    ensures
        origins@ == dev_origins_spec(),
{
    vec![
        "http://localhost:5173",
        "http://localhost:3000",
        "http://localhost:8080",
        "http://127.0.0.1:5173",
        "http://127.0.0.1:3000",
        "http://127.0.0.1:8080",
    ]
}

/// The origins that a list names: its pieces between commas, each without
/// the whitespace at its ends, the empty ones left out.
pub open spec fn listed_origins(list: Seq<u8>) -> Seq<Seq<u8>>
    decreases list.len(),
{
    let cut = first_index(list, COMMA);
    if cut < 0 || cut >= list.len() {
        named(trimmed(list))
    } else {
        named(trimmed(list.take(cut))) + listed_origins(list.skip(cut + 1))
    }
}

/// A piece as a list of origins: itself, or nothing where it is empty.
pub open spec fn named(piece: Seq<u8>) -> Seq<Seq<u8>> {
    if piece.len() > 0 {
        seq![piece]
    } else {
        Seq::empty()
    }
}

/// The origins that `list` names, in their order.
pub fn parse_origins(list: &[u8]) -> (origins: Vec<Vec<u8>>)
    ensures
        texts(origins@) == listed_origins(list@),
{
    let mut origins: Vec<Vec<u8>> = Vec::new();
    let mut start: usize = 0;
    let mut done = false;
    assert(list@.skip(0) =~= list@);
    assert(texts(origins@) =~= Seq::<Seq<u8>>::empty());
    while !done
        invariant
            start <= list@.len(),
            !done ==> listed_origins(list@) == texts(origins@) + listed_origins(
                list@.skip(start as int),
            ),
            done ==> listed_origins(list@) == texts(origins@),
        decreases list@.len() - start + (if done { 0int } else { 1int }),
    {
        let end = find_byte(list, start, list.len(), COMMA);
        let (a, b) = trim_range(list, start, end);
        let ghost rest = list@.skip(start as int);
        let ghost before = texts(origins@);
        proof {
            assert(rest =~= list@.subrange(start as int, list@.len() as int));
            assert(first_index(rest, COMMA) == end - start);
            assert(rest.take(end - start) =~= list@.subrange(start as int, end as int));
        }
        if b > a {
            let origin = copy_range(list, a, b);
            origins.push(origin);
            assert(texts(origins@) =~= before + seq![origin@]);
        }
        assert(texts(origins@) =~= before + named(
            trimmed(list@.subrange(start as int, end as int)),
        ));
        if end == list.len() {
            proof {
                assert(rest.take(end - start) =~= rest);
            }
            done = true;
        } else {
            proof {
                assert(rest.skip(end - start + 1) =~= list@.skip(end + 1));
            }
            start = end + 1;
        }
    }
    origins
}

/// The origins of a configuration: those that it lists, where it is set and
/// not empty, else those of a development machine.
pub open spec fn configured_origins(configured: Option<Seq<u8>>, fallback: Seq<Seq<u8>>) -> Seq<
    Seq<u8>,
> {
    match configured {
        Some(list) => if list.len() > 0 {
            listed_origins(list)
        } else {
            fallback
        },
        None => fallback,
    }
}

/// The development origins as bytes.
pub open spec fn dev_origin_bytes() -> Seq<Seq<u8>> {
    dev_origins_spec().map_values(|name: &'static str| name.spec_bytes())
}

/// The origins that a service allows, given the list that its environment
/// holds, if any.
pub fn allowed_origins(configured: Option<&[u8]>) -> (origins: Vec<Vec<u8>>)
    ensures
        texts(origins@) == configured_origins(
            match configured {
                Some(list) => Some(list@),
                None => None,
            },
            dev_origin_bytes(),
        ),
{
    match configured {
        Some(list) => {
            if list.len() > 0 {
                return parse_origins(list);
            }
        },
        None => {},
    }
    let names = dev_origins();
    let mut origins: Vec<Vec<u8>> = Vec::new();
    let mut i: usize = 0;
    while i < names.len()
        invariant
            i <= names@.len(),
            names@ == dev_origins_spec(),
            texts(origins@) == dev_origin_bytes().take(i as int),
        decreases names@.len() - i,
    {
        let ghost before = texts(origins@);
        let origin = bytes_of(names[i]);
        origins.push(origin);
        assert(texts(origins@) =~= before.push(origin@));
        assert(dev_origin_bytes().take(i + 1) =~= dev_origin_bytes().take(i as int).push(
            dev_origin_bytes()[i as int],
        ));
        i += 1;
    }
    assert(dev_origin_bytes().take(6) =~= dev_origin_bytes());
    origins
}

/// The names of the development origins.
pub open spec fn dev_origins_spec() -> Seq<&'static str> {
    seq![
        "http://localhost:5173",
        "http://localhost:3000",
        "http://localhost:8080",
        "http://127.0.0.1:5173",
        "http://127.0.0.1:3000",
        "http://127.0.0.1:8080",
    ]
}

} // verus!
