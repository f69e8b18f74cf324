//! Identity resolution: a fixed table of vanity aliases mapped to
//! canonical tenant identifiers, pass-through for every other token,
//! and the parameter type read endpoints use to name a tenant.

use vstd::prelude::*;
use crate::strutil::str_eq;
use crate::usage::{UsageStore, find_session_uuid, opt_view, session_uuid_of};

verus! {

/// How a read endpoint names a tenant: by canonical id or by display name.
pub enum QueueParam {
    Id(String),
    Name(String),
}

/// The raw query parameters of the tenant-selecting read endpoints.
pub struct QueueParams {
    pub uuid: Option<String>,
    pub name: Option<String>,
    pub full: Option<bool>,
}

/// What `get_custom_uuids` returns: the canonical id of a known vanity
/// alias, or the token itself.
pub open spec fn resolve_spec(s: Seq<char>) -> Seq<char> {
    if s == "inzaniity"@ {
        "43efb299-2504-4365-8ac6-a301f0d7c7aa"@
    } else if s == "thejaydizzle"@ {
        "5d07c1d6-6dcc-4185-a6bd-284fe0480b79"@
    } else if s == "sluckz"@ {
        "f6d9a390-7d48-4da6-a177-c378a7a33c1e"@
    } else if s == "vigilsc"@ {
        "2580091a-aec1-44be-afbd-274523c1b3d2"@
    } else if s == "itsbustre"@ {
        "c90b6e0e-6706-4036-bf25-327b2d981082"@
    } else if s == "rocketstarrl"@ {
        "de8a9f85-2919-474c-9845-6534ec54dc7f"@
    } else if s == "preheet"@ {
        "4aa39d0a-1bf6-4705-bfb5-512dd8afc1e2"@
    } else if s == "highitsky"@ {
        "630e6596-a833-42d9-a905-7a5bf1a75d0e"@
    } else {
        s
    }
}

/// Maps a known vanity alias to its canonical tenant id; any other token
/// is returned unchanged (it is assumed to already be canonical).
pub fn get_custom_uuids<'a>(uuid: &'a str) -> (r: &'a str)
    ensures
        r@ == resolve_spec(uuid@),
{
    if str_eq(uuid, "inzaniity") {
        "43efb299-2504-4365-8ac6-a301f0d7c7aa"
    } else if str_eq(uuid, "thejaydizzle") {
        "5d07c1d6-6dcc-4185-a6bd-284fe0480b79"
    } else if str_eq(uuid, "sluckz") {
        "f6d9a390-7d48-4da6-a177-c378a7a33c1e"
    } else if str_eq(uuid, "vigilsc") {
        "2580091a-aec1-44be-afbd-274523c1b3d2"
    } else if str_eq(uuid, "itsbustre") {
        "c90b6e0e-6706-4036-bf25-327b2d981082"
    } else if str_eq(uuid, "rocketstarrl") {
        "de8a9f85-2919-474c-9845-6534ec54dc7f"
    } else if str_eq(uuid, "preheet") {
        "4aa39d0a-1bf6-4705-bfb5-512dd8afc1e2"
    } else if str_eq(uuid, "highitsky") {
        "630e6596-a833-42d9-a905-7a5bf1a75d0e"
    } else {
        uuid
    }
}

/// The canonical tenant id a read parameter names: an id is taken as
/// it is; a name goes through the alias table first and, failing that,
/// through the most recent usage session carrying that display name.
pub open spec fn read_target(param: QueueParam, usage_rows: Seq<crate::usage::Usage>) -> Option<
    Seq<char>,
> {
    match param {
        QueueParam::Id(u) => Some(u@),
        QueueParam::Name(n) => if resolve_spec(n@) != n@ {
            Some(resolve_spec(n@))
        } else {
            session_uuid_of(usage_rows, n@)
        },
    }
}

/// Resolves a read parameter to a canonical tenant id, per `read_target`.
pub fn resolve_read_target(param: &QueueParam, usage: &UsageStore) -> (r: Option<String>)
    ensures
        opt_view(r) == read_target(*param, usage@),
{
    match param {
        QueueParam::Id(u) => Some(u.clone()),
        QueueParam::Name(n) => {
            let resolved = get_custom_uuids(n.as_str());
            if !str_eq(resolved, n.as_str()) {
                Some(resolved.to_owned())
            } else {
                find_session_uuid(n.as_str(), usage)
            }
        },
    }
}

} // verus!
