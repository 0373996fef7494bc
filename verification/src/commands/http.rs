//! The server endpoints the user interface's requests go to.
use vstd::prelude::*;

use crate::json::JsonValue;
use crate::models::{ApiError, ApiResult};
use crate::text::{decimal, u64_to_decimal};

use super::helpers::ValidationError;

verus! {

/// Where activity reports go.
pub const ACTIVITY_PATH: &'static str = "/api/activity";

/// The public activity feed.
pub const PUBLIC_ACTIVITY_PATH: &'static str = "/api/activity?public=1";

/// Where the connectivity probe goes.
pub const VERIFY_PATH: &'static str = "/api/activity/verify";

/// The inspiration entries.
pub const INSPIRATION_ENTRIES_PATH: &'static str = "/api/inspiration/entries";

/// Where images are uploaded.
pub const INSPIRATION_ASSETS_PATH: &'static str = "/api/inspiration/assets";

/// The query parameters of a page of entries, in order.
pub open spec fn page_params(limit: Option<u32>, offset: Option<u32>) -> Seq<Seq<char>> {
    (match limit {
        Some(l) => seq!["limit="@ + decimal(l as nat)],
        None => Seq::empty(),
    }) + (match offset {
        Some(o) => seq!["offset="@ + decimal(o as nat)],
        None => Seq::empty(),
    })
}

/// The path of a page of inspiration entries: the entries path, and the
/// given `limit` and `offset` as a query.
pub open spec fn inspiration_entries_path_spec(limit: Option<u32>, offset: Option<u32>) -> Seq<char> {
    let p = page_params(limit, offset);
    if p.len() == 0 {
        "/api/inspiration/entries"@
    } else if p.len() == 1 {
        "/api/inspiration/entries?"@ + p[0]
    } else {
        "/api/inspiration/entries?"@ + p[0] + "&"@ + p[1]
    }
}

/// The path of a page of inspiration entries.
pub fn inspiration_entries_path(limit: Option<u32>, offset: Option<u32>) -> (r: String)
    ensures
        r@ == inspiration_entries_path_spec(limit, offset),
{
    proof {
        reveal_strlit("/api/inspiration/entries");
        reveal_strlit("/api/inspiration/entries?");
        reveal_strlit("limit=");
        reveal_strlit("offset=");
        reveal_strlit("&");
    }
    match (limit, offset) {
        (None, None) => "/api/inspiration/entries".to_owned(),
        (Some(l), None) => {
            let mut path = "/api/inspiration/entries?limit=".to_owned();
            path.append(u64_to_decimal(l as u64).as_str());
            proof {
                reveal_strlit("/api/inspiration/entries?limit=");
                assert(path@ =~= inspiration_entries_path_spec(limit, offset));
            }
            path
        },
        (None, Some(o)) => {
            let mut path = "/api/inspiration/entries?offset=".to_owned();
            path.append(u64_to_decimal(o as u64).as_str());
            proof {
                reveal_strlit("/api/inspiration/entries?offset=");
                assert(path@ =~= inspiration_entries_path_spec(limit, offset));
            }
            path
        },
        (Some(l), Some(o)) => {
            let mut path = "/api/inspiration/entries?limit=".to_owned();
            path.append(u64_to_decimal(l as u64).as_str());
            path.append("&offset=");
            path.append(u64_to_decimal(o as u64).as_str());
            proof {
                reveal_strlit("/api/inspiration/entries?limit=");
                reveal_strlit("&offset=");
                assert(path@ =~= inspiration_entries_path_spec(limit, offset));
            }
            path
        },
    }
}

/// The answer when a request is refused before it is sent.
pub fn validation_failure(error: ValidationError) -> (r: ApiResult<JsonValue>)
    ensures
        !r.success,
        r.status == 400,
        r.data is None,
        r.error is Some,
        r.error->Some_0.status == 400,
        crate::text::opt_seq(r.error->Some_0.code) == Some(error.code@),
        r.error->Some_0.message == error.message,
        r.error->Some_0.params == error.params,
        r.error->Some_0.details is None,
{
    let ValidationError { code, message, params } = error;
    ApiResult::failure_localized(400, Some(code.to_owned()), message, params, None)
}

} // verus!
