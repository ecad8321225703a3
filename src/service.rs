use vstd::prelude::*;
use vstd::string::*;

use crate::error::AppError;
use crate::hdhomerun::{all_joinable, build_lineup, is_lineup_of, Lineup};
use crate::tvheadend::ChannelGridResponse;

verus! {

/// The operation a request asks for.
#[derive(Debug, Clone, Copy, PartialEq, Eq, Structural)]
pub enum Route {
    Discover,
    LineupStatus,
    Lineup,
    Guide,
    NotFound,
}

/// The operation that a request whose path starts with the segment `s` asks for.
pub open spec fn route_of(s: Seq<char>) -> Route {
    if s == "discover.json"@ {
        Route::Discover
    } else if s == "lineup_status.json"@ {
        Route::LineupStatus
    } else if s == "lineup.json"@ {
        Route::Lineup
    } else if s == "guide.xml"@ {
        Route::Guide
    } else {
        Route::NotFound
    }
}

fn same_text(a: &str, b: &str) -> (r: bool)
    ensures
        r == (a@ == b@),
{
    let n = a.unicode_len();
    if n != b.unicode_len() {
        return false;
    }
    let mut i: usize = 0;
    while i < n
        invariant
            n == a@.len(),
            n == b@.len(),
            i <= n,
            a@.subrange(0, i as int) == b@.subrange(0, i as int),
        decreases n - i,
    {
        if a.get_char(i) != b.get_char(i) {
            assert(a@[i as int] != b@[i as int]);
            return false;
        }
        assert(a@.subrange(0, i + 1) =~= a@.subrange(0, i as int).push(a@[i as int]));
        assert(b@.subrange(0, i + 1) =~= b@.subrange(0, i as int).push(b@[i as int]));
        i = i + 1;
    }
    assert(a@ =~= a@.subrange(0, n as int));
    assert(b@ =~= b@.subrange(0, n as int));
    true
}

/// The operation that a request whose path starts with `segment` asks for.
pub fn route(segment: &str) -> (r: Route)
    ensures
        r == route_of(segment@),
{
    proof {
        reveal_strlit("discover.json");
        reveal_strlit("lineup_status.json");
        reveal_strlit("lineup.json");
        reveal_strlit("guide.xml");
    }
    if same_text(segment, "discover.json") {
        Route::Discover
    } else if same_text(segment, "lineup_status.json") {
        Route::LineupStatus
    } else if same_text(segment, "lineup.json") {
        Route::Lineup
    } else if same_text(segment, "guide.xml") {
        Route::Guide
    } else {
        Route::NotFound
    }
}

/// The answer to a lineup request, given what fetching the backend's channel
/// grid gave: its failure as it is, else the lineup of its channels.
pub fn lineup_response(fetched: Result<ChannelGridResponse, AppError>, base_url: &str) -> (r: Result<
    Vec<Lineup>,
    AppError,
>)
    ensures
        fetched matches Err(e) ==> r == Err::<Vec<Lineup>, AppError>(e),
        fetched matches Ok(g) ==> {
            &&& r is Ok <==> all_joinable(g.entries@, base_url@)
            &&& r matches Ok(ls) ==> is_lineup_of(ls@, g.entries@, base_url@)
            &&& r matches Err(e) ==> e == AppError::TransformError
        },
{
    match fetched {
        Ok(grid) => build_lineup(&grid.entries, base_url),
        Err(e) => Err(e),
    }
}

} // verus!
