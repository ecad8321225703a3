use vstd::prelude::*;
use vstd::arithmetic::power::pow;

use crate::error::AppError;
use crate::text::{decimal, decimal_string};
use crate::weburl::{join_url, url_join_of};

verus! {

/// The hexadecimal digit `d` (0 to 15) as a lower-case character.
pub open spec fn hex_char(d: int) -> char {
    seq!['0', '1', '2', '3', '4', '5', '6', '7', '8', '9', 'a', 'b', 'c', 'd', 'e', 'f'][d]
}

/// The compact form of an identifier: its 32 hexadecimal digits in lower
/// case, most significant first, without hyphens.
pub open spec fn simple_text(id: u128) -> Seq<char> {
    Seq::new(32, |i: int| hex_char((id as int / pow(16, (31 - i) as nat)) % 16))
}

/// Relies on uuid's `Uuid::to_simple` formatting: 32 lower-case hex digits,
/// most significant first.
#[verifier::external_body]
fn simple_uuid(id: u128) -> (r: String)
    ensures
        r@ == simple_text(id),
{
    uuid::Uuid::from_u128(id).to_simple().to_string()
}

/// The path under the backend at which a channel's stream is served.
pub open spec fn stream_path(id: u128) -> Seq<char> {
    "/stream/channel/"@ + simple_text(id)
}

/// The query, relative to the backend, that lists every channel in one page.
pub open spec fn grid_query() -> Seq<char> {
    "/api/channel/grid?start=0&limit=999999"@
}

/// The path, relative to the backend, of its guide document.
pub open spec fn guide_path() -> Seq<char> {
    "/xmltv/channels"@
}

/// A channel as the backend describes it.
#[derive(Debug, Clone)]
pub struct Channel {
    /// The channel's identifier, as a 128-bit number.
    pub uuid: u128,
    pub enabled: bool,
    pub autoname: bool,
    pub name: String,
    pub number: u16,
    pub epgauto: bool,
    pub epggrab: Vec<String>,
    pub dvr_pre_time: u16,
    pub dvr_pst_time: u16,
    pub epg_running: i8,
    pub services: Vec<u128>,
    pub tags: Vec<u128>,
    pub bouquet: String,
}

impl Channel {
    /// The number under which the tuner lists the channel.
    pub fn guide_number(&self) -> (r: String)
        ensures
            r@ == decimal(self.number as nat),
    {
        decimal_string(self.number)
    }

    /// The name under which the tuner lists the channel.
    pub fn guide_name(&self) -> (r: String)
        ensures
            r@ == self.name@,
    {
        self.name.clone()
    }

    /// The channel's stream URL under the backend at `base_url`.
    pub fn url(&self, base_url: &str) -> (r: Result<String, AppError>)
        ensures
            r is Ok <==> url_join_of(base_url@, stream_path(self.uuid)) is Some,
            r matches Ok(s) ==> s@ == url_join_of(base_url@, stream_path(self.uuid))->0,
            r matches Err(e) ==> e == AppError::TransformError,
    {
        let mut path = String::from_str("/stream/channel/");
        let id = simple_uuid(self.uuid);
        path.append(id.as_str());
        proof {
            reveal_strlit("/stream/channel/");
        }
        assert(path@ =~= stream_path(self.uuid));
        match join_url(base_url, path.as_str()) {
            Ok(s) => Ok(s),
            Err(_) => Err(AppError::TransformError),
        }
    }
}

/// The backend's answer to a channel grid query.
#[derive(Debug, Clone)]
pub struct ChannelGridResponse {
    pub entries: Vec<Channel>,
}

/// The URL of the query that lists all of the backend's channels at once.
pub fn grid_url(base_url: &str) -> (r: Result<String, AppError>)
    ensures
        r is Ok <==> url_join_of(base_url@, grid_query()) is Some,
        r matches Ok(s) ==> s@ == url_join_of(base_url@, grid_query())->0,
        r matches Err(e) ==> e == AppError::Generic,
{
    let query = "/api/channel/grid?start=0&limit=999999";
    proof {
        reveal_strlit("/api/channel/grid?start=0&limit=999999");
    }
    match join_url(base_url, query) {
        Ok(s) => Ok(s),
        Err(_) => Err(AppError::Generic),
    }
}

/// The URL of the backend's guide document.
pub fn guide_url(base_url: &str) -> (r: Result<String, AppError>)
    ensures
        r is Ok <==> url_join_of(base_url@, guide_path()) is Some,
        r matches Ok(s) ==> s@ == url_join_of(base_url@, guide_path())->0,
        r matches Err(e) ==> e == AppError::Generic,
{
    let path = "/xmltv/channels";
    proof {
        reveal_strlit("/xmltv/channels");
    }
    match join_url(base_url, path) {
        Ok(s) => Ok(s),
        Err(_) => Err(AppError::Generic),
    }
}

} // verus!
