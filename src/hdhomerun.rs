use vstd::prelude::*;

use crate::config::Config;
use crate::error::AppError;
use crate::text::decimal;
use crate::tvheadend::{stream_path, Channel};
use crate::weburl::{join_url, url_join_of};

verus! {

/// One channel of the tuner's lineup.
#[derive(Debug, Clone)]
pub struct Lineup {
    pub guide_number: String,
    pub guide_name: String,
    pub url: String,
}

/// Whether a stream URL can be formed for `c` under the backend at `base`.
pub open spec fn channel_joinable(c: Channel, base: Seq<char>) -> bool {
    url_join_of(base, stream_path(c.uuid)) is Some
}

/// Whether `l` is the lineup entry for channel `c` of the backend at `base`:
/// its number in decimal, its name, and its stream URL under the backend.
pub open spec fn is_entry_of(l: Lineup, c: Channel, base: Seq<char>) -> bool {
    &&& l.guide_number@ == decimal(c.number as nat)
    &&& l.guide_name@ == c.name@
    &&& url_join_of(base, stream_path(c.uuid)) == Some(l.url@)
}

/// Whether every channel of `cs` has a stream URL under the backend at `base`.
pub open spec fn all_joinable(cs: Seq<Channel>, base: Seq<char>) -> bool {
    forall|i: int| 0 <= i < cs.len() ==> channel_joinable(#[trigger] cs[i], base)
}

/// Whether `ls` is the lineup for `cs`: one entry for each channel, in the
/// same order.
pub open spec fn is_lineup_of(ls: Seq<Lineup>, cs: Seq<Channel>, base: Seq<char>) -> bool {
    &&& ls.len() == cs.len()
    &&& forall|i: int| 0 <= i < ls.len() ==> is_entry_of(#[trigger] ls[i], cs[i], base)
}

fn entry_for(channel: &Channel, base_url: &str) -> (r: Result<Lineup, AppError>)
    ensures
        r is Ok <==> channel_joinable(*channel, base_url@),
        r matches Ok(l) ==> is_entry_of(l, *channel, base_url@),
        r matches Err(e) ==> e == AppError::TransformError,
{
    let url = channel.url(base_url)?;
    Ok(Lineup { guide_number: channel.guide_number(), guide_name: channel.guide_name(), url })
}

impl Lineup {
    /// The lineup entry for `channel`, whose stream is served by the backend
    /// at `base_url`.
    pub fn from_channel(channel: Channel, base_url: &str) -> (r: Result<Lineup, AppError>)
        ensures
            r is Ok <==> channel_joinable(channel, base_url@),
            r matches Ok(l) ==> is_entry_of(l, channel, base_url@),
            r matches Err(e) ==> e == AppError::TransformError,
    {
        entry_for(&channel, base_url)
    }
}

/// The lineup for the backend's channels, in their order and whether enabled
/// or not. Where one channel has no stream URL the whole lineup fails.
pub fn build_lineup(channels: &Vec<Channel>, base_url: &str) -> (r: Result<Vec<Lineup>, AppError>)
    ensures
        r is Ok <==> all_joinable(channels@, base_url@),
        r matches Ok(ls) ==> is_lineup_of(ls@, channels@, base_url@),
        r matches Err(e) ==> e == AppError::TransformError,
{
    let mut out: Vec<Lineup> = Vec::new();
    let mut i: usize = 0;
    while i < channels.len()
        invariant
            i <= channels@.len(),
            all_joinable(channels@.subrange(0, i as int), base_url@),
            is_lineup_of(out@, channels@.subrange(0, i as int), base_url@),
        decreases channels@.len() - i,
    {
        match entry_for(&channels[i], base_url) {
            Ok(l) => {
                out.push(l);
                i = i + 1;
                assert(channels@.subrange(0, i as int) =~= channels@.subrange(0, i - 1).push(
                    channels@[i - 1],
                ));
            },
            Err(e) => {
                assert(!channel_joinable(channels@[i as int], base_url@));
                return Err(e);
            },
        }
    }
    assert(channels@.subrange(0, i as int) =~= channels@);
    Ok(out)
}

/// An empty channel list has a lineup, and it is the empty one.
pub proof fn empty_channels_give_empty_lineup(ls: Seq<Lineup>, base: Seq<char>)
    ensures
        all_joinable(Seq::<Channel>::empty(), base),
        is_lineup_of(ls, Seq::<Channel>::empty(), base) <==> ls.len() == 0,
{
}

/// A kind of signal source.
#[derive(Debug, Clone, Copy, PartialEq, Eq, Structural)]
pub enum SourceType {
    Cable,
}

/// The state of the tuner's channel scan, which never runs.
#[derive(Debug, Clone)]
pub struct LineupStatus {
    pub scan_in_progress: u16,
    pub scan_possible: u16,
    pub source: SourceType,
    pub source_list: Vec<SourceType>,
}

impl LineupStatus {
    /// No scan running, a scan possible, and cable as the one source.
    pub open spec fn is_idle_cable(&self) -> bool {
        &&& self.scan_in_progress == 0
        &&& self.scan_possible == 1
        &&& self.source == SourceType::Cable
        &&& self.source_list@ == seq![SourceType::Cable]
    }
}

impl Default for LineupStatus {
    fn default() -> (r: LineupStatus)
        ensures
            r.is_idle_cable(),
    {
        let mut source_list: Vec<SourceType> = Vec::new();
        source_list.push(SourceType::Cable);
        assert(source_list@ =~= seq![SourceType::Cable]);
        LineupStatus { scan_in_progress: 0, scan_possible: 1, source: SourceType::Cable, source_list }
    }
}

/// Any two lineup statuses the tuner reports agree in every field.
pub proof fn lineup_status_is_constant(a: LineupStatus, b: LineupStatus)
    requires
        a.is_idle_cable(),
        b.is_idle_cable(),
    ensures
        a.scan_in_progress == b.scan_in_progress,
        a.scan_possible == b.scan_possible,
        a.source == b.source,
        a.source_list@ == b.source_list@,
{
}

/// The path, relative to the tuner's base URL, of its lineup.
pub open spec fn lineup_path() -> Seq<char> {
    "/lineup.json"@
}

/// The tuner's description of itself, by which clients find it.
#[derive(Debug, Clone)]
pub struct Discover {
    pub friendly_name: String,
    pub manufacturer: String,
    pub manufacturer_url: String,
    pub model_number: String,
    pub firmware_name: String,
    pub tuner_count: u16,
    pub firmware_version: String,
    pub device_id: u128,
    pub device_auth: String,
    pub base_url: String,
    pub lineup_url: String,
}

impl Discover {
    /// The fixed part of the description: names, model, firmware and tuners.
    pub open spec fn has_fixed_fields(&self) -> bool {
        &&& self.friendly_name@ == "HDHomerun (antennas-rs)"@
        &&& self.manufacturer@ == "Silicondust"@
        &&& self.manufacturer_url@ == "https://github.com/sandhose/antennas-rs"@
        &&& self.model_number@ == "HDTC-2US"@
        &&& self.firmware_name@ == "hdhomeruntc_atsc"@
        &&& self.tuner_count == 6
        &&& self.firmware_version@ == "20170930"@
        &&& self.device_auth@ == "5678"@
    }

    /// The description of the tuner run with `cfg`: its identifier, the base
    /// URL by which it is reached, and its lineup's URL under that base.
    /// Fails only where the lineup's URL cannot be formed from the base URL.
    pub fn from_config(cfg: &Config) -> (r: Result<Discover, AppError>)
        ensures
            r is Ok <==> url_join_of(cfg.public_url_spec(), lineup_path()) is Some,
            r matches Ok(d) ==> {
                &&& d.has_fixed_fields()
                &&& d.device_id == cfg.uuid_spec()
                &&& d.base_url@ == cfg.public_url_spec()
                &&& Some(d.lineup_url@) == url_join_of(d.base_url@, lineup_path())
            },
            r matches Err(e) ==> e == AppError::Generic,
    {
        let base_url = cfg.public_url();
        proof {
            reveal_strlit("/lineup.json");
            reveal_strlit("HDHomerun (antennas-rs)");
            reveal_strlit("Silicondust");
            reveal_strlit("https://github.com/sandhose/antennas-rs");
            reveal_strlit("HDTC-2US");
            reveal_strlit("hdhomeruntc_atsc");
            reveal_strlit("20170930");
            reveal_strlit("5678");
        }
        let lineup_url = match join_url(base_url.as_str(), "/lineup.json") {
            Ok(u) => u,
            Err(_) => {
                return Err(AppError::Generic);
            },
        };
        Ok(Discover {
            friendly_name: String::from_str("HDHomerun (antennas-rs)"),
            manufacturer: String::from_str("Silicondust"),
            manufacturer_url: String::from_str("https://github.com/sandhose/antennas-rs"),
            model_number: String::from_str("HDTC-2US"),
            firmware_name: String::from_str("hdhomeruntc_atsc"),
            tuner_count: 6,
            firmware_version: String::from_str("20170930"),
            device_id: cfg.uuid(),
            device_auth: String::from_str("5678"),
            base_url,
            lineup_url,
        })
    }
}

} // verus!
