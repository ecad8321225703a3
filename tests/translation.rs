use antennas::config::{Config, ListenAddr};
use antennas::error::AppError;
use antennas::hdhomerun::{build_lineup, Discover, Lineup, LineupStatus, SourceType};
use antennas::service::{lineup_response, route, Route};
use antennas::tvheadend::{grid_url, guide_url, Channel, ChannelGridResponse};

fn channel(uuid: u128, number: u16, name: &str, enabled: bool) -> Channel {
    Channel {
        uuid,
        enabled,
        autoname: false,
        name: name.to_string(),
        number,
        epgauto: true,
        epggrab: vec![],
        dvr_pre_time: 0,
        dvr_pst_time: 0,
        epg_running: -1,
        services: vec![],
        tags: vec![],
        bouquet: String::new(),
    }
}

fn config(host: &str, port: u16, public_url: Option<&str>) -> Config {
    Config::new(
        ListenAddr { host: host.to_string(), port },
        public_url.map(|u| u.to_string()),
        0x0123_4567_89ab_cdef_0123_4567_89ab_cdef,
        "http://127.0.0.1:9981/".to_string(),
    )
}

#[test]
fn lineup_of_one_backend_channel() {
    let chans = vec![channel(0x123e4567_e89b_12d3_a456_426614174000, 5, "Channel Five", true)];
    let lineup = build_lineup(&chans, "http://tv.local:9981").unwrap();
    assert_eq!(lineup.len(), 1);
    assert_eq!(lineup[0].guide_number, "5");
    assert_eq!(lineup[0].guide_name, "Channel Five");
    assert_eq!(lineup[0].url, "http://tv.local:9981/stream/channel/123e4567e89b12d3a456426614174000");
}

#[test]
fn lineup_keeps_order_and_disabled_channels() {
    let chans = vec![
        channel(1, 42, "Second", false),
        channel(0xffff_ffff_ffff_ffff_ffff_ffff_ffff_ffff, 7, "First", true),
        channel(2, 42, "Second", true),
    ];
    let lineup = build_lineup(&chans, "http://tv.local:9981/some/path").unwrap();
    let numbers: Vec<&str> = lineup.iter().map(|l| l.guide_number.as_str()).collect();
    let names: Vec<&str> = lineup.iter().map(|l| l.guide_name.as_str()).collect();
    assert_eq!(numbers, vec!["42", "7", "42"]);
    assert_eq!(names, vec!["Second", "First", "Second"]);
    assert_eq!(lineup[0].url, "http://tv.local:9981/stream/channel/00000000000000000000000000000001");
    assert_eq!(lineup[1].url, "http://tv.local:9981/stream/channel/ffffffffffffffffffffffffffffffff");
}

#[test]
fn lineup_of_no_channels_is_empty() {
    let lineup = build_lineup(&vec![], "http://tv.local:9981").unwrap();
    assert!(lineup.is_empty());
}

#[test]
fn lineup_fails_whole_on_bad_backend_url() {
    let chans = vec![channel(1, 1, "One", true), channel(2, 2, "Two", true)];
    assert_eq!(build_lineup(&chans, "not a url").unwrap_err(), AppError::TransformError);
}

#[test]
fn single_entry_from_channel() {
    let l: Lineup = Lineup::from_channel(channel(0xab, 65535, "Max", true), "http://h:1/").unwrap();
    assert_eq!(l.guide_number, "65535");
    assert_eq!(l.guide_name, "Max");
    assert_eq!(l.url, "http://h:1/stream/channel/000000000000000000000000000000ab");
}

#[test]
fn guide_number_is_decimal() {
    assert_eq!(channel(0, 0, "", true).guide_number(), "0");
    assert_eq!(channel(0, 10, "", true).guide_number(), "10");
    assert_eq!(channel(0, 1234, "", true).guide_number(), "1234");
    assert_eq!(channel(0, 9, "Nine", true).guide_name(), "Nine");
}

#[test]
fn discover_from_listen_address() {
    let cfg = config("127.0.0.1", 8080, None);
    assert_eq!(cfg.public_url(), "http://127.0.0.1:8080/");
    let d = Discover::from_config(&cfg).unwrap();
    assert_eq!(d.base_url, "http://127.0.0.1:8080/");
    assert_eq!(d.lineup_url, "http://127.0.0.1:8080/lineup.json");
    assert_eq!(d.device_id, 0x0123_4567_89ab_cdef_0123_4567_89ab_cdef);
    assert_eq!(d.friendly_name, "HDHomerun (antennas-rs)");
    assert_eq!(d.manufacturer, "Silicondust");
    assert_eq!(d.manufacturer_url, "https://github.com/sandhose/antennas-rs");
    assert_eq!(d.model_number, "HDTC-2US");
    assert_eq!(d.firmware_name, "hdhomeruntc_atsc");
    assert_eq!(d.tuner_count, 6);
    assert_eq!(d.firmware_version, "20170930");
    assert_eq!(d.device_auth, "5678");
}

#[test]
fn discover_with_public_url() {
    let cfg = config("0.0.0.0", 8080, Some("https://tuner.example.org/base/"));
    let d = Discover::from_config(&cfg).unwrap();
    assert_eq!(d.base_url, "https://tuner.example.org/base/");
    assert_eq!(d.lineup_url, "https://tuner.example.org/lineup.json");
}

#[test]
fn discover_fails_on_unparsable_public_url() {
    let cfg = config("127.0.0.1", 8080, Some("no scheme here"));
    assert_eq!(Discover::from_config(&cfg).unwrap_err(), AppError::Generic);
}

#[test]
fn default_port_left_out_of_public_url() {
    assert_eq!(config("10.0.0.2", 80, None).public_url(), "http://10.0.0.2/");
    assert_eq!(config("[::1]", 5004, None).public_url(), "http://[::1]:5004/");
}

#[test]
fn config_getters() {
    let cfg = config("127.0.0.1", 8080, None);
    let l = cfg.listen();
    assert_eq!(l.host, "127.0.0.1");
    assert_eq!(l.port, 8080);
    assert_eq!(cfg.uuid(), 0x0123_4567_89ab_cdef_0123_4567_89ab_cdef);
    assert_eq!(cfg.tvheadend_url(), "http://127.0.0.1:9981/");
}

#[test]
fn lineup_status_is_fixed() {
    for _ in 0..3 {
        let s = LineupStatus::default();
        assert_eq!(s.scan_in_progress, 0);
        assert_eq!(s.scan_possible, 1);
        assert_eq!(s.source, SourceType::Cable);
        assert_eq!(s.source_list, vec![SourceType::Cable]);
    }
}

#[test]
fn backend_urls() {
    assert_eq!(
        grid_url("http://tv.local:9981").unwrap(),
        "http://tv.local:9981/api/channel/grid?start=0&limit=999999"
    );
    assert_eq!(guide_url("http://tv.local:9981/x/").unwrap(), "http://tv.local:9981/xmltv/channels");
    assert_eq!(grid_url("::bad").unwrap_err(), AppError::Generic);
    assert_eq!(guide_url("").unwrap_err(), AppError::Generic);
}

#[test]
fn failed_fetch_fails_lineup() {
    let r = lineup_response(Err(AppError::RequestError), "http://tv.local:9981");
    assert_eq!(r.unwrap_err(), AppError::RequestError);
    let r = lineup_response(Err(AppError::DecodeError), "http://tv.local:9981");
    assert_eq!(r.unwrap_err(), AppError::DecodeError);
}

#[test]
fn fetched_grid_becomes_lineup() {
    let grid = ChannelGridResponse { entries: vec![channel(3, 12, "Twelve", true)] };
    let r = lineup_response(Ok(grid), "http://tv.local:9981").unwrap();
    assert_eq!(r.len(), 1);
    assert_eq!(r[0].guide_number, "12");
    assert_eq!(r[0].url, "http://tv.local:9981/stream/channel/00000000000000000000000000000003");
}

#[test]
fn paths_route_to_operations() {
    assert_eq!(route("discover.json"), Route::Discover);
    assert_eq!(route("lineup_status.json"), Route::LineupStatus);
    assert_eq!(route("lineup.json"), Route::Lineup);
    assert_eq!(route("guide.xml"), Route::Guide);
    assert_eq!(route("lineup.jso"), Route::NotFound);
    assert_eq!(route(""), Route::NotFound);
    assert_eq!(route("Guide.xml"), Route::NotFound);
}
