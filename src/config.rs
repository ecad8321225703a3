use vstd::prelude::*;

use crate::text::{decimal, push_decimal};

verus! {

/// The address the tuner listens on: the host as it is written in a URL
/// (an IPv6 address in brackets) and the port.
#[derive(Debug, Clone)]
pub struct ListenAddr {
    pub host: String,
    pub port: u16,
}

/// The base URL under which a tuner listening on `host` and `port` is
/// reached over HTTP; port 80, HTTP's own, is left out.
pub open spec fn listen_url(host: Seq<char>, port: u16) -> Seq<char> {
    let port_part = if port == 80 {
        Seq::<char>::empty()
    } else {
        ":"@ + decimal(port as nat)
    };
    "http://"@ + host + port_part + "/"@
}

/// The text of an optional string.
pub open spec fn text_option(o: Option<String>) -> Option<Seq<char>> {
    match o {
        Some(u) => Some(u@),
        None => None,
    }
}

/// What the tuner is run with, fixed for the life of the process.
#[derive(Debug, Clone)]
pub struct Config {
    listen: ListenAddr,
    public_url: Option<String>,
    uuid: u128,
    tvheadend_url: String,
}

impl Config {
    /// A configuration from its four settings: the listen address, the base
    /// URL by which clients reach the tuner if one is given, the device
    /// identifier, and the backend's base URL.
    pub fn new(listen: ListenAddr, public_url: Option<String>, uuid: u128, tvheadend_url: String) -> (r: Config)
        ensures
            r.listen_spec().host@ == listen.host@,
            r.listen_spec().port == listen.port,
            r.public_url_setting() == text_option(public_url),
            r.uuid_spec() == uuid,
            r.tvheadend_url_spec() == tvheadend_url@,
    {
        Config { listen, public_url, uuid, tvheadend_url }
    }

    pub closed spec fn listen_spec(&self) -> ListenAddr {
        self.listen
    }

    pub closed spec fn public_url_setting(&self) -> Option<Seq<char>> {
        text_option(self.public_url)
    }

    pub closed spec fn uuid_spec(&self) -> u128 {
        self.uuid
    }

    pub closed spec fn tvheadend_url_spec(&self) -> Seq<char> {
        self.tvheadend_url@
    }

    /// The base URL by which clients reach the tuner: the one configured, or
    /// else the one made from the listen address.
    pub open spec fn public_url_spec(&self) -> Seq<char> {
        match self.public_url_setting() {
            Some(u) => u,
            None => listen_url(self.listen_spec().host@, self.listen_spec().port),
        }
    }

    /// The base URL by which clients reach the tuner.
    pub fn public_url(&self) -> (r: String)
        ensures
            r@ == self.public_url_spec(),
    {
        match &self.public_url {
            Some(u) => u.clone(),
            None => {
                let mut u = String::from_str("http://");
                u.append(self.listen.host.as_str());
                if self.listen.port != 80 {
                    u.append(":");
                    push_decimal(&mut u, self.listen.port);
                }
                u.append("/");
                proof {
                    reveal_strlit("http://");
                    reveal_strlit(":");
                    reveal_strlit("/");
                }
                assert(u@ =~= listen_url(self.listen.host@, self.listen.port));
                u
            },
        }
    }

    /// The address to listen on.
    pub fn listen(&self) -> (r: ListenAddr)
        ensures
            r.host@ == self.listen_spec().host@,
            r.port == self.listen_spec().port,
    {
        ListenAddr { host: self.listen.host.clone(), port: self.listen.port }
    }

    /// The device identifier.
    pub fn uuid(&self) -> (r: u128)
        ensures
            r == self.uuid_spec(),
    {
        self.uuid
    }

    /// The backend's base URL.
    pub fn tvheadend_url(&self) -> (r: &String)
        ensures
            r@ == self.tvheadend_url_spec(),
    {
        &self.tvheadend_url
    }
}

} // verus!
