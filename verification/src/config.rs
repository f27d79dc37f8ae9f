//! The gateway's configuration: the listening port and the inventory's
//! address and token.
use vstd::prelude::*;

verus! {

/// Configuration values, as read at startup.
#[derive(Debug)]
pub struct Config {
    pub port: u16,
    pub netbox_url: String,
    pub netbox_token: String,
}

impl Config {
    /// A configuration from explicit values.
    pub fn new(port: u16, netbox_url: String, netbox_token: String) -> (r: Self)
        ensures
            r.port == port,
            r.netbox_url@ == netbox_url@,
            r.netbox_token@ == netbox_token@,
    {
        Config { port, netbox_url, netbox_token }
    }
}

} // verus!
