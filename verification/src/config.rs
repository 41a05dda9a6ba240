//! The configuration that every request handler shares.

use crate::decimal::{decimal, push_decimal};
use vstd::prelude::*;
use vstd::string::StringExecFns;

verus! {

/// `host:port`, the port in decimal.
pub open spec fn authority(host: Seq<char>, port: nat) -> Seq<char> {
    host + ":"@ + decimal(port)
}

/// Host, port and image directory. The values are fixed when the
/// configuration is built and only read afterwards.
#[derive(Debug, PartialEq, Eq)]
pub struct Config {
    /// Host that the server binds to and that image URLs name.
    pub host: String,
    /// Port that the server binds to and that image URLs name.
    pub port: u16,
    /// Directory that holds the images.
    pub directory: String,
}

impl Config {
    /// A configuration with the given values.
    pub fn new(host: String, port: u16, directory: String) -> (config: Config)
        ensures
            config.host == host,
            config.port == port,
            config.directory == directory,
    {
        Config { host, port, directory }
    }

    /// The address to bind to, `host:port`.
    pub fn bind_address(&self) -> (address: String)
        ensures
            address@ == authority(self.host@, self.port as nat),
    {
        let mut address = self.host.clone();
        address.append(":");
        push_decimal(&mut address, self.port);
        address
    }
}

impl Default for Config {
    /// Host `0.0.0.0`, port 80, directory `images`.
    fn default() -> (config: Config)
        ensures
            config.host@ == "0.0.0.0"@,
            config.port == 80,
            config.directory@ == "images"@,
    {
        Config { host: "0.0.0.0".to_owned(), port: 80, directory: "images".to_owned() }
    }
}

} // verus!
