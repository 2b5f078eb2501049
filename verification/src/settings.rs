//! The controller's configuration.
//!
//! A settings collaborator outside this crate stores the values under
//! the application's key and hands them over as it found them; the
//! defaulting of missing values and the validity of the whole are
//! decided here. A controller may only be started from settings whose
//! host is a well-formed address.

use vstd::prelude::*;

use crate::host::spec_valid_ipv4;
use crate::host::host_is_valid_ip;

verus! {

/// The application settings: the device's host address and port, and
/// the controller's poll interval in milliseconds.
#[derive(Debug)]
pub struct MyAppSettings {
    pub ip_address: String,
    pub port: u16,
    pub check_interval: u32,
}

impl MyAppSettings {
    /// The settings' invariant: the host parses as a dotted-quad
    /// address (the one address form this crate's grammar covers).
    pub open spec fn wf(self) -> bool {
        spec_valid_ipv4(self.ip_address@)
    }

    /// Whether the host parses as a dotted-quad address, so that a
    /// controller may be started from these settings.
    pub fn host_valid(&self) -> (r: bool)
        ensures
            r == self.wf(),
    {
        host_is_valid_ip(self.ip_address.as_str())
    }
}

impl Default for MyAppSettings {
    /// The settings used when nothing is stored.
    fn default() -> (d: MyAppSettings)
        ensures
            d.ip_address@ == "192.168.178.21"@,
            d.port == 9123,
            d.check_interval == 500,
    {
        MyAppSettings { ip_address: "192.168.178.21".to_owned(), port: 9123, check_interval: 500 }
    }
}

/// Builds settings from what the store held, field by field: a missing
/// value falls to its default, and a stored port is taken in the store's
/// wider width and truncated to a port number.
pub fn settings_from_stored(
    ip: Option<String>,
    port: Option<u32>,
    interval: Option<u32>,
) -> (s: MyAppSettings)
    ensures
        s.ip_address@ == match ip {
            Some(v) => v@,
            None => "192.168.178.21"@,
        },
        s.port as int == match port {
            Some(v) => (v as int) % 65536,
            None => 9123int,
        },
        s.check_interval == match interval {
            Some(v) => v,
            None => 500u32,
        },
{
    let defaults = MyAppSettings::default();
    MyAppSettings {
        ip_address: match ip {
            Some(v) => v,
            None => defaults.ip_address,
        },
        port: match port {
            Some(v) => (v % 65536) as u16,
            None => defaults.port,
        },
        check_interval: match interval {
            Some(v) => v,
            None => defaults.check_interval,
        },
    }
}

} // verus!
