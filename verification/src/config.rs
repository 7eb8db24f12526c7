//! Connection parameters read from persistent storage at boot.

use vstd::prelude::*;

use crate::error::{Error, ErrorView};

verus! {

/// The settings the device needs to join its network.
#[derive(Clone, Debug, PartialEq, Eq)]
pub struct Config {
    /// Name the device announces, if one is stored.
    pub hostname: Option<String>,
    /// Name of the wireless network.
    pub wifi_ssid: String,
    /// Passphrase of the wireless network.
    pub wifi_pass: String,
}

/// The mathematical content of a [`Config`].
pub struct ConfigView {
    pub hostname: Option<Seq<char>>,
    pub wifi_ssid: Seq<char>,
    pub wifi_pass: Seq<char>,
}

impl View for Config {
    type V = ConfigView;

    open spec fn view(&self) -> ConfigView {
        ConfigView {
            hostname: match self.hostname {
                Some(name) => Some(name@),
                None => None,
            },
            wifi_ssid: self.wifi_ssid@,
            wifi_pass: self.wifi_pass@,
        }
    }
}

/// The view of an optional string.
pub open spec fn text_view(text: Option<String>) -> Option<Seq<char>> {
    match text {
        Some(t) => Some(t@),
        None => None,
    }
}

/// The configuration that stored entries amount to. The network name and
/// its passphrase are required, in that order; the host name is not.
pub open spec fn spec_load(
    ssid: Option<Seq<char>>,
    password: Option<Seq<char>>,
    hostname: Option<Seq<char>>,
) -> Result<ConfigView, ErrorView> {
    match (ssid, password) {
        (None, _) => Err(ErrorView::MissingConfig("wifi.ssid"@)),
        (Some(_), None) => Err(ErrorView::MissingConfig("wifi.password"@)),
        (Some(wifi_ssid), Some(wifi_pass)) => Ok(ConfigView { hostname, wifi_ssid, wifi_pass }),
    }
}

/// The view of a configuration or the error in its place.
pub open spec fn loaded_view(loaded: Result<Config, Error>) -> Result<ConfigView, ErrorView> {
    match loaded {
        Ok(config) => Ok(config@),
        Err(error) => Err(error@),
    }
}

impl Config {
    /// Builds the configuration from the entries found in storage: `ssid`
    /// and `password` from the `wifi` namespace, `hostname` from the
    /// `device` namespace, each `None` if absent.
    pub fn load(
        ssid: Option<String>,
        password: Option<String>,
        hostname: Option<String>,
    ) -> (loaded: Result<Config, Error>)
        ensures
            loaded_view(loaded) == spec_load(
                text_view(ssid),
                text_view(password),
                text_view(hostname),
            ),
    {
        let wifi_ssid = match ssid {
            Some(v) => v,
            None => {
                return Err(Error::MissingConfig("wifi.ssid".to_owned()));
            },
        };
        let wifi_pass = match password {
            Some(v) => v,
            None => {
                return Err(Error::MissingConfig("wifi.password".to_owned()));
            },
        };
        Ok(Config { hostname, wifi_ssid, wifi_pass })
    }
}

} // verus!
