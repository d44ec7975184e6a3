//! What the operator configures: where to deliver, and how to reach the
//! change source.

use vstd::prelude::*;
use vstd::string::*;

verus! {

/// The configuration of one relay. All four values are plain text that is
/// taken as it is; only whether a value is present matters here.
#[derive(Debug, PartialEq, Eq)]
pub struct Config {
    webhook_url: String,
    cluster_url: String,
    region: String,
    token: String,
}

/// The mathematical value of a [`Config`].
pub struct ConfigView {
    pub webhook_url: Seq<char>,
    pub cluster_url: Seq<char>,
    pub region: Seq<char>,
    pub token: Seq<char>,
}

/// Whether a configuration lacks something that a connection to the change
/// source needs: its address, the region to subscribe to, or the token. The
/// destination endpoint is not needed: without one the relay only echoes.
pub open spec fn lacks_connection_setting(config: ConfigView) -> bool {
    config.cluster_url.len() == 0 || config.region.len() == 0 || config.token.len() == 0
}

impl View for Config {
    type V = ConfigView;

    closed spec fn view(&self) -> ConfigView {
        ConfigView {
            webhook_url: self.webhook_url@,
            cluster_url: self.cluster_url@,
            region: self.region@,
            token: self.token@,
        }
    }
}

impl Config {
    /// A configuration in which nothing is filled in yet.
    pub fn new() -> (config: Config)
        ensures
            config@ == (ConfigView {
                webhook_url: Seq::empty(),
                cluster_url: Seq::empty(),
                region: Seq::empty(),
                token: Seq::empty(),
            }),
    {
        Config {
            webhook_url: String::new(),
            cluster_url: String::new(),
            region: String::new(),
            token: String::new(),
        }
    }

    /// A configuration with the given values.
    pub fn from_parts(
        webhook_url: String,
        cluster_url: String,
        region: String,
        token: String,
    ) -> (config: Config)
        ensures
            config@ == (ConfigView {
                webhook_url: webhook_url@,
                cluster_url: cluster_url@,
                region: region@,
                token: token@,
            }),
    {
        Config { webhook_url, cluster_url, region, token }
    }

    /// Whether the configuration still has to be filled out before the relay
    /// can connect.
    pub fn is_empty(&self) -> (empty: bool)
        ensures
            empty == lacks_connection_setting(self@),
    {
        self.cluster_url.as_str().is_empty() || self.region.as_str().is_empty()
            || self.token.as_str().is_empty()
    }

    /// The address of the destination endpoint; empty if none is configured.
    pub fn webhook_url(&self) -> (url: String)
        ensures
            url@ == self@.webhook_url,
    {
        self.webhook_url.clone()
    }

    /// The address of the change source.
    pub fn cluster_url(&self) -> (url: &str)
        ensures
            url@ == self@.cluster_url,
    {
        self.cluster_url.as_str()
    }

    /// The region whose tables the relay subscribes to.
    pub fn region(&self) -> (region: &str)
        ensures
            region@ == self@.region,
    {
        self.region.as_str()
    }

    /// The token that authenticates the relay to the change source.
    pub fn token(&self) -> (token: &str)
        ensures
            token@ == self@.token,
    {
        self.token.as_str()
    }
}

} // verus!
