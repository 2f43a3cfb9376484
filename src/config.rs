//! The finished configuration and the two-stage builder that produces it.
use std::time::Duration;
use vstd::prelude::*;
use vstd::string::StringExecFns;

use crate::time::duration_from_secs;

verus! {

/// Seconds that a batch waits at most unless the interval is overridden.
pub const DEFAULT_INTERVAL_SECS: u64 = 2;

/// The endpoint that receives telemetry unless it is overridden.
pub open spec fn default_endpoint() -> Seq<char> {
    "https://dc.services.visualstudio.com/v2/track"@
}

/// The batching interval used unless it is overridden: two seconds.
pub open spec fn default_interval() -> Duration {
    duration_from_secs(DEFAULT_INTERVAL_SECS)
}

/// The three settings, as values: what a `Config` holds, and what a `Builder` has
/// staged so far.
pub struct Settings {
    pub ikey: Seq<char>,
    pub endpoint: Seq<char>,
    pub interval: Duration,
}

impl Settings {
    /// The settings that a builder starts from: the given key and the defaults.
    pub open spec fn defaults(ikey: Seq<char>) -> Settings {
        Settings { ikey, endpoint: default_endpoint(), interval: default_interval() }
    }

    pub open spec fn set_ikey(self, ikey: Seq<char>) -> Settings {
        Settings { ikey, ..self }
    }

    pub open spec fn set_endpoint(self, endpoint: Seq<char>) -> Settings {
        Settings { endpoint, ..self }
    }

    pub open spec fn set_interval(self, interval: Duration) -> Settings {
        Settings { interval, ..self }
    }
}

/// Configuration data used to initialize a telemetry client. It is never changed
/// once built.
#[derive(Debug)]
pub struct Config {
    /// Instrumentation key for the client.
    ikey: String,
    /// Endpoint URL where data will be sent.
    endpoint: String,
    /// Maximum time to wait until a batch of telemetry is sent.
    interval: Duration,
}

impl View for Config {
    type V = Settings;

    closed spec fn view(&self) -> Settings {
        Settings { ikey: self.ikey@, endpoint: self.endpoint@, interval: self.interval }
    }
}

impl Config {
    /// Creates a configuration with the given instrumentation key and the default
    /// endpoint and interval.
    pub fn new(ikey: String) -> (r: Config)
        ensures
            r@.ikey == ikey@,
            r@.endpoint == default_endpoint(),
            r@.interval == default_interval(),
    {
        Config::builder().with_ikey(ikey.as_str()).build()
    }

    /// Starts a builder; its first step seeds the defaults.
    pub fn builder() -> (r: DefaultBuilder)
        ensures
            r == DefaultBuilder,
    {
        DefaultBuilder
    }

    /// Returns the instrumentation key for the client.
    pub fn ikey(&self) -> (r: &str)
        ensures
            r@ == self@.ikey,
    {
        self.ikey.as_str()
    }

    /// Returns the endpoint URL where data will be sent.
    pub fn endpoint(&self) -> (r: &str)
        ensures
            r@ == self@.endpoint,
    {
        self.endpoint.as_str()
    }

    /// Returns the maximum time to wait until a batch of telemetry is sent.
    pub fn interval(&self) -> (r: Duration)
        ensures
            r == self@.interval,
    {
        self.interval
    }
}

impl PartialEq for Config {
    /// Two configurations are equal when all three settings are.
    fn eq(&self, o: &Config) -> (r: bool)
        ensures
            r == (self@ == o@),
    {
        self.ikey == o.ikey && self.endpoint == o.endpoint && self.interval == o.interval
    }
}

impl vstd::std_specs::cmp::PartialEqSpecImpl for Config {
    open spec fn obeys_eq_spec() -> bool {
        true
    }

    open spec fn eq_spec(&self, o: &Config) -> bool {
        self@ == o@
    }
}

/// The first stage of the builder: it holds nothing, and its one step seeds the
/// defaults.
pub struct DefaultBuilder;

impl Default for DefaultBuilder {
    fn default() -> (r: DefaultBuilder)
        ensures
            r == DefaultBuilder,
    {
        DefaultBuilder
    }
}

impl DefaultBuilder {
    /// Returns a builder that holds `ikey`, the default endpoint and the default
    /// interval.
    pub fn with_ikey(self, ikey: &str) -> (r: Builder)
        ensures
            r@ == Settings::defaults(ikey@),
    {
        Builder {
            ikey: String::from_str(ikey),
            endpoint: String::from_str("https://dc.services.visualstudio.com/v2/track"),
            interval: Duration::from_secs(DEFAULT_INTERVAL_SECS),
        }
    }
}

/// The second stage of the builder: the staged settings, each of which may be
/// replaced any number of times before `build`.
pub struct Builder {
    ikey: String,
    endpoint: String,
    interval: Duration,
}

impl View for Builder {
    type V = Settings;

    closed spec fn view(&self) -> Settings {
        Settings { ikey: self.ikey@, endpoint: self.endpoint@, interval: self.interval }
    }
}

impl Builder {
    /// Replaces the instrumentation key.
    pub fn with_ikey(self, ikey: &str) -> (r: Builder)
        ensures
            r@ == self@.set_ikey(ikey@),
    {
        let mut b = self;
        b.ikey = String::from_str(ikey);
        b
    }

    /// Replaces the endpoint URL.
    pub fn with_endpoint(self, endpoint: &str) -> (r: Builder)
        ensures
            r@ == self@.set_endpoint(endpoint@),
    {
        let mut b = self;
        b.endpoint = String::from_str(endpoint);
        b
    }

    /// Replaces the batching interval.
    pub fn with_interval(self, interval: Duration) -> (r: Builder)
        ensures
            r@ == self@.set_interval(interval),
    {
        let mut b = self;
        b.interval = interval;
        b
    }

    /// Finishes the builder into a configuration that holds the staged settings.
    pub fn build(self) -> (r: Config)
        ensures
            r@ == self@,
    {
        Config { ikey: self.ikey, endpoint: self.endpoint, interval: self.interval }
    }

    /// Returns the staged endpoint URL.
    pub fn endpoint(&self) -> (r: &str)
        ensures
            r@ == self@.endpoint,
    {
        self.endpoint.as_str()
    }

    /// Returns the staged batching interval.
    pub fn interval(&self) -> (r: Duration)
        ensures
            r == self@.interval,
    {
        self.interval
    }
}

} // verus!
