//! Laws of the builder, stated over the settings that the builder's contracts use.
use std::time::Duration;
use vstd::prelude::*;

use crate::config::{default_endpoint, default_interval, Settings};

verus! {

/// Whatever the seeded key, setting the key, the endpoint and the interval, in any
/// order, stages exactly those three values.
pub proof fn lemma_overrides_in_any_order(seed: Seq<char>, ikey: Seq<char>, endpoint: Seq<char>, interval: Duration)
    ensures
        ({
            let s = Settings::defaults(seed);
            let want = Settings { ikey, endpoint, interval };
            &&& s.set_ikey(ikey).set_endpoint(endpoint).set_interval(interval) == want
            &&& s.set_ikey(ikey).set_interval(interval).set_endpoint(endpoint) == want
            &&& s.set_endpoint(endpoint).set_ikey(ikey).set_interval(interval) == want
            &&& s.set_endpoint(endpoint).set_interval(interval).set_ikey(ikey) == want
            &&& s.set_interval(interval).set_ikey(ikey).set_endpoint(endpoint) == want
            &&& s.set_interval(interval).set_endpoint(endpoint).set_ikey(ikey) == want
        }),
{
}

/// Seeding a key and then setting the endpoint and the interval stages the key with
/// those two values.
pub proof fn lemma_seeded_then_overridden(ikey: Seq<char>, endpoint: Seq<char>, interval: Duration)
    ensures
        Settings::defaults(ikey).set_endpoint(endpoint).set_interval(interval) == (Settings {
            ikey,
            endpoint,
            interval,
        }),
{
}

/// Setting the endpoint twice leaves the second value, and setting it leaves the key
/// and the interval as they were; setting the same endpoint again changes nothing.
pub proof fn lemma_endpoint_override_last_wins(s: Settings, first: Seq<char>, second: Seq<char>)
    ensures
        s.set_endpoint(first).set_endpoint(second) == s.set_endpoint(second),
        s.set_endpoint(first).set_endpoint(first) == s.set_endpoint(first),
        s.set_endpoint(first).ikey == s.ikey,
        s.set_endpoint(first).interval == s.interval,
{
}

/// For the key and the interval too, the last value set wins and the other two
/// settings stay as they were.
pub proof fn lemma_ikey_and_interval_overrides_last_win(
    s: Settings,
    k1: Seq<char>,
    k2: Seq<char>,
    d1: Duration,
    d2: Duration,
)
    ensures
        s.set_ikey(k1).set_ikey(k2) == s.set_ikey(k2),
        s.set_ikey(k1).endpoint == s.endpoint,
        s.set_ikey(k1).interval == s.interval,
        s.set_interval(d1).set_interval(d2) == s.set_interval(d2),
        s.set_interval(d1).ikey == s.ikey,
        s.set_interval(d1).endpoint == s.endpoint,
{
}

/// What `Config::new(ikey)` holds, field by field, is what the builder seeds for
/// `ikey`, so `Config::new(ikey)` and `Config::builder().with_ikey(ikey).build()`
/// are equal.
pub proof fn lemma_new_agrees_with_builder(ikey: Seq<char>)
    ensures
        (Settings { ikey, endpoint: default_endpoint(), interval: default_interval() })
            == Settings::defaults(ikey),
{
}

} // verus!
