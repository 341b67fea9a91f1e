//! Configuration values handed to the core by an external loader. The core
//! never parses configuration-file syntax itself.

use vstd::prelude::*;

verus! {

/// Process configuration: one entry per venue.
#[derive(Clone, Debug)]
pub struct Config {
    pub venues: Vec<VenueConfig>,
}

/// Per-venue configuration. An empty symbol list makes the venue a
/// candidate for discovery; with discovery disabled as well, the adapter
/// produces zero topics and exits successfully without connecting.
#[derive(Clone, Debug)]
pub struct VenueConfig {
    pub name: String,
    pub symbols: Vec<String>,
    pub discover: bool,
    pub ws_base: Option<String>,
    pub rest_base: Option<String>,
    pub http_timeout_secs: Option<u64>,
    pub channels: ChannelConfig,
    pub discovery: Option<DiscoveryConfig>,
}

/// Discovery filter: enablement, quote-asset whitelist and symbol
/// blacklist.
#[derive(Clone, Debug)]
pub struct DiscoveryConfig {
    pub enabled: bool,
    pub quote_whitelist: Vec<String>,
    pub symbol_blacklist: Vec<String>,
}

/// Per-channel enablement: trades on or off, ticker with an optional mode.
#[derive(Clone, Debug)]
pub struct ChannelConfig {
    pub trades: bool,
    pub ticker: Option<TickerConfig>,
}

/// Ticker channel configuration; the mode selects between per-symbol
/// topics and the single aggregate topic.
#[derive(Clone, Debug)]
pub struct TickerConfig {
    pub enabled: bool,
    pub mode: Option<String>,
}

/// The trades channel is enabled unless configuration says otherwise.
pub fn default_trades() -> (r: bool)
    ensures
        r == true,
{
    true
}

impl Default for ChannelConfig {
    fn default() -> (r: Self)
        ensures
            r.trades == true,
            r.ticker is None,
    {
        ChannelConfig { trades: default_trades(), ticker: None }
    }
}

impl Default for TickerConfig {
    fn default() -> (r: Self)
        ensures
            r.enabled == false,
            r.mode is None,
    {
        TickerConfig { enabled: false, mode: None }
    }
}

impl Default for DiscoveryConfig {
    fn default() -> (r: Self)
        ensures
            r.enabled == false,
            r.quote_whitelist@.len() == 0,
            r.symbol_blacklist@.len() == 0,
    {
        DiscoveryConfig { enabled: false, quote_whitelist: Vec::new(), symbol_blacklist: Vec::new() }
    }
}

} // verus!
