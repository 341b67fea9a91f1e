use ingest::config::{ChannelConfig, DiscoveryConfig, TickerConfig, VenueConfig};
use ingest::topics::build_streams;

fn base_cfg() -> VenueConfig {
    VenueConfig {
        name: "binance".to_string(),
        symbols: vec!["BTCUSDT".to_string()],
        discover: false,
        ws_base: None,
        rest_base: None,
        http_timeout_secs: None,
        channels: ChannelConfig {
            trades: true,
            ticker: Some(TickerConfig { enabled: true, mode: None }),
        },
        discovery: None,
    }
}

#[allow(dead_code)]
fn discovery_cfg() -> DiscoveryConfig {
    DiscoveryConfig { enabled: true, quote_whitelist: vec![], symbol_blacklist: vec![] }
}

#[test]
fn build_trade_and_ticker_streams() {
    let cfg = base_cfg();
    let streams = build_streams(&cfg, &cfg.symbols);
    assert!(streams.contains(&"btcusdt@trade".to_string()));
    assert!(streams.contains(&"btcusdt@ticker".to_string()));
}

#[test]
fn build_aggregate_ticker_stream() {
    let mut cfg = base_cfg();
    cfg.channels.ticker = Some(TickerConfig {
        enabled: true,
        mode: Some("!ticker@arr".to_string()),
    });
    let streams = build_streams(&cfg, &cfg.symbols);
    assert!(streams.contains(&"!ticker@arr".to_string()));
}

#[test]
fn aggregate_mode_suppresses_per_symbol_tickers() {
    let mut cfg = base_cfg();
    cfg.symbols = vec!["BTCUSDT".to_string(), "ETHUSDT".to_string()];
    cfg.channels.ticker = Some(TickerConfig {
        enabled: true,
        mode: Some("!ticker@arr".to_string()),
    });
    let streams = build_streams(&cfg, &cfg.symbols);
    assert_eq!(
        streams,
        vec![
            "btcusdt@trade".to_string(),
            "ethusdt@trade".to_string(),
            "!ticker@arr".to_string(),
        ]
    );
}

#[test]
fn streams_exact_order_and_contents() {
    let mut cfg = base_cfg();
    cfg.symbols = vec!["BTCUSDT".to_string(), "ETHUSDT".to_string()];
    let streams = build_streams(&cfg, &cfg.symbols);
    assert_eq!(
        streams,
        vec![
            "btcusdt@trade".to_string(),
            "ethusdt@trade".to_string(),
            "btcusdt@ticker".to_string(),
            "ethusdt@ticker".to_string(),
        ]
    );
}

#[test]
fn disabled_channels_produce_no_streams() {
    let mut cfg = base_cfg();
    cfg.channels = ChannelConfig { trades: false, ticker: None };
    let streams = build_streams(&cfg, &cfg.symbols);
    assert!(streams.is_empty());

    let mut cfg2 = base_cfg();
    cfg2.channels.ticker = Some(TickerConfig { enabled: false, mode: None });
    let streams2 = build_streams(&cfg2, &cfg2.symbols);
    assert_eq!(streams2, vec!["btcusdt@trade".to_string()]);
}
