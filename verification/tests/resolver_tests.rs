use ingest::config::{ChannelConfig, DiscoveryConfig, VenueConfig};
use ingest::error::IngestError;
use ingest::resolver::{
    check_status, discovery_url, filter_symbols, parse_exchange_info, resolve_plan, ExchangeEntry,
    Resolution,
};

fn venue(symbols: Vec<&str>, discovery: Option<DiscoveryConfig>, rest_base: Option<&str>) -> VenueConfig {
    VenueConfig {
        name: "binance".to_string(),
        symbols: symbols.into_iter().map(|s| s.to_string()).collect(),
        discover: false,
        ws_base: None,
        rest_base: rest_base.map(|s| s.to_string()),
        http_timeout_secs: None,
        channels: ChannelConfig { trades: true, ticker: None },
        discovery,
    }
}

fn entry(symbol: &str, quote: &str, status: &str) -> ExchangeEntry {
    ExchangeEntry {
        symbol: symbol.to_string(),
        quote_asset: quote.to_string(),
        status: status.to_string(),
    }
}

#[test]
fn trading_status_filter() {
    let entries = vec![entry("BTCUSDT", "USDT", "TRADING"), entry("XYZUSDT", "USDT", "BREAK")];
    let kept = filter_symbols(&entries, &vec![], &vec![]);
    assert_eq!(kept, vec!["BTCUSDT".to_string()]);
}

#[test]
fn blacklisted_trading_symbol_is_excluded() {
    let entries = vec![entry("BTCUSDT", "USDT", "TRADING"), entry("ETHUSDT", "USDT", "TRADING")];
    let kept = filter_symbols(&entries, &vec![], &vec!["ETHUSDT".to_string()]);
    assert_eq!(kept, vec!["BTCUSDT".to_string()]);
}

#[test]
fn quote_whitelist_restricts_and_order_is_kept() {
    let entries = vec![
        entry("ETHBTC", "BTC", "TRADING"),
        entry("BTCUSDT", "USDT", "TRADING"),
        entry("ETHUSDT", "USDT", "TRADING"),
    ];
    let kept = filter_symbols(&entries, &vec!["USDT".to_string()], &vec![]);
    assert_eq!(kept, vec!["BTCUSDT".to_string(), "ETHUSDT".to_string()]);
}

#[test]
fn check_status_reports_404() {
    let url = "http://127.0.0.1:9/exchangeInfo";
    let err = check_status(url, 404).unwrap_err();
    match err {
        IngestError::Validation(msg) => {
            assert!(msg.contains("404"));
            assert!(msg.contains(url));
            assert_eq!(msg, format!("request to {} failed with status 404", url));
        }
        _ => panic!("expected validation error"),
    }
}

#[test]
fn check_status_reports_451() {
    let url = "http://127.0.0.1:9/exchangeInfo";
    let err = check_status(url, 451).unwrap_err();
    match err {
        IngestError::Validation(msg) => {
            assert!(msg.contains("451"));
            assert!(msg.contains(url));
        }
        _ => panic!("expected validation error"),
    }
}

#[test]
fn check_status_accepts_2xx_only() {
    assert!(check_status("u", 200).is_ok());
    assert!(check_status("u", 204).is_ok());
    assert!(check_status("u", 299).is_ok());
    assert!(check_status("u", 300).is_err());
    assert!(check_status("u", 199).is_err());
    assert!(check_status("u", 500).is_err());
}

#[test]
fn discovery_url_trims_slashes() {
    assert_eq!(discovery_url("https://api.example.com/"), "https://api.example.com/exchangeInfo");
    assert_eq!(discovery_url("https://api.example.com"), "https://api.example.com/exchangeInfo");
    assert_eq!(discovery_url("https://api.example.com//"), "https://api.example.com/exchangeInfo");
}

#[test]
fn explicit_symbols_win_outright() {
    let cfg = venue(
        vec!["BTCUSDT"],
        Some(DiscoveryConfig { enabled: true, quote_whitelist: vec![], symbol_blacklist: vec![] }),
        Some("https://api.example.com"),
    );
    match resolve_plan(&cfg).unwrap() {
        Resolution::Resolved(symbols) => assert_eq!(symbols, vec!["BTCUSDT".to_string()]),
        _ => panic!("expected resolved symbols"),
    }
}

#[test]
fn discovery_disabled_resolves_empty() {
    let cfg = venue(vec![], None, Some("https://api.example.com"));
    match resolve_plan(&cfg).unwrap() {
        Resolution::Resolved(symbols) => assert!(symbols.is_empty()),
        _ => panic!("expected empty resolution"),
    }
}

#[test]
fn discovery_without_rest_base_fails() {
    let cfg = venue(
        vec![],
        Some(DiscoveryConfig { enabled: true, quote_whitelist: vec![], symbol_blacklist: vec![] }),
        None,
    );
    match resolve_plan(&cfg).unwrap_err() {
        IngestError::Validation(msg) => assert_eq!(msg, "rest_base required"),
        _ => panic!("expected validation error"),
    }
}

#[test]
fn discovery_enabled_plans_fetch() {
    let cfg = venue(
        vec![],
        Some(DiscoveryConfig { enabled: true, quote_whitelist: vec![], symbol_blacklist: vec![] }),
        Some("https://api.example.com/"),
    );
    match resolve_plan(&cfg).unwrap() {
        Resolution::Discover(url) => assert_eq!(url, "https://api.example.com/exchangeInfo"),
        _ => panic!("expected discovery plan"),
    }
}

#[test]
fn parse_exchange_info_reads_entries() {
    let body = "{\"symbols\":[\
        {\"symbol\":\"BTCUSDT\",\"quoteAsset\":\"USDT\",\"status\":\"TRADING\"},\
        {\"symbol\":\"XYZUSDT\",\"quoteAsset\":\"USDT\",\"status\":\"BREAK\"}]}";
    let entries = parse_exchange_info("http://e/exchangeInfo", body).unwrap();
    assert_eq!(entries.len(), 2);
    assert_eq!(entries[0].symbol, "BTCUSDT");
    assert_eq!(entries[0].quote_asset, "USDT");
    assert_eq!(entries[0].status, "TRADING");
    assert_eq!(entries[1].status, "BREAK");
    let kept = filter_symbols(&entries, &vec![], &vec![]);
    assert_eq!(kept, vec!["BTCUSDT".to_string()]);
}

#[test]
fn parse_exchange_info_rejects_bad_json() {
    let err = parse_exchange_info("http://e/exchangeInfo", "not json").unwrap_err();
    match err {
        IngestError::Validation(msg) => assert!(msg.starts_with("http://e/exchangeInfo: ")),
        _ => panic!("expected validation error"),
    }
}

#[test]
fn parse_exchange_info_without_symbols_is_empty() {
    let entries = parse_exchange_info("http://e/exchangeInfo", "{\"other\":1}").unwrap();
    assert!(entries.is_empty());
}

#[test]
fn parse_exchange_info_non_array_symbols_is_empty() {
    let entries = parse_exchange_info("http://e/exchangeInfo", "{\"symbols\":7}").unwrap();
    assert!(entries.is_empty());
}

#[test]
fn parse_exchange_info_defaults_missing_fields_to_empty() {
    let entries =
        parse_exchange_info("http://e/exchangeInfo", "{\"symbols\":[{\"symbol\":\"A\"}]}").unwrap();
    assert_eq!(entries.len(), 1);
    assert_eq!(entries[0].symbol, "A");
    assert_eq!(entries[0].quote_asset, "");
    assert_eq!(entries[0].status, "");
}
