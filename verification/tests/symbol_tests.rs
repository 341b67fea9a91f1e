use ingest::canonical_symbol;
use ingest::symbol::lower_symbol;

#[test]
fn symbol_uppercase() {
    assert_eq!(canonical_symbol("btcusdt"), "BTCUSDT");
}

#[test]
fn symbol_canonicalization_is_idempotent() {
    let once = canonical_symbol("BtC9usdt");
    let twice = canonical_symbol(&once);
    assert_eq!(once, twice);
    assert_eq!(once, "BTC9USDT");
}

#[test]
fn symbol_non_letters_unchanged() {
    assert_eq!(canonical_symbol("!ticker@arr"), "!TICKER@ARR");
    assert_eq!(canonical_symbol(""), "");
}

#[test]
fn symbol_lowercase_for_topics() {
    assert_eq!(lower_symbol("BTCUSDT"), "btcusdt");
    assert_eq!(lower_symbol("EthUsd2"), "ethusd2");
}
