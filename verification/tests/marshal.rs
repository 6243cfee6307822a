use crypto_crawler_ffi::params::{
    convert_symbols, duration_to_option, marshal_candlestick_params, marshal_crawl_params,
    marshal_open_interest_params, marshal_subscribe_params, pairs_to_filter, symbols_to_filter,
    zip_symbol_intervals,
};
use crypto_crawler_ffi::msg_type::MessageType;

fn owned(items: &[&str]) -> Vec<Option<String>> {
    items.iter().map(|s| Some(s.to_string())).collect()
}

#[test]
fn convert_symbols_keeps_count_and_order() {
    let raw = owned(&["BTC_USD", "ETH_USD", "XRP_USD"]);
    let symbols = convert_symbols(&raw).unwrap();
    assert_eq!(symbols, vec!["BTC_USD", "ETH_USD", "XRP_USD"]);
}

#[test]
fn convert_symbols_empty_means_all() {
    let raw: Vec<Option<String>> = Vec::new();
    let symbols = convert_symbols(&raw).unwrap();
    assert!(symbols.is_empty());
}

#[test]
fn convert_symbols_rejects_invalid_element() {
    let raw = vec![Some("BTC_USD".to_string()), None];
    assert!(convert_symbols(&raw).is_none());
}

#[test]
fn symbols_filter_empty_is_absent() {
    assert!(symbols_to_filter(Vec::new()).is_none());
    let filter = symbols_to_filter(vec!["BTC_USD".to_string()]).unwrap();
    assert_eq!(filter, vec!["BTC_USD"]);
}

#[test]
fn zip_pairs_positionally() {
    let symbols = vec!["BTC_USD".to_string(), "ETH_USD".to_string()];
    let intervals = vec![60usize, 300usize];
    let pairs = zip_symbol_intervals(symbols, &intervals);
    assert_eq!(pairs.len(), 2);
    assert_eq!(pairs[0], ("BTC_USD".to_string(), 60));
    assert_eq!(pairs[1], ("ETH_USD".to_string(), 300));
}

#[test]
fn pairs_filter_empty_is_absent() {
    assert!(pairs_to_filter(Vec::new()).is_none());
}

#[test]
fn duration_zero_means_unbounded() {
    assert_eq!(duration_to_option(0), None);
}

#[test]
fn duration_positive_is_kept() {
    assert_eq!(duration_to_option(1), Some(1));
    assert_eq!(duration_to_option(3600), Some(3600));
}

#[test]
fn marshal_crawl_params_full_shape() {
    let raw = owned(&["BTC_USD", "ETH_USD"]);
    let p = marshal_crawl_params(Some("foo".to_string()), &raw, 1).unwrap();
    assert_eq!(p.exchange, "foo");
    assert_eq!(p.symbols, Some(vec!["BTC_USD".to_string(), "ETH_USD".to_string()]));
    assert_eq!(p.duration, Some(1));
}

#[test]
fn marshal_crawl_params_no_symbols_no_bound() {
    let raw: Vec<Option<String>> = Vec::new();
    let p = marshal_crawl_params(Some("foo".to_string()), &raw, 0).unwrap();
    assert_eq!(p.exchange, "foo");
    assert_eq!(p.symbols, None);
    assert_eq!(p.duration, None);
}

#[test]
fn marshal_crawl_params_rejects_missing_exchange() {
    let raw = owned(&["BTC_USD"]);
    assert!(marshal_crawl_params(None, &raw, 1).is_none());
}

#[test]
fn marshal_crawl_params_rejects_bad_symbol() {
    let raw = vec![None];
    assert!(marshal_crawl_params(Some("foo".to_string()), &raw, 1).is_none());
}

#[test]
fn marshal_candlestick_zips_by_position() {
    let raw = owned(&["BTC_USD", "ETH_USD"]);
    let intervals = vec![60usize, 300usize];
    let p = marshal_candlestick_params(Some("foo".to_string()), &raw, &intervals, 5).unwrap();
    let pairs = p.pairs.unwrap();
    assert_eq!(
        pairs,
        vec![("BTC_USD".to_string(), 60), ("ETH_USD".to_string(), 300)]
    );
    assert_eq!(p.duration, Some(5));
}

#[test]
fn marshal_candlestick_empty_means_all() {
    let raw: Vec<Option<String>> = Vec::new();
    let intervals: Vec<usize> = Vec::new();
    let p = marshal_candlestick_params(Some("foo".to_string()), &raw, &intervals, 0).unwrap();
    assert!(p.pairs.is_none());
    assert!(p.duration.is_none());
}

#[test]
fn marshal_open_interest_has_no_symbol_filter() {
    let p = marshal_open_interest_params(Some("foo".to_string()), 1).unwrap();
    assert_eq!(p.exchange, "foo");
    assert_eq!(p.duration, Some(1));
}

#[test]
fn marshal_subscribe_keeps_kind_filters() {
    let p = marshal_subscribe_params(
        Some("foo".to_string()),
        Some("BTC_USD".to_string()),
        vec![MessageType::Trade, MessageType::Ticker],
        1,
    )
    .unwrap();
    assert_eq!(p.exchange, "foo");
    assert_eq!(p.symbol, "BTC_USD");
    assert_eq!(p.msg_types, vec![MessageType::Trade, MessageType::Ticker]);
    assert_eq!(p.duration, Some(1));
}

#[test]
fn marshal_subscribe_rejects_missing_symbol() {
    assert!(marshal_subscribe_params(Some("foo".to_string()), None, Vec::new(), 1).is_none());
}
