use std::cell::Cell;

use alpha_sync::news::{NewsProcessingContext, NewsProcessor, Params};
use alpha_sync::registry::IdMap;

#[test]
fn test_news_processing_context_creation() {
    let context = NewsProcessingContext::new();
    assert!(context.topics.is_empty());
    assert!(context.authors.is_empty());
    assert!(context.sources.is_empty());
    assert!(context.symbol_to_sid.is_empty());
}

#[test]
fn test_context_with_symbols() {
    let mut symbols = Vec::new();
    symbols.push((String::from("AAPL"), 123));
    symbols.push((String::from("GOOGL"), 456));

    let context = NewsProcessingContext::with_symbols(&symbols);
    assert_eq!(context.symbol_to_sid.len(), 2);
    assert_eq!(context.get_symbol_id("AAPL"), Some(123));
    assert_eq!(context.get_symbol_id("TSLA"), None);
}

#[test]
fn test_news_processor_creation() {
    let processor = NewsProcessor::new();
    assert!(processor.context.topics.is_empty());
}

#[test]
fn registry_invokes_the_creator_at_most_once_per_key() {
    let mut map = IdMap::new();
    let calls = Cell::new(0u32);
    let create = || {
        calls.set(calls.get() + 1);
        42i64
    };

    for _ in 0..5 {
        let (id, _) = map.get_or_create("X", &create);
        assert_eq!(id, 42);
    }
    assert_eq!(calls.get(), 1);
    assert_eq!(map.len(), 1);
}

#[test]
fn registry_creates_once_per_distinct_key() {
    let mut map = IdMap::new();
    let calls = Cell::new(0i64);
    let create = || {
        calls.set(calls.get() + 1);
        calls.get()
    };

    let (first, created_first) = map.get_or_create("alpha", &create);
    let (second, created_second) = map.get_or_create("beta", &create);
    let (first_again, created_again) = map.get_or_create("alpha", &create);

    assert!(created_first);
    assert!(created_second);
    assert!(!created_again);
    assert_eq!(first, 1);
    assert_eq!(second, 2);
    assert_eq!(first_again, first);
    assert_eq!(calls.get(), 2);
}

#[test]
fn mark_seen_or_skip_suppresses_duplicates() {
    let mut map = IdMap::new();
    assert!(map.mark_seen_or_skip("AAPL"));
    assert!(!map.mark_seen_or_skip("AAPL"));
    assert!(map.mark_seen_or_skip("MSFT"));
    assert_eq!(map.len(), 2);
}

#[test]
fn later_pairs_override_earlier_ones() {
    let mut pairs = Vec::new();
    pairs.push((String::from("AAPL"), 1));
    pairs.push((String::from("AAPL"), 2));
    let map = IdMap::from_pairs(&pairs);
    assert_eq!(map.len(), 1);
    assert_eq!(map.get("AAPL"), Some(2));
}

#[test]
fn set_replaces_and_get_misses_report_none() {
    let mut map = IdMap::new();
    assert_eq!(map.get("k"), None);
    map.set("k", 7);
    assert_eq!(map.get("k"), Some(7));
    map.set("k", 9);
    assert_eq!(map.get("k"), Some(9));
    assert_eq!(map.len(), 1);
}

#[test]
fn params_round_trip_preserves_every_cache() {
    let mut symbols = Vec::new();
    symbols.push((String::from("IBM"), 11));
    let context = NewsProcessingContext::with_symbols(&symbols);
    let params = Params::from(context);
    assert_eq!(params.names_to_sid.get("IBM"), Some(11));
    let back = NewsProcessingContext::from(params);
    assert_eq!(back.get_symbol_id("IBM"), Some(11));
}
