use alpha_sync::feed::{RawFeed, TickerSentiment, Topic};
use alpha_sync::fingerprint::{
    article_hash_id, calculate_checksum_legacy, convert_to_bytes, get_hash_id, serialize_to_bytes,
};

fn sample_feed(title: &str) -> RawFeed {
    RawFeed {
        title: String::from(title),
        url: String::from("https://example.com/a"),
        time_published: String::from("20240101T000000"),
        authors: vec![String::from("Jordan Doe")],
        summary: String::from("A short summary."),
        banner_image: String::from(""),
        source: String::from("Example Wire"),
        category_within_source: String::from("markets"),
        source_domain: String::from("example.com"),
        topics: vec![Topic {
            topic: String::from("Technology"),
            relevance_score: String::from("0.5"),
        }],
        overall_sentiment_score: String::from("0.1"),
        overall_sentiment_label: String::from("Neutral"),
        ticker_sentiment: vec![TickerSentiment {
            ticker: String::from("AAPL"),
            relevance_score: String::from("0.9"),
            ticker_sentiment_score: String::from("0.2"),
            ticker_sentiment_label: String::from("Somewhat-Bullish"),
        }],
    }
}

#[test]
fn test_calculate_checksum() {
    let test_data = b"test data";
    let checksum1 = calculate_checksum_legacy(test_data);
    let checksum2 = calculate_checksum_legacy(test_data);

    assert_eq!(checksum1, checksum2);
    assert!(!checksum1.is_empty());
}

#[test]
fn test_checksum_different_data() {
    let data1 = b"test data 1";
    let data2 = b"test data 2";

    let checksum1 = calculate_checksum_legacy(data1);
    let checksum2 = calculate_checksum_legacy(data2);

    assert_ne!(checksum1, checksum2);
}

#[test]
fn test_serialize_to_bytes() {
    let test_vec = vec![String::from("hello"), String::from("world")];
    let bytes = serialize_to_bytes(&test_vec);
    assert!(!bytes.is_empty());
}

#[test]
fn test_legacy_get_hash_id() {
    let empty_news: Vec<RawFeed> = vec![];
    let hash = get_hash_id(&empty_news);
    assert!(!hash.is_empty());
}

#[test]
fn test_legacy_calculate_checksum() {
    let test_data = b"legacy test";
    let checksum = calculate_checksum_legacy(test_data);
    assert!(!checksum.is_empty());

    assert_eq!(checksum, calculate_checksum_legacy(test_data));
}

#[test]
fn checksum_matches_the_crc32_check_value() {
    // CRC-32 of "123456789" is 0xCBF43926, the classic check value.
    assert_eq!(calculate_checksum_legacy(b"123456789"), "3421780262");
    assert_eq!(calculate_checksum_legacy(b""), "0");
}

#[test]
fn fingerprint_is_stable_across_calls() {
    let rows = vec![sample_feed("First"), sample_feed("Second")];
    let again = vec![sample_feed("First"), sample_feed("Second")];
    assert_eq!(get_hash_id(&rows), get_hash_id(&again));
    assert_eq!(convert_to_bytes(&rows), convert_to_bytes(&again));
}

#[test]
fn fingerprint_changes_when_one_field_changes() {
    let rows = vec![sample_feed("First"), sample_feed("Second")];
    let mut changed = vec![sample_feed("First"), sample_feed("Second")];
    changed[1].summary = String::from("A short summary!");
    assert_ne!(get_hash_id(&rows), get_hash_id(&changed));
}

#[test]
fn fingerprint_changes_when_rows_reorder() {
    let rows = vec![sample_feed("First"), sample_feed("Second")];
    let reordered = vec![sample_feed("Second"), sample_feed("First")];
    assert_ne!(get_hash_id(&rows), get_hash_id(&reordered));
}

#[test]
fn article_hash_matches_sha256_of_the_identity_fields() {
    // SHA-256 of "abc", hex ba7816bf...f20015ad, under ring's digest label.
    let digest = article_hash_id("a", "b", "c");
    assert_eq!(
        digest,
        "SHA256:ba7816bf8f01cfea414140de5dae2223b00361a396177a9cb410ff61f20015ad"
    );
    assert_ne!(article_hash_id("a", "b", "d"), digest);
}
