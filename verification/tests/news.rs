use alpha_sync::errors::SyncError;
use alpha_sync::feed::{NewsRoot, RawFeed, TickerSentiment, Topic};
use alpha_sync::news::{
    author_of, news_overview_plan, snapshot_unchanged, NewsProcessingContext, NewsProcessor,
};

fn empty_root(items: &str) -> NewsRoot {
    NewsRoot {
        items: String::from(items),
        sentiment_score_definition: String::from("def"),
        relevance_score_definition: String::from("def"),
        feed: Vec::new(),
    }
}

fn one_article() -> RawFeed {
    RawFeed {
        title: String::from("Title"),
        url: String::from("https://example.com"),
        time_published: String::from("20240101T010203"),
        authors: Vec::new(),
        summary: String::from("Summary"),
        banner_image: String::from(""),
        source: String::from("Wire"),
        category_within_source: String::from("n/a"),
        source_domain: String::from("example.com"),
        topics: Vec::new(),
        overall_sentiment_score: String::from("0"),
        overall_sentiment_label: String::from("Neutral"),
        ticker_sentiment: Vec::new(),
    }
}

#[test]
fn a_response_without_items_is_a_soft_empty() {
    let plan = news_overview_plan(&empty_root("0")).unwrap();
    assert!(plan.is_none());
    let negative = news_overview_plan(&empty_root("-3")).unwrap();
    assert!(negative.is_none());
}

#[test]
fn an_unparsable_item_count_is_a_parse_error() {
    match news_overview_plan(&empty_root("many")) {
        Err(SyncError::Parse { field, value }) => {
            assert_eq!(field, "items");
            assert_eq!(value, "many");
        }
        _ => panic!("expected a parse error"),
    }
    assert!(news_overview_plan(&empty_root("99999999999")).is_err());
}

#[test]
fn a_response_with_items_carries_its_fingerprint() {
    let mut root = empty_root("1");
    root.feed.push(one_article());
    let plan = news_overview_plan(&root).unwrap().unwrap();
    assert_eq!(plan.item_count, 1);
    assert_eq!(
        plan.hash_id,
        alpha_sync::fingerprint::get_hash_id(&root.feed)
    );
    assert!(snapshot_unchanged(&plan.hash_id, &plan.hash_id));
    assert!(!snapshot_unchanged(&plan.hash_id, "something else"));
}

#[test]
fn articles_without_authors_get_the_placeholder() {
    assert_eq!(author_of(&Vec::new()), "_None_");
    assert_eq!(
        author_of(&vec![String::from("Jordan Doe"), String::from("Sam Roe")]),
        "Jordan Doe"
    );
}

#[test]
fn topic_mappings_need_a_cached_positive_id() {
    let mut processor = NewsProcessor::new();
    let topic = Topic {
        topic: String::from("Technology"),
        relevance_score: String::from("0.5"),
    };
    assert!(processor.topic_mapping_id(&topic).is_err());

    let (id, created) = processor
        .context_mut()
        .get_or_insert_topic("Technology", || 7);
    assert!(created);
    assert_eq!(id, 7);
    assert_eq!(processor.topic_mapping_id(&topic).unwrap(), 7);

    let bad = Topic {
        topic: String::from("Broken"),
        relevance_score: String::from("0.5"),
    };
    processor.context_mut().get_or_insert_topic("Broken", || 0);
    assert!(processor.topic_mapping_id(&bad).is_err());
}

#[test]
fn sentiments_resolve_against_the_symbol_cache() {
    let mut symbols = Vec::new();
    symbols.push((String::from("AAPL"), 321));
    let context = NewsProcessingContext::with_symbols(&symbols);
    let processor = NewsProcessor::with_context(context);

    let known = TickerSentiment {
        ticker: String::from("AAPL"),
        relevance_score: String::from("0.9"),
        ticker_sentiment_score: String::from("0.4"),
        ticker_sentiment_label: String::from("Bullish"),
    };
    let unknown = TickerSentiment {
        ticker: String::from("ZZZZ"),
        relevance_score: String::from("0.9"),
        ticker_sentiment_score: String::from("0.4"),
        ticker_sentiment_label: String::from("Bullish"),
    };
    assert_eq!(processor.sentiment_target(&known), Some(321));
    assert_eq!(processor.sentiment_target(&unknown), None);
}

#[test]
fn source_and_author_caches_create_once() {
    let mut processor = NewsProcessor::new();
    let (sid1, created1) = processor
        .context_mut()
        .get_or_insert_source("Example Wire", || 5);
    let (sid2, created2) = processor
        .context_mut()
        .get_or_insert_source("Example Wire", || 99);
    assert!(created1);
    assert!(!created2);
    assert_eq!(sid1, 5);
    assert_eq!(sid2, 5);

    let (aid, acreated) = processor
        .context_mut()
        .get_or_insert_author("Jordan Doe", || 8);
    assert!(acreated);
    assert_eq!(aid, 8);
    assert_eq!(processor.context().authors.len(), 1);
}

#[test]
fn errors_classify_their_policy() {
    assert!(SyncError::StoreFatal(String::from("connection refused")).is_fatal());
    assert!(SyncError::CircuitOpen(51).is_fatal());
    assert!(!SyncError::SoftEmpty.is_fatal());
    assert!(!SyncError::Transient(String::from("timeout")).is_fatal());
    assert!(!SyncError::Duplicate.is_fatal());
    assert!(!SyncError::Parse {
        field: String::from("f"),
        value: String::from("v")
    }
    .is_fatal());
}
