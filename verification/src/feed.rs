//! Typed news-feed rows as the synchronizer holds them: every field a
//! plain string, exactly as the provider quotes them on the wire.
//! Numeric fields stay strings here; whoever persists them parses them,
//! and malformed numbers map to sentinel values downstream.

use vstd::prelude::*;

verus! {

/// One topic reference attached to an article.
#[derive(Clone, Debug)]
pub struct Topic {
    pub topic: String,
    pub relevance_score: String,
}

/// The plain-value image of a topic reference.
pub ghost struct TopicView {
    pub topic: Seq<char>,
    pub relevance_score: Seq<char>,
}

impl View for Topic {
    type V = TopicView;

    open spec fn view(&self) -> TopicView {
        TopicView { topic: self.topic@, relevance_score: self.relevance_score@ }
    }
}

/// Per-ticker sentiment attached to an article.
#[derive(Clone, Debug)]
pub struct TickerSentiment {
    pub ticker: String,
    pub relevance_score: String,
    pub ticker_sentiment_score: String,
    pub ticker_sentiment_label: String,
}

/// The plain-value image of a per-ticker sentiment.
pub ghost struct TickerSentimentView {
    pub ticker: Seq<char>,
    pub relevance_score: Seq<char>,
    pub ticker_sentiment_score: Seq<char>,
    pub ticker_sentiment_label: Seq<char>,
}

impl View for TickerSentiment {
    type V = TickerSentimentView;

    open spec fn view(&self) -> TickerSentimentView {
        TickerSentimentView {
            ticker: self.ticker@,
            relevance_score: self.relevance_score@,
            ticker_sentiment_score: self.ticker_sentiment_score@,
            ticker_sentiment_label: self.ticker_sentiment_label@,
        }
    }
}

/// One article of a news feed response.
#[derive(Clone, Debug)]
pub struct RawFeed {
    pub title: String,
    pub url: String,
    pub time_published: String,
    pub authors: Vec<String>,
    pub summary: String,
    pub banner_image: String,
    pub source: String,
    pub category_within_source: String,
    pub source_domain: String,
    pub topics: Vec<Topic>,
    pub overall_sentiment_score: String,
    pub overall_sentiment_label: String,
    pub ticker_sentiment: Vec<TickerSentiment>,
}

/// The plain-value image of an article.
pub ghost struct RawFeedView {
    pub title: Seq<char>,
    pub url: Seq<char>,
    pub time_published: Seq<char>,
    pub authors: Seq<Seq<char>>,
    pub summary: Seq<char>,
    pub banner_image: Seq<char>,
    pub source: Seq<char>,
    pub category_within_source: Seq<char>,
    pub source_domain: Seq<char>,
    pub topics: Seq<TopicView>,
    pub overall_sentiment_score: Seq<char>,
    pub overall_sentiment_label: Seq<char>,
    pub ticker_sentiment: Seq<TickerSentimentView>,
}

impl View for RawFeed {
    type V = RawFeedView;

    open spec fn view(&self) -> RawFeedView {
        RawFeedView {
            title: self.title@,
            url: self.url@,
            time_published: self.time_published@,
            authors: self.authors@.map_values(|s: String| s@),
            summary: self.summary@,
            banner_image: self.banner_image@,
            source: self.source@,
            category_within_source: self.category_within_source@,
            source_domain: self.source_domain@,
            topics: self.topics@.map_values(|t: Topic| t@),
            overall_sentiment_score: self.overall_sentiment_score@,
            overall_sentiment_label: self.overall_sentiment_label@,
            ticker_sentiment: self.ticker_sentiment@.map_values(|s: TickerSentiment| s@),
        }
    }
}

/// A whole news response: the item count the provider reports, and the
/// feed of articles.
#[derive(Clone, Debug)]
pub struct NewsRoot {
    pub items: String,
    pub sentiment_score_definition: String,
    pub relevance_score_definition: String,
    pub feed: Vec<RawFeed>,
}

} // verus!
