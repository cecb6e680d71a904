//! News synchronization decisions: the run-scoped caches for topics,
//! authors, sources and symbols, and the per-response and per-article
//! choices — which natural keys need a store insert, which article the
//! feed attributes to which author, which sentiments name a known
//! symbol, and the fingerprint stored with the snapshot.
//!
//! Everything that touches the store arrives here as a value or a
//! creator callback; the fetch and the inserts themselves live with the
//! caller that owns the connection.

use vstd::prelude::*;
use crate::errors::SyncError;
use crate::feed::{NewsRoot, RawFeed, TickerSentiment, Topic};
use crate::fingerprint;
use crate::registry::{spec_map_of, IdMap};
use crate::text;

verus! {

/// Run-scoped caches for news processing: three natural-key maps and
/// the symbol map used to resolve sentiment tickers.
pub struct NewsProcessingContext {
    pub topics: IdMap,
    pub authors: IdMap,
    pub sources: IdMap,
    pub symbol_to_sid: IdMap,
}

impl NewsProcessingContext {
    /// A fresh, empty processing context.
    pub fn new() -> (r: Self)
        ensures
            r.topics@ == Map::<Seq<char>, i64>::empty(),
            r.authors@ == Map::<Seq<char>, i64>::empty(),
            r.sources@ == Map::<Seq<char>, i64>::empty(),
            r.symbol_to_sid@ == Map::<Seq<char>, i64>::empty(),
    {
        Self { topics: IdMap::new(), authors: IdMap::new(), sources: IdMap::new(), symbol_to_sid: IdMap::new() }
    }

    /// A context pre-populated with symbol mappings, later pairs
    /// overriding earlier ones.
    pub fn with_symbols(symbol_mappings: &Vec<(String, i64)>) -> (r: Self)
        ensures
            r.topics@ == Map::<Seq<char>, i64>::empty(),
            r.authors@ == Map::<Seq<char>, i64>::empty(),
            r.sources@ == Map::<Seq<char>, i64>::empty(),
            r.symbol_to_sid@ == spec_map_of(symbol_mappings@),
    {
        Self {
            topics: IdMap::new(),
            authors: IdMap::new(),
            sources: IdMap::new(),
            symbol_to_sid: IdMap::from_pairs(symbol_mappings),
        }
    }

    /// The cached surrogate id of a symbol, if this run knows it.
    pub fn get_symbol_id(&self, symbol: &str) -> (r: Option<i64>)
        ensures
            r == (if self.symbol_to_sid@.contains_key(symbol@) {
                Some(self.symbol_to_sid@[symbol@])
            } else {
                None::<i64>
            }),
    {
        self.symbol_to_sid.get(symbol)
    }

    /// Resolve a source name to its id, calling `create` (the store
    /// insert) only when this run has not seen the name.
    pub fn get_or_insert_source<F: Fn() -> i64>(&mut self, source_name: &str, create: F) -> (r: (
        i64,
        bool,
    ))
        requires
            call_requires(create, ()),
        ensures
            !r.1 ==> old(self).sources@.contains_key(source_name@) && final(self).sources@ == old(
                self,
            ).sources@ && r.0 == old(self).sources@[source_name@],
            r.1 ==> !old(self).sources@.contains_key(source_name@) && call_ensures(
                create,
                (),
                r.0,
            ) && final(self).sources@ == old(self).sources@.insert(source_name@, r.0),
            final(self).topics@ == old(self).topics@,
            final(self).authors@ == old(self).authors@,
            final(self).symbol_to_sid@ == old(self).symbol_to_sid@,
    {
        self.sources.get_or_create(source_name, create)
    }

    /// Resolve an author name to its id, calling `create` only when
    /// this run has not seen the name.
    pub fn get_or_insert_author<F: Fn() -> i64>(&mut self, author_name: &str, create: F) -> (r: (
        i64,
        bool,
    ))
        requires
            call_requires(create, ()),
        ensures
            !r.1 ==> old(self).authors@.contains_key(author_name@) && final(self).authors@ == old(
                self,
            ).authors@ && r.0 == old(self).authors@[author_name@],
            r.1 ==> !old(self).authors@.contains_key(author_name@) && call_ensures(
                create,
                (),
                r.0,
            ) && final(self).authors@ == old(self).authors@.insert(author_name@, r.0),
            final(self).topics@ == old(self).topics@,
            final(self).sources@ == old(self).sources@,
            final(self).symbol_to_sid@ == old(self).symbol_to_sid@,
    {
        self.authors.get_or_create(author_name, create)
    }

    /// Resolve a topic name to its id, calling `create` only when this
    /// run has not seen the name.
    pub fn get_or_insert_topic<F: Fn() -> i64>(&mut self, topic_name: &str, create: F) -> (r: (
        i64,
        bool,
    ))
        requires
            call_requires(create, ()),
        ensures
            !r.1 ==> old(self).topics@.contains_key(topic_name@) && final(self).topics@ == old(
                self,
            ).topics@ && r.0 == old(self).topics@[topic_name@],
            r.1 ==> !old(self).topics@.contains_key(topic_name@) && call_ensures(create, (), r.0)
                && final(self).topics@ == old(self).topics@.insert(topic_name@, r.0),
            final(self).sources@ == old(self).sources@,
            final(self).authors@ == old(self).authors@,
            final(self).symbol_to_sid@ == old(self).symbol_to_sid@,
    {
        self.topics.get_or_create(topic_name, create)
    }
}

/// The author name an article is attributed to: its first listed
/// author, or the placeholder when it lists none.
pub fn author_of(authors: &Vec<String>) -> (r: String)
    ensures
        authors@.len() == 0 ==> r@ == "_None_"@,
        authors@.len() > 0 ==> r@ == authors@[0]@,
{
    if authors.len() == 0 {
        String::from_str("_None_")
    } else {
        let first: &String = &authors[0];
        first.clone()
    }
}

/// What the news overview record of one response holds: the reported
/// item count and the snapshot fingerprint of the ordered feed.
pub struct NewsOverviewPlan {
    pub item_count: i32,
    pub hash_id: String,
}

/// Decide what to persist for a news response: `None` when the provider
/// reports no items (a soft, non-error outcome), otherwise the item
/// count and the fingerprint of the feed in response order. An
/// unparsable item count is a parse error carrying the offending value.
pub fn news_overview_plan(root: &NewsRoot) -> (r: Result<Option<NewsOverviewPlan>, SyncError>)
    ensures
        match r {
            Ok(plan) => {
                &&& text::spec_int_str_val(root.items@) is Some
                &&& {
                    let n = text::spec_int_str_val(root.items@)->Some_0;
                    &&& -0x8000_0000 <= n <= 0x7FFF_FFFF
                    &&& (plan is None <==> n < 1)
                    &&& plan is Some ==> plan->Some_0.item_count == n
                        && plan->Some_0.hash_id@ == fingerprint::spec_hash_id(root.feed@)
                }
            },
            Err(e) => {
                &&& e is Parse
                &&& (text::spec_int_str_val(root.items@) is None || !{
                    let n = text::spec_int_str_val(root.items@)->Some_0;
                    -0x8000_0000 <= n <= 0x7FFF_FFFF
                })
            },
        },
{
    let item_count = match text::parse_i32_str(root.items.as_str()) {
        Ok(n) => n,
        Err(_) => {
            return Err(
                SyncError::Parse { field: String::from_str("items"), value: root.items.clone() },
            );
        },
    };
    if item_count < 1 {
        return Ok(None);
    }
    let hash_id = fingerprint::get_hash_id(&root.feed);
    Ok(Some(NewsOverviewPlan { item_count, hash_id }))
}

/// Is a freshly computed fingerprint the same snapshot as the stored
/// one? Equal fingerprints mean nothing changed since the last sync and
/// the snapshot is not re-persisted.
pub fn snapshot_unchanged(current: &str, stored: &str) -> (r: bool)
    ensures
        r == (current@ == stored@),
{
    text::str_eq(current, stored)
}

/// News processor: carries the run's context through a batch.
pub struct NewsProcessor {
    pub context: NewsProcessingContext,
}

impl NewsProcessor {
    /// A processor with a fresh context.
    pub fn new() -> (r: Self)
        ensures
            r.context.topics@ == Map::<Seq<char>, i64>::empty(),
            r.context.authors@ == Map::<Seq<char>, i64>::empty(),
            r.context.sources@ == Map::<Seq<char>, i64>::empty(),
            r.context.symbol_to_sid@ == Map::<Seq<char>, i64>::empty(),
    {
        Self { context: NewsProcessingContext::new() }
    }

    /// A processor over an existing context.
    pub fn with_context(context: NewsProcessingContext) -> (r: Self)
        ensures
            r.context == context,
    {
        Self { context }
    }

    /// The current processing context, for inspection.
    pub fn context(&self) -> (r: &NewsProcessingContext)
        ensures
            r == &self.context,
    {
        &self.context
    }

    /// The current processing context, for external modification.
    pub fn context_mut(&mut self) -> (r: &mut NewsProcessingContext)
        ensures
            *r == old(self).context,
            final(self).context == *final(r),
    {
        &mut self.context
    }

    /// The topic id a topic mapping row must reference: the id this
    /// run's context cached for the topic name. A topic that was never
    /// cached, or cached with a non-positive id, cannot be mapped.
    pub fn topic_mapping_id(&self, topic: &Topic) -> (r: Result<i64, SyncError>)
        ensures
            match r {
                Ok(id) => self.context.topics@.contains_key(topic.topic@) && id
                    == self.context.topics@[topic.topic@] && id >= 1,
                Err(e) => e is Parse && (!self.context.topics@.contains_key(topic.topic@)
                    || self.context.topics@[topic.topic@] < 1),
            },
    {
        match self.context.topics.get(topic.topic.as_str()) {
            Some(id) => {
                if id < 1 {
                    Err(
                        SyncError::Parse {
                            field: String::from_str("topic"),
                            value: topic.topic.clone(),
                        },
                    )
                } else {
                    Ok(id)
                }
            },
            None => Err(
                SyncError::Parse { field: String::from_str("topic"), value: topic.topic.clone() },
            ),
        }
    }

    /// The symbol id a sentiment row targets, if the run knows the
    /// ticker; an unknown ticker is skipped (and logged by the caller),
    /// never an error.
    pub fn sentiment_target(&self, sentiment: &TickerSentiment) -> (r: Option<i64>)
        ensures
            r == (if self.context.symbol_to_sid@.contains_key(sentiment.ticker@) {
                Some(self.context.symbol_to_sid@[sentiment.ticker@])
            } else {
                None::<i64>
            }),
    {
        self.context.get_symbol_id(sentiment.ticker.as_str())
    }
}

/// The same caches under the field names older call sites use: the
/// symbol map travels as `names_to_sid`.
pub struct Params {
    pub topics: IdMap,
    pub authors: IdMap,
    pub sources: IdMap,
    pub names_to_sid: IdMap,
}

impl From<NewsProcessingContext> for Params {
    fn from(context: NewsProcessingContext) -> (r: Self) {
        Self {
            topics: context.topics,
            authors: context.authors,
            sources: context.sources,
            names_to_sid: context.symbol_to_sid,
        }
    }
}

impl vstd::std_specs::convert::FromSpecImpl<NewsProcessingContext> for Params {
    open spec fn obeys_from_spec() -> bool {
        true
    }

    open spec fn from_spec(context: NewsProcessingContext) -> Self {
        Params {
            topics: context.topics,
            authors: context.authors,
            sources: context.sources,
            names_to_sid: context.symbol_to_sid,
        }
    }
}

impl From<Params> for NewsProcessingContext {
    fn from(params: Params) -> (r: Self) {
        Self {
            topics: params.topics,
            authors: params.authors,
            sources: params.sources,
            symbol_to_sid: params.names_to_sid,
        }
    }
}

impl vstd::std_specs::convert::FromSpecImpl<Params> for NewsProcessingContext {
    open spec fn obeys_from_spec() -> bool {
        true
    }

    open spec fn from_spec(params: Params) -> Self {
        NewsProcessingContext {
            topics: params.topics,
            authors: params.authors,
            sources: params.sources,
            symbol_to_sid: params.names_to_sid,
        }
    }
}

/// The article-identity bytes and their digest: an article is
/// deduplicated by the SHA-256 label of its title, url and summary.
pub fn article_identity(article: &RawFeed) -> (r: String)
    ensures
        r@ == fingerprint::sha256_label_of(
            vstd::utf8::encode_utf8(article.title@ + article.url@ + article.summary@),
        ),
{
    fingerprint::article_hash_id(
        article.title.as_str(),
        article.url.as_str(),
        article.summary.as_str(),
    )
}

} // verus!
