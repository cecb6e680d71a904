//! Sync orchestrator decisions: which rows of a fetched batch are
//! created, skipped or filtered, which surrogate key each new security
//! gets, and which phase the per-entity state machine moves to on each
//! outcome. The fetches, sleeps and store inserts themselves belong to
//! the caller that owns the connection and the clock; everything here
//! is a pure function from state and parsed values to decisions.

use vstd::prelude::*;
use crate::codec::{spec_encode, SecurityType};
use crate::gate::{RequestGate, API_RATE_LIMIT_MS, MAX_ERRORS};
use crate::markets::{normalize_alpha_region, spec_normalize_region};
use crate::classify::spec_classify_detailed;
use crate::registry::IdMap;
use crate::text;
use crate::watermark;

verus! {

/// Configuration for a symbol-batch run.
#[derive(Clone, Debug)]
pub struct ProcessingConfig {
    pub load_missed: bool,
    pub region_filter: Option<String>,
    pub max_errors: u32,
}

impl Default for ProcessingConfig {
    /// Fresh runs keep only USA listings and use the provider's
    /// published error ceiling.
    fn default() -> (r: Self)
        ensures
            r.load_missed == false,
            r.region_filter is Some && r.region_filter->0@ == "USA"@,
            r.max_errors == MAX_ERRORS,
    {
        Self {
            load_missed: false,
            region_filter: Some(String::from_str("USA")),
            max_errors: MAX_ERRORS,
        }
    }
}

/// The fixed listing attributes given to digital assets.
#[derive(Clone, Debug)]
pub struct CryptoConfig {
    pub security_type: String,
    pub region: String,
    pub currency: String,
    pub timezone: String,
    pub market_open: String,
    pub market_close: String,
}

impl Default for CryptoConfig {
    /// Digital assets trade around the clock in USD.
    fn default() -> (r: Self)
        ensures
            r.security_type@ == "Crypto"@,
            r.region@ == "USA"@,
            r.currency@ == "USD"@,
            r.timezone@ == "UTC-04"@,
            r.market_open@ == "00:00"@,
            r.market_close@ == "23:59"@,
    {
        Self {
            security_type: String::from_str("Crypto"),
            region: String::from_str("USA"),
            currency: String::from_str("USD"),
            timezone: String::from_str("UTC-04"),
            market_open: String::from_str("00:00"),
            market_close: String::from_str("23:59"),
        }
    }
}

/// Configuration for batch news processing.
#[derive(Clone, Debug)]
pub struct BatchConfig {
    pub max_errors_per_symbol: usize,
    pub continue_on_error: bool,
    pub log_progress: bool,
}

impl Default for BatchConfig {
    /// Batches tolerate a few per-symbol errors and keep going.
    fn default() -> (r: Self)
        ensures
            r.max_errors_per_symbol == 5,
            r.continue_on_error == true,
            r.log_progress == true,
    {
        Self { max_errors_per_symbol: 5, continue_on_error: true, log_progress: true }
    }
}

/// One row of a symbol search response, every field as the provider
/// quotes it (the match score stays a string here; whoever ranks by it
/// parses it).
#[derive(Clone, Debug)]
pub struct AlphaSymbol {
    pub symbol: String,
    pub name: String,
    pub s_type: String,
    pub region: String,
    pub market_open: String,
    pub market_close: String,
    pub timezone: String,
    pub currency: String,
    pub match_score: String,
}

/// The plain-value image of a symbol row, for contracts.
pub ghost struct SymView {
    pub symbol: Seq<char>,
    pub name: Seq<char>,
    pub s_type: Seq<char>,
    pub region: Seq<char>,
    pub market_open: Seq<char>,
    pub market_close: Seq<char>,
    pub timezone: Seq<char>,
    pub currency: Seq<char>,
    pub match_score: Seq<char>,
}

impl View for AlphaSymbol {
    type V = SymView;

    open spec fn view(&self) -> SymView {
        SymView {
            symbol: self.symbol@,
            name: self.name@,
            s_type: self.s_type@,
            region: self.region@,
            market_open: self.market_open@,
            market_close: self.market_close@,
            timezone: self.timezone@,
            currency: self.currency@,
            match_score: self.match_score@,
        }
    }
}

impl AlphaSymbol {
    /// Assemble a symbol row from its fields.
    pub fn new(
        symbol: String,
        name: String,
        s_type: String,
        region: String,
        market_open: String,
        market_close: String,
        timezone: String,
        currency: String,
        match_score: String,
    ) -> (r: Self)
        ensures
            r.symbol == symbol,
            r.name == name,
            r.s_type == s_type,
            r.region == region,
            r.market_open == market_open,
            r.market_close == market_close,
            r.timezone == timezone,
            r.currency == currency,
            r.match_score == match_score,
    {
        Self {
            symbol,
            name,
            s_type,
            region,
            market_open,
            market_close,
            timezone,
            currency,
            match_score,
        }
    }

    /// The formatted market hours of this listing.
    pub fn market_hours(&self) -> (r: String)
        ensures
            r@ == self.market_open@ + " - "@ + self.market_close@ + " ("@ + self.timezone@ + ")"@,
    {
        let mut s = self.market_open.clone();
        s.append(" - ");
        s.append(self.market_close.as_str());
        s.append(" (");
        s.append(self.timezone.as_str());
        s.append(")");
        s
    }
}

/// Where a planned security's surrogate key comes from: packed by the
/// codec from its running per-type count, or assigned by the store in
/// load-missed mode.
#[derive(Clone, Copy, PartialEq, Eq, Debug, Structural)]
pub enum SidSource {
    Encoded(i64),
    FromStore,
}

/// One security the run decided to create: its key source, its
/// category, and the normalized record to persist.
#[derive(Clone, Debug)]
pub struct PlannedSymbol {
    pub sid: SidSource,
    pub sec_type: SecurityType,
    pub record: AlphaSymbol,
}

/// The plain-value image of a planned security, for contracts.
pub ghost struct PlannedView {
    pub sid: SidSource,
    pub sec_type: SecurityType,
    pub record: SymView,
}

impl View for PlannedSymbol {
    type V = PlannedView;

    open spec fn view(&self) -> PlannedView {
        PlannedView { sid: self.sid, sec_type: self.sec_type, record: self.record@ }
    }
}

/// A count one higher, held at the top of the range.
pub open spec fn spec_inc(c: u32) -> u32 {
    if c < 0xFFFF_FFFFu32 {
        (c + 1) as u32
    } else {
        c
    }
}

/// Running counts of created securities, one per category; the count of
/// a category seeds the sequence number of the next security in it.
pub struct TypeCounts {
    equity: u32,
    bond: u32,
    option_contract: u32,
    future: u32,
    etf: u32,
    mutual_fund: u32,
    crypto: u32,
    fx: u32,
    swap: u32,
    warrant: u32,
    adr: u32,
    preferred: u32,
    other: u32,
}

impl View for TypeCounts {
    type V = Map<SecurityType, u32>;

    closed spec fn view(&self) -> Map<SecurityType, u32> {
        Map::new(
            |t: SecurityType| true,
            |t: SecurityType|
                match t {
                    SecurityType::Equity => self.equity,
                    SecurityType::Bond => self.bond,
                    SecurityType::Option => self.option_contract,
                    SecurityType::Future => self.future,
                    SecurityType::Etf => self.etf,
                    SecurityType::MutualFund => self.mutual_fund,
                    SecurityType::Crypto => self.crypto,
                    SecurityType::Fx => self.fx,
                    SecurityType::Swap => self.swap,
                    SecurityType::Warrant => self.warrant,
                    SecurityType::Adr => self.adr,
                    SecurityType::Preferred => self.preferred,
                    SecurityType::Other => self.other,
                },
        )
    }
}

impl TypeCounts {
    /// All categories start at zero.
    pub fn new() -> (r: Self)
        ensures
            forall|t: SecurityType| r@.contains_key(t) && r@[t] == 0,
    {
        Self {
            equity: 0,
            bond: 0,
            option_contract: 0,
            future: 0,
            etf: 0,
            mutual_fund: 0,
            crypto: 0,
            fx: 0,
            swap: 0,
            warrant: 0,
            adr: 0,
            preferred: 0,
            other: 0,
        }
    }

    /// The running count of one category.
    pub fn get(&self, t: SecurityType) -> (r: u32)
        ensures
            r == self@[t],
    {
        match t {
            SecurityType::Equity => self.equity,
            SecurityType::Bond => self.bond,
            SecurityType::Option => self.option_contract,
            SecurityType::Future => self.future,
            SecurityType::Etf => self.etf,
            SecurityType::MutualFund => self.mutual_fund,
            SecurityType::Crypto => self.crypto,
            SecurityType::Fx => self.fx,
            SecurityType::Swap => self.swap,
            SecurityType::Warrant => self.warrant,
            SecurityType::Adr => self.adr,
            SecurityType::Preferred => self.preferred,
            SecurityType::Other => self.other,
        }
    }

    /// Count one more security of a category; returns the new count.
    pub fn increment(&mut self, t: SecurityType) -> (r: u32)
        ensures
            r == spec_inc(old(self)@[t]),
            final(self)@ == old(self)@.insert(t, r),
    {
        let cur = self.get(t);
        let next = if cur < 0xFFFF_FFFFu32 {
            cur + 1
        } else {
            cur
        };
        match t {
            SecurityType::Equity => self.equity = next,
            SecurityType::Bond => self.bond = next,
            SecurityType::Option => self.option_contract = next,
            SecurityType::Future => self.future = next,
            SecurityType::Etf => self.etf = next,
            SecurityType::MutualFund => self.mutual_fund = next,
            SecurityType::Crypto => self.crypto = next,
            SecurityType::Fx => self.fx = next,
            SecurityType::Swap => self.swap = next,
            SecurityType::Warrant => self.warrant = next,
            SecurityType::Adr => self.adr = next,
            SecurityType::Preferred => self.preferred = next,
            SecurityType::Other => self.other = next,
        }
        proof {
            assert(self@ =~= old(self)@.insert(t, next));
        }
        next
    }
}

/// The whole planning state of a symbol run: what the duplicate cache
/// knows, the per-category counts, and the creations planned so far.
pub ghost struct SymbolPlanState {
    pub cache: Map<Seq<char>, i64>,
    pub counts: Map<SecurityType, u32>,
    pub planned: Seq<PlannedView>,
}

/// One row's effect on the planning state: a symbol this run has seen
/// is skipped outright; a fresh one enters the cache; in load-missed
/// mode rows outside the USA are then dropped; what remains is
/// classified, counted, keyed and planned for creation.
pub open spec fn spec_plan_row(load_missed: bool, st: SymbolPlanState, row: SymView) -> SymbolPlanState {
    if st.cache.contains_key(row.symbol) {
        st
    } else {
        let cache2 = st.cache.insert(row.symbol, 1);
        if load_missed && spec_normalize_region(row.region) != "USA"@ {
            SymbolPlanState { cache: cache2, counts: st.counts, planned: st.planned }
        } else {
            let ct = spec_classify_detailed(row.s_type, row.name);
            let n2 = spec_inc(st.counts[ct.0]);
            let sid = if load_missed {
                SidSource::FromStore
            } else {
                SidSource::Encoded(spec_encode(ct.0, n2))
            };
            let rec = SymView {
                s_type: ct.1,
                region: spec_normalize_region(row.region),
                ..row
            };
            SymbolPlanState {
                cache: cache2,
                counts: st.counts.insert(ct.0, n2),
                planned: st.planned.push(PlannedView { sid, sec_type: ct.0, record: rec }),
            }
        }
    }
}

/// The planning state after a whole batch, row by row in order.
pub open spec fn spec_plan_fold(load_missed: bool, st: SymbolPlanState, rows: Seq<SymView>) -> SymbolPlanState
    decreases rows.len(),
{
    if rows.len() == 0 {
        st
    } else {
        spec_plan_row(load_missed, spec_plan_fold(load_missed, st, rows.drop_last()), rows.last())
    }
}

/// Symbol processor: the run-scoped state that drives symbol batches —
/// the request gate, the duplicate cache and the per-category counts.
pub struct SymbolProcessor {
    pub config: ProcessingConfig,
    pub gate: RequestGate,
    pub type_counts: TypeCounts,
    pub symbol_cache: IdMap,
}

impl SymbolProcessor {
    /// A fresh processor: empty cache, zero counts, closed circuit.
    pub fn new(config: ProcessingConfig) -> (r: Self)
        ensures
            r.config == config,
            r.gate.error_count == 0,
            r.gate.last_request_at == 0,
            r.gate.min_interval_ms == API_RATE_LIMIT_MS,
            r.gate.max_errors == config.max_errors,
            forall|t: SecurityType| r.type_counts@.contains_key(t) && r.type_counts@[t] == 0,
            r.symbol_cache@ == Map::<Seq<char>, i64>::empty(),
    {
        let max_errors = config.max_errors;
        Self {
            config,
            gate: RequestGate::new(API_RATE_LIMIT_MS, max_errors),
            type_counts: TypeCounts::new(),
            symbol_cache: IdMap::new(),
        }
    }

    /// Seed the duplicate cache with symbols the store already holds,
    /// so a load-missed run never re-creates them.
    pub fn preload_symbols(&mut self, symbols: &Vec<String>)
        ensures
            final(self).symbol_cache@ == spec_preload(old(self).symbol_cache@, symbols@),
            final(self).config == old(self).config,
            final(self).gate == old(self).gate,
            final(self).type_counts@ == old(self).type_counts@,
    {
        let n = symbols.len();
        let mut i: usize = 0;
        while i < n
            invariant
                0 <= i <= n,
                n == symbols@.len(),
                self.symbol_cache@ == spec_preload(old(self).symbol_cache@, symbols@.take(i as int)),
                self.config == old(self).config,
                self.gate == old(self).gate,
                self.type_counts@ == old(self).type_counts@,
            decreases n - i,
        {
            self.symbol_cache.set(symbols[i].as_str(), 1);
            proof {
                assert(symbols@.take(i + 1).drop_last() =~= symbols@.take(i as int));
                assert(symbols@.take(i + 1).last() == symbols@[i as int]);
            }
            i += 1;
        }
        proof {
            assert(symbols@.take(n as int) =~= symbols@);
        }
    }

    /// Plan one batch of parsed symbol search rows: deduplicate against
    /// the run's cache, normalize and classify what is fresh, and hand
    /// back the records to create, in response order, each with its key
    /// source. The caller persists them in exactly this order.
    pub fn process_symbols(&mut self, rows: &Vec<AlphaSymbol>) -> (r: Vec<PlannedSymbol>)
        ensures
            ({
                let end = spec_plan_fold(
                    old(self).config.load_missed,
                    SymbolPlanState {
                        cache: old(self).symbol_cache@,
                        counts: old(self).type_counts@,
                        planned: Seq::empty(),
                    },
                    rows@.map_values(|x: AlphaSymbol| x@),
                );
                &&& final(self).symbol_cache@ == end.cache
                &&& final(self).type_counts@ == end.counts
                &&& r@.map_values(|p: PlannedSymbol| p@) == end.planned
                &&& final(self).config == old(self).config
                &&& final(self).gate == old(self).gate
            }),
    {
        let ghost lm = self.config.load_missed;
        let ghost st0 = SymbolPlanState {
            cache: self.symbol_cache@,
            counts: self.type_counts@,
            planned: Seq::empty(),
        };
        let ghost rv = rows@.map_values(|x: AlphaSymbol| x@);
        let mut out: Vec<PlannedSymbol> = Vec::new();
        let n = rows.len();
        let mut i: usize = 0;
        proof {
            assert(rv.take(0) =~= Seq::<SymView>::empty());
            assert(out@.map_values(|p: PlannedSymbol| p@) =~= Seq::<PlannedView>::empty());
        }
        while i < n
            invariant
                0 <= i <= n,
                n == rows@.len(),
                rv == rows@.map_values(|x: AlphaSymbol| x@),
                lm == self.config.load_missed,
                spec_plan_fold(lm, st0, rv.take(i as int)) == (SymbolPlanState {
                    cache: self.symbol_cache@,
                    counts: self.type_counts@,
                    planned: out@.map_values(|p: PlannedSymbol| p@),
                }),
                self.config == old(self).config,
                self.gate == old(self).gate,
                st0 == (SymbolPlanState {
                    cache: old(self).symbol_cache@,
                    counts: old(self).type_counts@,
                    planned: Seq::<PlannedView>::empty(),
                }),
            decreases n - i,
        {
            let ghost st_pre = spec_plan_fold(lm, st0, rv.take(i as int));
            let ghost outv_pre = out@.map_values(|p: PlannedSymbol| p@);
            let row = &rows[i];
            proof {
                assert(rv[i as int] == row@);
            }
            let fresh = self.symbol_cache.mark_seen_or_skip(row.symbol.as_str());
            if fresh {
                let region_n = normalize_alpha_region(row.region.as_str());
                let keep = if self.config.load_missed {
                    text::str_eq(region_n.as_str(), "USA")
                } else {
                    true
                };
                if keep {
                    let classified = SecurityType::classify_detailed(
                        row.s_type.as_str(),
                        row.name.as_str(),
                    );
                    let sec_type = classified.0;
                    let n2 = self.type_counts.increment(sec_type);
                    let sid = if self.config.load_missed {
                        SidSource::FromStore
                    } else {
                        SidSource::Encoded(SecurityType::encode(sec_type, n2))
                    };
                    let record = AlphaSymbol {
                        symbol: row.symbol.clone(),
                        name: row.name.clone(),
                        s_type: classified.1,
                        region: region_n,
                        market_open: row.market_open.clone(),
                        market_close: row.market_close.clone(),
                        timezone: row.timezone.clone(),
                        currency: row.currency.clone(),
                        match_score: row.match_score.clone(),
                    };
                    let planned = PlannedSymbol { sid, sec_type, record };
                    proof {
                        let expect = spec_plan_row(lm, st_pre, rv[i as int]);
                        assert(planned@ == expect.planned.last());
                    }
                    out.push(planned);
                    proof {
                        assert(out@.map_values(|p: PlannedSymbol| p@) =~= outv_pre.push(
                            out@.last()@,
                        ));
                    }
                }
            }
            proof {
                let expect = spec_plan_row(lm, st_pre, rv[i as int]);
                assert(rv.take(i + 1).drop_last() =~= rv.take(i as int));
                assert(rv.take(i + 1).last() == rv[i as int]);
                assert(self.symbol_cache@ == expect.cache);
                assert(self.type_counts@ == expect.counts);
                assert(out@.map_values(|p: PlannedSymbol| p@) =~= expect.planned);
            }
            i += 1;
        }
        proof {
            assert(rv.take(n as int) =~= rv);
        }
        out
    }

    /// The per-category creation counts so far.
    pub fn type_statistics(&self) -> (r: &TypeCounts)
        ensures
            r@ == self.type_counts@,
    {
        &self.type_counts
    }
}

/// A cache seeded with every symbol of a list, each marked present.
pub open spec fn spec_preload(cache: Map<Seq<char>, i64>, symbols: Seq<String>) -> Map<
    Seq<char>,
    i64,
>
    decreases symbols.len(),
{
    if symbols.len() == 0 {
        cache
    } else {
        spec_preload(cache, symbols.drop_last()).insert(symbols.last()@, 1)
    }
}

/// The planning state of a digital-asset run: which symbols are taken,
/// the next sequence number, and the creations planned so far.
pub ghost struct DigitalPlanState {
    pub cache: Map<Seq<char>, i64>,
    pub next_sid: u32,
    pub planned: Seq<PlannedView>,
}

/// One input line's effect on a digital-asset run. A line without a
/// comma is malformed and dropped. Otherwise the symbol is the text
/// before the first comma and the name the field after it; the line
/// consumes a sequence number whether or not the symbol is fresh, and
/// only a fresh symbol is planned, keyed in the crypto category.
pub open spec fn spec_digital_row(
    cfg: CryptoConfig,
    st: DigitalPlanState,
    line: Seq<char>,
) -> DigitalPlanState {
    match text::spec_find_from(line, ',', 0) {
        Option::None => st,
        Option::Some(k) => {
            let sym = line.subrange(0, k);
            let name_end = match text::spec_find_from(line, ',', k + 1) {
                Option::None => line.len() as int,
                Option::Some(k2) => k2,
            };
            let name = line.subrange(k + 1, name_end);
            let sid = spec_encode(SecurityType::Crypto, st.next_sid);
            if st.cache.contains_key(sym) {
                DigitalPlanState {
                    cache: st.cache,
                    next_sid: spec_inc(st.next_sid),
                    planned: st.planned,
                }
            } else {
                DigitalPlanState {
                    cache: st.cache.insert(sym, sid),
                    next_sid: spec_inc(st.next_sid),
                    planned: st.planned.push(
                        PlannedView {
                            sid: SidSource::Encoded(sid),
                            sec_type: SecurityType::Crypto,
                            record: SymView {
                                symbol: sym,
                                name: name,
                                s_type: cfg.security_type@,
                                region: cfg.region@,
                                market_open: cfg.market_open@,
                                market_close: cfg.market_close@,
                                timezone: cfg.timezone@,
                                currency: cfg.currency@,
                                match_score: "1"@,
                            },
                        },
                    ),
                }
            }
        },
    }
}

/// The digital-asset planning state after a whole input, line by line.
pub open spec fn spec_digital_fold(
    cfg: CryptoConfig,
    st: DigitalPlanState,
    lines: Seq<String>,
) -> DigitalPlanState
    decreases lines.len(),
{
    if lines.len() == 0 {
        st
    } else {
        spec_digital_row(cfg, spec_digital_fold(cfg, st, lines.drop_last()), lines.last()@)
    }
}

/// Plan the creation of digital-asset symbols from "symbol,name" lines:
/// duplicate symbols and malformed lines are dropped, every well-formed
/// line consumes a sequence number (as the source data is numbered),
/// and each fresh symbol is keyed in the crypto category with the
/// fixed listing attributes of `config`.
pub fn process_digital_symbols(lines: &Vec<String>, config: &CryptoConfig) -> (r: Vec<
    PlannedSymbol,
>)
    ensures
        r@.map_values(|p: PlannedSymbol| p@) == spec_digital_fold(
            *config,
            DigitalPlanState { cache: Map::empty(), next_sid: 1, planned: Seq::empty() },
            lines@,
        ).planned,
{
    let ghost st0 = DigitalPlanState {
        cache: Map::empty(),
        next_sid: 1,
        planned: Seq::empty(),
    };
    let mut cache = IdMap::new();
    let mut next_sid: u32 = 1;
    let mut out: Vec<PlannedSymbol> = Vec::new();
    let n = lines.len();
    let mut i: usize = 0;
    proof {
        assert(lines@.take(0) =~= Seq::<String>::empty());
        assert(out@.map_values(|p: PlannedSymbol| p@) =~= Seq::<PlannedView>::empty());
    }
    while i < n
        invariant
            0 <= i <= n,
            n == lines@.len(),
            spec_digital_fold(*config, st0, lines@.take(i as int)) == (DigitalPlanState {
                cache: cache@,
                next_sid: next_sid,
                planned: out@.map_values(|p: PlannedSymbol| p@),
            }),
            st0 == (DigitalPlanState {
                cache: Map::<Seq<char>, i64>::empty(),
                next_sid: 1u32,
                planned: Seq::<PlannedView>::empty(),
            }),
        decreases n - i,
    {
        let ghost st_pre = spec_digital_fold(*config, st0, lines@.take(i as int));
        let ghost outv_pre = out@.map_values(|p: PlannedSymbol| p@);
        let line: &String = &lines[i];
        let line_len = line.as_str().unicode_len();
        match text::find_char_from(line.as_str(), ',', 0) {
            Option::None => {},
            Option::Some(k) => {
                proof {
                    crate::text::lemma_find_in_range(line@, ',', 0);
                }
                let name_end = match text::find_char_from(line.as_str(), ',', k + 1) {
                    Option::None => line_len,
                    Option::Some(k2) => k2,
                };
                proof {
                    crate::text::lemma_find_in_range(line@, ',', k + 1);
                }
                let sym = line.as_str().substring_char(0, k).to_owned();
                let name = line.as_str().substring_char(k + 1, name_end).to_owned();
                let sid = SecurityType::encode(SecurityType::Crypto, next_sid);
                let fresh = cache.insert_if_absent(sym.as_str(), sid);
                next_sid = if next_sid < 0xFFFF_FFFFu32 {
                    next_sid + 1
                } else {
                    next_sid
                };
                if fresh {
                    let record = AlphaSymbol {
                        symbol: sym,
                        name: name,
                        s_type: config.security_type.clone(),
                        region: config.region.clone(),
                        market_open: config.market_open.clone(),
                        market_close: config.market_close.clone(),
                        timezone: config.timezone.clone(),
                        currency: config.currency.clone(),
                        match_score: String::from_str("1"),
                    };
                    let planned = PlannedSymbol {
                        sid: SidSource::Encoded(sid),
                        sec_type: SecurityType::Crypto,
                        record,
                    };
                    proof {
                        let expect = spec_digital_row(*config, st_pre, lines@[i as int]@);
                        assert(planned@ == expect.planned.last());
                    }
                    out.push(planned);
                    proof {
                        assert(out@.map_values(|p: PlannedSymbol| p@) =~= outv_pre.push(
                            out@.last()@,
                        ));
                    }
                }
            },
        }
        proof {
            assert(lines@.take(i + 1).drop_last() =~= lines@.take(i as int));
            assert(lines@.take(i + 1).last() == lines@[i as int]);
            let expect = spec_digital_row(*config, st_pre, lines@[i as int]@);
            assert(cache@ == expect.cache);
            assert(next_sid == expect.next_sid);
            assert(out@.map_values(|p: PlannedSymbol| p@) =~= expect.planned);
        }
        i += 1;
    }
    proof {
        assert(lines@.take(n as int) =~= lines@);
    }
    out
}

/// How many ticks of a batch pass the watermark, and which: the indices
/// to persist, in response order, and the processed/skipped tallies the
/// run reports.
pub struct TickPlan {
    pub keep: Vec<usize>,
    pub processed: usize,
    pub skipped: usize,
}

/// A strictly increasing index sequence cannot outnumber the positions
/// it draws from.
proof fn lemma_increasing_indices_bounded(r: Seq<usize>, n: int, j: int)
    requires
        forall|a: int| 0 <= a < r.len() ==> r[a] < n,
        forall|a: int, b: int| 0 <= a < b < r.len() ==> r[a] < r[b],
        0 <= j < r.len(),
    ensures
        r[j] >= j,
    decreases j,
{
    if j > 0 {
        lemma_increasing_indices_bounded(r, n, j - 1);
    }
}

/// Partition a batch of tick instants against the watermark: which
/// rows to persist (in order) and the tallies of both sides.
pub fn plan_tick_persistence(times: &Vec<i64>, watermark: Option<i64>) -> (r: TickPlan)
    ensures
        forall|j: int|
            0 <= j < r.keep@.len() ==> r.keep@[j] < times@.len() && watermark::spec_is_new(
                times@[#[trigger] r.keep@[j] as int],
                watermark,
            ),
        forall|j: int, k: int| 0 <= j < k < r.keep@.len() ==> r.keep@[j] < r.keep@[k],
        forall|i: int|
            0 <= i < times@.len() && watermark::spec_is_new(#[trigger] times@[i], watermark)
                ==> r.keep@.contains(i as usize),
        r.processed == r.keep@.len(),
        r.processed + r.skipped == times@.len(),
{
    let keep = watermark::filter_new(times, watermark);
    proof {
        if keep@.len() > 0 {
            lemma_increasing_indices_bounded(keep@, times@.len() as int, keep@.len() - 1);
        }
    }
    let processed = keep.len();
    let skipped = times.len() - processed;
    TickPlan { keep, processed, skipped }
}

/// The payload shapes the provider answers with, each recognized by a
/// required marker; a payload without its marker means "no data for
/// this entity" — a soft, non-error outcome.
#[derive(Clone, Copy, PartialEq, Eq, Debug, Structural)]
pub enum PayloadKind {
    SymbolSearch,
    Overview,
    Intraday,
    DailySummary,
}

impl PayloadKind {
    /// The marker field that distinguishes a data-bearing payload.
    pub open spec fn spec_marker(self) -> Seq<char> {
        match self {
            PayloadKind::SymbolSearch => "symbol"@,
            PayloadKind::Overview => "Symbol"@,
            PayloadKind::Intraday => "timestamp,open,high,low,close,volume"@,
            PayloadKind::DailySummary => "Meta Data"@,
        }
    }

    /// The marker field that distinguishes a data-bearing payload.
    pub fn marker(self) -> (r: &'static str)
        ensures
            r@ == self.spec_marker(),
    {
        match self {
            PayloadKind::SymbolSearch => "symbol",
            PayloadKind::Overview => "Symbol",
            PayloadKind::Intraday => "timestamp,open,high,low,close,volume",
            PayloadKind::DailySummary => "Meta Data",
        }
    }

    /// Does the payload carry data for this entity? Absence of the
    /// marker is the provider's way of reporting none.
    pub fn has_data(self, text: &str) -> (r: bool)
        ensures
            r == text::spec_contains_seq(text@, self.spec_marker()),
    {
        text::contains_str(text, self.marker())
    }
}

/// The phases a per-entity sync passes through.
#[derive(Clone, Copy, PartialEq, Eq, Debug, Structural)]
pub enum SyncPhase {
    Idle,
    Requesting,
    Parsing,
    Filtering,
    Persisting,
    Aborted,
}

/// What the outside work reported back to the orchestrator.
#[derive(Clone, Copy, PartialEq, Eq, Debug, Structural)]
pub enum SyncEvent {
    /// A new entity's sync begins.
    Start,
    /// The wait was honored and the fetch completed.
    Fetched,
    /// The fetch failed in transport; the error was within the ceiling.
    FetchFailed,
    /// The error ceiling tripped while recording a failure.
    CircuitTripped,
    /// The payload carried its marker and parsed into rows.
    Parsed,
    /// The payload lacked its marker: no data for this entity.
    NoData,
    /// The rows passed through watermark, registry or fingerprint.
    Filtered,
    /// One row failed to persist; it is logged and skipped.
    RowFailed,
    /// The store itself failed (connection or schema).
    StoreFailed,
    /// Every surviving row of this entity is persisted.
    Persisted,
}

/// The phase that follows an event: the normal cycle walks
/// Idle → Requesting → Parsing → Filtering → Persisting → Idle, a
/// transport failure or empty payload skips the entity and returns to
/// Idle, a single bad row stays in Persisting, and a tripped circuit or
/// store failure aborts from any phase. `Aborted` absorbs everything.
pub open spec fn spec_step(phase: SyncPhase, event: SyncEvent) -> SyncPhase {
    if phase is Aborted {
        SyncPhase::Aborted
    } else if event is CircuitTripped || event is StoreFailed {
        SyncPhase::Aborted
    } else {
        match (phase, event) {
            (SyncPhase::Idle, SyncEvent::Start) => SyncPhase::Requesting,
            (SyncPhase::Requesting, SyncEvent::Fetched) => SyncPhase::Parsing,
            (SyncPhase::Requesting, SyncEvent::FetchFailed) => SyncPhase::Idle,
            (SyncPhase::Parsing, SyncEvent::Parsed) => SyncPhase::Filtering,
            (SyncPhase::Parsing, SyncEvent::NoData) => SyncPhase::Idle,
            (SyncPhase::Filtering, SyncEvent::Filtered) => SyncPhase::Persisting,
            (SyncPhase::Persisting, SyncEvent::RowFailed) => SyncPhase::Persisting,
            (SyncPhase::Persisting, SyncEvent::Persisted) => SyncPhase::Idle,
            (p, _) => p,
        }
    }
}

impl SyncPhase {
    /// Advance the per-entity state machine by one reported event.
    pub fn step(self, event: SyncEvent) -> (r: SyncPhase)
        ensures
            r == spec_step(self, event),
    {
        if matches!(self, SyncPhase::Aborted) {
            return SyncPhase::Aborted;
        }
        if matches!(event, SyncEvent::CircuitTripped) || matches!(event, SyncEvent::StoreFailed) {
            return SyncPhase::Aborted;
        }
        match (self, event) {
            (SyncPhase::Idle, SyncEvent::Start) => SyncPhase::Requesting,
            (SyncPhase::Requesting, SyncEvent::Fetched) => SyncPhase::Parsing,
            (SyncPhase::Requesting, SyncEvent::FetchFailed) => SyncPhase::Idle,
            (SyncPhase::Parsing, SyncEvent::Parsed) => SyncPhase::Filtering,
            (SyncPhase::Parsing, SyncEvent::NoData) => SyncPhase::Idle,
            (SyncPhase::Filtering, SyncEvent::Filtered) => SyncPhase::Persisting,
            (SyncPhase::Persisting, SyncEvent::RowFailed) => SyncPhase::Persisting,
            (SyncPhase::Persisting, SyncEvent::Persisted) => SyncPhase::Idle,
            (p, _) => p,
        }
    }
}

/// Abort is absorbing, and only a tripped circuit or a store failure
/// ever reaches it: partial failures (a failed fetch, an empty payload,
/// a bad row) keep the machine in a working phase.
pub proof fn lemma_abort_policy(phase: SyncPhase, event: SyncEvent)
    ensures
        spec_step(SyncPhase::Aborted, event) == SyncPhase::Aborted,
        spec_step(phase, event) == SyncPhase::Aborted ==> phase == SyncPhase::Aborted || event
            == SyncEvent::CircuitTripped || event == SyncEvent::StoreFailed,
        phase != SyncPhase::Aborted && (event == SyncEvent::CircuitTripped || event
            == SyncEvent::StoreFailed) ==> spec_step(phase, event) == SyncPhase::Aborted,
{
}

} // verus!
