use chrono::NaiveDate;

use alpha_sync::codec::SecurityType;
use alpha_sync::gate::MAX_ERRORS;
use alpha_sync::sync::{
    plan_tick_persistence, process_digital_symbols, AlphaSymbol, BatchConfig, CryptoConfig,
    PayloadKind, ProcessingConfig, SidSource, SymbolProcessor, SyncEvent, SyncPhase,
};

fn search_row(symbol: &str, name: &str) -> AlphaSymbol {
    AlphaSymbol::new(
        String::from(symbol),
        String::from(name),
        String::from("Equity"),
        String::from("United States"),
        String::from("09:30"),
        String::from("16:00"),
        String::from("UTC-05"),
        String::from("USD"),
        String::from("1.0"),
    )
}

#[test]
fn test_crypto_config_default() {
    let config = CryptoConfig::default();
    assert_eq!(config.security_type, "Crypto");
    assert_eq!(config.region, "USA");
}

#[test]
fn test_processing_config_default() {
    let config = ProcessingConfig::default();
    assert!(!config.load_missed);
    assert_eq!(config.region_filter, Some(String::from("USA")));
    assert_eq!(config.max_errors, MAX_ERRORS);
}

#[test]
fn test_batch_config_default() {
    let config = BatchConfig::default();
    assert_eq!(config.max_errors_per_symbol, 5);
    assert!(config.continue_on_error);
    assert!(config.log_progress);
}

#[test]
fn duplicate_symbols_in_a_batch_are_created_once() {
    let mut processor = SymbolProcessor::new(ProcessingConfig::default());
    let rows = vec![
        search_row("AAPL", "Apple Inc"),
        search_row("AAPL", "Apple Inc"),
        search_row("MSFT", "Microsoft Corporation"),
    ];
    let planned = processor.process_symbols(&rows);

    assert_eq!(planned.len(), 2);
    assert_eq!(rows.len() - planned.len(), 1);
    assert_eq!(planned[0].record.symbol, "AAPL");
    assert_eq!(planned[1].record.symbol, "MSFT");
    assert_eq!(planned[0].record.region, "USA");
    assert_eq!(planned[0].sec_type, SecurityType::Equity);
    assert_eq!(
        planned[0].sid,
        SidSource::Encoded(SecurityType::encode(SecurityType::Equity, 1))
    );
    assert_eq!(
        planned[1].sid,
        SidSource::Encoded(SecurityType::encode(SecurityType::Equity, 2))
    );
}

#[test]
fn load_missed_mode_filters_regions_and_defers_keys() {
    let config = ProcessingConfig {
        load_missed: true,
        region_filter: Some(String::from("USA")),
        max_errors: MAX_ERRORS,
    };
    let mut processor = SymbolProcessor::new(config);
    let mut foreign = search_row("SAP", "SAP SE");
    foreign.region = String::from("Frankfurt");
    let rows = vec![search_row("AAPL", "Apple Inc"), foreign];

    let planned = processor.process_symbols(&rows);
    assert_eq!(planned.len(), 1);
    assert_eq!(planned[0].record.symbol, "AAPL");
    assert_eq!(planned[0].sid, SidSource::FromStore);
}

#[test]
fn preloaded_symbols_are_never_recreated() {
    let mut processor = SymbolProcessor::new(ProcessingConfig::default());
    processor.preload_symbols(&vec![String::from("AAPL")]);
    let planned = processor.process_symbols(&vec![search_row("AAPL", "Apple Inc")]);
    assert!(planned.is_empty());
}

#[test]
fn classification_overrides_apply_per_row() {
    let mut processor = SymbolProcessor::new(ProcessingConfig::default());
    let rows = vec![
        search_row("TSLA-ADR", "Tesla ADR"),
        search_row("BX-W", "Blackstone warrant"),
    ];
    let planned = processor.process_symbols(&rows);
    assert_eq!(planned[0].sec_type, SecurityType::Adr);
    assert_eq!(planned[0].record.s_type, "ADR");
    assert_eq!(planned[1].sec_type, SecurityType::Warrant);
    assert_eq!(planned[1].record.s_type, "Warrant");
}

#[test]
fn digital_lines_are_keyed_deduplicated_and_validated() {
    let config = CryptoConfig::default();
    let lines = vec![
        String::from("BTC,Bitcoin"),
        String::from("BTC,Bitcoin Again"),
        String::from("ETH,Ethereum,extra"),
        String::from("malformed"),
    ];
    let planned = process_digital_symbols(&lines, &config);

    assert_eq!(planned.len(), 2);
    assert_eq!(planned[0].record.symbol, "BTC");
    assert_eq!(planned[0].record.name, "Bitcoin");
    assert_eq!(
        planned[0].sid,
        SidSource::Encoded(SecurityType::encode(SecurityType::Crypto, 1))
    );
    // The duplicate consumed a sequence number, as the numbered source data does.
    assert_eq!(planned[1].record.symbol, "ETH");
    assert_eq!(planned[1].record.name, "Ethereum");
    assert_eq!(
        planned[1].sid,
        SidSource::Encoded(SecurityType::encode(SecurityType::Crypto, 3))
    );
    assert_eq!(planned[1].record.timezone, "UTC-04");
}

#[test]
fn intraday_sync_persists_only_rows_past_the_watermark() {
    let watermark = NaiveDate::from_ymd_opt(2024, 1, 1)
        .unwrap()
        .and_hms_opt(0, 0, 0)
        .unwrap()
        .and_utc()
        .timestamp();
    let before = NaiveDate::from_ymd_opt(2023, 12, 31)
        .unwrap()
        .and_hms_opt(23, 59, 59)
        .unwrap()
        .and_utc()
        .timestamp();
    let after = NaiveDate::from_ymd_opt(2024, 1, 1)
        .unwrap()
        .and_hms_opt(0, 0, 1)
        .unwrap()
        .and_utc()
        .timestamp();

    let plan = plan_tick_persistence(&vec![before, after], Some(watermark));
    assert_eq!(plan.keep, vec![1]);
    assert_eq!(plan.processed, 1);
    assert_eq!(plan.skipped, 1);
}

#[test]
fn payload_markers_decide_soft_empties() {
    assert!(PayloadKind::SymbolSearch.has_data("symbol,name,type\nAAPL,Apple,Equity"));
    assert!(!PayloadKind::SymbolSearch.has_data("{\"Note\":\"rate limited\"}"));
    assert!(PayloadKind::Overview.has_data("{\"Symbol\":\"AAPL\"}"));
    assert!(PayloadKind::Intraday.has_data("timestamp,open,high,low,close,volume\n..."));
    assert!(!PayloadKind::Intraday.has_data("Error Message"));
    assert!(PayloadKind::DailySummary.has_data("{\"Meta Data\": {}}"));
}

#[test]
fn the_sync_cycle_walks_its_phases() {
    let mut phase = SyncPhase::Idle;
    phase = phase.step(SyncEvent::Start);
    assert_eq!(phase, SyncPhase::Requesting);
    phase = phase.step(SyncEvent::Fetched);
    assert_eq!(phase, SyncPhase::Parsing);
    phase = phase.step(SyncEvent::Parsed);
    assert_eq!(phase, SyncPhase::Filtering);
    phase = phase.step(SyncEvent::Filtered);
    assert_eq!(phase, SyncPhase::Persisting);
    phase = phase.step(SyncEvent::RowFailed);
    assert_eq!(phase, SyncPhase::Persisting);
    phase = phase.step(SyncEvent::Persisted);
    assert_eq!(phase, SyncPhase::Idle);
}

#[test]
fn partial_failures_skip_the_item_but_fatal_ones_abort() {
    assert_eq!(
        SyncPhase::Requesting.step(SyncEvent::FetchFailed),
        SyncPhase::Idle
    );
    assert_eq!(SyncPhase::Parsing.step(SyncEvent::NoData), SyncPhase::Idle);
    assert_eq!(
        SyncPhase::Requesting.step(SyncEvent::CircuitTripped),
        SyncPhase::Aborted
    );
    assert_eq!(
        SyncPhase::Persisting.step(SyncEvent::StoreFailed),
        SyncPhase::Aborted
    );
    assert_eq!(SyncPhase::Aborted.step(SyncEvent::Start), SyncPhase::Aborted);
}

#[test]
fn market_hours_format_and_type_statistics() {
    let row = search_row("AAPL", "Apple Inc");
    assert_eq!(row.market_hours(), "09:30 - 16:00 (UTC-05)");

    let mut processor = SymbolProcessor::new(ProcessingConfig::default());
    processor.process_symbols(&vec![search_row("AAPL", "Apple Inc")]);
    assert_eq!(processor.type_statistics().get(SecurityType::Equity), 1);
    assert_eq!(processor.type_statistics().get(SecurityType::Bond), 0);
}
