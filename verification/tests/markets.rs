use alpha_sync::markets::{
    normalize_alpha_region, Exchange, ExchangeType, FileConfig, FinancialStatus, MarketCategory,
};
use alpha_sync::tops::{top_constants, TopType};

#[test]
fn test_exchange_codes() {
    assert_eq!(Exchange::from_code('A'), Some(Exchange::Amex));
    assert_eq!(Exchange::Nyse.to_code(), 'N');
    assert_eq!(Exchange::from_code('Z'), Some(Exchange::Bats));
}

#[test]
fn test_normalize_alpha_region() {
    let region = "United States";
    let short_region = normalize_alpha_region(region);
    assert_eq!(short_region, "USA");
}

#[test]
fn test_normalize_alpha_region_2() {
    let region = "Whatever";
    let short_region = normalize_alpha_region(region);
    assert_eq!(short_region, "Whatever");
}

#[test]
fn test_normalize_alpha_region_known() {
    assert_eq!(normalize_alpha_region("United States"), "USA");
    assert_eq!(normalize_alpha_region("United Kingdom"), "UK");
    assert_eq!(normalize_alpha_region("Frankfurt"), "Frank");
    assert_eq!(normalize_alpha_region("Toronto Venture"), "TOR");
    assert_eq!(normalize_alpha_region("India/Bombay"), "Bomb");
    assert_eq!(normalize_alpha_region("Brazil/Sao Paolo"), "SaoP");
}

#[test]
fn test_normalize_alpha_region_unknown() {
    assert_eq!(normalize_alpha_region("Whatever"), "Whatever");
    assert_eq!(normalize_alpha_region("Mars"), "Mars");
    assert_eq!(normalize_alpha_region(""), "");
}

#[test]
fn test_top_constants() {
    assert_eq!(top_constants(&TopType::TopGainer), "GAIN");
    assert_eq!(top_constants(&TopType::TopLoser), "LOSE");
    assert_eq!(top_constants(&TopType::TopActive), "ACTV");
}

#[test]
fn test_top_type_as_str() {
    assert_eq!(TopType::TopGainer.as_str(), "top_gainer");
    assert_eq!(TopType::TopLoser.as_str(), "top_loser");
    assert_eq!(TopType::TopActive.as_str(), "top_active");
}

#[test]
fn test_exchange_type_parsing() {
    assert_eq!(
        ExchangeType::from_str("NASDAQ").unwrap(),
        ExchangeType::Nasdaq
    );
    assert_eq!(
        ExchangeType::from_str("nasdaq").unwrap(),
        ExchangeType::Nasdaq
    );
    assert_eq!(ExchangeType::from_str("NYSE").unwrap(), ExchangeType::Nyse);
    assert_eq!(
        ExchangeType::from_str("DIGITAL").unwrap(),
        ExchangeType::Digital
    );

    assert!(ExchangeType::from_str("UNKNOWN").is_err());
}

#[test]
fn test_exchange_type_as_str() {
    assert_eq!(ExchangeType::Nasdaq.as_str(), "NASDAQ");
    assert_eq!(ExchangeType::Nyse.as_str(), "NYSE");
    assert_eq!(ExchangeType::Digital.as_str(), "DIGITAL");
}

#[test]
fn test_file_config_creation() {
    let config = FileConfig::new(ExchangeType::Nasdaq, String::from("NASDAQ_FILE"));
    assert_eq!(config.exchange_type, ExchangeType::Nasdaq);
    assert_eq!(config.env_var_name, "NASDAQ_FILE");
}

#[test]
fn exchange_codes_round_trip_for_every_venue() {
    let venues = [
        Exchange::Amex,
        Exchange::NasdaqBx,
        Exchange::Nse,
        Exchange::NasdAdf,
        Exchange::MarketIndependent,
        Exchange::Ise,
        Exchange::DirectEdgeA,
        Exchange::DirectEdgeX,
        Exchange::Ltse,
        Exchange::Chicago,
        Exchange::Nyse,
        Exchange::Instinet,
        Exchange::Arca,
        Exchange::Cts,
        Exchange::Nasdaq,
        Exchange::Iex,
        Exchange::Cboe,
        Exchange::NasdaqPsx,
        Exchange::BatsY,
        Exchange::Bats,
    ];
    for &v in &venues {
        assert_eq!(Exchange::from_code(v.to_code()), Some(v));
    }
    assert_eq!(Exchange::from_code('Q'), Some(Exchange::Nasdaq));
    assert_eq!(Exchange::from_code('1'), None);
}

#[test]
fn category_and_status_codes_round_trip() {
    for &c in &[
        MarketCategory::GlobalSelect,
        MarketCategory::Global,
        MarketCategory::Capital,
    ] {
        assert_eq!(MarketCategory::from_code(c.to_code()), Some(c));
    }
    assert_eq!(MarketCategory::from_code('X'), None);

    for &s in &[
        FinancialStatus::Normal,
        FinancialStatus::Deficient,
        FinancialStatus::Delinquent,
        FinancialStatus::Bankrupt,
        FinancialStatus::DeficientBankrupt,
        FinancialStatus::DeficientDelinquent,
        FinancialStatus::DelinquentBankrupt,
        FinancialStatus::DeficientDelinquentBankrupt,
    ] {
        assert_eq!(FinancialStatus::from_code(s.to_code()), Some(s));
    }
    assert_eq!(FinancialStatus::from_code('Z'), None);
}

#[test]
fn unknown_exchange_error_keeps_the_label() {
    let err = ExchangeType::from_str("AMEX").unwrap_err();
    assert_eq!(err.0, "AMEX");
    assert_eq!(err.message(), "Unknown exchange type: AMEX");
}
