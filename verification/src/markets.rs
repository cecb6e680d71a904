//! Listing-venue code maps: exchange, market category and financial
//! status letters as the symbol directories publish them, plus the
//! region abbreviations used across the store.

use vstd::prelude::*;
use crate::text;

verus! {

/// Trading venues, keyed by their one-letter directory codes.
#[derive(Clone, Copy, PartialEq, Eq, Hash, Debug, Structural)]
pub enum Exchange {
    Amex,
    NasdaqBx,
    Nse,
    NasdAdf,
    MarketIndependent,
    Ise,
    DirectEdgeA,
    DirectEdgeX,
    Ltse,
    Chicago,
    Nyse,
    Instinet,
    Arca,
    Cts,
    Nasdaq,
    Iex,
    Cboe,
    NasdaqPsx,
    BatsY,
    Bats,
}

/// The venue a directory code letter names, if any. 'T' and 'Q' both
/// name Nasdaq.
pub open spec fn spec_exchange_of_code(code: char) -> Option<Exchange> {
    if code == 'A' {
        Some(Exchange::Amex)
    } else if code == 'B' {
        Some(Exchange::NasdaqBx)
    } else if code == 'C' {
        Some(Exchange::Nse)
    } else if code == 'D' {
        Some(Exchange::NasdAdf)
    } else if code == 'E' {
        Some(Exchange::MarketIndependent)
    } else if code == 'I' {
        Some(Exchange::Ise)
    } else if code == 'J' {
        Some(Exchange::DirectEdgeA)
    } else if code == 'K' {
        Some(Exchange::DirectEdgeX)
    } else if code == 'L' {
        Some(Exchange::Ltse)
    } else if code == 'M' {
        Some(Exchange::Chicago)
    } else if code == 'N' {
        Some(Exchange::Nyse)
    } else if code == 'O' {
        Some(Exchange::Instinet)
    } else if code == 'P' {
        Some(Exchange::Arca)
    } else if code == 'S' {
        Some(Exchange::Cts)
    } else if code == 'T' || code == 'Q' {
        Some(Exchange::Nasdaq)
    } else if code == 'V' {
        Some(Exchange::Iex)
    } else if code == 'W' {
        Some(Exchange::Cboe)
    } else if code == 'X' {
        Some(Exchange::NasdaqPsx)
    } else if code == 'Y' {
        Some(Exchange::BatsY)
    } else if code == 'Z' {
        Some(Exchange::Bats)
    } else {
        None
    }
}

/// The canonical code letter of a venue (Nasdaq reports as 'T').
pub open spec fn spec_code_of_exchange(e: Exchange) -> char {
    match e {
        Exchange::Amex => 'A',
        Exchange::NasdaqBx => 'B',
        Exchange::Nse => 'C',
        Exchange::NasdAdf => 'D',
        Exchange::MarketIndependent => 'E',
        Exchange::Ise => 'I',
        Exchange::DirectEdgeA => 'J',
        Exchange::DirectEdgeX => 'K',
        Exchange::Ltse => 'L',
        Exchange::Chicago => 'M',
        Exchange::Nyse => 'N',
        Exchange::Instinet => 'O',
        Exchange::Arca => 'P',
        Exchange::Cts => 'S',
        Exchange::Nasdaq => 'T',
        Exchange::Iex => 'V',
        Exchange::Cboe => 'W',
        Exchange::NasdaqPsx => 'X',
        Exchange::BatsY => 'Y',
        Exchange::Bats => 'Z',
    }
}

impl Exchange {
    /// Convert from exchange code character to a venue.
    pub fn from_code(code: char) -> (r: Option<Self>)
        ensures
            r == spec_exchange_of_code(code),
    {
        if code == 'A' {
            Some(Exchange::Amex)
        } else if code == 'B' {
            Some(Exchange::NasdaqBx)
        } else if code == 'C' {
            Some(Exchange::Nse)
        } else if code == 'D' {
            Some(Exchange::NasdAdf)
        } else if code == 'E' {
            Some(Exchange::MarketIndependent)
        } else if code == 'I' {
            Some(Exchange::Ise)
        } else if code == 'J' {
            Some(Exchange::DirectEdgeA)
        } else if code == 'K' {
            Some(Exchange::DirectEdgeX)
        } else if code == 'L' {
            Some(Exchange::Ltse)
        } else if code == 'M' {
            Some(Exchange::Chicago)
        } else if code == 'N' {
            Some(Exchange::Nyse)
        } else if code == 'O' {
            Some(Exchange::Instinet)
        } else if code == 'P' {
            Some(Exchange::Arca)
        } else if code == 'S' {
            Some(Exchange::Cts)
        } else if code == 'T' || code == 'Q' {
            Some(Exchange::Nasdaq)
        } else if code == 'V' {
            Some(Exchange::Iex)
        } else if code == 'W' {
            Some(Exchange::Cboe)
        } else if code == 'X' {
            Some(Exchange::NasdaqPsx)
        } else if code == 'Y' {
            Some(Exchange::BatsY)
        } else if code == 'Z' {
            Some(Exchange::Bats)
        } else {
            None
        }
    }

    /// Convert a venue to its canonical exchange code character.
    pub fn to_code(self) -> (r: char)
        ensures
            r == spec_code_of_exchange(self),
    {
        match self {
            Exchange::Amex => 'A',
            Exchange::NasdaqBx => 'B',
            Exchange::Nse => 'C',
            Exchange::NasdAdf => 'D',
            Exchange::MarketIndependent => 'E',
            Exchange::Ise => 'I',
            Exchange::DirectEdgeA => 'J',
            Exchange::DirectEdgeX => 'K',
            Exchange::Ltse => 'L',
            Exchange::Chicago => 'M',
            Exchange::Nyse => 'N',
            Exchange::Instinet => 'O',
            Exchange::Arca => 'P',
            Exchange::Cts => 'S',
            Exchange::Nasdaq => 'T',
            Exchange::Iex => 'V',
            Exchange::Cboe => 'W',
            Exchange::NasdaqPsx => 'X',
            Exchange::BatsY => 'Y',
            Exchange::Bats => 'Z',
        }
    }
}

/// Every venue's canonical code maps back to that venue.
pub proof fn lemma_exchange_code_round_trip(e: Exchange)
    ensures
        spec_exchange_of_code(spec_code_of_exchange(e)) == Some(e),
{
}

/// Market categories of NASDAQ-listed securities.
#[derive(Clone, Copy, PartialEq, Eq, Hash, Debug, Structural)]
pub enum MarketCategory {
    GlobalSelect,
    Global,
    Capital,
}

/// The market category a code letter names, if any.
pub open spec fn spec_category_of_code(code: char) -> Option<MarketCategory> {
    if code == 'Q' {
        Some(MarketCategory::GlobalSelect)
    } else if code == 'G' {
        Some(MarketCategory::Global)
    } else if code == 'S' {
        Some(MarketCategory::Capital)
    } else {
        None
    }
}

/// The code letter of a market category.
pub open spec fn spec_code_of_category(c: MarketCategory) -> char {
    match c {
        MarketCategory::GlobalSelect => 'Q',
        MarketCategory::Global => 'G',
        MarketCategory::Capital => 'S',
    }
}

impl MarketCategory {
    pub fn from_code(code: char) -> (r: Option<Self>)
        ensures
            r == spec_category_of_code(code),
    {
        if code == 'Q' {
            Some(MarketCategory::GlobalSelect)
        } else if code == 'G' {
            Some(MarketCategory::Global)
        } else if code == 'S' {
            Some(MarketCategory::Capital)
        } else {
            None
        }
    }

    pub fn to_code(self) -> (r: char)
        ensures
            r == spec_code_of_category(self),
    {
        match self {
            MarketCategory::GlobalSelect => 'Q',
            MarketCategory::Global => 'G',
            MarketCategory::Capital => 'S',
        }
    }
}

/// Market category codes decode and re-encode without loss.
pub proof fn lemma_category_code_round_trip(c: MarketCategory)
    ensures
        spec_category_of_code(spec_code_of_category(c)) == Some(c),
{
}

/// Financial status indicators of an issuer.
#[derive(Clone, Copy, PartialEq, Eq, Hash, Debug, Structural)]
pub enum FinancialStatus {
    Normal,
    Deficient,
    Delinquent,
    Bankrupt,
    DeficientBankrupt,
    DeficientDelinquent,
    DelinquentBankrupt,
    DeficientDelinquentBankrupt,
}

/// The financial status a code letter names, if any.
pub open spec fn spec_status_of_code(code: char) -> Option<FinancialStatus> {
    if code == 'N' {
        Some(FinancialStatus::Normal)
    } else if code == 'D' {
        Some(FinancialStatus::Deficient)
    } else if code == 'E' {
        Some(FinancialStatus::Delinquent)
    } else if code == 'Q' {
        Some(FinancialStatus::Bankrupt)
    } else if code == 'G' {
        Some(FinancialStatus::DeficientBankrupt)
    } else if code == 'H' {
        Some(FinancialStatus::DeficientDelinquent)
    } else if code == 'J' {
        Some(FinancialStatus::DelinquentBankrupt)
    } else if code == 'K' {
        Some(FinancialStatus::DeficientDelinquentBankrupt)
    } else {
        None
    }
}

/// The code letter of a financial status.
pub open spec fn spec_code_of_status(s: FinancialStatus) -> char {
    match s {
        FinancialStatus::Normal => 'N',
        FinancialStatus::Deficient => 'D',
        FinancialStatus::Delinquent => 'E',
        FinancialStatus::Bankrupt => 'Q',
        FinancialStatus::DeficientBankrupt => 'G',
        FinancialStatus::DeficientDelinquent => 'H',
        FinancialStatus::DelinquentBankrupt => 'J',
        FinancialStatus::DeficientDelinquentBankrupt => 'K',
    }
}

impl FinancialStatus {
    pub fn from_code(code: char) -> (r: Option<Self>)
        ensures
            r == spec_status_of_code(code),
    {
        if code == 'N' {
            Some(FinancialStatus::Normal)
        } else if code == 'D' {
            Some(FinancialStatus::Deficient)
        } else if code == 'E' {
            Some(FinancialStatus::Delinquent)
        } else if code == 'Q' {
            Some(FinancialStatus::Bankrupt)
        } else if code == 'G' {
            Some(FinancialStatus::DeficientBankrupt)
        } else if code == 'H' {
            Some(FinancialStatus::DeficientDelinquent)
        } else if code == 'J' {
            Some(FinancialStatus::DelinquentBankrupt)
        } else if code == 'K' {
            Some(FinancialStatus::DeficientDelinquentBankrupt)
        } else {
            None
        }
    }

    pub fn to_code(self) -> (r: char)
        ensures
            r == spec_code_of_status(self),
    {
        match self {
            FinancialStatus::Normal => 'N',
            FinancialStatus::Deficient => 'D',
            FinancialStatus::Delinquent => 'E',
            FinancialStatus::Bankrupt => 'Q',
            FinancialStatus::DeficientBankrupt => 'G',
            FinancialStatus::DeficientDelinquent => 'H',
            FinancialStatus::DelinquentBankrupt => 'J',
            FinancialStatus::DeficientDelinquentBankrupt => 'K',
        }
    }
}

/// Financial status codes decode and re-encode without loss.
pub proof fn lemma_status_code_round_trip(s: FinancialStatus)
    ensures
        spec_status_of_code(spec_code_of_status(s)) == Some(s),
{
}

/// The region abbreviation stored for a provider-reported region name;
/// unknown regions pass through unchanged.
pub open spec fn spec_normalize_region(s: Seq<char>) -> Seq<char> {
    if s == "United States"@ {
        "USA"@
    } else if s == "United Kingdom"@ {
        "UK"@
    } else if s == "Frankfurt"@ {
        "Frank"@
    } else if s == "Toronto Venture"@ {
        "TOR"@
    } else if s == "India/Bombay"@ {
        "Bomb"@
    } else if s == "Brazil/Sao Paolo"@ {
        "SaoP"@
    } else {
        s
    }
}

/// Normalize region names to the abbreviated forms used in the store.
pub fn normalize_alpha_region(region: &str) -> (r: String)
    ensures
        r@ == spec_normalize_region(region@),
{
    if text::str_eq(region, "United States") {
        String::from_str("USA")
    } else if text::str_eq(region, "United Kingdom") {
        String::from_str("UK")
    } else if text::str_eq(region, "Frankfurt") {
        String::from_str("Frank")
    } else if text::str_eq(region, "Toronto Venture") {
        String::from_str("TOR")
    } else if text::str_eq(region, "India/Bombay") {
        String::from_str("Bomb")
    } else if text::str_eq(region, "Brazil/Sao Paolo") {
        String::from_str("SaoP")
    } else {
        region.to_owned()
    }
}

/// The exchange data-file formats the loader understands.
#[derive(Clone, Copy, PartialEq, Eq, Hash, Debug, Structural)]
pub enum ExchangeType {
    Nasdaq,
    Nyse,
    Digital,
}

/// A file whose name could not be matched to a known exchange format.
#[derive(Clone, Debug)]
pub struct UnknownExchangeError(pub String);

impl UnknownExchangeError {
    /// A rendering of this error for logs.
    pub fn message(&self) -> (r: String)
        ensures
            r@ == "Unknown exchange type: "@ + self.0@,
    {
        let mut m = String::from_str("Unknown exchange type: ");
        m.append(self.0.as_str());
        m
    }
}

/// The exchange format a label names, compared without regard to ASCII
/// case, if any.
pub open spec fn spec_exchange_type_of(s: Seq<char>) -> Option<ExchangeType> {
    if text::spec_lower(s) == text::spec_lower("NASDAQ"@) {
        Some(ExchangeType::Nasdaq)
    } else if text::spec_lower(s) == text::spec_lower("NYSE"@) {
        Some(ExchangeType::Nyse)
    } else if text::spec_lower(s) == text::spec_lower("DIGITAL"@) {
        Some(ExchangeType::Digital)
    } else {
        None
    }
}

impl ExchangeType {
    /// Parse an exchange format label, ignoring ASCII case.
    pub fn from_str(s: &str) -> (r: Result<Self, UnknownExchangeError>)
        ensures
            r is Ok <==> spec_exchange_type_of(s@) is Some,
            r is Ok ==> Some(r->Ok_0) == spec_exchange_type_of(s@),
            r is Err ==> r->Err_0.0@ == s@,
    {
        if text::str_eq_ci(s, "NASDAQ") {
            Ok(ExchangeType::Nasdaq)
        } else if text::str_eq_ci(s, "NYSE") {
            Ok(ExchangeType::Nyse)
        } else if text::str_eq_ci(s, "DIGITAL") {
            Ok(ExchangeType::Digital)
        } else {
            Err(UnknownExchangeError(s.to_owned()))
        }
    }

    /// The canonical upper-case label of this exchange format.
    pub fn as_str(&self) -> (r: &'static str)
        ensures
            self is Nasdaq ==> r@ == "NASDAQ"@,
            self is Nyse ==> r@ == "NYSE"@,
            self is Digital ==> r@ == "DIGITAL"@,
    {
        match self {
            ExchangeType::Nasdaq => "NASDAQ",
            ExchangeType::Nyse => "NYSE",
            ExchangeType::Digital => "DIGITAL",
        }
    }
}

/// One exchange data file to process: its format and the environment
/// variable whose value holds its path.
#[derive(Clone, Debug)]
pub struct FileConfig {
    pub exchange_type: ExchangeType,
    pub env_var_name: String,
}

impl FileConfig {
    /// Pair an exchange format with the environment variable naming its file.
    pub fn new(exchange_type: ExchangeType, env_var_name: String) -> (r: Self)
        ensures
            r.exchange_type == exchange_type,
            r.env_var_name@ == env_var_name@,
    {
        Self { exchange_type, env_var_name }
    }
}

/// The line a digital-asset record contributes to a symbol batch:
/// the symbol and name joined by a comma.
pub fn digital_entry(symbol: &str, name: &str) -> (r: String)
    ensures
        r@ == symbol@ + ","@ + name@,
{
    let mut s = symbol.to_owned();
    s.append(",");
    s.append(name);
    s
}

} // verus!
