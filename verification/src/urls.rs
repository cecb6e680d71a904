//! Request URL and raw query construction for the provider's endpoints.

use vstd::prelude::*;
use crate::text;

verus! {

/// The supported provider API functions.
#[derive(Clone, Copy, PartialEq, Eq, Hash, Debug, Structural)]
pub enum FuncType {
    TsIntra,
    TsDaily,
    Overview,
    SymSearch,
    TopQuery,
    NewsQuery,
}

/// The request URL for an API function, symbol and key.
pub open spec fn spec_url(func: FuncType, symbol: Seq<char>, api_key: Seq<char>) -> Seq<char> {
    match func {
        FuncType::TsIntra => (
        "https://www.alphavantage.co/query?function=TIME_SERIES_INTRADAY&datatype=csv&symbol="@
            + symbol + "&interval=1min&apikey="@ + api_key),
        FuncType::TsDaily => (
        "https://www.alphavantage.co/query?function=TIME_SERIES_DAILY&datatype=json&symbol="@
            + symbol + "&apikey="@ + api_key),
        FuncType::Overview => ("https://www.alphavantage.co/query?function=OVERVIEW&symbol="@
            + symbol + "&apikey="@ + api_key),
        FuncType::SymSearch => ("https://www.alphavantage.co/query?function=SYMBOL_SEARCH&keywords="@
            + symbol + "&apikey="@ + api_key + "&datatype=csv"@),
        FuncType::TopQuery => ("https://www.alphavantage.co/query?function=TOP_GAINERS_LOSERS&apikey="@
            + api_key),
        FuncType::NewsQuery => ("https://www.alphavantage.co/query?function=NEWS_SENTIMENT&tickers="@
            + symbol + "&apikey="@ + api_key),
    }
}

/// Construct the request URL for an API function. The symbol is ignored
/// by the endpoints that take none.
pub fn create_url(func: FuncType, symbol: &str, api_key: &str) -> (r: String)
    ensures
        r@ == spec_url(func, symbol@, api_key@),
{
    match func {
        FuncType::TsIntra => {
            let mut u = String::from_str(
                "https://www.alphavantage.co/query?function=TIME_SERIES_INTRADAY&datatype=csv&symbol=",
            );
            u.append(symbol);
            u.append("&interval=1min&apikey=");
            u.append(api_key);
            u
        },
        FuncType::TsDaily => {
            let mut u = String::from_str(
                "https://www.alphavantage.co/query?function=TIME_SERIES_DAILY&datatype=json&symbol=",
            );
            u.append(symbol);
            u.append("&apikey=");
            u.append(api_key);
            u
        },
        FuncType::Overview => {
            let mut u = String::from_str(
                "https://www.alphavantage.co/query?function=OVERVIEW&symbol=",
            );
            u.append(symbol);
            u.append("&apikey=");
            u.append(api_key);
            u
        },
        FuncType::SymSearch => {
            let mut u = String::from_str(
                "https://www.alphavantage.co/query?function=SYMBOL_SEARCH&keywords=",
            );
            u.append(symbol);
            u.append("&apikey=");
            u.append(api_key);
            u.append("&datatype=csv");
            u
        },
        FuncType::TopQuery => {
            let mut u = String::from_str(
                "https://www.alphavantage.co/query?function=TOP_GAINERS_LOSERS&apikey=",
            );
            u.append(api_key);
            u
        },
        FuncType::NewsQuery => {
            let mut u = String::from_str(
                "https://www.alphavantage.co/query?function=NEWS_SENTIMENT&tickers=",
            );
            u.append(symbol);
            u.append("&apikey=");
            u.append(api_key);
            u
        },
    }
}

/// The report for a numeric endpoint code no function corresponds to.
pub fn unknown_function_message(code: u32) -> (r: String)
    ensures
        r@ == "Unknown function type received "@ + text::spec_dec_str(code as int),
{
    let mut m = String::from_str("Unknown function type received ");
    let digits = text::u32_to_string(code);
    m.append(digits.as_str());
    m
}

/// The raw query that lists the stored news stories of one symbol.
pub fn news_stories_query(symbol: &str) -> (r: String)
    ensures
        r@ == "SELECT a.title, a.url\n               FROM articles a\n               INNER JOIN feeds f ON a.hashid = f.articleid\n               INNER JOIN symbols s ON f.sid = s.sid\n               WHERE s.symbol = '"@
            + symbol@ + "'"@,
{
    let mut q = String::from_str(
        "SELECT a.title, a.url\n               FROM articles a\n               INNER JOIN feeds f ON a.hashid = f.articleid\n               INNER JOIN symbols s ON f.sid = s.sid\n               WHERE s.symbol = '",
    );
    q.append(symbol);
    q.append("'");
    q
}

/// The raw query that counts the stored news stories of one symbol.
pub fn news_count_query(symbol: &str) -> (r: String)
    ensures
        r@ == "SELECT COUNT(a.title)\n               FROM articles a\n               INNER JOIN feeds f ON a.hashid = f.articleid\n               INNER JOIN symbols s ON f.sid = s.sid\n               WHERE s.symbol = '"@
            + symbol@ + "'"@,
{
    let mut q = String::from_str(
        "SELECT COUNT(a.title)\n               FROM articles a\n               INNER JOIN feeds f ON a.hashid = f.articleid\n               INNER JOIN symbols s ON f.sid = s.sid\n               WHERE s.symbol = '",
    );
    q.append(symbol);
    q.append("'");
    q
}

} // verus!
