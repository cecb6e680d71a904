use alpha_sync::urls::{
    create_url, news_count_query, news_stories_query, unknown_function_message, FuncType,
};

#[test]
fn macros_t_01() {
    let (sym, api_key) = ("AAPL", "123456789");
    let url = create_url(FuncType::TsIntra, sym, api_key);
    assert_eq!(url, "https://www.alphavantage.co/query?function=TIME_SERIES_INTRADAY&datatype=csv&symbol=AAPL&interval=1min&apikey=123456789");
}

#[test]
fn macros_t_02() {
    let (sym, api_key) = ("AAPL", "123456789");
    let url = create_url(FuncType::TsDaily, sym, api_key);
    assert_eq!(url, "https://www.alphavantage.co/query?function=TIME_SERIES_DAILY&datatype=json&symbol=AAPL&apikey=123456789");
}

#[test]
fn macros_t_03() {
    let (sym, api_key) = ("AAPL", "123456789");
    let url = create_url(FuncType::Overview, sym, api_key);
    assert_eq!(
        url,
        "https://www.alphavantage.co/query?function=OVERVIEW&symbol=AAPL&apikey=123456789"
    );
}

#[test]
fn macros_t_04() {
    let (sym, api_key) = ("AAPL", "123456789");
    let url = create_url(FuncType::SymSearch, sym, api_key);
    assert_eq!(url, "https://www.alphavantage.co/query?function=SYMBOL_SEARCH&keywords=AAPL&apikey=123456789&datatype=csv");
}

#[test]
fn macros_t_05() {
    let url = unknown_function_message(55);
    assert_eq!(url, "Unknown function type received 55");
}

#[test]
fn t_06() {
    let url = create_url(FuncType::TopQuery, "NONE", "12345678");
    assert_eq!(
        url,
        "https://www.alphavantage.co/query?function=TOP_GAINERS_LOSERS&apikey=12345678"
    );
}

#[test]
fn t_09() {
    let url = create_url(FuncType::NewsQuery, "AAPL", "12345678");
    assert_eq!(
        url,
        "https://www.alphavantage.co/query?function=NEWS_SENTIMENT&tickers=AAPL&apikey=12345678"
    );
}

#[test]
fn raw_queries_t_01() {
    assert_eq!(
        news_stories_query("AAPL"),
        r#"SELECT a.title, a.url
               FROM articles a
               INNER JOIN feeds f ON a.hashid = f.articleid
               INNER JOIN symbols s ON f.sid = s.sid
               WHERE s.symbol = 'AAPL'"#
    );
}

#[test]
fn raw_queries_t_02() {
    assert_eq!(
        news_count_query("AAPL"),
        r#"SELECT COUNT(a.title)
               FROM articles a
               INNER JOIN feeds f ON a.hashid = f.articleid
               INNER JOIN symbols s ON f.sid = s.sid
               WHERE s.symbol = 'AAPL'"#
    );
}
