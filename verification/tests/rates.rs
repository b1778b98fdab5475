use dannesk::json::Json;
use dannesk::rates::{binance_stream_to_pair, feed_next, ticker_update, FeedAction, FeedEvent, FeedState, Rate, RateTable};

fn obj(entries: Vec<(&str, Json)>) -> Json {
    Json::Object(entries.into_iter().map(|(k, v)| (k.to_string(), v)).collect())
}

fn s(t: &str) -> Json {
    Json::Str(t.to_string())
}

#[test]
fn exchange_tickers_map_to_usd_pairs() {
    assert_eq!(binance_stream_to_pair("xrpusdt@ticker"), Some("XRP/USD".to_string()));
    assert_eq!(binance_stream_to_pair("btcusdt@ticker"), Some("BTC/USD".to_string()));
    assert_eq!(binance_stream_to_pair("eurusdt@ticker"), Some("EUR/USD".to_string()));
    assert_eq!(binance_stream_to_pair("ethusdt@ticker"), None);
}

#[test]
fn clean_pairs_of_known_codes_pass() {
    assert_eq!(binance_stream_to_pair("SGD/EUR"), Some("SGD/EUR".to_string()));
    assert_eq!(binance_stream_to_pair("XRP/BTC"), Some("XRP/BTC".to_string()));
    assert_eq!(binance_stream_to_pair("USD/USD"), Some("USD/USD".to_string()));
}

#[test]
fn other_pairs_are_refused() {
    assert_eq!(binance_stream_to_pair("ETH/USD"), None);
    assert_eq!(binance_stream_to_pair("xrp/usd"), None);
    assert_eq!(binance_stream_to_pair("XRP/USD/EUR"), None);
    assert_eq!(binance_stream_to_pair("XRPUSD"), None);
    assert_eq!(binance_stream_to_pair("XRP/"), None);
    assert_eq!(binance_stream_to_pair(""), None);
}

#[test]
fn ticker_messages_carry_pair_and_price() {
    let m = obj(vec![("symbol", s("xrpusdt@ticker")), ("price", s("0.52"))]);
    assert_eq!(ticker_update(&m), Some(("XRP/USD".to_string(), "0.52".to_string())));
    let m = obj(vec![("symbol", s("dogeusdt@ticker")), ("price", s("0.1"))]);
    assert_eq!(ticker_update(&m), None);
    let m = obj(vec![("symbol", s("XRP/EUR"))]);
    assert_eq!(ticker_update(&m), None);
    assert_eq!(ticker_update(&s("x")), None);
}

#[test]
fn reconnects_back_off_one_second_per_attempt() {
    let s0 = FeedState { attempts: 0 };
    let (s1, acts) = feed_next(s0, FeedEvent::Connecting, 3, 30);
    assert_eq!(s1, s0);
    assert_eq!(acts, vec![FeedAction::Status(false), FeedAction::Connect]);
    let (s1, acts) = feed_next(s1, FeedEvent::ConnectFailed, 3, 30);
    assert_eq!(s1.attempts, 1);
    assert_eq!(acts, vec![FeedAction::Status(false), FeedAction::Sleep(1)]);
    let (s2, acts) = feed_next(FeedState { attempts: 4 }, FeedEvent::Closed, 9, 30);
    assert_eq!(s2.attempts, 5);
    assert_eq!(acts[1], FeedAction::Sleep(5));
    let (s3, acts) = feed_next(s2, FeedEvent::Connected, 9, 30);
    assert_eq!(s3.attempts, 0);
    assert_eq!(acts, vec![FeedAction::Status(true)]);
}

#[test]
fn feed_gives_up_after_max_attempts() {
    let (_, acts) = feed_next(FeedState { attempts: 3 }, FeedEvent::Connecting, 3, 30);
    assert_eq!(
        acts,
        vec![
            FeedAction::Status(false),
            FeedAction::Sleep(30),
            FeedAction::GiveUp("Failed to connect after max attempts".to_string()),
        ]
    );
    let (_, acts) = feed_next(FeedState { attempts: 2 }, FeedEvent::Connecting, 3, 30);
    assert_eq!(acts[1], FeedAction::Connect);
}

#[test]
fn feed_passes_tickers_and_pings() {
    let s0 = FeedState { attempts: 0 };
    let msg = obj(vec![("symbol", s("btcusdt@ticker")), ("price", s("64000.5"))]);
    let (_, acts) = feed_next(s0, FeedEvent::Text(msg), 3, 30);
    assert_eq!(acts, vec![FeedAction::Rate("BTC/USD".to_string(), "64000.5".to_string())]);
    let msg = obj(vec![("symbol", s("dogeusdt@ticker")), ("price", s("0.1"))]);
    let (_, acts) = feed_next(s0, FeedEvent::Text(msg), 3, 30);
    assert!(acts.is_empty());
    let (_, acts) = feed_next(s0, FeedEvent::Ping(vec![1, 2]), 3, 30);
    assert_eq!(acts, vec![FeedAction::Pong(vec![1, 2])]);
    let (_, acts) = feed_next(s0, FeedEvent::Shutdown, 3, 30);
    assert_eq!(acts, vec![FeedAction::CloseSink, FeedAction::Status(false), FeedAction::Finish]);
}

#[test]
fn the_rate_table_takes_known_pairs_with_numeric_prices() {
    let mut t = RateTable::new();
    t.apply_ticker(&obj(vec![("symbol", s("xrpusdt@ticker")), ("price", s("0.52"))]));
    t.apply_ticker(&obj(vec![("symbol", s("BTC/EUR")), ("price", s("61000"))]));
    // A price that is no number, an unknown stream and a message without a price change nothing.
    t.apply_ticker(&obj(vec![("symbol", s("xrpusdt@ticker")), ("price", s("n/a"))]));
    t.apply_ticker(&obj(vec![("symbol", s("dogeusdt@ticker")), ("price", s("0.1"))]));
    t.apply_ticker(&obj(vec![("symbol", s("btcusdt@ticker"))]));
    assert_eq!(
        t.rates,
        vec![
            Rate { pair: "XRP/USD".to_string(), price: "0.52".to_string() },
            Rate { pair: "BTC/EUR".to_string(), price: "61000".to_string() },
        ]
    );
    t.apply_ticker(&obj(vec![("symbol", s("xrpusdt@ticker")), ("price", s("0.55"))]));
    assert_eq!(t.rates.len(), 2);
    assert_eq!(t.rates[0].price, "0.55");
    assert_eq!(t.rates[1].price, "61000");
}
