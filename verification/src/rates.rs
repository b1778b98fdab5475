//! The exchange-rate feed: which streams carry which currency pair, what a
//! ticker message updates, and when the feed reconnects or gives up.

use vstd::prelude::*;
use crate::text::{chars_of, owned, same_text, slice_chars, same_chars};
use crate::json::{Json, str_field, get_str};
use crate::amounts::{is_float_literal, is_float_text};
use crate::crypto::ascii_upper;
use crate::state::{distinct_keys, find_by_key, upsert, Keyed};

verus! {

/// The currency codes that a pair may join.
pub open spec fn is_known_code(c: Seq<char>) -> bool {
    c == "XRP"@ || c == "BTC"@ || c == "USD"@ || c == "EUR"@ || c == "SGD"@
}

/// The pair that a stream name stands for: the three exchange tickers
/// against USDT, or a pair of two known codes joined by `/`, as it is.
pub open spec fn stream_pair(s: Seq<char>) -> Option<Seq<char>> {
    if s == "xrpusdt@ticker"@ {
        Some("XRP/USD"@)
    } else if s == "btcusdt@ticker"@ {
        Some("BTC/USD"@)
    } else if s == "eurusdt@ticker"@ {
        Some("EUR/USD"@)
    } else if exists|b: Seq<char>, q: Seq<char>| is_known_code(b) && is_known_code(q) && s == b + "/"@ + q {
        Some(s)
    } else {
        None
    }
}

proof fn lemma_codes_have_three_chars(c: Seq<char>)
    requires
        is_known_code(c),
    ensures
        c.len() == 3,
{
    reveal_strlit("XRP");
    reveal_strlit("BTC");
    reveal_strlit("USD");
    reveal_strlit("EUR");
    reveal_strlit("SGD");
}

fn known_code(c: &[char]) -> (b: bool)
    ensures
        b == is_known_code(c@),
{
    let xrp = chars_of("XRP");
    let btc = chars_of("BTC");
    let usd = chars_of("USD");
    let eur = chars_of("EUR");
    let sgd = chars_of("SGD");
    same_chars(c, xrp.as_slice()) || same_chars(c, btc.as_slice()) || same_chars(c, usd.as_slice())
        || same_chars(c, eur.as_slice()) || same_chars(c, sgd.as_slice())
}

/// The pair that the stream `stream` carries, if any.
pub fn binance_stream_to_pair(stream: &str) -> (out: Option<String>)
    ensures
        out matches Some(p) ==> stream_pair(stream@) == Some(p@),
        out is None ==> stream_pair(stream@) is None,
{
    if same_text(stream, "xrpusdt@ticker") {
        return Some(owned("XRP/USD"));
    }
    if same_text(stream, "btcusdt@ticker") {
        return Some(owned("BTC/USD"));
    }
    if same_text(stream, "eurusdt@ticker") {
        return Some(owned("EUR/USD"));
    }
    let cs = chars_of(stream);
    proof {
        reveal_strlit("/");
    }
    if cs.len() == 7 && cs[3] == '/' {
        let base = slice_chars(cs.as_slice(), 0, 3);
        let quote = slice_chars(cs.as_slice(), 4, 7);
        if known_code(base.as_slice()) && known_code(quote.as_slice()) {
            assert(stream@ == base@ + "/"@ + quote@);
            return Some(owned(stream));
        }
        proof {
            if exists|b: Seq<char>, q: Seq<char>| is_known_code(b) && is_known_code(q) && stream@ == b + "/"@ + q {
                let (b, q) = choose|b: Seq<char>, q: Seq<char>|
                    is_known_code(b) && is_known_code(q) && stream@ == b + "/"@ + q;
                lemma_codes_have_three_chars(b);
                lemma_codes_have_three_chars(q);
                assert(b == base@);
                assert(q == quote@);
            }
        }
    } else {
        proof {
            if exists|b: Seq<char>, q: Seq<char>| is_known_code(b) && is_known_code(q) && stream@ == b + "/"@ + q {
                let (b, q) = choose|b: Seq<char>, q: Seq<char>|
                    is_known_code(b) && is_known_code(q) && stream@ == b + "/"@ + q;
                lemma_codes_have_three_chars(b);
                lemma_codes_have_three_chars(q);
                assert(stream@[3] == '/');
            }
        }
    }
    None
}

/// Pairs of known codes are accepted in both directions, as they are.
pub proof fn pairs_accepted_both_ways(b: Seq<char>, q: Seq<char>)
    requires
        is_known_code(b),
        is_known_code(q),
    ensures
        stream_pair(b + "/"@ + q) == Some(b + "/"@ + q),
        stream_pair(q + "/"@ + b) == Some(q + "/"@ + b),
{
    lemma_codes_have_three_chars(b);
    lemma_codes_have_three_chars(q);
    reveal_strlit("/");
    reveal_strlit("xrpusdt@ticker");
    reveal_strlit("btcusdt@ticker");
    reveal_strlit("eurusdt@ticker");
    assert((b + "/"@ + q).len() == 7);
    assert((q + "/"@ + b).len() == 7);
}

/// What a ticker message updates: the pair of its `symbol` stream and the
/// text of its `price`, when both are strings and the stream is known.
pub open spec fn ticker_update_of(data: Json) -> Option<(Seq<char>, Seq<char>)> {
    match (str_field(data, "symbol"@), str_field(data, "price"@)) {
        (Some(symbol), Some(price)) => match stream_pair(symbol) {
            Some(pair) => Some((pair, price)),
            None => None,
        },
        _ => None,
    }
}

/// The pair and the price text that a ticker message carries; the price
/// is applied only once it reads as a number.
pub fn ticker_update(data: &Json) -> (out: Option<(String, String)>)
    ensures
        out matches Some(u) ==> ticker_update_of(*data) == Some((u.0@, u.1@)),
        out is None ==> ticker_update_of(*data) is None,
{
    let symbol = get_str(data, "symbol");
    let price = get_str(data, "price");
    match (symbol, price) {
        (Some(symbol), Some(price)) => match binance_stream_to_pair(symbol) {
            Some(pair) => Some((pair, owned(price))),
            None => None,
        },
        _ => None,
    }
}

/// An exchange ticker stream `<base>usdt@ticker` carries the pair of its
/// base currency, in upper case, against USD.
pub proof fn ticker_streams_carry_their_base(s: Seq<char>)
    requires
        s == "xrpusdt@ticker"@ || s == "btcusdt@ticker"@ || s == "eurusdt@ticker"@,
    ensures
        stream_pair(s) == Some(ascii_upper(s.take(3)) + "/USD"@),
{
    reveal_strlit("xrpusdt@ticker");
    reveal_strlit("btcusdt@ticker");
    reveal_strlit("eurusdt@ticker");
    reveal_strlit("XRP/USD");
    reveal_strlit("BTC/USD");
    reveal_strlit("EUR/USD");
    reveal_strlit("/USD");
    let u = ascii_upper(s.take(3));
    assert(u.len() == 3);
    if s == "xrpusdt@ticker"@ {
        assert(u =~= seq!['X', 'R', 'P']);
        assert(u + "/USD"@ =~= "XRP/USD"@);
    } else if s == "btcusdt@ticker"@ {
        assert("btcusdt@ticker"@ != "xrpusdt@ticker"@) by { assert("btcusdt@ticker"@[0] != "xrpusdt@ticker"@[0]); }
        assert(u =~= seq!['B', 'T', 'C']);
        assert(u + "/USD"@ =~= "BTC/USD"@);
    } else {
        assert("eurusdt@ticker"@ != "xrpusdt@ticker"@) by { assert("eurusdt@ticker"@[0] != "xrpusdt@ticker"@[0]); }
        assert("eurusdt@ticker"@ != "btcusdt@ticker"@) by { assert("eurusdt@ticker"@[0] != "btcusdt@ticker"@[0]); }
        assert(u =~= seq!['E', 'U', 'R']);
        assert(u + "/USD"@ =~= "EUR/USD"@);
    }
}

/// The pair and price that a ticker message sets: those of
/// `ticker_update_of`, where the price reads as a number (as std's `f32`
/// and `f64` parsers, which share one grammar, read it).
pub open spec fn rate_update_of(data: Json) -> Option<(Seq<char>, Seq<char>)> {
    match ticker_update_of(data) {
        Some((pair, price)) => if is_float_text(price) {
            Some((pair, price))
        } else {
            None
        },
        None => None,
    }
}

/// The rate of a pair, as the price text that set it.
#[derive(Debug, Clone, PartialEq, Eq)]
pub struct Rate {
    pub pair: String,
    pub price: String,
}

impl Keyed for Rate {
    open spec fn key_of(&self) -> Seq<char> {
        self.pair@
    }

    fn key(&self) -> (k: &str) {
        self.pair.as_str()
    }
}

/// The rates published to the wallet: one per pair, the price that last
/// set it.
pub struct RateTable {
    pub rates: Vec<Rate>,
}

impl RateTable {
    /// No pair appears twice.
    pub open spec fn well_formed(&self) -> bool {
        distinct_keys(self.rates@)
    }

    /// The rate of `pair`, if any.
    pub open spec fn lookup(&self, pair: Seq<char>) -> Option<Rate> {
        find_by_key(self.rates@, pair)
    }

    /// Every pair in the table is one that a stream name stands for.
    pub open spec fn only_stream_pairs(&self) -> bool {
        forall|k: Seq<char>| #[trigger] self.lookup(k) is Some ==> exists|s: Seq<char>| #[trigger] stream_pair(s) == Some(k)
    }

    /// No rates yet.
    pub fn new() -> (t: RateTable)
        ensures
            t.well_formed(),
            t.only_stream_pairs(),
            t.rates@.len() == 0,
    {
        RateTable { rates: Vec::new() }
    }

    /// A ticker message, parsed as JSON: where it names a pair (see
    /// `ticker_update_of`) with a price that reads as a number (as std's
    /// float parsers read it), that pair's rate becomes the price and every
    /// other rate stays; otherwise nothing changes.
    pub fn apply_ticker(&mut self, data: &Json)
        requires
            old(self).well_formed(),
        ensures
            final(self).well_formed(),
            old(self).only_stream_pairs() ==> final(self).only_stream_pairs(),
            rate_update_of(*data) matches Some((pair, price)) ==> {
                &&& final(self).lookup(pair) matches Some(r) && r.pair@ == pair && r.price@ == price
                &&& forall|k: Seq<char>| k != pair ==> #[trigger] final(self).lookup(k) == old(self).lookup(k)
            },
            rate_update_of(*data) is None ==> final(self).rates@ == old(self).rates@,
    {
        match ticker_update(data) {
            Some((pair, price)) => {
                if is_float_literal(price.as_str()) {
                    let ghost before = *self;
                    let ghost symbol = str_field(*data, "symbol"@)->0;
                    assert(stream_pair(symbol) == Some(pair@));
                    upsert(&mut self.rates, Rate { pair, price });
                    assert forall|k: Seq<char>| #[trigger] self.lookup(k) is Some && before.only_stream_pairs()
                        implies exists|s: Seq<char>| #[trigger] stream_pair(s) == Some(k) by {
                        if k != pair@ {
                            assert(before.lookup(k) is Some);
                        } else {
                            assert(stream_pair(symbol) == Some(k));
                        }
                    }
                }
            },
            None => {},
        }
    }
}

/// The feed's connection state: the connection attempts since the last
/// successful one.
#[derive(Debug, Clone, Copy, PartialEq, Eq)]
pub struct FeedState {
    pub attempts: u32,
}

/// What happens to the feed.
#[derive(Debug)]
pub enum FeedEvent {
    /// The feed is about to connect.
    Connecting,
    /// The connection is open.
    Connected,
    /// The connection could not be opened.
    ConnectFailed,
    /// A text message arrived, parsed as JSON.
    Text(Json),
    /// A ping arrived with this payload.
    Ping(Vec<u8>),
    /// The stream closed, failed or ended.
    Closed,
    /// The application shuts the feed down.
    Shutdown,
}

/// What the feed does next.
#[derive(Debug, Clone, PartialEq, Eq)]
pub enum FeedAction {
    /// Publish whether the feed is connected.
    Status(bool),
    /// Wait this many seconds.
    Sleep(u64),
    /// Open the connection.
    Connect,
    /// Answer a ping with this payload.
    Pong(Vec<u8>),
    /// Set the rate of the pair to the price text, once it reads as a number.
    Rate(String, String),
    /// Close the connection.
    CloseSink,
    /// Stop the feed.
    Finish,
    /// Stop the feed with this error.
    GiveUp(String),
}

/// The feed's step on `event` in state `state`, with at most `max_attempts`
/// connection attempts and `backoff` seconds of waiting before it gives up:
/// it gives up once the attempts reach the limit, counts a failed or closed
/// connection as an attempt and waits one second per attempt, starts the
/// count again on a connection, passes known tickers on and answers pings.
pub open spec fn feed_transition(
    state: FeedState,
    event: FeedEvent,
    max_attempts: u32,
    backoff: u64,
    next: FeedState,
    actions: Seq<FeedAction>,
) -> bool {
    match event {
        FeedEvent::Connecting => if state.attempts >= max_attempts {
            &&& next == state
            &&& actions.len() == 3
            &&& actions[0] == FeedAction::Status(false)
            &&& actions[1] == FeedAction::Sleep(backoff)
            &&& actions[2] matches FeedAction::GiveUp(e) && e@ == "Failed to connect after max attempts"@
        } else {
            next == state && actions == seq![FeedAction::Status(false), FeedAction::Connect]
        },
        FeedEvent::Connected => next.attempts == 0 && actions == seq![FeedAction::Status(true)],
        FeedEvent::ConnectFailed | FeedEvent::Closed => {
            &&& next.attempts == state.attempts + 1
            &&& actions == seq![FeedAction::Status(false), FeedAction::Sleep((state.attempts + 1) as u64)]
        },
        FeedEvent::Text(data) => next == state && match ticker_update_of(data) {
            Some((pair, price)) => actions.len() == 1 && (actions[0] matches FeedAction::Rate(p, q) && p@ == pair
                && q@ == price),
            None => actions.len() == 0,
        },
        FeedEvent::Ping(payload) => next == state && actions == seq![FeedAction::Pong(payload)],
        FeedEvent::Shutdown => {
            &&& next == state
            &&& actions.len() == 3
            &&& actions[0] == FeedAction::CloseSink
            &&& actions[1] == FeedAction::Status(false)
            &&& actions[2] == FeedAction::Finish
        },
    }
}

/// The feed's next state and actions.
pub fn feed_next(state: FeedState, event: FeedEvent, max_attempts: u32, backoff: u64) -> (out: (FeedState, Vec<FeedAction>))
    requires
        (event == FeedEvent::ConnectFailed || event == FeedEvent::Closed) ==> state.attempts < u32::MAX,
    ensures
        feed_transition(state, event, max_attempts, backoff, out.0, out.1@),
{
    let mut actions: Vec<FeedAction> = Vec::new();
    match event {
        FeedEvent::Connecting => {
            actions.push(FeedAction::Status(false));
            if state.attempts >= max_attempts {
                actions.push(FeedAction::Sleep(backoff));
                actions.push(FeedAction::GiveUp(owned("Failed to connect after max attempts")));
            } else {
                actions.push(FeedAction::Connect);
                assert(actions@ =~= seq![FeedAction::Status(false), FeedAction::Connect]);
            }
            (state, actions)
        },
        FeedEvent::Connected => {
            actions.push(FeedAction::Status(true));
            assert(actions@ =~= seq![FeedAction::Status(true)]);
            (FeedState { attempts: 0 }, actions)
        },
        FeedEvent::ConnectFailed | FeedEvent::Closed => {
            let attempts = state.attempts + 1;
            actions.push(FeedAction::Status(false));
            actions.push(FeedAction::Sleep(attempts as u64));
            assert(actions@ =~= seq![FeedAction::Status(false), FeedAction::Sleep(attempts as u64)]);
            (FeedState { attempts }, actions)
        },
        FeedEvent::Text(data) => {
            match ticker_update(&data) {
                Some((pair, price)) => actions.push(FeedAction::Rate(pair, price)),
                None => {},
            }
            (state, actions)
        },
        FeedEvent::Ping(payload) => {
            actions.push(FeedAction::Pong(payload));
            assert(actions@ =~= seq![FeedAction::Pong(payload)]);
            (state, actions)
        },
        FeedEvent::Shutdown => {
            actions.push(FeedAction::CloseSink);
            actions.push(FeedAction::Status(false));
            actions.push(FeedAction::Finish);
            (state, actions)
        },
    }
}

/// After `k` failed attempts in a row, at least `k` attempts are counted.
proof fn lemma_failures_count(
    max_attempts: u32,
    backoff: u64,
    states: Seq<FeedState>,
    actions: Seq<Seq<FeedAction>>,
    k: int,
)
    requires
        states.len() == max_attempts + 1,
        actions.len() == max_attempts,
        0 <= k <= max_attempts,
        forall|i: int|
            0 <= i < max_attempts ==> feed_transition(
                #[trigger] states[i],
                FeedEvent::ConnectFailed,
                max_attempts,
                backoff,
                states[i + 1],
                actions[i],
            ),
    ensures
        states[k].attempts >= k,
    decreases k,
{
    if k > 0 {
        lemma_failures_count(max_attempts, backoff, states, actions, k - 1);
        assert(feed_transition(states[k - 1], FeedEvent::ConnectFailed, max_attempts, backoff, states[k], actions[k - 1]));
    }
}

/// A feed that keeps failing to connect gives up: after `max_attempts`
/// failed attempts in a row, the next connection is not tried and the feed
/// stops with an error.
pub proof fn feed_gives_up(max_attempts: u32, backoff: u64, states: Seq<FeedState>, actions: Seq<Seq<FeedAction>>)
    requires
        states.len() == max_attempts + 1,
        actions.len() == max_attempts,
        forall|i: int|
            0 <= i < max_attempts ==> feed_transition(
                #[trigger] states[i],
                FeedEvent::ConnectFailed,
                max_attempts,
                backoff,
                states[i + 1],
                actions[i],
            ),
    ensures
        forall|next: FeedState, acts: Seq<FeedAction>|
            #[trigger] feed_transition(states.last(), FeedEvent::Connecting, max_attempts, backoff, next, acts)
                ==> !acts.contains(FeedAction::Connect) && acts.last() is GiveUp,
{
    lemma_failures_count(max_attempts, backoff, states, actions, max_attempts as int);
    assert(states.last() == states[max_attempts as int]);
    assert forall|next: FeedState, acts: Seq<FeedAction>|
        #[trigger] feed_transition(states.last(), FeedEvent::Connecting, max_attempts, backoff, next, acts)
        implies !acts.contains(FeedAction::Connect) && acts.last() is GiveUp by {
        assert(acts[0] != FeedAction::Connect);
        assert(acts[1] != FeedAction::Connect);
        assert(acts[2] != FeedAction::Connect);
    }
}

} // verus!
