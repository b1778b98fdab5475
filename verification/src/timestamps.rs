//! Transaction times: how a stored timestamp is shown, and the order in
//! which the transaction lists show their entries (newest first, at most a
//! hundred).

use vstd::prelude::*;
use chrono::TimeZone;
use crate::numbers::{parse_i64, parse_i64_spec};
use crate::text::{chars_of, owned, same_text};

verus! {

/// The UTC date and time of `secs` seconds after the Unix epoch, written
/// `%Y-%m-%d %H:%M` by chrono, or `None` where chrono cannot represent it.
pub uninterp spec fn utc_minutes_text(secs: int) -> Option<Seq<char>>;

/// `chrono::Utc.timestamp_opt(secs, 0).single()`, formatted with
/// `%Y-%m-%d %H:%M`: the result is `utc_minutes_text(secs)`.
#[verifier::external_body]
fn utc_minutes(secs: i64) -> (text: Option<String>)
    ensures
        match text {
            Some(t) => utc_minutes_text(secs as int) == Some(t@),
            None => utc_minutes_text(secs as int) is None,
        },
{
    match chrono::Utc.timestamp_opt(secs, 0).single() {
        Some(d) => Some(d.format("%Y-%m-%d %H:%M").to_string()),
        None => None,
    }
}

/// `chrono::DateTime::<Utc>::MIN_UTC` formatted with `%Y-%m-%d %H:%M`.
/// chrono's earliest instant is the first of January of the year -262143
/// at midnight, and `%Y` writes a year below 0 with its sign.
#[verifier::external_body]
fn earliest_minutes() -> (text: String)
    ensures
        text@ == "-262143-01-01 00:00"@,
{
    chrono::DateTime::<chrono::Utc>::MIN_UTC.format("%Y-%m-%d %H:%M").to_string()
}

/// The instant that chrono reads from `text` as a `DateTime<Utc>` (RFC 3339
/// in a relaxed form), as its Unix seconds and the nanoseconds within that
/// second, or `None` where chrono refuses the text.
pub uninterp spec fn utc_instant_of(text: Seq<char>) -> Option<(int, int)>;

/// `text.parse::<chrono::DateTime<Utc>>()`, taken as its `timestamp()` and
/// `timestamp_subsec_nanos()`: the result is `utc_instant_of(text)`.
#[verifier::external_body]
fn parse_utc_instant(text: &str) -> (instant: Option<(i64, u32)>)
    ensures
        match instant {
            Some((s, n)) => utc_instant_of(text@) == Some((s as int, n as int)),
            None => utc_instant_of(text@) is None,
        },
{
    match text.parse::<chrono::DateTime<chrono::Utc>>() {
        Ok(d) => Some((d.timestamp(), d.timestamp_subsec_nanos())),
        Err(_) => None,
    }
}

/// How a stored Bitcoin timestamp (Unix seconds as text) is shown: a dash
/// when it is empty or `0`; otherwise its UTC minute, where the text is a
/// number of seconds that chrono can represent, and chrono's earliest
/// instant where it is not.
pub open spec fn timestamp_display(ts: Seq<char>) -> Seq<char> {
    if ts.len() == 0 || ts == "0"@ {
        "—"@
    } else {
        match parse_i64_spec(ts) {
            Some(secs) => match utc_minutes_text(secs) {
                Some(t) => t,
                None => "-262143-01-01 00:00"@,
            },
            None => "-262143-01-01 00:00"@,
        }
    }
}

/// Shows a stored Bitcoin timestamp.
pub fn format_timestamp(ts: &str) -> (shown: String)
    ensures
        shown@ == timestamp_display(ts@),
{
    let cs = chars_of(ts);
    if cs.len() == 0 || same_text(ts, "0") {
        return owned("—");
    }
    match parse_i64(cs.as_slice()) {
        Some(secs) => match utc_minutes(secs) {
            Some(t) => t,
            None => earliest_minutes(),
        },
        None => earliest_minutes(),
    }
}


/// `a` is not older than `b`: instants compare by seconds, then by
/// nanoseconds, and an unreadable time is older than any instant.
pub open spec fn not_older(a: Option<(i64, u32)>, b: Option<(i64, u32)>) -> bool {
    match b {
        None => true,
        Some(y) => match a {
            None => false,
            Some(x) => x.0 > y.0 || (x.0 == y.0 && x.1 >= y.1),
        },
    }
}

/// Any two keys are ordered one way or the other.
pub proof fn lemma_not_older_total(a: Option<(i64, u32)>, b: Option<(i64, u32)>)
    ensures
        not_older(a, b) || not_older(b, a),
{
}

/// The order on keys is transitive.
pub proof fn lemma_not_older_transitive(
    a: Option<(i64, u32)>,
    b: Option<(i64, u32)>,
    c: Option<(i64, u32)>,
)
    requires
        not_older(a, b),
        not_older(b, c),
    ensures
        not_older(a, c),
{
}

/// Whether `a` is not older than `b`.
fn not_older_than(a: Option<(i64, u32)>, b: Option<(i64, u32)>) -> (r: bool)
    ensures
        r == not_older(a, b),
{
    match b {
        None => true,
        Some(y) => match a {
            None => false,
            Some(x) => x.0 > y.0 || (x.0 == y.0 && x.1 >= y.1),
        },
    }
}

/// The position, within `remaining`, of an entry whose key is not older
/// than that of any other entry of `remaining`.
fn newest_position(keys: &Vec<Option<(i64, u32)>>, remaining: &Vec<usize>) -> (p: usize)
    requires
        remaining.len() > 0,
        forall|a: int| 0 <= a < remaining.len() ==> remaining[a] < keys.len(),
    ensures
        p < remaining.len(),
        forall|a: int|
            0 <= a < remaining.len() ==> not_older(
                keys[remaining[p as int] as int],
                #[trigger] keys[remaining[a] as int],
            ),
{
    let mut best: usize = 0;
    let mut j: usize = 1;
    while j < remaining.len()
        invariant
            remaining.len() > 0,
            forall|a: int| 0 <= a < remaining.len() ==> remaining[a] < keys.len(),
            best < j <= remaining.len(),
            forall|a: int|
                0 <= a < j ==> not_older(
                    keys[remaining[best as int] as int],
                    #[trigger] keys[remaining[a] as int],
                ),
        decreases remaining.len() - j,
    {
        let kb = keys[remaining[best]];
        let kj = keys[remaining[j]];
        if !not_older_than(kb, kj) {
            proof {
                lemma_not_older_total(kb, kj);
                assert forall|a: int| 0 <= a < j + 1 implies not_older(
                    kj,
                    #[trigger] keys[remaining[a] as int],
                ) by {
                    if a < j {
                        lemma_not_older_transitive(kj, kb, keys[remaining[a] as int]);
                    }
                }
            }
            best = j;
        }
        j = j + 1;
    }
    best
}

/// `order` lists positions of `keys`, each once, as many as there are keys
/// but at most `limit`, newest first; no entry left out is newer than one
/// listed.
pub open spec fn is_newest_order(keys: Seq<Option<(i64, u32)>>, limit: nat, order: Seq<usize>) -> bool {
    &&& order.len() == (if keys.len() < limit { keys.len() } else { limit })
    &&& forall|i: int| 0 <= i < order.len() ==> order[i] < keys.len()
    &&& forall|i: int, j: int| 0 <= i < j < order.len() ==> order[i] != order[j]
    &&& forall|i: int, j: int|
        0 <= i < j < order.len() ==> not_older(
            keys[#[trigger] order[i] as int],
            keys[#[trigger] order[j] as int],
        )
    &&& forall|i: int, k: int|
        0 <= i < order.len() && 0 <= k < keys.len() && !order.contains(k as usize) ==> not_older(
            keys[#[trigger] order[i] as int],
            #[trigger] keys[k],
        )
}

/// The positions of the entries with keys `keys`, newest first, at most
/// `limit` of them.
pub fn newest_first(keys: &Vec<Option<(i64, u32)>>, limit: usize) -> (order: Vec<usize>)
    ensures
        is_newest_order(keys@, limit as nat, order@),
{
    let n = keys.len();
    let mut remaining: Vec<usize> = Vec::new();
    let mut k: usize = 0;
    while k < n
        invariant
            k <= n,
            remaining.len() == k,
            forall|a: int| 0 <= a < k ==> remaining[a] == a,
        decreases n - k,
    {
        remaining.push(k);
        k = k + 1;
    }
    assert forall|x: usize| x < n implies remaining@.contains(x) by {
        assert(remaining@[x as int] == x);
    }
    let count = if n < limit { n } else { limit };
    let mut order: Vec<usize> = Vec::new();
    while order.len() < count
        invariant
            count <= n,
            n == keys.len(),
            count == (if n < limit { n } else { limit }),
            order.len() <= count,
            order.len() + remaining.len() == n,
            forall|a: int| 0 <= a < remaining.len() ==> remaining[a] < n,
            forall|i: int| 0 <= i < order.len() ==> order[i] < n,
            forall|a: int, b: int| 0 <= a < b < remaining.len() ==> remaining[a] != remaining[b],
            forall|i: int, j: int| 0 <= i < j < order.len() ==> order[i] != order[j],
            forall|i: int, a: int|
                0 <= i < order.len() && 0 <= a < remaining.len() ==> order[i] != remaining[a],
            forall|x: usize| x < n ==> order@.contains(x) || remaining@.contains(x),
            forall|i: int, j: int|
                0 <= i < j < order.len() ==> not_older(
                    keys[#[trigger] order[i] as int],
                    keys[#[trigger] order[j] as int],
                ),
            forall|i: int, a: int|
                0 <= i < order.len() && 0 <= a < remaining.len() ==> not_older(
                    keys[#[trigger] order[i] as int],
                    keys[#[trigger] remaining[a] as int],
                ),
        decreases count - order.len(),
    {
        let p = newest_position(keys, &remaining);
        let ghost old_remaining = remaining@;
        let ghost old_order = order@;
        let x = remaining.remove(p);
        order.push(x);
        proof {
            assert forall|y: usize| y < n implies order@.contains(y) || remaining@.contains(y) by {
                if old_order.contains(y) {
                    let i = choose|i: int| 0 <= i < old_order.len() && old_order[i] == y;
                    assert(order@[i] == y);
                } else {
                    let a = choose|a: int| 0 <= a < old_remaining.len() && old_remaining[a] == y;
                    if a == p {
                        assert(order@[old_order.len() as int] == y);
                    } else if a < p {
                        assert(remaining@[a] == y);
                    } else {
                        assert(remaining@[a - 1] == y);
                    }
                }
            }
            assert forall|i: int, a: int|
                0 <= i < order.len() && 0 <= a < remaining.len() implies not_older(
                keys[#[trigger] order[i] as int],
                keys[#[trigger] remaining[a] as int],
            ) by {
                let b = if a < p { a } else { a + 1 };
                assert(remaining[a] == old_remaining[b]);
                if i < old_order.len() {
                    assert(order[i] == old_order[i]);
                } else {
                    assert(order[i] == old_remaining[p as int]);
                }
            }
            assert forall|i: int, j: int| 0 <= i < j < order.len() implies not_older(
                keys[#[trigger] order[i] as int],
                keys[#[trigger] order[j] as int],
            ) by {
                if j == old_order.len() {
                    assert(order[j] == old_remaining[p as int]);
                    assert(order[i] == old_order[i]);
                }
            }
            assert forall|i: int, a: int|
                0 <= i < order.len() && 0 <= a < remaining.len() implies order[i]
                != remaining[a] by {
                let b = if a < p { a } else { a + 1 };
                assert(remaining[a] == old_remaining[b]);
            }
            assert forall|a: int, b: int| 0 <= a < b < remaining.len() implies remaining[a]
                != remaining[b] by {
                let a2 = if a < p { a } else { a + 1 };
                let b2 = if b < p { b } else { b + 1 };
                assert(remaining[a] == old_remaining[a2]);
                assert(remaining[b] == old_remaining[b2]);
            }
            assert forall|i: int, j: int| 0 <= i < j < order.len() implies order[i]
                != order[j] by {
                if j == old_order.len() {
                    assert(order[j] == old_remaining[p as int]);
                    assert(order[i] == old_order[i]);
                }
            }
            assert forall|a: int| 0 <= a < remaining.len() implies remaining[a] < n by {
                let b = if a < p { a } else { a + 1 };
                assert(remaining[a] == old_remaining[b]);
            }
        }
    }
    proof {
        assert forall|i: int, k: int|
            0 <= i < order.len() && 0 <= k < keys.len() && !order@.contains(k as usize)
            implies not_older(keys[#[trigger] order[i] as int], #[trigger] keys[k]) by {
            assert(remaining@.contains(k as usize));
            let a = choose|a: int| 0 <= a < remaining.len() && remaining@[a] == k as usize;
            assert(not_older(keys[order[i] as int], keys[remaining[a] as int]));
        }
    }
    order
}

/// The key of a Bitcoin transaction's timestamp (Unix seconds as text):
/// its instant where the text is a number of seconds that chrono can
/// represent.
pub open spec fn btc_key_spec(ts: Seq<char>) -> Option<(i64, u32)> {
    match parse_i64_spec(ts) {
        Some(secs) => if utc_minutes_text(secs) is Some {
            Some((secs as i64, 0u32))
        } else {
            None
        },
        None => None,
    }
}

/// The key of an XRP transaction's timestamp (an RFC 3339 date and time).
pub open spec fn xrp_key_spec(ts: Seq<char>) -> Option<(i64, u32)> {
    match utc_instant_of(ts) {
        Some((s, n)) => Some((s as i64, n as u32)),
        None => None,
    }
}

/// The key of a Bitcoin transaction's timestamp.
pub fn btc_time_key(ts: &str) -> (key: Option<(i64, u32)>)
    ensures
        key == btc_key_spec(ts@),
{
    let cs = chars_of(ts);
    match parse_i64(cs.as_slice()) {
        Some(secs) => match utc_minutes(secs) {
            Some(_) => Some((secs, 0)),
            None => None,
        },
        None => None,
    }
}

/// The key of an XRP transaction's timestamp.
pub fn xrp_time_key(ts: &str) -> (key: Option<(i64, u32)>)
    ensures
        key == xrp_key_spec(ts@),
{
    parse_utc_instant(ts)
}

/// How many transactions a list shows.
pub const SHOWN_TRANSACTIONS: usize = 100;

/// The transactions, given by their timestamps, that the Bitcoin list
/// shows, by position, newest first.
pub fn btc_display_order(timestamps: &Vec<String>) -> (order: Vec<usize>)
    ensures
        is_newest_order(
            Seq::new(timestamps.len() as nat, |i: int| btc_key_spec(timestamps[i]@)),
            SHOWN_TRANSACTIONS as nat,
            order@,
        ),
{
    let mut keys: Vec<Option<(i64, u32)>> = Vec::new();
    let n = timestamps.len();
    let mut i: usize = 0;
    while i < n
        invariant
            i <= n,
            n == timestamps.len(),
            keys.len() == i,
            forall|j: int| 0 <= j < i ==> keys[j] == btc_key_spec(timestamps[j]@),
        decreases n - i,
    {
        keys.push(btc_time_key(timestamps[i].as_str()));
        i = i + 1;
    }
    assert(keys@ =~= Seq::new(timestamps.len() as nat, |i: int| btc_key_spec(timestamps[i]@)));
    newest_first(&keys, SHOWN_TRANSACTIONS)
}

/// The transactions, given by their timestamps, that the XRP list shows,
/// by position, newest first.
pub fn xrp_display_order(timestamps: &Vec<String>) -> (order: Vec<usize>)
    ensures
        is_newest_order(
            Seq::new(timestamps.len() as nat, |i: int| xrp_key_spec(timestamps[i]@)),
            SHOWN_TRANSACTIONS as nat,
            order@,
        ),
{
    let mut keys: Vec<Option<(i64, u32)>> = Vec::new();
    let n = timestamps.len();
    let mut i: usize = 0;
    while i < n
        invariant
            i <= n,
            n == timestamps.len(),
            keys.len() == i,
            forall|j: int| 0 <= j < i ==> keys[j] == xrp_key_spec(timestamps[j]@),
        decreases n - i,
    {
        keys.push(xrp_time_key(timestamps[i].as_str()));
        i = i + 1;
    }
    assert(keys@ =~= Seq::new(timestamps.len() as nat, |i: int| xrp_key_spec(timestamps[i]@)));
    newest_first(&keys, SHOWN_TRANSACTIONS)
}

/// In a list ordered newest first, a transaction whose time could not be
/// read never comes before one whose time could.
pub proof fn unreadable_times_come_last(
    keys: Seq<Option<(i64, u32)>>,
    limit: nat,
    order: Seq<usize>,
    i: int,
    j: int,
)
    requires
        is_newest_order(keys, limit, order),
        0 <= i < j < order.len(),
        keys[order[j] as int] is Some,
    ensures
        keys[order[i] as int] is Some,
{
    assert(not_older(keys[order[i] as int], keys[order[j] as int]));
}

} // verus!
