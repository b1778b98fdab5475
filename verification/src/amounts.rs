//! XRP amounts in drops, the issued currencies the wallet knows, and the
//! amounts handed to XRP Ledger transactions.

use vstd::prelude::*;
use crate::text::{
    is_digit, all_digits, find_char, same_text, leading_run, chars_of, owned, leading_run_in, slice_chars, find_char_in,
    all_digits_in, concat, digits_value, lemma_first_index_unique, lemma_run_length_unique,
};
use crate::crypto::{hex_digit_upper, hex_upper_text};
use crate::codec::lemma_hex_upper_digits;
use crate::numbers::{parse_unsigned, parse_bounded, parse_decimal, decimal_text, decimal_string};

verus! {

/// One XRP is a million drops.
pub const DROPS_PER_XRP: u128 = 1_000_000;

/// Characters that may appear in an XRP amount: digits, `.` and `-`.
pub open spec fn is_xrp_amount_char(c: char) -> bool {
    is_digit(c) || c == '.' || c == '-'
}

/// `s` is non-empty and made of digits, `.` and `-` only.
pub open spec fn xrp_amount_chars(s: Seq<char>) -> bool {
    s.len() > 0 && forall|i: int| 0 <= i < s.len() ==> is_xrp_amount_char(#[trigger] s[i])
}

/// `s` with its leading `-` signs removed.
pub open spec fn unsigned_part(s: Seq<char>) -> Seq<char> {
    s.skip(leading_run(s, '-'))
}

/// The text before the first `.` (all of it when there is none).
pub open spec fn whole_part(a: Seq<char>) -> Seq<char> {
    a.take(find_char(a, '.'))
}

/// The text after the `.` when there is exactly one, else nothing.
pub open spec fn fraction_part(a: Seq<char>) -> Seq<char> {
    let k = find_char(a, '.');
    let rest = a.skip(k + 1);
    if k < a.len() && find_char(rest, '.') == rest.len() {
        rest
    } else {
        Seq::empty()
    }
}

/// The fraction cut or padded with `0` to six places.
pub open spec fn six_places(f: Seq<char>) -> Seq<char> {
    if f.len() >= 6 {
        f.take(6)
    } else {
        f + Seq::new((6 - f.len()) as nat, |i: int| '0')
    }
}

/// A `u128` parse that falls back to zero when the text is no `u128`.
pub open spec fn u128_or_zero(s: Seq<char>) -> nat {
    match parse_bounded(s, u128::MAX as nat) {
        Some(v) => v,
        None => 0,
    }
}

/// The number of drops that the amount text `s` stands for: the whole part
/// in XRP and the first six places of the fraction, each read as a `u128`
/// or as zero where that fails; leading `-` signs are ignored.
pub open spec fn drops_of(s: Seq<char>) -> nat {
    let a = unsigned_part(s);
    u128_or_zero(whole_part(a)) * 1_000_000 + u128_or_zero(six_places(fraction_part(a)))
}

proof fn lemma_six_digits_value(f: Seq<char>)
    requires
        f.len() == 6,
        all_digits(f),
    ensures
        digits_value(f) <= 999_999,
{
    reveal_with_fuel(digits_value, 7);
    assert(is_digit(f[0]) && is_digit(f[1]) && is_digit(f[2]) && is_digit(f[3]) && is_digit(f[4]) && is_digit(f[5]));
    assert(f.drop_last().drop_last().drop_last().drop_last().drop_last().drop_last().len() == 0);
}

/// One XRP is a million drops: a whole number `w` of XRP is `w` million
/// drops, and `w` followed by `.` and six decimal digits `f` is `w`
/// million and `f` drops.
pub proof fn xrp_is_a_million_drops(w: Seq<char>, f: Seq<char>)
    requires
        w.len() > 0,
        all_digits(w),
        digits_value(w) <= u128::MAX,
        f.len() == 6,
        all_digits(f),
    ensures
        drops_of(w) == digits_value(w) * 1_000_000,
        drops_of(w + "."@ + f) == digits_value(w) * 1_000_000 + digits_value(f),
{
    reveal_strlit(".");
    let a = w + "."@ + f;
    assert(is_digit(w[0]));
    // No sign: the texts are their own unsigned parts.
    lemma_run_length_unique(w, '-', 0);
    assert(a[0] == w[0]);
    lemma_run_length_unique(a, '-', 0);
    assert(unsigned_part(w) =~= w);
    assert(unsigned_part(a) =~= a);
    // The whole parts.
    assert forall|j: int| 0 <= j < w.len() implies w[j] != '.' by {
        assert(is_digit(w[j]));
    }
    lemma_first_index_unique(w, '.', w.len() as int);
    assert forall|j: int| 0 <= j < w.len() implies a[j] != '.' by {
        assert(a[j] == w[j]);
        assert(is_digit(w[j]));
    }
    assert(a[w.len() as int] == '.');
    lemma_first_index_unique(a, '.', w.len() as int);
    assert(whole_part(w) =~= w);
    assert(whole_part(a) =~= w);
    // The fraction parts.
    let rest = a.skip(w.len() as int + 1);
    assert(rest =~= f);
    assert forall|j: int| 0 <= j < f.len() implies f[j] != '.' by {
        assert(is_digit(f[j]));
    }
    lemma_first_index_unique(f, '.', f.len() as int);
    assert(fraction_part(a) =~= f);
    assert(fraction_part(w).len() == 0);
    assert(six_places(f) =~= f);
    let zeros = six_places(fraction_part(w));
    assert(zeros.len() == 6);
    assert forall|j: int| 0 <= j < 6 implies zeros[j] == '0' by {}
    reveal_with_fuel(digits_value, 7);
    assert(zeros.drop_last().drop_last().drop_last().drop_last().drop_last().drop_last().len() == 0);
    assert(digits_value(zeros) == 0);
    lemma_six_digits_value(f);
    assert(parse_unsigned(w) == Some(digits_value(w)));
    assert(parse_unsigned(f) == Some(digits_value(f)));
    assert(parse_unsigned(zeros) == Some(0nat));
}

/// What the conversion of an XRP amount to drops gives: the decimal text of
/// the drops, or an error for text that is empty or holds another character.
pub open spec fn xrp_to_drops_result(s: Seq<char>) -> Result<Seq<char>, Seq<char>> {
    if xrp_amount_chars(s) {
        Ok(decimal_text(drops_of(s)))
    } else {
        Err("Invalid XRP format"@)
    }
}

fn pad_six(f: &[char]) -> (out: Vec<char>)
    ensures
        out@ == six_places(f@),
{
    let mut out: Vec<char> = Vec::new();
    let n = f.len();
    let m: usize = if n >= 6 { 6 } else { n };
    let mut i: usize = 0;
    while i < m
        invariant
            i <= m,
            m <= n,
            n == f@.len(),
            m == (if n >= 6 { 6 } else { n }),
            out@ == f@.take(i as int),
        decreases m - i,
    {
        out.push(f[i]);
        i = i + 1;
        assert(f@.take(i as int) == f@.take(i - 1).push(f@[i - 1]));
    }
    while out.len() < 6
        invariant
            n == f@.len(),
            m == (if n >= 6 { 6 } else { n }),
            out@.len() <= 6,
            out@.len() >= m,
            out@.take(m as int) == f@.take(m as int),
            forall|j: int| m <= j < out@.len() ==> out@[j] == '0',
        decreases 6 - out@.len(),
    {
        out.push('0');
    }
    if n >= 6 {
        assert(out@ =~= out@.take(6));
        assert(out@ =~= f@.take(6));
    } else {
        assert(f@.take(m as int) =~= f@);
        assert(out@ =~= f@ + Seq::new((6 - n) as nat, |i: int| '0'));
    }
    out
}

fn u128_or_zero_of(s: &[char]) -> (v: u128)
    ensures
        v as nat == u128_or_zero(s@),
{
    match parse_decimal(s, u128::MAX) {
        Some(v) => v,
        None => 0,
    }
}

/// Converts an amount of XRP written in decimal to drops, as decimal text.
///
/// Text that is empty or holds a character other than a digit, `.` or `-`
/// is refused with "Invalid XRP format". Otherwise leading `-` signs are
/// dropped, the part before the first `.` counts whole XRP, and the part
/// after the `.` (when there is exactly one) counts millionths, cut or
/// padded to six places; a part that is no `u128` counts as zero.
pub fn xrp_str_to_drops(xrp_str: &str) -> (out: Result<String, String>)
    requires
        xrp_amount_chars(xrp_str@) ==> drops_of(xrp_str@) <= u128::MAX,
    ensures
        out matches Ok(d) ==> xrp_to_drops_result(xrp_str@) == Ok::<Seq<char>, Seq<char>>(d@),
        out matches Err(e) ==> xrp_to_drops_result(xrp_str@) == Err::<Seq<char>, Seq<char>>(e@),
{
    let s = chars_of(xrp_str);
    let n = s.len();
    let mut valid = n > 0;
    let mut i: usize = 0;
    while i < n
        invariant
            i <= n,
            n == s@.len(),
            valid == (n > 0 && forall|j: int| 0 <= j < i ==> is_xrp_amount_char(#[trigger] s@[j])),
        decreases n - i,
    {
        let c = s[i];
        if !(('0' <= c && c <= '9') || c == '.' || c == '-') {
            valid = false;
        }
        i = i + 1;
    }
    if !valid {
        return Err(owned("Invalid XRP format"));
    }
    let lead = leading_run_in(s.as_slice(), '-');
    let a = slice_chars(s.as_slice(), lead, n);
    assert(a@ == unsigned_part(s@));
    let alen = a.len();
    let k = find_char_in(a.as_slice(), '.');
    let whole = slice_chars(a.as_slice(), 0, k);
    assert(whole@ == whole_part(a@));
    let fraction: Vec<char> = if k < alen {
        let rest = slice_chars(a.as_slice(), k + 1, alen);
        let k2 = find_char_in(rest.as_slice(), '.');
        if k2 == rest.len() {
            rest
        } else {
            Vec::new()
        }
    } else {
        Vec::new()
    };
    assert(fraction@ == fraction_part(a@));
    let six = pad_six(fraction.as_slice());
    let whole_drops = u128_or_zero_of(whole.as_slice());
    let fraction_drops = u128_or_zero_of(six.as_slice());
    assert(whole_drops * 1_000_000 + fraction_drops == drops_of(xrp_str@));
    let total = whole_drops * DROPS_PER_XRP + fraction_drops;
    Ok(decimal_string(total))
}

} // verus!

verus! {

/// Issuer of RLUSD on the XRP Ledger.
pub const RLUSD_ISSUER: &'static str = "rMxCKbEDwqr76QuheSUMdEGf4B9xJ8m5De";

/// Issuer of EUROP on the XRP Ledger.
pub const EUROP_ISSUER: &'static str = "rMkEuRii9w9uBMQDnWV5AA43gvYZR9JxVK";

/// Issuer of XSGD on the XRP Ledger.
pub const XSGD_ISSUER: &'static str = "rK67JczCpaYXVtfw3qJVmqwpSfa1bYTptw";

/// The 160-bit currency code (hex) and the issuer of each issued currency
/// the wallet trades, by ticker symbol.
pub open spec fn asset_config(symbol: Seq<char>) -> Option<(Seq<char>, Seq<char>)> {
    if symbol == "RLUSD"@ {
        Some(("524C555344000000000000000000000000000000"@, RLUSD_ISSUER@))
    } else if symbol == "EUROP"@ {
        Some(("4555524F50000000000000000000000000000000"@, EUROP_ISSUER@))
    } else if symbol == "XSGD"@ {
        Some(("5853474400000000000000000000000000000000"@, XSGD_ISSUER@))
    } else {
        None
    }
}

/// The twenty-byte currency code of a ticker of at most twenty ASCII
/// characters: its characters' bytes, then zeros.
pub open spec fn ticker_code(t: Seq<char>) -> Seq<u8> {
    t.map_values(|c: char| c as u8) + Seq::new((20 - t.len()) as nat, |i: int| 0u8)
}

proof fn lemma_code_of(t: Seq<char>, code: Seq<char>)
    requires
        t.len() <= 20,
        code.len() == 40,
        forall|i: int| 0 <= i < t.len() ==> #[trigger] code[2 * i] == hex_digit_upper(((t[i] as u8) / 16) as nat)
            && code[2 * i + 1] == hex_digit_upper(((t[i] as u8) % 16) as nat),
        forall|i: int| t.len() * 2 <= i < 40 ==> #[trigger] code[i] == '0',
    ensures
        code == hex_upper_text(ticker_code(t)),
{
    let b = ticker_code(t);
    lemma_hex_upper_digits(b);
    assert(b.len() == 20);
    assert forall|i: int| 0 <= i < 40 implies #[trigger] code[i] == hex_upper_text(b)[i] by {
        let k = i / 2;
        assert(0 <= k < 20);
        assert(hex_upper_text(b)[2 * k] == hex_digit_upper((b[k] / 16) as nat));
        if k < t.len() {
            assert(b[k] == t[k] as u8);
            assert(code[2 * k] == hex_digit_upper(((t[k] as u8) / 16) as nat));
            if i % 2 == 0 {
                assert(i == 2 * k);
            } else {
                assert(i == 2 * k + 1);
            }
        } else {
            assert(b[k] == 0u8);
            assert(hex_digit_upper(0nat) == '0');
            if i % 2 == 0 {
                assert(i == 2 * k);
            } else {
                assert(i == 2 * k + 1);
            }
        }
    }
    assert(code =~= hex_upper_text(b));
}

/// The currency code of each issued currency is its ticker written in
/// hex: the ticker's ASCII bytes padded with zeros to twenty bytes.
pub proof fn asset_code_is_its_ticker(symbol: Seq<char>)
    requires
        asset_config(symbol) is Some,
    ensures
        asset_config(symbol) matches Some((code, _)) && code == hex_upper_text(ticker_code(symbol)),
{
    reveal_strlit("RLUSD");
    reveal_strlit("EUROP");
    reveal_strlit("XSGD");
    reveal_strlit("524C555344000000000000000000000000000000");
    reveal_strlit("4555524F50000000000000000000000000000000");
    reveal_strlit("5853474400000000000000000000000000000000");
    let code = match asset_config(symbol) { Some((c, _)) => c, None => Seq::empty() };
    assert(hex_digit_upper(0nat) == '0' && hex_digit_upper(1nat) == '1' && hex_digit_upper(2nat) == '2'
        && hex_digit_upper(3nat) == '3' && hex_digit_upper(4nat) == '4' && hex_digit_upper(5nat) == '5'
        && hex_digit_upper(7nat) == '7' && hex_digit_upper(8nat) == '8' && hex_digit_upper(12nat) == 'C'
        && hex_digit_upper(15nat) == 'F');
    lemma_code_of(symbol, code);
}

/// The currency code (hex) and issuer of the issued currency `symbol`.
pub fn get_asset_config(symbol: &str) -> (out: Option<(&'static str, &'static str)>)
    ensures
        out is None ==> asset_config(symbol@) is None,
        out matches Some(p) ==> asset_config(symbol@) == Some((p.0@, p.1@)),
{
    if same_text(symbol, "RLUSD") {
        Some(("524C555344000000000000000000000000000000", RLUSD_ISSUER))
    } else if same_text(symbol, "EUROP") {
        Some(("4555524F50000000000000000000000000000000", EUROP_ISSUER))
    } else if same_text(symbol, "XSGD") {
        Some(("5853474400000000000000000000000000000000", XSGD_ISSUER))
    } else {
        None
    }
}

/// An amount in an XRP Ledger transaction: XRP in drops, or a quantity of
/// an issued currency.
#[derive(Debug, Clone, PartialEq, Eq)]
pub enum XrplAmount {
    /// XRP, as the decimal text of a number of drops.
    Xrp(String),
    /// An issued currency: its code (hex), its issuer and the quantity as written.
    Issued { currency: String, issuer: String, value: String },
}

/// An `XrplAmount` by the views of its texts.
pub enum XrplAmountView {
    Xrp(Seq<char>),
    Issued(Seq<char>, Seq<char>, Seq<char>),
}

impl View for XrplAmount {
    type V = XrplAmountView;

    open spec fn view(&self) -> XrplAmountView {
        match self {
            XrplAmount::Xrp(d) => XrplAmountView::Xrp(d@),
            XrplAmount::Issued { currency, issuer, value } => XrplAmountView::Issued(currency@, issuer@, value@),
        }
    }
}

/// The code of `c` with ASCII letters folded to lower case.
pub open spec fn folded_code(c: char) -> u32 {
    if 'A' <= c && c <= 'Z' {
        ((c as u32) + 32) as u32
    } else {
        c as u32
    }
}

/// The codes of `s` with ASCII letters folded to lower case.
pub open spec fn folded_codes(s: Seq<char>) -> Seq<u32> {
    Seq::new(s.len(), |i: int| folded_code(s[i]))
}

/// The codes of the characters of `s`.
pub open spec fn char_codes(s: Seq<char>) -> Seq<u32> {
    Seq::new(s.len(), |i: int| s[i] as u32)
}

/// `inf`, `infinity` or `nan`, in any case.
pub open spec fn is_special_float(b: Seq<char>) -> bool {
    let l = folded_codes(b);
    l == char_codes("inf"@) || l == char_codes("infinity"@) || l == char_codes("nan"@)
}

/// Digits with at most one `.`, and at least one digit.
pub open spec fn is_mantissa(m: Seq<char>) -> bool {
    let k = find_char(m, '.');
    if k == m.len() {
        m.len() > 0 && all_digits(m)
    } else {
        all_digits(m.take(k)) && all_digits(m.skip(k + 1)) && m.len() > 1
    }
}

/// What follows the `e` of an exponent: an optional sign, then digits.
pub open spec fn is_exponent_digits(e: Seq<char>) -> bool {
    let d = if e.len() > 0 && (e[0] == '+' || e[0] == '-') { e.drop_first() } else { e };
    d.len() > 0 && all_digits(d)
}

/// The position of the first `e` or `E` in `b` (`b.len()` when none).
pub open spec fn exponent_mark(b: Seq<char>) -> int {
    let lo = find_char(b, 'e');
    let up = find_char(b, 'E');
    if lo <= up { lo } else { up }
}

/// A decimal number: a mantissa, then optionally `e` or `E` and an exponent.
pub open spec fn is_decimal_float(b: Seq<char>) -> bool {
    let k = exponent_mark(b);
    if k == b.len() {
        is_mantissa(b)
    } else {
        is_mantissa(b.take(k)) && is_exponent_digits(b.skip(k + 1))
    }
}

/// The text that std's `f64` parser accepts: an optional sign, then `inf`,
/// `infinity` or `nan` in any case, or a decimal number.
pub open spec fn is_float_text(s: Seq<char>) -> bool {
    let body = if s.len() > 0 && (s[0] == '+' || s[0] == '-') { s.drop_first() } else { s };
    is_special_float(body) || is_decimal_float(body)
}

/// Whether `s`, with its ASCII letters in lower case, is `lower`.
fn equals_ignoring_case(s: &[char], lower: &[char]) -> (b: bool)
    ensures
        b == (folded_codes(s@) == char_codes(lower@)),
{
    if s.len() != lower.len() {
        assert(folded_codes(s@).len() != char_codes(lower@).len());
        return false;
    }
    let n = s.len();
    for i in 0..n
        invariant
            n == s@.len(),
            n == lower@.len(),
            forall|j: int| 0 <= j < i ==> folded_code(s@[j]) == lower@[j] as u32,
    {
        let c = s[i];
        let folded: u32 = if 'A' <= c && c <= 'Z' { c as u32 + 32 } else { c as u32 };
        if folded != lower[i] as u32 {
            assert(folded_codes(s@)[i as int] != char_codes(lower@)[i as int]);
            return false;
        }
    }
    assert(folded_codes(s@) =~= char_codes(lower@));
    true
}

} // verus!

verus! {

fn mantissa_ok(m: &[char]) -> (b: bool)
    ensures
        b == is_mantissa(m@),
{
    let n = m.len();
    let k = find_char_in(m, '.');
    if k == n {
        n > 0 && all_digits_in(m)
    } else {
        let whole = slice_chars(m, 0, k);
        let frac = slice_chars(m, k + 1, n);
        assert(whole@ == m@.take(k as int));
        assert(frac@ == m@.skip(k + 1));
        all_digits_in(whole.as_slice()) && all_digits_in(frac.as_slice()) && n > 1
    }
}

fn exponent_ok(e: &[char]) -> (b: bool)
    ensures
        b == is_exponent_digits(e@),
{
    let n = e.len();
    if n > 0 && (e[0] == '+' || e[0] == '-') {
        let d = slice_chars(e, 1, n);
        assert(d@ == e@.drop_first());
        d.len() > 0 && all_digits_in(d.as_slice())
    } else {
        n > 0 && all_digits_in(e)
    }
}

/// Whether std's `f64` parser accepts `s`.
pub fn is_float_literal(s: &str) -> (b: bool)
    ensures
        b == is_float_text(s@),
{
    let cs = chars_of(s);
    let n = cs.len();
    let body: Vec<char> = if n > 0 && (cs[0] == '+' || cs[0] == '-') {
        slice_chars(cs.as_slice(), 1, n)
    } else {
        slice_chars(cs.as_slice(), 0, n)
    };
    assert(body@ == (if s@.len() > 0 && (s@[0] == '+' || s@[0] == '-') { s@.drop_first() } else { s@ }));
    let inf = chars_of("inf");
    let infinity = chars_of("infinity");
    let nan = chars_of("nan");
    if equals_ignoring_case(body.as_slice(), inf.as_slice())
        || equals_ignoring_case(body.as_slice(), infinity.as_slice())
        || equals_ignoring_case(body.as_slice(), nan.as_slice())
    {
        return true;
    }
    let bl = body.len();
    let lo = find_char_in(body.as_slice(), 'e');
    let up = find_char_in(body.as_slice(), 'E');
    let k = if lo <= up { lo } else { up };
    if k == bl {
        mantissa_ok(body.as_slice())
    } else {
        let m = slice_chars(body.as_slice(), 0, k);
        let e = slice_chars(body.as_slice(), k + 1, bl);
        assert(m@ == body@.take(k as int));
        assert(e@ == body@.skip(k + 1));
        mantissa_ok(m.as_slice()) && exponent_ok(e.as_slice())
    }
}

/// What `to_xrpl_amount` gives: for `XRP` the drops of the amount (its
/// error passed on), for a known issued currency its code, issuer and the
/// amount text once that is a valid `f64` literal.
pub open spec fn xrpl_amount_matches(
    amount: Seq<char>,
    currency: Seq<char>,
    out: Result<XrplAmount, String>,
) -> bool {
    if currency == "XRP"@ {
        match xrp_to_drops_result(amount) {
            Ok(d) => out matches Ok(XrplAmount::Xrp(x)) && x@ == d,
            Err(e) => out matches Err(m) && m@ == e,
        }
    } else {
        match asset_config(currency) {
            None => out matches Err(m) && m@ == "Unsupported currency: "@ + currency,
            Some((code, issuer)) => if is_float_text(amount) {
                out matches Ok(XrplAmount::Issued { currency: c, issuer: i, value: v })
                    && c@ == code && i@ == issuer && v@ == amount
            } else {
                out matches Err(m) && m@ == "Invalid amount"@
            },
        }
    }
}

/// `amount` of `currency` converts: XRP amounts made of digits, `.` and
/// `-`, or a valid `f64` literal of a known issued currency.
pub open spec fn xrpl_amount_valid(amount: Seq<char>, currency: Seq<char>) -> bool {
    if currency == "XRP"@ {
        xrp_amount_chars(amount)
    } else {
        asset_config(currency) is Some && is_float_text(amount)
    }
}

/// The amount that a valid `amount` of `currency` converts to: XRP in
/// drops, or the issued currency's code and issuer with the quantity as
/// written.
pub open spec fn xrpl_amount_view_of(amount: Seq<char>, currency: Seq<char>) -> XrplAmountView {
    if currency == "XRP"@ {
        XrplAmountView::Xrp(xrp_to_drops_result(amount)->Ok_0)
    } else {
        match asset_config(currency) {
            Some((code, issuer)) => XrplAmountView::Issued(code, issuer, amount),
            None => XrplAmountView::Issued(Seq::empty(), Seq::empty(), amount),
        }
    }
}

/// A converted amount is the one `xrpl_amount_view_of` gives.
pub proof fn lemma_converted_amount_view(amount: Seq<char>, currency: Seq<char>, a: XrplAmount)
    requires
        xrpl_amount_matches(amount, currency, Ok(a)),
    ensures
        a@ == xrpl_amount_view_of(amount, currency),
{
}

/// The transaction amount for `amount_str` of `currency`: XRP in drops, or
/// one of the known issued currencies with its code and issuer.
pub fn to_xrpl_amount(amount_str: &str, currency: &str) -> (out: Result<XrplAmount, String>)
    requires
        currency@ == "XRP"@ && xrp_amount_chars(amount_str@) ==> drops_of(amount_str@) <= u128::MAX,
    ensures
        xrpl_amount_matches(amount_str@, currency@, out),
        out is Ok <==> xrpl_amount_valid(amount_str@, currency@),
{
    if same_text(currency, "XRP") {
        match xrp_str_to_drops(amount_str) {
            Ok(drops) => Ok(XrplAmount::Xrp(drops)),
            Err(e) => Err(e),
        }
    } else {
        match get_asset_config(currency) {
            None => Err(concat("Unsupported currency: ", currency)),
            Some((hex, issuer)) => {
                if !is_float_literal(amount_str) {
                    return Err(owned("Invalid amount"));
                }
                Ok(XrplAmount::Issued {
                    currency: owned(hex),
                    issuer: owned(issuer),
                    value: owned(amount_str),
                })
            },
        }
    }
}

} // verus!
