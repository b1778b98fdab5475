//! The recovery-phrase field of the import forms: the words typed or
//! pasted, the twenty-four word slots behind the field, how many are
//! filled, and the text the field shows (a pasted phrase is laid out with a
//! line break after the twelfth word).

use vstd::prelude::*;
use crate::crypto::{is_whitespace, unicode_whitespace};
use crate::text::{chars_of, string_of};

verus! {

/// The number of word slots behind the field.
pub const SEED_SLOTS: usize = 24;

/// The words of `s` as `str::split_whitespace` finds them: its maximal runs
/// of characters that are not white space, in order.
pub open spec fn words_of(s: Seq<char>) -> Seq<Seq<char>>
    decreases s.len(),
{
    if s.len() == 0 {
        Seq::empty()
    } else {
        let w = words_of(s.drop_last());
        let c = s.last();
        if unicode_whitespace(c) {
            w
        } else if s.len() >= 2 && !unicode_whitespace(s[s.len() - 2]) {
            w.update(w.len() - 1, w.last().push(c))
        } else {
            w.push(seq![c])
        }
    }
}

/// Text that ends in a character other than white space has a word.
proof fn lemma_words_nonempty(s: Seq<char>)
    requires
        s.len() > 0,
        !unicode_whitespace(s.last()),
    ensures
        words_of(s).len() > 0,
    decreases s.len(),
{
    if s.len() >= 2 && !unicode_whitespace(s[s.len() - 2]) {
        lemma_words_nonempty(s.drop_last());
    }
}

/// The views of a list of strings.
pub open spec fn texts(v: Seq<String>) -> Seq<Seq<char>> {
    v.map_values(|w: String| w@)
}

/// The views of a list of character lists.
pub open spec fn char_lists(v: Seq<Vec<char>>) -> Seq<Seq<char>> {
    v.map_values(|w: Vec<char>| w@)
}

/// The words of `raw`.
pub fn seed_words(raw: &str) -> (words: Vec<String>)
    ensures
        texts(words@) == words_of(raw@),
{
    let cs = chars_of(raw);
    let n = cs.len();
    let mut acc: Vec<Vec<char>> = Vec::new();
    let mut i: usize = 0;
    while i < n
        invariant
            i <= n,
            n == cs@.len(),
            cs@ == raw@,
            char_lists(acc@) == words_of(cs@.take(i as int)),
        decreases n - i,
    {
        let c = cs[i];
        let ghost prefix = cs@.take(i as int);
        let ghost next = cs@.take(i + 1);
        proof {
            assert(next.drop_last() == prefix);
            assert(next.last() == c);
        }
        if is_whitespace(c) {
            assert(char_lists(acc@) == words_of(next));
        } else if i >= 1 && !is_whitespace(cs[i - 1]) {
            proof {
                assert(next[next.len() - 2] == cs@[i - 1]);
                assert(prefix.last() == cs@[i - 1]);
                lemma_words_nonempty(prefix);
            }
            let ghost before = acc@;
            let mut last = acc.pop().unwrap();
            last.push(c);
            acc.push(last);
            proof {
                let w = words_of(prefix);
                assert(char_lists(before).len() == w.len());
                assert(char_lists(before).last() == w.last());
                assert(char_lists(acc@) =~= w.update(w.len() - 1, w.last().push(c)));
            }
        } else {
            let ghost before = acc@;
            let mut w: Vec<char> = Vec::new();
            w.push(c);
            acc.push(w);
            proof {
                if i >= 1 {
                    assert(next[next.len() - 2] == cs@[i - 1]);
                }
                assert(char_lists(acc@) =~= char_lists(before).push(seq![c]));
            }
        }
        i = i + 1;
    }
    assert(cs@.take(n as int) == cs@);
    let mut words: Vec<String> = Vec::new();
    let mut k: usize = 0;
    while k < acc.len()
        invariant
            k <= acc@.len(),
            words@.len() == k,
            forall|j: int| 0 <= j < k ==> words@[j]@ == acc@[j]@,
        decreases acc@.len() - k,
    {
        words.push(string_of(acc[k].as_slice()));
        k = k + 1;
    }
    assert(texts(words@) =~= char_lists(acc@));
    words
}

/// The word slots behind the field: the first twenty-four words, then
/// empty slots.
pub open spec fn slots_of(words: Seq<Seq<char>>) -> Seq<Seq<char>> {
    Seq::new(SEED_SLOTS as nat, |i: int| if i < words.len() { words[i] } else { Seq::empty() })
}

/// The word slots for `words`.
pub fn seed_slots(words: &Vec<String>) -> (slots: Vec<String>)
    ensures
        texts(slots@) == slots_of(texts(words@)),
{
    let mut slots: Vec<String> = Vec::new();
    let mut i: usize = 0;
    while i < SEED_SLOTS
        invariant
            i <= SEED_SLOTS,
            slots@.len() == i,
            forall|j: int|
                0 <= j < i ==> slots@[j]@ == (if j < words@.len() { words@[j]@ } else { Seq::<char>::empty() }),
        decreases SEED_SLOTS - i,
    {
        if i < words.len() {
            slots.push(words[i].clone());
        } else {
            slots.push(String::new());
        }
        i = i + 1;
    }
    assert(texts(slots@) =~= slots_of(texts(words@)));
    slots
}

/// The number of slots that hold a word.
pub open spec fn filled_count(slots: Seq<Seq<char>>) -> nat
    decreases slots.len(),
{
    if slots.len() == 0 {
        0
    } else {
        filled_count(slots.drop_last()) + (if slots.last().len() > 0 { 1nat } else { 0nat })
    }
}

/// The number of filled slots.
pub fn seed_word_count(slots: &Vec<String>) -> (count: usize)
    ensures
        count as nat == filled_count(texts(slots@)),
{
    let mut count: usize = 0;
    let mut i: usize = 0;
    while i < slots.len()
        invariant
            i <= slots@.len(),
            count as nat == filled_count(texts(slots@.take(i as int))),
            count <= i,
        decreases slots@.len() - i,
    {
        proof {
            assert(texts(slots@.take(i + 1)).drop_last() =~= texts(slots@.take(i as int)));
            assert(texts(slots@.take(i + 1)).last() == slots@[i as int]@);
        }
        if !slots[i].as_str().is_empty() {
            count = count + 1;
        }
        i = i + 1;
    }
    assert(slots@.take(slots@.len() as int) == slots@);
    count
}

/// The separator after the word at position `i`: a line break after the
/// twelfth, else a space.
pub open spec fn separator(i: int) -> char {
    if i + 1 == 12 {
        '\n'
    } else {
        ' '
    }
}

/// A laid-out phrase breaks the line after its twelfth word and nowhere
/// else: the separator after word `i` (counted from zero) is a line break
/// exactly for `i == 11`, and a space otherwise.
pub proof fn line_break_after_twelfth_word(i: int)
    requires
        i >= 0,
    ensures
        (separator(i) == '\n') <==> i == 11,
        i != 11 ==> separator(i) == ' ',
{
}

/// The filled slots, each followed by its separator.
pub open spec fn joined_slots(slots: Seq<Seq<char>>) -> Seq<char>
    decreases slots.len(),
{
    if slots.len() == 0 {
        Seq::empty()
    } else {
        let t = joined_slots(slots.drop_last());
        if slots.last().len() == 0 {
            t
        } else {
            t + slots.last() + seq![separator(slots.len() - 1)]
        }
    }
}

/// The words, each followed by its separator.
pub open spec fn joined_words(words: Seq<Seq<char>>) -> Seq<char>
    decreases words.len(),
{
    if words.len() == 0 {
        Seq::empty()
    } else {
        joined_words(words.drop_last()) + words.last() + seq![separator(words.len() - 1)]
    }
}

/// `s` without its trailing white space (`str::trim_end`).
pub open spec fn trim_end(s: Seq<char>) -> Seq<char>
    decreases s.len(),
{
    if s.len() > 0 && unicode_whitespace(s.last()) {
        trim_end(s.drop_last())
    } else {
        s
    }
}

/// `s` without its leading white space (`str::trim_start`).
pub open spec fn trim_start(s: Seq<char>) -> Seq<char>
    decreases s.len(),
{
    if s.len() > 0 && unicode_whitespace(s[0]) {
        trim_start(s.drop_first())
    } else {
        s
    }
}

fn trim_end_chars(s: &[char]) -> (n: usize)
    ensures
        n <= s@.len(),
        s@.take(n as int) == trim_end(s@),
{
    let mut n = s.len();
    assert(s@.take(n as int) == s@);
    while n > 0 && is_whitespace(s[n - 1])
        invariant
            n <= s@.len(),
            trim_end(s@.take(n as int)) == trim_end(s@),
        decreases n,
    {
        proof {
            assert(s@.take(n as int).drop_last() == s@.take(n - 1));
        }
        n = n - 1;
    }
    n
}

fn trim_start_chars(s: &[char], end: usize) -> (start: usize)
    requires
        end <= s@.len(),
    ensures
        start <= end,
        s@.subrange(start as int, end as int) == trim_start(s@.take(end as int)),
{
    let mut start: usize = 0;
    assert(s@.subrange(0, end as int) == s@.take(end as int));
    while start < end && is_whitespace(s[start])
        invariant
            start <= end,
            end <= s@.len(),
            trim_start(s@.subrange(start as int, end as int)) == trim_start(s@.take(end as int)),
        decreases end - start,
    {
        proof {
            assert(s@.subrange(start as int, end as int).drop_first() == s@.subrange(start + 1, end as int));
        }
        start = start + 1;
    }
    start
}

/// The text the field shows for the slots: the filled slots with their
/// separators, without the white space at either end (`str::trim`).
pub open spec fn slots_display(slots: Seq<Seq<char>>) -> Seq<char> {
    trim_start(trim_end(joined_slots(slots)))
}

/// The text the field shows for `slots`.
pub fn seed_display(slots: &Vec<String>) -> (text: String)
    ensures
        text@ == slots_display(texts(slots@)),
{
    let mut out: Vec<char> = Vec::new();
    let mut i: usize = 0;
    while i < slots.len()
        invariant
            i <= slots@.len(),
            out@ == joined_slots(texts(slots@.take(i as int))),
        decreases slots@.len() - i,
    {
        proof {
            assert(texts(slots@.take(i + 1)).drop_last() =~= texts(slots@.take(i as int)));
            assert(texts(slots@.take(i + 1)).last() == slots@[i as int]@);
        }
        let w = chars_of(slots[i].as_str());
        if w.len() > 0 {
            let ghost before = out@;
            let mut j: usize = 0;
            while j < w.len()
                invariant
                    j <= w@.len(),
                    out@ == before + w@.take(j as int),
                decreases w@.len() - j,
            {
                out.push(w[j]);
                proof {
                    assert(w@.take(j + 1) == w@.take(j as int).push(w@[j as int]));
                }
                j = j + 1;
            }
            proof {
                assert(w@.take(w@.len() as int) == w@);
            }
            if i + 1 == 12 {
                out.push('\n');
            } else {
                out.push(' ');
            }
        }
        i = i + 1;
    }
    assert(slots@.take(slots@.len() as int) == slots@);
    let end = trim_end_chars(out.as_slice());
    let start = trim_start_chars(out.as_slice(), end);
    let kept = crate::text::slice_chars(out.as_slice(), start, end);
    string_of(kept.as_slice())
}

/// The words as a pasted phrase is laid out: each followed by its
/// separator, without the trailing white space.
pub open spec fn pasted_display(words: Seq<Seq<char>>) -> Seq<char> {
    trim_end(joined_words(words))
}

/// The field after an input of `raw` while it showed `shown`: the slots of
/// the words of `raw`, and the text shown next, which is the laid-out
/// phrase when the input is more than ten bytes longer than what was shown
/// (a paste), else `raw` as typed.
pub open spec fn input_result(raw: Seq<char>, shown: Seq<char>) -> (Seq<Seq<char>>, Seq<char>) {
    let words = words_of(raw);
    (
        slots_of(words),
        if vstd::utf8::encode_utf8(raw).len() > vstd::utf8::encode_utf8(shown).len() + 10 {
            pasted_display(words)
        } else {
            raw
        },
    )
}

/// The slots and the shown text after an input of `raw` while the field
/// showed `shown`.
pub fn seed_input(raw: &str, shown: &str) -> (out: (Vec<String>, String))
    ensures
        (texts(out.0@), out.1@) == input_result(raw@, shown@),
{
    let words = seed_words(raw);
    let slots = seed_slots(&words);
    let raw_len = raw.as_bytes().len();
    let shown_len = shown.as_bytes().len();
    if raw_len > 10 && raw_len - 10 > shown_len {
        let mut out: Vec<char> = Vec::new();
        let mut i: usize = 0;
        while i < words.len()
            invariant
                i <= words@.len(),
                out@ == joined_words(texts(words@.take(i as int))),
            decreases words@.len() - i,
        {
            proof {
                assert(texts(words@.take(i + 1)).drop_last() =~= texts(words@.take(i as int)));
                assert(texts(words@.take(i + 1)).last() == words@[i as int]@);
            }
            let w = chars_of(words[i].as_str());
            let ghost before = out@;
            let mut j: usize = 0;
            while j < w.len()
                invariant
                    j <= w@.len(),
                    out@ == before + w@.take(j as int),
                decreases w@.len() - j,
            {
                out.push(w[j]);
                proof {
                    assert(w@.take(j + 1) == w@.take(j as int).push(w@[j as int]));
                }
                j = j + 1;
            }
            proof {
                assert(w@.take(w@.len() as int) == w@);
            }
            if i + 1 == 12 {
                out.push('\n');
            } else {
                out.push(' ');
            }
            i = i + 1;
        }
        assert(words@.take(words@.len() as int) == words@);
        let end = trim_end_chars(out.as_slice());
        let kept = crate::text::slice_chars(out.as_slice(), 0, end);
        (slots, string_of(kept.as_slice()))
    } else {
        (slots, crate::text::owned(raw))
    }
}

/// Every word is at least one character long.
proof fn lemma_words_are_filled(s: Seq<char>)
    ensures
        forall|i: int| 0 <= i < words_of(s).len() ==> #[trigger] words_of(s)[i].len() > 0,
    decreases s.len(),
{
    if s.len() > 0 {
        lemma_words_are_filled(s.drop_last());
        let w = words_of(s.drop_last());
        if !unicode_whitespace(s.last()) && s.len() >= 2 && !unicode_whitespace(s[s.len() - 2]) {
            lemma_words_nonempty(s.drop_last());
            assert(s.drop_last().last() == s[s.len() - 2]);
        }
    }
}

/// Slots filled exactly below `m` count `m`.
proof fn lemma_filled_prefix(slots: Seq<Seq<char>>, m: int)
    requires
        0 <= m <= slots.len(),
        forall|i: int| 0 <= i < slots.len() ==> (#[trigger] slots[i].len() > 0 <==> i < m),
    ensures
        filled_count(slots) == m,
    decreases slots.len(),
{
    if slots.len() > 0 {
        let rest = slots.drop_last();
        if m == slots.len() {
            lemma_filled_prefix(rest, m - 1);
        } else {
            lemma_filled_prefix(rest, m);
        }
    }
}

/// The count the field shows is the number of words typed, up to
/// twenty-four.
pub proof fn count_is_words_typed(raw: Seq<char>)
    ensures
        filled_count(slots_of(words_of(raw))) == (if words_of(raw).len() < 24 { words_of(raw).len() } else { 24 }),
{
    let w = words_of(raw);
    lemma_words_are_filled(raw);
    let m: int = if w.len() < 24 { w.len() as int } else { 24 };
    let t = slots_of(w);
    assert forall|i: int| 0 <= i < t.len() implies (#[trigger] t[i].len() > 0 <==> i < m) by {
        if i < w.len() {
            assert(w[i].len() > 0);
        }
    }
    lemma_filled_prefix(t, m);
}


/// The recovery-phrase field of a form: the word slots behind it, the text
/// it shows, and the form's error line.
pub struct SeedField {
    pub slots: Vec<String>,
    pub shown: String,
    pub error: Option<String>,
}

impl SeedField {
    /// The field over `slots`, showing them laid out, with the form's
    /// current `error`.
    pub fn from_slots(slots: Vec<String>, error: Option<String>) -> (field: SeedField)
        ensures
            field.slots@ == slots@,
            field.shown@ == slots_display(texts(slots@)),
            field.error == error,
    {
        let shown = seed_display(&slots);
        SeedField { slots, shown, error }
    }

    /// An input of `raw` into the field: the slots and the shown text
    /// follow `input_result`, and the form's error line is cleared.
    pub fn input(&mut self, raw: &str)
        ensures
            (texts(final(self).slots@), final(self).shown@) == input_result(raw@, old(self).shown@),
            final(self).error is None,
    {
        let (slots, shown) = seed_input(raw, self.shown.as_str());
        self.slots = slots;
        self.shown = shown;
        self.error = None;
    }

    /// How many slots of the field hold a word.
    pub fn word_count(&self) -> (count: usize)
        ensures
            count as nat == filled_count(texts(self.slots@)),
    {
        seed_word_count(&self.slots)
    }
}

} // verus!
