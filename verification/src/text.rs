//! Text on the wire: trimming, splitting and decimal numbers.

use vstd::prelude::*;
use vstd::string::*;

verus! {

/// The blanks that can occur in a header's visible text.
pub open spec fn is_blank(c: char) -> bool {
    c == ' ' || c == '\t'
}

/// `s` without the blanks at its start.
pub open spec fn trim_start(s: Seq<char>) -> Seq<char>
    decreases s.len(),
{
    if s.len() > 0 && is_blank(s[0]) {
        trim_start(s.skip(1))
    } else {
        s
    }
}

/// `s` without the blanks at its end.
pub open spec fn trim_end(s: Seq<char>) -> Seq<char>
    decreases s.len(),
{
    if s.len() > 0 && is_blank(s.last()) {
        trim_end(s.drop_last())
    } else {
        s
    }
}

/// `s` without the blanks at either end.
pub open spec fn trimmed(s: Seq<char>) -> Seq<char> {
    trim_end(trim_start(s))
}

/// Where `c` first occurs in `s`; the length of `s` when it does not.
pub open spec fn position(s: Seq<char>, c: char) -> nat
    decreases s.len(),
{
    if s.len() == 0 || s[0] == c {
        0
    } else {
        1 + position(s.skip(1), c)
    }
}

/// The pieces of `s` between the occurrences of `sep`.
pub open spec fn split(s: Seq<char>, sep: char) -> Seq<Seq<char>>
    decreases s.len(),
{
    let at = position(s, sep);
    if at < s.len() {
        seq![s.take(at as int)] + split(s.skip(at as int + 1), sep)
    } else {
        seq![s]
    }
}

/// The decimal digit for `d`.
pub open spec fn digit(d: nat) -> char
    recommends
        d < 10,
{
    (('0' as nat) + d) as char
}

/// `n` in decimal, without leading zeros.
pub open spec fn decimal(n: nat) -> Seq<char>
    decreases n,
{
    if n < 10 {
        seq![digit(n)]
    } else {
        decimal(n / 10).push(digit(n % 10))
    }
}

/// Before `position`, nothing equals `c`; at it, `c` stands.
pub proof fn lemma_position(s: Seq<char>, c: char)
    ensures
        position(s, c) <= s.len(),
        forall|i: int| 0 <= i < position(s, c) ==> s[i] != c,
        position(s, c) < s.len() ==> s[position(s, c) as int] == c,
    decreases s.len(),
{
    if s.len() > 0 && s[0] != c {
        lemma_position(s.skip(1), c);
        assert forall|i: int| 0 <= i < position(s, c) implies s[i] != c by {
            if i > 0 {
                assert(s.skip(1)[i - 1] == s[i]);
            }
        }
    }
}

/// `position` is the only index with the two properties of `lemma_position`.
pub proof fn lemma_position_at(s: Seq<char>, c: char, at: int)
    requires
        0 <= at <= s.len(),
        forall|i: int| 0 <= i < at ==> s[i] != c,
        at < s.len() ==> s[at] == c,
    ensures
        position(s, c) == at,
{
    lemma_position(s, c);
    let p = position(s, c) as int;
    if p < at {
        assert(s[p] != c);
    } else if at < p {
        assert(s[at] != c);
    }
}

/// Dropping the first `n` characters, all of them blank, changes no trimming.
proof fn lemma_trim_start_at(s: Seq<char>, n: int)
    requires
        0 <= n <= s.len(),
        forall|i: int| 0 <= i < n ==> is_blank(s[i]),
        n < s.len() ==> !is_blank(s[n]),
    ensures
        trim_start(s) == s.skip(n),
    decreases n,
{
    if n > 0 {
        assert(is_blank(s[0]));
        assert forall|i: int| 0 <= i < n - 1 implies is_blank(s.skip(1)[i]) by {
            assert(s.skip(1)[i] == s[i + 1]);
        }
        lemma_trim_start_at(s.skip(1), n - 1);
        assert(s.skip(1).skip(n - 1) =~= s.skip(n));
    } else {
        assert(s.skip(0) =~= s);
    }
}

proof fn lemma_trim_end_at(s: Seq<char>, n: int)
    requires
        0 <= n <= s.len(),
        forall|i: int| n <= i < s.len() ==> is_blank(s[i]),
        n > 0 ==> !is_blank(s[n - 1]),
    ensures
        trim_end(s) == s.take(n),
    decreases s.len(),
{
    if n < s.len() {
        assert(is_blank(s.last()));
        lemma_trim_end_at(s.drop_last(), n);
        assert(s.drop_last().take(n) =~= s.take(n));
    } else {
        assert(s.take(n) =~= s);
    }
}

/// Whether a text neither starts nor ends with a blank.
pub open spec fn is_tight(s: Seq<char>) -> bool {
    s.len() > 0 ==> !is_blank(s[0]) && !is_blank(s.last())
}

/// Whether a text is nothing but blanks.
pub open spec fn is_all_blank(s: Seq<char>) -> bool {
    forall|i: int| 0 <= i < s.len() ==> is_blank(#[trigger] s[i])
}

/// Trimming takes off the blanks around a text.
pub proof fn lemma_trim_padded(lead: Seq<char>, s: Seq<char>, trail: Seq<char>)
    requires
        is_tight(s),
        is_all_blank(lead),
        is_all_blank(trail),
    ensures
        trimmed(lead + s + trail) == s,
{
    let all = lead + s + trail;
    if s.len() == 0 {
        assert(forall|i: int| 0 <= i < all.len() ==> is_blank(all[i]));
        lemma_trim_start_at(all, all.len() as int);
        assert(all.skip(all.len() as int) =~= s);
    } else {
        let n = lead.len() as int;
        assert(all[n] == s[0]);
        lemma_trim_start_at(all, n);
        let rest = all.skip(n);
        assert(rest =~= s + trail);
        assert forall|i: int| s.len() <= i < rest.len() implies is_blank(rest[i]) by {
            assert(rest[i] == trail[i - s.len()]);
        }
        assert(rest[s.len() - 1] == s.last());
        lemma_trim_end_at(rest, s.len() as int);
        assert(rest.take(s.len() as int) =~= s);
    }
}

/// The pieces of two texts with the separator between them are those of the one
/// and then those of the other.
pub proof fn lemma_split_joined(a: Seq<char>, b: Seq<char>, sep: char)
    ensures
        split(a + seq![sep] + b, sep) == split(a, sep) + split(b, sep),
    decreases a.len(),
{
    let all = a + seq![sep] + b;
    let at = position(a, sep) as int;
    lemma_position(a, sep);
    assert forall|i: int| 0 <= i < at implies all[i] != sep by {
        assert(all[i] == a[i]);
    }
    if at < a.len() {
        assert(all[at] == a[at]);
        lemma_position_at(all, sep, at);
        let rest = a.skip(at + 1);
        lemma_split_joined(rest, b, sep);
        assert(all.skip(at + 1) =~= rest + seq![sep] + b);
        assert(all.take(at) =~= a.take(at));
        assert(split(all, sep) =~= split(a, sep) + split(b, sep));
    } else {
        assert(all[at] == sep);
        lemma_position_at(all, sep, at);
        assert(all.skip(at + 1) =~= b);
        assert(all.take(at) =~= a);
        assert(split(all, sep) =~= split(a, sep) + split(b, sep));
    }
}

/// `s` without the blanks at either end.
pub fn trim(s: &str) -> (r: &str)
    requires
        s.is_ascii(),
    ensures
        r@ == trimmed(s@),
        r.is_ascii(),
{
    let n: usize = s.unicode_len();
    let mut from: usize = 0;
    while from < n && (s.get_ascii(from) == 32 || s.get_ascii(from) == 9)
        invariant
            s.is_ascii(),
            n == s@.len(),
            from <= n,
            forall|i: int| 0 <= i < from ==> is_blank(s@[i]),
        decreases n - from,
    {
        from = from + 1;
    }
    proof {
        lemma_trim_start_at(s@, from as int);
    }
    let ghost rest = s@.skip(from as int);
    let mut to: usize = n;
    while from < to && (s.get_ascii(to - 1) == 32 || s.get_ascii(to - 1) == 9)
        invariant
            s.is_ascii(),
            n == s@.len(),
            from <= to <= n,
            rest == s@.skip(from as int),
            forall|i: int| to - from <= i < rest.len() ==> is_blank(rest[i]),
        decreases to,
    {
        to = to - 1;
        assert(rest[to - from] == s@[to as int]);
    }
    proof {
        if from < to {
            assert(rest[to - from - 1] == s@[to - 1]);
        }
        lemma_trim_end_at(rest, to - from);
        assert(rest.take(to - from) =~= s@.subrange(from as int, to as int));
    }
    s.substring_ascii(from, to)
}

/// Where the byte of `c` first occurs in `s` at or after `from`; the length of
/// `s` when it does not.
pub fn find_from(s: &str, c: char, from: usize) -> (r: usize)
    requires
        s.is_ascii(),
        (c as u32) < 128,
        from <= s@.len(),
    ensures
        r == from + position(s@.skip(from as int), c),
        from <= r <= s@.len(),
        forall|i: int| from <= i < r ==> s@[i] != c,
        r < s@.len() ==> s@[r as int] == c,
{
    let n: usize = s.unicode_len();
    let b: u8 = c as u8;
    let mut at: usize = from;
    while at < n && s.get_ascii(at) != b
        invariant
            s.is_ascii(),
            (c as u32) < 128,
            b == c as u8,
            n == s@.len(),
            from <= at <= n,
            forall|i: int| from <= i < at ==> s@[i] != c,
        decreases n - at,
    {
        at = at + 1;
    }
    proof {
        let rest = s@.skip(from as int);
        assert forall|i: int| 0 <= i < at - from implies rest[i] != c by {
            assert(rest[i] == s@[from + i]);
        }
        lemma_position_at(rest, c, at - from);
    }
    at
}

/// Whether two texts are the same.
pub fn same_text(a: &str, b: &str) -> (r: bool)
    ensures
        r == (a@ == b@),
{
    a.to_owned() == b.to_owned()
}

/// A text that can be handed over as a `String`.
pub trait IntoText: Sized {
    /// The characters of the text.
    spec fn characters(self) -> Seq<char>;

    /// The text as a `String`.
    fn into_text(self) -> (text: String)
        ensures
            text@ == self.characters(),
    ;
}

impl IntoText for String {
    open spec fn characters(self) -> Seq<char> {
        self@
    }

    fn into_text(self) -> (text: String) {
        self
    }
}

impl IntoText for &str {
    open spec fn characters(self) -> Seq<char> {
        self@
    }

    fn into_text(self) -> (text: String) {
        self.to_owned()
    }
}

impl IntoText for &String {
    open spec fn characters(self) -> Seq<char> {
        self@
    }

    fn into_text(self) -> (text: String) {
        self.clone()
    }
}

impl IntoText for &mut str {
    open spec fn characters(self) -> Seq<char> {
        (*self)@
    }

    fn into_text(self) -> (text: String) {
        (*self).to_owned()
    }
}

impl IntoText for Box<str> {
    open spec fn characters(self) -> Seq<char> {
        self@
    }

    fn into_text(self) -> (text: String) {
        (*self).to_owned()
    }
}

impl<'a> IntoText for std::borrow::Cow<'a, str> {
    open spec fn characters(self) -> Seq<char> {
        self@
    }

    fn into_text(self) -> (text: String) {
        match self {
            std::borrow::Cow::Borrowed(text) => text.to_owned(),
            std::borrow::Cow::Owned(text) => text,
        }
    }
}

/// `String::push` adds a character to the end of a text.
pub assume_specification[ String::push ](text: &mut String, ch: char)
    ensures
        final(text)@ == old(text)@.push(ch),
;

impl IntoText for char {
    open spec fn characters(self) -> Seq<char> {
        seq![self]
    }

    fn into_text(self) -> (text: String) {
        let mut text = String::new();
        text.push(self);
        text
    }
}

fn digit_text(d: u64) -> (r: &'static str)
    requires
        d < 10,
    ensures
        r@ == seq![digit(d as nat)],
{
    proof {
        reveal_strlit("0");
        reveal_strlit("1");
        reveal_strlit("2");
        reveal_strlit("3");
        reveal_strlit("4");
        reveal_strlit("5");
        reveal_strlit("6");
        reveal_strlit("7");
        reveal_strlit("8");
        reveal_strlit("9");
    }
    match d {
        0 => "0",
        1 => "1",
        2 => "2",
        3 => "3",
        4 => "4",
        5 => "5",
        6 => "6",
        7 => "7",
        8 => "8",
        _ => "9",
    }
}

/// `n` in decimal.
pub fn decimal_text(n: u64) -> (r: String)
    ensures
        r@ == decimal(n as nat),
    decreases n,
{
    if n < 10 {
        digit_text(n).to_owned()
    } else {
        let mut s = decimal_text(n / 10);
        s.append(digit_text(n % 10));
        proof {
            assert(decimal((n / 10) as nat) + seq![digit((n % 10) as nat)] =~= decimal(
                (n / 10) as nat,
            ).push(digit((n % 10) as nat)));
        }
        s
    }
}

} // verus!
