//! Laws on what stands on the wire: which token a request carries, and which cookie a
//! text is.
//!
//! They speak of the calls themselves, in terms of the characters that go in and come
//! out.

use crate::cookies::{
    bearer_token, cookie_pairs, extract_cookie, extract_token, first_value, lemma_first_value_append,
    pair_value, text_view,
};
use crate::headers::{is_text, text_of, values_of};
use crate::laws::cookies::first_pair_wins;
use crate::text::{
    decimal, decimal_text, digit, find_from, is_all_blank, is_tight, lemma_position,
    lemma_position_at, lemma_trim_padded, position, same_text, split, trim, trim_end, trim_start,
    trimmed, IntoText,
};
use axum::http::{HeaderMap, HeaderValue};
use vstd::prelude::*;

verus! {

/// Whether a text is nothing but spaces and tabs.
pub open spec fn is_padding(text: Seq<char>) -> bool {
    forall|i: int| 0 <= i < text.len() ==> #[trigger] text[i] == ' ' || text[i] == '\t'
}

/// Whether a text neither starts nor ends with a space or a tab.
pub open spec fn is_bare(text: Seq<char>) -> bool {
    text.len() > 0 ==> text[0] != ' ' && text[0] != '\t' && text.last() != ' ' && text.last()
        != '\t'
}

/// Whether a text is another one with spaces and tabs around it, and no more of them can
/// be taken off.
pub open spec fn is_padded(text: Seq<char>, inner: Seq<char>) -> bool {
    is_bare(inner) && exists|lead: Seq<char>, trail: Seq<char>|
        #[trigger] is_padding(lead) && #[trigger] is_padding(trail) && text == lead + inner
            + trail
}

/// Whether a text has no such character.
pub open spec fn lacks(text: Seq<char>, c: char) -> bool {
    forall|i: int| 0 <= i < text.len() ==> #[trigger] text[i] != c
}

/// Texts with a separator between them.
pub open spec fn joined(pieces: Seq<Seq<char>>, sep: char) -> Seq<char>
    decreases pieces.len(),
{
    if pieces.len() == 0 {
        Seq::empty()
    } else if pieces.len() == 1 {
        pieces[0]
    } else {
        pieces[0] + seq![sep] + joined(pieces.skip(1), sep)
    }
}

/// Whether these are the pieces of a text between the separators.
pub open spec fn are_pieces(text: Seq<char>, pieces: Seq<Seq<char>>, sep: char) -> bool {
    &&& pieces.len() > 0
    &&& forall|i: int| 0 <= i < pieces.len() ==> lacks(#[trigger] pieces[i], sep)
    &&& joined(pieces, sep) == text
}

/// Whether a pair says that a name has a value: they stand before and after its first
/// equals sign, with any spaces and tabs around them.
pub open spec fn says(pair: Seq<char>, name: Seq<char>, value: Seq<char>) -> bool {
    exists|left: Seq<char>, right: Seq<char>|
        lacks(left, '=') && #[trigger] is_padded(left, name) && #[trigger] is_padded(
            right,
            value,
        ) && pair == left + seq!['='] + right
}

/// Whether a pair has a name.
pub open spec fn has_name(pair: Seq<char>, name: Seq<char>) -> bool {
    exists|value: Seq<char>| #[trigger] says(pair, name, value)
}

/// The number that decimal digits spell.
pub open spec fn number(digits: Seq<char>) -> nat
    decreases digits.len(),
{
    if digits.len() == 0 {
        0
    } else {
        10 * number(digits.drop_last()) + (digits.last() as nat - '0' as nat) as nat
    }
}

/// Whether a text is a number in decimal without needless zeros.
pub open spec fn is_decimal(text: Seq<char>, n: nat) -> bool {
    &&& text.len() > 0
    &&& forall|i: int| 0 <= i < text.len() ==> '0' <= #[trigger] text[i] <= '9'
    &&& text[0] == '0' ==> text.len() == 1
    &&& number(text) == n
}

proof fn lemma_trim_start_pads(s: Seq<char>) -> (lead: Seq<char>)
    ensures
        is_padding(lead),
        s == lead + trim_start(s),
        trim_start(s).len() > 0 ==> trim_start(s)[0] != ' ' && trim_start(s)[0] != '\t',
    decreases s.len(),
{
    if s.len() > 0 && (s[0] == ' ' || s[0] == '\t') {
        let rest = lemma_trim_start_pads(s.skip(1));
        let lead = seq![s[0]] + rest;
        assert(s =~= seq![s[0]] + s.skip(1));
        assert(s =~= lead + trim_start(s));
        lead
    } else {
        assert(s =~= Seq::<char>::empty() + s);
        Seq::empty()
    }
}

proof fn lemma_trim_end_pads(s: Seq<char>) -> (trail: Seq<char>)
    ensures
        is_padding(trail),
        s == trim_end(s) + trail,
        trim_end(s).len() > 0 ==> trim_end(s).last() != ' ' && trim_end(s).last() != '\t',
    decreases s.len(),
{
    if s.len() > 0 && (s.last() == ' ' || s.last() == '\t') {
        let rest = lemma_trim_end_pads(s.drop_last());
        let trail = rest + seq![s.last()];
        assert(s =~= s.drop_last() + seq![s.last()]);
        assert(s =~= trim_end(s) + trail);
        trail
    } else {
        assert(s =~= s + Seq::<char>::empty());
        Seq::empty()
    }
}

/// What trimming leaves is what a text is around which there are spaces and tabs.
proof fn lemma_trimmed_is_padded(s: Seq<char>)
    ensures
        is_padded(s, trimmed(s)),
{
    let start = trim_start(s);
    let lead = lemma_trim_start_pads(s);
    let trail = lemma_trim_end_pads(start);
    let inner = trimmed(s);
    assert(start == inner + trail);
    if inner.len() > 0 {
        assert(inner[0] == start[0]);
    }
    assert(s =~= lead + inner + trail);
}

proof fn lemma_padded_is_trimmed(s: Seq<char>, inner: Seq<char>)
    requires
        is_padded(s, inner),
    ensures
        trimmed(s) == inner,
{
    let (lead, trail) = choose|lead: Seq<char>, trail: Seq<char>|
        #[trigger] is_padding(lead) && #[trigger] is_padding(trail) && s == lead + inner + trail;
    assert(is_all_blank(lead));
    assert(is_all_blank(trail));
    assert(is_tight(inner));
    lemma_trim_padded(lead, inner, trail);
}

proof fn lemma_split_is_pieces(s: Seq<char>, sep: char)
    ensures
        are_pieces(s, split(s, sep), sep),
    decreases s.len(),
{
    let at = position(s, sep) as int;
    lemma_position(s, sep);
    let pieces = split(s, sep);
    if at < s.len() {
        let rest = s.skip(at + 1);
        lemma_split_is_pieces(rest, sep);
        assert(pieces.skip(1) =~= split(rest, sep));
        assert(s =~= s.take(at) + seq![sep] + rest);
        assert forall|i: int| 0 <= i < pieces.len() implies lacks(#[trigger] pieces[i], sep) by {
            if i > 0 {
                assert(pieces[i] == split(rest, sep)[i - 1]);
            }
        }
    }
}

pub(crate) proof fn lemma_pieces_are_split(s: Seq<char>, pieces: Seq<Seq<char>>, sep: char)
    requires
        are_pieces(s, pieces, sep),
    ensures
        pieces == split(s, sep),
    decreases pieces.len(),
{
    let first = pieces[0];
    assert(lacks(first, sep));
    if pieces.len() == 1 {
        lemma_position_at(s, sep, s.len() as int);
        assert(pieces =~= split(s, sep));
    } else {
        let rest = pieces.skip(1);
        let tail = joined(rest, sep);
        assert forall|i: int| 0 <= i < rest.len() implies lacks(#[trigger] rest[i], sep) by {
            assert(rest[i] == pieces[i + 1]);
        }
        lemma_pieces_are_split(tail, rest, sep);
        assert(s == first + seq![sep] + tail);
        assert forall|i: int| 0 <= i < first.len() implies s[i] != sep by {
            assert(s[i] == first[i]);
        }
        lemma_position_at(s, sep, first.len() as int);
        assert(s.take(first.len() as int) =~= first);
        assert(s.skip(first.len() as int + 1) =~= tail);
        assert(pieces =~= split(s, sep));
    }
}

proof fn lemma_value_is_said(pair: Seq<char>, name: Seq<char>)
    ensures
        pair_value(pair, name) matches Some(value) ==> says(pair, name, value),
        pair_value(pair, name) is None ==> !has_name(pair, name),
{
    let at = position(pair, '=') as int;
    lemma_position(pair, '=');
    if let Some(value) = pair_value(pair, name) {
        let left = pair.take(at);
        let right = pair.skip(at + 1);
        lemma_trimmed_is_padded(left);
        lemma_trimmed_is_padded(right);
        assert(pair =~= left + seq!['='] + right);
        assert(lacks(left, '='));
        assert(says(pair, name, value));
    } else if has_name(pair, name) {
        let value = choose|value: Seq<char>| #[trigger] says(pair, name, value);
        lemma_said_is_value(pair, name, value);
    }
}

proof fn lemma_said_is_value(pair: Seq<char>, name: Seq<char>, value: Seq<char>)
    requires
        says(pair, name, value),
    ensures
        pair_value(pair, name) == Some(value),
{
    let (left, right) = choose|left: Seq<char>, right: Seq<char>|
        lacks(left, '=') && #[trigger] is_padded(left, name) && #[trigger] is_padded(
            right,
            value,
        ) && pair == left + seq!['='] + right;
    assert forall|i: int| 0 <= i < left.len() implies pair[i] != '=' by {
        assert(pair[i] == left[i]);
    }
    lemma_position_at(pair, '=', left.len() as int);
    assert(pair.take(left.len() as int) =~= left);
    assert(pair.skip(left.len() as int + 1) =~= right);
    lemma_padded_is_trimmed(left, name);
    lemma_padded_is_trimmed(right, value);
}

/// Trimming a text takes all spaces and tabs off either end, and nothing else.
pub proof fn trim_takes_off_the_padding(s: &str, r: &str)
    requires
        call_ensures(trim, (s,), r),
    ensures
        is_padded(s@, r@),
{
    lemma_trimmed_is_padded(s@);
}

/// Finding a character from a place on gives the first place with it, or the end.
pub proof fn first_place_is_found(s: &str, c: char, from: usize, r: usize)
    requires
        call_ensures(find_from, (s, c, from), r),
    ensures
        from <= r <= s@.len(),
        lacks(s@.subrange(from as int, r as int), c),
        r == s@.len() || s@[r as int] == c,
{
}

/// Two texts are told to be the same exactly if they have the same characters.
pub proof fn same_texts_are_equal(a: &str, b: &str, r: bool)
    requires
        call_ensures(same_text, (a, b), r),
    ensures
        r <==> a@.len() == b@.len() && forall|i: int| 0 <= i < a@.len() ==> a@[i] == b@[i],
{
    if a@.len() == b@.len() && forall|i: int| 0 <= i < a@.len() ==> a@[i] == b@[i] {
        assert(a@ =~= b@);
    }
}

pub(crate) proof fn lemma_decimal(n: nat)
    ensures
        is_decimal(decimal(n), n),
    decreases n,
{
    let last = digit(n % 10);
    assert('0' <= last <= '9' && last as nat - '0' as nat == n % 10);
    if n < 10 {
        assert(decimal(n).drop_last() =~= Seq::<char>::empty());
        assert(number(decimal(n).drop_last()) == 0);
    } else {
        lemma_decimal(n / 10);
        let all = decimal(n);
        assert(all.drop_last() =~= decimal(n / 10));
        assert(all[0] == decimal(n / 10)[0]);
        if all[0] == '0' {
            assert(decimal(n / 10).len() == 1);
            assert(decimal(n / 10).drop_last() =~= Seq::<char>::empty());
            assert(number(Seq::<char>::empty()) == 0);
            assert(number(decimal(n / 10)) == 0);
        }
    }
}

proof fn lemma_number_is_positive(digits: Seq<char>)
    requires
        digits.len() > 0,
        forall|i: int| 0 <= i < digits.len() ==> '0' <= #[trigger] digits[i] <= '9',
        digits[0] != '0',
    ensures
        number(digits) > 0,
    decreases digits.len(),
{
    if digits.len() > 1 {
        lemma_number_is_positive(digits.drop_last());
    } else {
        assert(digits.last() == digits[0]);
    }
}

/// A number has one decimal form only.
pub(crate) proof fn lemma_decimal_is_unique(text: Seq<char>, n: nat)
    requires
        is_decimal(text, n),
    ensures
        text == decimal(n),
    decreases text.len(),
{
    let front = text.drop_last();
    let d = (text.last() as nat - '0' as nat) as nat;
    assert('0' <= text.last() <= '9');
    assert(n == 10 * number(front) + d);
    assert(n % 10 == d && n / 10 == number(front));
    assert(digit(d) == text.last());
    if text.len() == 1 {
        assert(front =~= Seq::<char>::empty());
        assert(number(front) == 0);
        assert(text =~= decimal(n));
    } else {
        assert(forall|i: int| 0 <= i < front.len() ==> front[i] == text[i]);
        lemma_number_is_positive(front);
        lemma_decimal_is_unique(front, n / 10);
        assert(text =~= front.push(text.last()));
        assert(text =~= decimal(n));
    }
}

/// The decimal form of a number spells that number, without needless zeros.
pub proof fn decimal_form_spells_the_number(n: u64, r: String)
    requires
        call_ensures(decimal_text, (n,), r),
    ensures
        is_decimal(r@, n as nat),
{
    lemma_decimal(n as nat);
}

/// The form of a text that is handed over has the characters of the text.
pub proof fn text_is_handed_over(
    literal: &str,
    owned: String,
    borrowed: &String,
    boxed: Box<str>,
    maybe_owned: std::borrow::Cow<'_, str>,
    c: char,
    r: String,
)
    ensures
        call_ensures(<&str as IntoText>::into_text, (literal,), r) ==> r@ == literal@,
        call_ensures(<String as IntoText>::into_text, (owned,), r) ==> r@ == owned@,
        call_ensures(<&String as IntoText>::into_text, (borrowed,), r) ==> r@ == borrowed@,
        call_ensures(<Box<str> as IntoText>::into_text, (boxed,), r) ==> r@ == boxed@,
        call_ensures(<std::borrow::Cow<'_, str> as IntoText>::into_text, (maybe_owned,), r) ==> r@
            == maybe_owned@,
        call_ensures(<char as IntoText>::into_text, (c,), r) ==> r@ == seq![c],
{
}

/// The form of a text that is handed over by a mutable reference has its characters.
pub proof fn mutable_text_is_handed_over(text: &mut str, r: String)
    requires
        call_ensures(<&mut str as IntoText>::into_text, (text,), r),
    ensures
        r@ == (*old(text))@,
{
}

/// Whether these are the pairs of `Cookie` headers, by header: the pieces of its text
/// between the semicolons, and none of a header that is not text.
pub open spec fn are_pairs_of(values: Seq<Seq<u8>>, groups: Seq<Seq<Seq<char>>>) -> bool {
    &&& groups.len() == values.len()
    &&& forall|i: int|
        0 <= i < values.len() ==> if is_text(#[trigger] values[i]) {
            are_pieces(text_of(values[i]), groups[i], ';')
        } else {
            groups[i].len() == 0
        }
}

/// Every `Cookie` headers have pairs, and no others than these.
pub proof fn headers_have_one_list_of_pairs(
    values: Seq<Seq<u8>>,
    other: Seq<Seq<Seq<char>>>,
) -> (groups: Seq<Seq<Seq<char>>>)
    ensures
        are_pairs_of(values, groups),
        are_pairs_of(values, other) ==> other == groups,
{
    let groups = Seq::new(
        values.len(),
        |i: int|
            if is_text(values[i]) {
                split(text_of(values[i]), ';')
            } else {
                seq![]
            },
    );
    assert forall|i: int| 0 <= i < values.len() implies if is_text(#[trigger] values[i]) {
        are_pieces(text_of(values[i]), groups[i], ';')
    } else {
        groups[i].len() == 0
    } by {
        lemma_split_is_pieces(text_of(values[i]), ';');
    }
    if are_pairs_of(values, other) {
        assert forall|i: int| 0 <= i < values.len() implies other[i] == groups[i] by {
            assert(is_text(values[i]) || !is_text(values[i]));
            if is_text(values[i]) {
                lemma_pieces_are_split(text_of(values[i]), other[i], ';');
            } else {
                assert(other[i] =~= groups[i]);
            }
        }
        assert(other =~= groups);
    }
    groups
}

/// Whether a pair stands before another one.
pub open spec fn is_earlier(i: int, j: int, than_i: int, than_j: int) -> bool {
    i < than_i || i == than_i && j < than_j
}

/// Whether the pair at a place is the first one with a name, and says that it has a
/// value.
pub open spec fn is_first_with(
    groups: Seq<Seq<Seq<char>>>,
    i: int,
    j: int,
    name: Seq<char>,
    value: Seq<char>,
) -> bool {
    &&& 0 <= i < groups.len()
    &&& 0 <= j < groups[i].len()
    &&& says(groups[i][j], name, value)
    &&& forall|k: int, l: int|
        0 <= k < groups.len() && 0 <= l < groups[k].len() && is_earlier(k, l, i, j) ==> !has_name(
            #[trigger] groups[k][l],
            name,
        )
}

proof fn lemma_first_of_groups(
    values: Seq<Seq<u8>>,
    groups: Seq<Seq<Seq<char>>>,
    name: Seq<char>,
)
    requires
        are_pairs_of(values, groups),
    ensures
        match first_value(cookie_pairs(values), name) {
            Some(value) => exists|i: int, j: int| #[trigger]
                is_first_with(groups, i, j, name, value),
            None => forall|i: int, j: int|
                0 <= i < groups.len() && 0 <= j < groups[i].len() ==> !has_name(
                    #[trigger] groups[i][j],
                    name,
                ),
        },
    decreases values.len(),
{
    if values.len() > 0 {
        let rest = values.skip(1);
        let rest_groups = groups.skip(1);
        assert forall|i: int| 0 <= i < rest.len() implies if is_text(#[trigger] rest[i]) {
            are_pieces(text_of(rest[i]), rest_groups[i], ';')
        } else {
            rest_groups[i].len() == 0
        } by {
            assert(rest[i] == values[i + 1]);
            assert(rest_groups[i] == groups[i + 1]);
        }
        lemma_first_of_groups(rest, rest_groups, name);
        let here = groups[0];
        assert(is_text(values[0]) ==> are_pieces(text_of(values[0]), here, ';'));
        if is_text(values[0]) {
            lemma_pieces_are_split(text_of(values[0]), here, ';');
        }
        assert(is_text(values[0]) ==> cookie_pairs(values) == here + cookie_pairs(rest));
        assert(!is_text(values[0]) ==> cookie_pairs(values) == cookie_pairs(rest));
        if !is_text(values[0]) {
            assert(here.len() == 0);
            assert(here + cookie_pairs(rest) =~= cookie_pairs(rest));
        }
        lemma_first_value_append(here, cookie_pairs(rest), name);
        first_pair_wins(here, name);
        assert forall|j: int| 0 <= j < here.len() && pair_value(here[j], name)
            is None implies !has_name(#[trigger] here[j], name) by {
            lemma_value_is_said(here[j], name);
        }
        if let Some(value) = first_value(here, name) {
            let j = choose|j: int|
                0 <= j < here.len() && pair_value(#[trigger] here[j], name) == Some(value) && (
                forall|l: int| 0 <= l < j ==> pair_value(#[trigger] here[l], name) is None);
            lemma_value_is_said(here[j], name);
            assert forall|k: int, l: int|
                0 <= k < groups.len() && 0 <= l < groups[k].len() && is_earlier(
                    k,
                    l,
                    0,
                    j,
                ) implies !has_name(#[trigger] groups[k][l], name) by {
                assert(groups[k][l] == here[l]);
            }
            assert(is_first_with(groups, 0, j, name, value));
        } else if let Some(value) = first_value(cookie_pairs(rest), name) {
            let (i, j) = choose|i: int, j: int| #[trigger]
                is_first_with(rest_groups, i, j, name, value);
            assert(rest_groups[i] == groups[i + 1]);
            assert forall|k: int, l: int|
                0 <= k < groups.len() && 0 <= l < groups[k].len() && is_earlier(
                    k,
                    l,
                    i + 1,
                    j,
                ) implies !has_name(#[trigger] groups[k][l], name) by {
                if k == 0 {
                    assert(groups[k][l] == here[l]);
                } else {
                    assert(groups[k][l] == rest_groups[k - 1][l]);
                }
            }
            assert(is_first_with(groups, i + 1, j, name, value));
        } else {
            assert forall|i: int, j: int|
                0 <= i < groups.len() && 0 <= j < groups[i].len() implies !has_name(
                #[trigger] groups[i][j],
                name,
            ) by {
                if i == 0 {
                    assert(groups[i][j] == here[j]);
                } else {
                    assert(groups[i][j] == rest_groups[i - 1][j]);
                }
            }
        }
    }
}

/// The cookie that is read from a request is that of the first pair with its name, over
/// all `Cookie` headers in order; there is none exactly if no pair has the name.
pub proof fn first_cookie_is_read(
    headers: &HeaderMap<HeaderValue>,
    name: &str,
    groups: Seq<Seq<Seq<char>>>,
    value: Option<String>,
)
    requires
        are_pairs_of(values_of(*headers, "cookie"@), groups),
        call_ensures(extract_cookie, (headers, name), value),
    ensures
        match value {
            Some(value) => exists|i: int, j: int| #[trigger]
                is_first_with(groups, i, j, name@, value@),
            None => forall|i: int, j: int|
                0 <= i < groups.len() && 0 <= j < groups[i].len() ==> !has_name(
                    #[trigger] groups[i][j],
                    name@,
                ),
        },
{
    lemma_first_of_groups(values_of(*headers, "cookie"@), groups, name@);
}

/// The token that a request carries is its cookie, if it has it, and else what follows
/// `Bearer` and a space in its first `Authorization` header, if that is text and starts
/// with them.
pub proof fn token_is_cookie_or_bearer(
    headers: &HeaderMap<HeaderValue>,
    name: &str,
    cookie: Option<String>,
    token: Option<String>,
)
    requires
        call_ensures(extract_cookie, (headers, name), cookie),
        call_ensures(extract_token, (headers, name), token),
    ensures
        cookie matches Some(value) ==> token matches Some(t) && t@ == value@,
        cookie is None ==> match token {
            Some(t) => {
                &&& values_of(*headers, "authorization"@).len() > 0
                &&& is_text(values_of(*headers, "authorization"@)[0])
                &&& exists|said: Seq<char>|
                    #![trigger is_padded(said, t@)]
                    is_padded(said, t@) && text_of(values_of(*headers, "authorization"@)[0])
                        == seq!['B', 'e', 'a', 'r', 'e', 'r', ' '] + said
            },
            None => {
                ||| values_of(*headers, "authorization"@).len() == 0
                ||| !is_text(values_of(*headers, "authorization"@)[0])
                ||| !seq!['B', 'e', 'a', 'r', 'e', 'r', ' '].is_prefix_of(
                    text_of(values_of(*headers, "authorization"@)[0]),
                )
            },
        },
{
    reveal_strlit("Bearer ");
    let scheme = seq!['B', 'e', 'a', 'r', 'e', 'r', ' '];
    assert("Bearer "@ =~= scheme);
    if cookie is None && token is Some {
        assert(text_view(token) == bearer_token(*headers));
        let text = text_of(values_of(*headers, "authorization"@)[0]);
        let said = text.skip(7);
        assert(text =~= scheme + said);
        lemma_trimmed_is_padded(said);
        assert(is_padded(said, token->0@));
    }
}

} // verus!
