//! Laws on cookies: what a request gives back of what a response set.

use crate::claims::TokenKind;
use crate::clock::whole_seconds;
use crate::cookies::{
    bearer_token, cookie_pairs, cookie_value, first_value, pair_value, request_token,
};
use crate::headers::{is_header_text, is_permitted, is_text, text_of, values_of};
use crate::jwt::{set_cookie, JwtConfig};
use crate::manager::{carrying, removing};
use crate::text::{
    decimal, digit, is_all_blank, is_blank, is_tight, lemma_position_at, lemma_split_joined,
    lemma_trim_padded, split,
};
use crate::token::{is_compact, is_token_char};
use axum::http::{HeaderMap, HeaderValue};
use vstd::prelude::*;
use vstd::utf8::{encode_utf8, is_ascii_chars, is_ascii_chars_encode_utf8};

verus! {

/// A name that a cookie can be found by: it has neither of the separators, and no
/// blank at either end.
pub open spec fn is_cookie_name(name: Seq<char>) -> bool {
    &&& is_tight(name)
    &&& forall|i: int| 0 <= i < name.len() ==> #[trigger] name[i] != '=' && name[i] != ';'
}

/// Whether a text has no other characters than printable ASCII.
pub open spec fn is_printable(text: Seq<char>) -> bool {
    forall|i: int| 0 <= i < text.len() ==> ' ' <= #[trigger] text[i] <= '~'
}

/// The cookie that is read is that of the first pair with its name, and there is
/// none exactly if no pair has that name.
pub proof fn first_pair_wins(pairs: Seq<Seq<char>>, name: Seq<char>)
    ensures
        match first_value(pairs, name) {
            Some(value) => exists|i: int|
                0 <= i < pairs.len() && pair_value(#[trigger] pairs[i], name) == Some(value) && (
                forall|j: int| 0 <= j < i ==> pair_value(#[trigger] pairs[j], name) is None),
            None => forall|j: int|
                0 <= j < pairs.len() ==> pair_value(#[trigger] pairs[j], name) is None,
        },
    decreases pairs.len(),
{
    if pairs.len() > 0 {
        let rest = pairs.skip(1);
        if pair_value(pairs[0], name) is Some {
            assert(pair_value(pairs[0], name) == first_value(pairs, name));
        } else {
            first_pair_wins(rest, name);
            assert(forall|j: int| 0 < j < pairs.len() ==> #[trigger] pairs[j] == rest[j - 1]);
            if let Some(value) = first_value(rest, name) {
                let i = choose|i: int|
                    0 <= i < rest.len() && pair_value(#[trigger] rest[i], name) == Some(value) && (
                    forall|j: int| 0 <= j < i ==> pair_value(#[trigger] rest[j], name) is None);
                assert(pairs[i + 1] == rest[i]);
            }
        }
    }
}

/// A pair gives its value under its name, whatever blanks are around it.
pub proof fn pair_is_read(lead: Seq<char>, name: Seq<char>, value: Seq<char>, trail: Seq<char>)
    requires
        is_cookie_name(name),
        is_tight(value),
        is_all_blank(lead),
        is_all_blank(trail),
    ensures
        pair_value(lead + name + seq!['='] + value + trail, name) == Some(value),
{
    let pair = lead + name + seq!['='] + value + trail;
    let at: int = (lead.len() + name.len()) as int;
    assert forall|i: int| 0 <= i < at implies pair[i] != '=' by {
        if i < lead.len() {
            assert(pair[i] == lead[i]);
            assert(is_blank(lead[i]));
        } else {
            assert(pair[i] == name[i - lead.len()]);
        }
    }
    assert(pair[at] == '=');
    lemma_position_at(pair, '=', at);
    let nothing = Seq::<char>::empty();
    assert(pair.take(at) =~= lead + name + nothing);
    assert(pair.skip(at + 1) =~= nothing + value + trail);
    lemma_trim_padded(lead, name, nothing);
    lemma_trim_padded(nothing, value, trail);
}

/// A request gives the value of the first of its pairs with the name, wherever
/// among its pairs that is, and whatever blanks are around it.
pub proof fn cookie_is_read_back(
    headers: HeaderMap<HeaderValue>,
    at: int,
    lead: Seq<char>,
    name: Seq<char>,
    value: Seq<char>,
    trail: Seq<char>,
)
    requires
        is_cookie_name(name),
        is_tight(value),
        is_all_blank(lead),
        is_all_blank(trail),
        0 <= at < cookie_pairs(values_of(headers, "cookie"@)).len(),
        cookie_pairs(values_of(headers, "cookie"@))[at] == lead + name + seq!['='] + value + trail,
        forall|j: int|
            0 <= j < at ==> pair_value(
                #[trigger] cookie_pairs(values_of(headers, "cookie"@))[j],
                name,
            ) is None,
    ensures
        cookie_value(headers, name) == Some(value),
{
    let pairs = cookie_pairs(values_of(headers, "cookie"@));
    pair_is_read(lead, name, value, trail);
    first_pair_wins(pairs, name);
    assert(pair_value(pairs[at], name) == Some(value));
    let found = choose|i: int|
        0 <= i < pairs.len() && pair_value(#[trigger] pairs[i], name) == first_value(pairs, name)
            && (forall|j: int| 0 <= j < i ==> pair_value(#[trigger] pairs[j], name) is None);
    assert(found == at);
}

/// The pairs of a `Cookie` header are what is written between its semicolons.
pub proof fn pairs_are_between_semicolons(before: Seq<char>, after: Seq<char>)
    ensures
        split(before + seq![';'] + after, ';') == split(before, ';') + split(after, ';'),
{
    lemma_split_joined(before, after, ';');
}

/// What a `Set-Cookie` value says before its attributes is a pair that gives the
/// value under the name.
pub proof fn set_cookie_starts_with_the_pair(
    name: Seq<char>,
    path: Seq<char>,
    value: Seq<char>,
    max_age: u64,
    secure: bool,
)
    requires
        is_cookie_name(name),
        is_compact(value),
    ensures
        split(set_cookie(name, path, value, max_age, secure), ';')[0] == name + seq!['='] + value,
        pair_value(name + seq!['='] + value, name) == Some(value),
{
    reveal_strlit("=");
    reveal_strlit("; Path=");
    let cookie = set_cookie(name, path, value, max_age, secure);
    let pair = name + seq!['='] + value;
    assert("="@ =~= seq!['=']);
    assert forall|i: int| 0 <= i < pair.len() implies cookie[i] == pair[i] && pair[i] != ';' by {
        if i < name.len() {
            assert(pair[i] == name[i]);
        } else if i > name.len() {
            assert(is_token_char(value[i - name.len() - 1]));
        }
    }
    assert(cookie[pair.len() as int] == ';');
    lemma_position_at(cookie, ';', pair.len() as int);
    assert(cookie.take(pair.len() as int) =~= pair);
    let nothing = Seq::<char>::empty();
    assert(is_tight(value)) by {
        if value.len() > 0 {
            assert(is_token_char(value[0]));
            assert(is_token_char(value.last()));
        }
    }
    pair_is_read(nothing, name, value, nothing);
    assert(nothing + name + seq!['='] + value + nothing =~= pair);
}

/// A request's cookie comes before its bearer token, which counts where there is
/// no such cookie.
pub proof fn cookie_comes_before_bearer(headers: HeaderMap<HeaderValue>, name: Seq<char>)
    ensures
        cookie_value(headers, name) is Some ==> request_token(headers, name) == cookie_value(
            headers,
            name,
        ),
        cookie_value(headers, name) is None ==> request_token(headers, name) == bearer_token(
            headers,
        ),
{
}

/// A request whose first `Authorization` header is text that says `Bearer` and a
/// token, with any blanks around the token, gives that token, if no cookie of the
/// name comes before it.
pub proof fn bearer_token_is_read_back(
    headers: HeaderMap<HeaderValue>,
    name: Seq<char>,
    lead: Seq<char>,
    token: Seq<char>,
    trail: Seq<char>,
)
    requires
        cookie_value(headers, name) is None,
        is_tight(token),
        is_all_blank(lead),
        is_all_blank(trail),
        values_of(headers, "authorization"@).len() > 0,
        is_text(values_of(headers, "authorization"@)[0]),
        text_of(values_of(headers, "authorization"@)[0]) == "Bearer "@ + lead + token + trail,
    ensures
        request_token(headers, name) == Some(token),
{
    let text = text_of(values_of(headers, "authorization"@)[0]);
    reveal_strlit("Bearer ");
    assert("Bearer "@.is_prefix_of(text));
    assert(text.skip(7) =~= lead + token + trail);
    lemma_trim_padded(lead, token, trail);
}

proof fn lemma_decimal_is_printable(n: nat)
    ensures
        is_printable(decimal(n)),
    decreases n,
{
    assert(' ' <= digit(n % 10) <= '~');
    if n >= 10 {
        lemma_decimal_is_printable(n / 10);
    } else {
        assert(n % 10 == n);
    }
}

proof fn lemma_printable_is_header_text(text: Seq<char>)
    requires
        is_printable(text),
    ensures
        is_header_text(text),
{
    assert(is_ascii_chars(text));
    is_ascii_chars_encode_utf8(text);
    assert forall|i: int| 0 <= i < encode_utf8(text).len() implies is_permitted(
        #[trigger] encode_utf8(text)[i],
    ) by {
        assert(' ' <= text[i] <= '~');
    }
}

/// A cookie can stand in a header if its name, its path and its value are
/// printable ASCII.
pub proof fn printable_cookie_can_be_sent(
    name: Seq<char>,
    path: Seq<char>,
    value: Seq<char>,
    max_age: u64,
    secure: bool,
)
    requires
        is_printable(name),
        is_printable(path),
        is_printable(value),
    ensures
        is_header_text(set_cookie(name, path, value, max_age, secure)),
{
    reveal_strlit("=");
    reveal_strlit("; Path=");
    reveal_strlit("; HttpOnly; SameSite=Lax; Max-Age=");
    reveal_strlit("; Secure");
    lemma_decimal_is_printable(max_age as nat);
    let marked = name + "="@;
    assert(is_printable("="@));
    assert(is_printable("; Path="@));
    assert(is_printable("; HttpOnly; SameSite=Lax; Max-Age="@));
    assert(is_printable("; Secure"@));
    let valued = marked + value;
    assert(is_printable(marked));
    assert(is_printable(valued));
    let placed = valued + "; Path="@ + path;
    assert(is_printable(valued + "; Path="@));
    assert(is_printable(placed));
    let guarded = placed + "; HttpOnly; SameSite=Lax; Max-Age="@;
    assert(is_printable(guarded));
    let aged = guarded + decimal(max_age as nat);
    assert(is_printable(aged));
    assert(is_printable(aged + "; Secure"@));
    assert(aged + Seq::<char>::empty() =~= aged);
    lemma_printable_is_header_text(set_cookie(name, path, value, max_age, secure));
}

/// Whether the names and paths of a configuration's cookies are printable ASCII.
pub open spec fn has_printable_cookies(config: JwtConfig) -> bool {
    &&& is_printable(config.cookie_name@)
    &&& is_printable(config.path@)
    &&& is_printable(config.refresh_cookie_name@)
    &&& is_printable(config.refresh_path@)
}

/// The cookies that carry a token and those that remove one can stand in a header
/// if their names and paths are printable ASCII.
pub proof fn token_cookies_can_be_sent(config: JwtConfig, typ: TokenKind, token: Seq<char>)
    requires
        has_printable_cookies(config),
        is_compact(token),
    ensures
        is_header_text(carrying(config, typ, token)),
        is_header_text(removing(config, typ)),
{
    assert(is_printable(token)) by {
        assert forall|i: int| 0 <= i < token.len() implies ' ' <= #[trigger] token[i] <= '~' by {
            assert(is_token_char(token[i]));
        }
    }
    let (name, path, max_age) = match typ {
        TokenKind::Access => (
            config.cookie_name@,
            config.path@,
            whole_seconds(config.ttl),
        ),
        TokenKind::Refresh => (
            config.refresh_cookie_name@,
            config.refresh_path@,
            whole_seconds(config.refresh_ttl),
        ),
    };
    printable_cookie_can_be_sent(name, path, token, max_age, config.secure);
    printable_cookie_can_be_sent(name, path, Seq::empty(), 0, config.secure);
}

} // verus!
