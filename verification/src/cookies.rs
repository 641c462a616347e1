//! Tokens in requests: the `Cookie` and `Authorization` headers.

use crate::headers::{
    authorization_value, cookie_values, is_text, text_of, value_bytes, values_of, visible_text,
};
use crate::text::{find_from, position, same_text, split, trim, trimmed};
use axum::http::{HeaderMap, HeaderValue};
use vstd::prelude::*;
use vstd::string::*;

verus! {

/// The value in a `name=value` pair of a `Cookie` header, if the pair has the
/// given name. Blanks around the name and around the value do not count.
pub open spec fn pair_value(pair: Seq<char>, name: Seq<char>) -> Option<Seq<char>> {
    let at = position(pair, '=') as int;
    if at < pair.len() && trimmed(pair.take(at)) == name {
        Some(trimmed(pair.skip(at + 1)))
    } else {
        None
    }
}

/// The value in the first of the pairs that has the given name.
pub open spec fn first_value(pairs: Seq<Seq<char>>, name: Seq<char>) -> Option<Seq<char>>
    decreases pairs.len(),
{
    if pairs.len() == 0 {
        None
    } else if pair_value(pairs[0], name) is Some {
        pair_value(pairs[0], name)
    } else {
        first_value(pairs.skip(1), name)
    }
}

/// The pairs in the given `Cookie` headers, one header after the other. A header
/// that is not text has none.
pub open spec fn cookie_pairs(values: Seq<Seq<u8>>) -> Seq<Seq<char>>
    decreases values.len(),
{
    if values.len() == 0 {
        Seq::empty()
    } else if is_text(values[0]) {
        split(text_of(values[0]), ';') + cookie_pairs(values.skip(1))
    } else {
        cookie_pairs(values.skip(1))
    }
}

/// The value of a request's cookie.
pub open spec fn cookie_value(headers: HeaderMap<HeaderValue>, name: Seq<char>) -> Option<
    Seq<char>,
> {
    first_value(cookie_pairs(values_of(headers, "cookie"@)), name)
}

/// The token in a request's `Authorization` header, if that is text and starts
/// with `Bearer` and a space. Blanks around the token do not count.
pub open spec fn bearer_token(headers: HeaderMap<HeaderValue>) -> Option<Seq<char>> {
    let values = values_of(headers, "authorization"@);
    if values.len() > 0 && is_text(values[0]) && "Bearer "@.is_prefix_of(text_of(values[0])) {
        Some(trimmed(text_of(values[0]).skip(7)))
    } else {
        None
    }
}

/// The token that a request carries: in the cookie of the given name, or else as
/// a bearer token.
pub open spec fn request_token(headers: HeaderMap<HeaderValue>, cookie_name: Seq<char>) -> Option<
    Seq<char>,
> {
    match cookie_value(headers, cookie_name) {
        Some(value) => Some(value),
        None => bearer_token(headers),
    }
}

/// The views of an optional text.
pub open spec fn text_view(text: Option<String>) -> Option<Seq<char>> {
    match text {
        Some(t) => Some(t@),
        None => None,
    }
}

pub proof fn lemma_first_value_append(a: Seq<Seq<char>>, b: Seq<Seq<char>>, name: Seq<char>)
    ensures
        first_value(a + b, name) == match first_value(a, name) {
            Some(value) => Some(value),
            None => first_value(b, name),
        },
    decreases a.len(),
{
    if a.len() == 0 {
        assert(a + b =~= b);
    } else {
        assert((a + b)[0] == a[0]);
        assert((a + b).skip(1) =~= a.skip(1) + b);
        lemma_first_value_append(a.skip(1), b, name);
    }
}

proof fn lemma_text_is_ascii(bytes: Seq<u8>)
    requires
        is_text(bytes),
    ensures
        vstd::utf8::is_ascii_chars(text_of(bytes)),
{
    assert forall|i: int| 0 <= i < text_of(bytes).len() implies '\0' <= #[trigger] text_of(
        bytes,
    )[i] <= '\u{7f}' by {
        assert(crate::headers::is_visible(bytes[i]));
    }
}

/// The value in one `name=value` pair, if it has the given name.
fn value_in_pair(pair: &str, cookie_name: &str) -> (value: Option<String>)
    requires
        pair.is_ascii(),
    ensures
        text_view(value) == pair_value(pair@, cookie_name@),
{
    let n: usize = pair.unicode_len();
    let at: usize = find_from(pair, '=', 0);
    proof {
        assert(pair@.skip(0) =~= pair@);
    }
    if at < n {
        let name = trim(pair.substring_ascii(0, at));
        let value = trim(pair.substring_ascii(at + 1, n));
        proof {
            assert(pair@.subrange(0, at as int) =~= pair@.take(at as int));
            assert(pair@.subrange(at + 1, n as int) =~= pair@.skip(at + 1));
        }
        if same_text(name, cookie_name) {
            Some(value.to_owned())
        } else {
            None
        }
    } else {
        None
    }
}

/// The value in the first pair of a `Cookie` header that has the given name.
fn value_in_text(text: &str, cookie_name: &str) -> (value: Option<String>)
    requires
        text.is_ascii(),
    ensures
        text_view(value) == first_value(split(text@, ';'), cookie_name@),
{
    let n: usize = text.unicode_len();
    let mut from: usize = 0;
    proof {
        assert(text@.skip(0) =~= text@);
    }
    loop
        invariant
            text.is_ascii(),
            n == text@.len(),
            from <= n,
            first_value(split(text@, ';'), cookie_name@) == first_value(
                split(text@.skip(from as int), ';'),
                cookie_name@,
            ),
        decreases n - from,
    {
        let to: usize = find_from(text, ';', from);
        let ghost rest = text@.skip(from as int);
        let ghost at = position(rest, ';') as int;
        let pair = text.substring_ascii(from, to);
        proof {
            assert(pair@ =~= rest.take(at));
        }
        let value = value_in_pair(pair, cookie_name);
        if value.is_some() {
            proof {
                assert(split(rest, ';')[0] =~= pair@);
            }
            return value;
        }
        if to == n {
            proof {
                assert(pair@ =~= rest);
                assert(split(rest, ';') =~= seq![pair@]);
                assert(seq![pair@].skip(1) =~= Seq::<Seq<char>>::empty());
                assert(first_value(Seq::empty(), cookie_name@) is None);
            }
            return None;
        }
        proof {
            assert(rest.skip(at + 1) =~= text@.skip(to + 1));
            let tail = split(text@.skip(to + 1), ';');
            assert(split(rest, ';') == seq![pair@] + tail);
            assert((seq![pair@] + tail).skip(1) =~= tail);
        }
        from = to + 1;
    }
}

/// Reads a named cookie's value from the request headers.
pub fn extract_cookie(headers: &HeaderMap<HeaderValue>, cookie_name: &str) -> (value: Option<
    String,
>)
    ensures
        text_view(value) == cookie_value(*headers, cookie_name@),
{
    let values = cookie_values(headers);
    let ghost all = values_of(*headers, "cookie"@);
    let mut i: usize = 0;
    proof {
        assert(all.skip(0) =~= all);
    }
    while i < values.len()
        invariant
            i <= values.len(),
            all == values_of(*headers, "cookie"@),
            values@.map_values(|v: &HeaderValue| value_bytes(*v)) == all,
            first_value(cookie_pairs(all), cookie_name@) == first_value(
                cookie_pairs(all.skip(i as int)),
                cookie_name@,
            ),
        decreases values.len() - i,
    {
        let ghost bytes = all[i as int];
        proof {
            assert(values@.map_values(|v: &HeaderValue| value_bytes(*v))[i as int] == value_bytes(
                *values@[i as int],
            ));
            assert(all.skip(i as int)[0] == bytes);
            assert(all.skip(i as int).skip(1) =~= all.skip(i + 1));
        }
        if let Some(text) = visible_text(values[i]) {
            proof {
                lemma_text_is_ascii(bytes);
                assert(cookie_pairs(all.skip(i as int)) == split(text@, ';') + cookie_pairs(
                    all.skip(i + 1),
                ));
                lemma_first_value_append(
                    split(text@, ';'),
                    cookie_pairs(all.skip(i + 1)),
                    cookie_name@,
                );
            }
            let value = value_in_text(text, cookie_name);
            if value.is_some() {
                return value;
            }
        }
        i = i + 1;
    }
    proof {
        assert(all.skip(i as int) =~= Seq::<Seq<u8>>::empty());
    }
    None
}

/// The bearer token of a request.
fn extract_bearer(headers: &HeaderMap<HeaderValue>) -> (token: Option<String>)
    ensures
        text_view(token) == bearer_token(*headers),
{
    let value = match authorization_value(headers) {
        Some(value) => value,
        None => return None,
    };
    let text = match visible_text(value) {
        Some(text) => text,
        None => return None,
    };
    proof {
        lemma_text_is_ascii(value_bytes(*value));
        reveal_strlit("Bearer ");
    }
    let n: usize = text.unicode_len();
    if n < 7 {
        return None;
    }
    let scheme = text.substring_ascii(0, 7);
    if same_text(scheme, "Bearer ") {
        proof {
            assert("Bearer "@.is_prefix_of(text@)) by {
                assert(scheme@ =~= text@.subrange(0, 7));
            }
            assert(text@.subrange(7, n as int) =~= text@.skip(7));
        }
        Some(trim(text.substring_ascii(7, n)).to_owned())
    } else {
        proof {
            if "Bearer "@.is_prefix_of(text@) {
                assert(scheme@ =~= "Bearer "@);
            }
        }
        None
    }
}

/// Extracts a token from a request's headers.
///
/// The cookie named `cookie_name` takes precedence, and an `Authorization:
/// Bearer <token>` header is used as a fallback.
pub fn extract_token(headers: &HeaderMap<HeaderValue>, cookie_name: &str) -> (token: Option<
    String,
>)
    ensures
        text_view(token) == request_token(*headers, cookie_name@),
{
    match extract_cookie(headers, cookie_name) {
        Some(value) => Some(value),
        None => extract_bearer(headers),
    }
}

} // verus!
