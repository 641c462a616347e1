//! Laws on the cookies of responses: what each of them says of its name, its value and
//! its attributes.

use crate::clock::whole_seconds;
use crate::jwt::{set_cookie, JwtConfig};
use crate::laws::wire::{
    are_pieces, is_decimal, joined, lacks, lemma_decimal, lemma_decimal_is_unique,
    lemma_pieces_are_split,
};
use crate::text::{decimal, split};
use vstd::prelude::*;

verus! {

/// The pieces of a `Set-Cookie` header between its semicolons.
pub open spec fn cookie_pieces(
    name: Seq<char>,
    value: Seq<char>,
    path: Seq<char>,
    age: Seq<char>,
    secure: bool,
) -> Seq<Seq<char>> {
    let pieces = seq![
        name + seq!['='] + value,
        " Path="@ + path,
        " HttpOnly"@,
        " SameSite=Lax"@,
        " Max-Age="@ + age,
    ];
    if secure {
        pieces.push(" Secure"@)
    } else {
        pieces
    }
}

/// Whether a `Set-Cookie` header gives a cookie a value, for a path and for so many
/// seconds, hidden from scripts and not sent along from other sites, and over secure
/// connections only or over any.
pub open spec fn gives(
    cookie: Seq<char>,
    name: Seq<char>,
    value: Seq<char>,
    path: Seq<char>,
    seconds: u64,
    secure: bool,
) -> bool {
    exists|age: Seq<char>| #[trigger]
        is_decimal(age, seconds as nat) && cookie == joined(
            cookie_pieces(name, value, path, age, secure),
            ';',
        )
}

pub(crate) proof fn lemma_set_cookie_gives(
    name: Seq<char>,
    value: Seq<char>,
    path: Seq<char>,
    seconds: u64,
    secure: bool,
)
    ensures
        gives(set_cookie(name, path, value, seconds, secure), name, value, path, seconds, secure),
        set_cookie(name, path, value, seconds, secure) == joined(
            cookie_pieces(name, value, path, decimal(seconds as nat), secure),
            ';',
        ),
{
    reveal_strlit("=");
    reveal_strlit("; Path=");
    reveal_strlit("; HttpOnly; SameSite=Lax; Max-Age=");
    reveal_strlit("; Secure");
    reveal_strlit(" Path=");
    reveal_strlit(" HttpOnly");
    reveal_strlit(" SameSite=Lax");
    reveal_strlit(" Max-Age=");
    reveal_strlit(" Secure");
    let age = decimal(seconds as nat);
    lemma_decimal(seconds as nat);
    let pieces = cookie_pieces(name, value, path, age, secure);
    assert(pieces[0] == name + seq!['='] + value);
    assert(pieces[1] == " Path="@ + path);
    assert(pieces[2] == " HttpOnly"@);
    assert(pieces[3] == " SameSite=Lax"@);
    assert(pieces[4] == " Max-Age="@ + age);
    let p1 = pieces.skip(1);
    let p2 = p1.skip(1);
    let p3 = p2.skip(1);
    let p4 = p3.skip(1);
    let sep = seq![';'];
    assert("="@ =~= seq!['=']);
    assert("; Path="@ =~= sep + " Path="@);
    assert("; HttpOnly; SameSite=Lax; Max-Age="@ =~= sep + " HttpOnly"@ + sep + " SameSite=Lax"@
        + sep + " Max-Age="@);
    assert("; Secure"@ =~= sep + " Secure"@);
    let end = if secure {
        "; Secure"@
    } else {
        Seq::empty()
    };
    if secure {
        let p5 = p4.skip(1);
        assert(p5.len() == 1 && p5[0] == " Secure"@);
        assert(joined(p4, ';') == " Max-Age="@ + age + sep + joined(p5, ';'));
    }
    assert(joined(p4, ';') =~= " Max-Age="@ + age + end);
    assert(joined(p3, ';') == " SameSite=Lax"@ + sep + joined(p4, ';'));
    assert(joined(p2, ';') == " HttpOnly"@ + sep + joined(p3, ';'));
    assert(joined(p1, ';') == " Path="@ + path + sep + joined(p2, ';'));
    assert(joined(pieces, ';') == name + seq!['='] + value + sep + joined(p1, ';'));
    assert(set_cookie(name, path, value, seconds, secure) =~= joined(pieces, ';'));
}

/// A cookie gives one value only.
pub(crate) proof fn lemma_cookie_gives_one_value(
    cookie: Seq<char>,
    name: Seq<char>,
    value: Seq<char>,
    other: Seq<char>,
    path: Seq<char>,
    seconds: u64,
    secure: bool,
)
    requires
        gives(cookie, name, value, path, seconds, secure),
        gives(cookie, name, other, path, seconds, secure),
    ensures
        value == other,
        cookie == set_cookie(name, path, value, seconds, secure),
{
    let age = choose|age: Seq<char>| #[trigger]
        is_decimal(age, seconds as nat) && cookie == joined(
            cookie_pieces(name, value, path, age, secure),
            ';',
        );
    let again = choose|age: Seq<char>| #[trigger]
        is_decimal(age, seconds as nat) && cookie == joined(
            cookie_pieces(name, other, path, age, secure),
            ';',
        );
    lemma_decimal_is_unique(age, seconds as nat);
    lemma_decimal_is_unique(again, seconds as nat);
    lemma_set_cookie_gives(name, value, path, seconds, secure);
    lemma_set_cookie_gives(name, other, path, seconds, secure);
    let first = set_cookie(name, path, value, seconds, secure);
    let second = set_cookie(name, path, other, seconds, secure);
    reveal_strlit("=");
    assert(first.len() - value.len() == second.len() - other.len());
    let from = name.len() as int + 1;
    assert(first.subrange(from, from + value.len()) =~= value);
    assert(second.subrange(from, from + other.len()) =~= other);
}

/// A cookie is built with the name, the path, the value and the age that are asked for,
/// and with the configured `Secure` attribute.
pub proof fn built_cookie_is_as_asked(
    config: &JwtConfig,
    name: &str,
    path: &str,
    value: &str,
    max_age: u64,
    cookie: String,
)
    requires
        call_ensures(JwtConfig::build_cookie, (config, name, path, value, max_age), cookie),
    ensures
        gives(cookie@, name@, value@, path@, max_age, config.secure),
{
    lemma_set_cookie_gives(name@, value@, path@, max_age, config.secure);
}

/// The cookie of an access token has the configured name, path and lifetime of access
/// tokens.
pub proof fn access_cookie_is_as_configured(config: &JwtConfig, token: &str, cookie: String)
    requires
        call_ensures(JwtConfig::access_set_cookie, (config, token), cookie),
    ensures
        gives(
            cookie@,
            config.cookie_name@,
            token@,
            config.path@,
            whole_seconds(config.ttl),
            config.secure,
        ),
{
    lemma_set_cookie_gives(
        config.cookie_name@,
        token@,
        config.path@,
        whole_seconds(config.ttl),
        config.secure,
    );
}

/// The cookie of a refresh token has the configured name, path and lifetime of refresh
/// tokens.
pub proof fn refresh_cookie_is_as_configured(config: &JwtConfig, token: &str, cookie: String)
    requires
        call_ensures(JwtConfig::refresh_set_cookie, (config, token), cookie),
    ensures
        gives(
            cookie@,
            config.refresh_cookie_name@,
            token@,
            config.refresh_path@,
            whole_seconds(config.refresh_ttl),
            config.secure,
        ),
{
    lemma_set_cookie_gives(
        config.refresh_cookie_name@,
        token@,
        config.refresh_path@,
        whole_seconds(config.refresh_ttl),
        config.secure,
    );
}

/// The cookie that removes an access token has the configured name and path, no value,
/// and no time to live.
pub proof fn access_cookie_is_removed(config: &JwtConfig, cookie: String)
    requires
        call_ensures(JwtConfig::access_clear_cookie, (config,), cookie),
    ensures
        gives(cookie@, config.cookie_name@, Seq::empty(), config.path@, 0, config.secure),
{
    lemma_set_cookie_gives(config.cookie_name@, Seq::empty(), config.path@, 0, config.secure);
}

/// The cookie that removes a refresh token has the configured name and path, no value,
/// and no time to live.
pub proof fn refresh_cookie_is_removed(config: &JwtConfig, cookie: String)
    requires
        call_ensures(JwtConfig::refresh_clear_cookie, (config,), cookie),
    ensures
        gives(
            cookie@,
            config.refresh_cookie_name@,
            Seq::empty(),
            config.refresh_path@,
            0,
            config.secure,
        ),
{
    lemma_set_cookie_gives(
        config.refresh_cookie_name@,
        Seq::empty(),
        config.refresh_path@,
        0,
        config.secure,
    );
}

/// Whether these are the pieces of a cookie with such attributes, as a browser reads
/// them.
pub open spec fn has_attributes(
    pieces: Seq<Seq<char>>,
    name: Seq<char>,
    value: Seq<char>,
    path: Seq<char>,
    seconds: u64,
    secure: bool,
) -> bool {
    &&& pieces.len() == if secure {
        6int
    } else {
        5int
    }
    &&& pieces[0] == name + seq!['='] + value
    &&& pieces[1] == " Path="@ + path
    &&& pieces[2] == " HttpOnly"@
    &&& pieces[3] == " SameSite=Lax"@
    &&& " Max-Age="@.is_prefix_of(pieces[4])
    &&& is_decimal(pieces[4].skip(9), seconds as nat)
    &&& secure ==> pieces[5] == " Secure"@
}

/// A cookie with these attributes is read so, as long as none of its parts holds a
/// semicolon.
pub proof fn attributes_are_read_back(
    cookie: Seq<char>,
    name: Seq<char>,
    value: Seq<char>,
    path: Seq<char>,
    seconds: u64,
    secure: bool,
    pieces: Seq<Seq<char>>,
)
    requires
        gives(cookie, name, value, path, seconds, secure),
        lacks(name, ';'),
        lacks(value, ';'),
        lacks(path, ';'),
        are_pieces(cookie, pieces, ';'),
    ensures
        has_attributes(pieces, name, value, path, seconds, secure),
{
    reveal_strlit(" Path=");
    reveal_strlit(" HttpOnly");
    reveal_strlit(" SameSite=Lax");
    reveal_strlit(" Max-Age=");
    reveal_strlit(" Secure");
    let age = choose|age: Seq<char>| #[trigger]
        is_decimal(age, seconds as nat) && cookie == joined(
            cookie_pieces(name, value, path, age, secure),
            ';',
        );
    let all = cookie_pieces(name, value, path, age, secure);
    assert forall|i: int| 0 <= i < all.len() implies lacks(#[trigger] all[i], ';') by {
        let piece = all[i];
        assert forall|k: int| 0 <= k < piece.len() implies #[trigger] piece[k] != ';' by {
            if i == 0 {
                assert(piece == name + seq!['='] + value);
                if k < name.len() {
                    assert(piece[k] == name[k]);
                } else if k > name.len() {
                    assert(piece[k] == value[k - name.len() - 1]);
                }
            } else if i == 1 {
                assert(piece == " Path="@ + path);
                if k >= 6 {
                    assert(piece[k] == path[k - 6]);
                }
            } else if i == 4 {
                assert(piece == " Max-Age="@ + age);
                if k >= 9 {
                    assert(piece[k] == age[k - 9]);
                }
            }
        }
    }
    lemma_pieces_are_split(cookie, all, ';');
    lemma_pieces_are_split(cookie, pieces, ';');
    assert(all[4] == " Max-Age="@ + age);
    assert(all[4].skip(9) =~= age);
}

/// The cookie that carries an access token has, between its semicolons, the configured name
/// with the token, the configured path, and the configured lifetime of access tokens. The
/// one that removes it has the same name, path and flags, no value, and an age of zero.
pub proof fn access_cookie_is_removed_where_it_was_set(
    config: &JwtConfig,
    token: &str,
    set: String,
    removed: String,
    set_pieces: Seq<Seq<char>>,
    removed_pieces: Seq<Seq<char>>,
)
    requires
        call_ensures(JwtConfig::access_set_cookie, (config, token), set),
        call_ensures(JwtConfig::access_clear_cookie, (config,), removed),
        lacks(config.cookie_name@, ';'),
        lacks(config.path@, ';'),
        lacks(token@, ';'),
        are_pieces(set@, set_pieces, ';'),
        are_pieces(removed@, removed_pieces, ';'),
    ensures
        set_pieces[0] == config.cookie_name@ + seq!['='] + token@,
        set_pieces[1] == " Path="@ + config.path@,
        " Max-Age="@.is_prefix_of(set_pieces[4]),
        is_decimal(set_pieces[4].skip(9), whole_seconds(config.ttl) as nat),
        set_pieces[2] == " HttpOnly"@,
        set_pieces[3] == " SameSite=Lax"@,
        config.secure ==> set_pieces.len() == 6 && set_pieces[5] == " Secure"@,
        !config.secure ==> set_pieces.len() == 5,
        removed_pieces[0] == config.cookie_name@ + seq!['='],
        removed_pieces[1] == set_pieces[1],
        removed_pieces[2] == set_pieces[2],
        removed_pieces[3] == set_pieces[3],
        removed_pieces[4] == " Max-Age=0"@,
        removed_pieces.len() == set_pieces.len(),
        config.secure ==> removed_pieces[5] == set_pieces[5],
{
    let none = Seq::<char>::empty();
    access_cookie_is_as_configured(config, token, set);
    access_cookie_is_removed(config, removed);
    attributes_are_read_back(
        set@,
        config.cookie_name@,
        token@,
        config.path@,
        whole_seconds(config.ttl),
        config.secure,
        set_pieces,
    );
    attributes_are_read_back(
        removed@,
        config.cookie_name@,
        none,
        config.path@,
        0,
        config.secure,
        removed_pieces,
    );
    assert(config.cookie_name@ + seq!['='] + none =~= config.cookie_name@ + seq!['=']);
    lemma_no_age(removed_pieces[4]);
}

/// The cookie that carries a refresh token has, between its semicolons, the configured name
/// with the token, the configured path, and the configured lifetime of refresh tokens. The
/// one that removes it has the same name, path and flags, no value, and an age of zero.
pub proof fn refresh_cookie_is_removed_where_it_was_set(
    config: &JwtConfig,
    token: &str,
    set: String,
    removed: String,
    set_pieces: Seq<Seq<char>>,
    removed_pieces: Seq<Seq<char>>,
)
    requires
        call_ensures(JwtConfig::refresh_set_cookie, (config, token), set),
        call_ensures(JwtConfig::refresh_clear_cookie, (config,), removed),
        lacks(config.refresh_cookie_name@, ';'),
        lacks(config.refresh_path@, ';'),
        lacks(token@, ';'),
        are_pieces(set@, set_pieces, ';'),
        are_pieces(removed@, removed_pieces, ';'),
    ensures
        set_pieces[0] == config.refresh_cookie_name@ + seq!['='] + token@,
        set_pieces[1] == " Path="@ + config.refresh_path@,
        " Max-Age="@.is_prefix_of(set_pieces[4]),
        is_decimal(set_pieces[4].skip(9), whole_seconds(config.refresh_ttl) as nat),
        set_pieces[2] == " HttpOnly"@,
        set_pieces[3] == " SameSite=Lax"@,
        config.secure ==> set_pieces.len() == 6 && set_pieces[5] == " Secure"@,
        !config.secure ==> set_pieces.len() == 5,
        removed_pieces[0] == config.refresh_cookie_name@ + seq!['='],
        removed_pieces[1] == set_pieces[1],
        removed_pieces[2] == set_pieces[2],
        removed_pieces[3] == set_pieces[3],
        removed_pieces[4] == " Max-Age=0"@,
        removed_pieces.len() == set_pieces.len(),
        config.secure ==> removed_pieces[5] == set_pieces[5],
{
    let none = Seq::<char>::empty();
    refresh_cookie_is_as_configured(config, token, set);
    refresh_cookie_is_removed(config, removed);
    attributes_are_read_back(
        set@,
        config.refresh_cookie_name@,
        token@,
        config.refresh_path@,
        whole_seconds(config.refresh_ttl),
        config.secure,
        set_pieces,
    );
    attributes_are_read_back(
        removed@,
        config.refresh_cookie_name@,
        none,
        config.refresh_path@,
        0,
        config.secure,
        removed_pieces,
    );
    assert(config.refresh_cookie_name@ + seq!['='] + none =~= config.refresh_cookie_name@
        + seq!['=']);
    lemma_no_age(removed_pieces[4]);
}

proof fn lemma_no_age(piece: Seq<char>)
    requires
        " Max-Age="@.is_prefix_of(piece),
        is_decimal(piece.skip(9), 0),
    ensures
        piece == " Max-Age=0"@,
{
    reveal_strlit(" Max-Age=");
    reveal_strlit(" Max-Age=0");
    let age = piece.skip(9);
    lemma_decimal_is_unique(age, 0);
    assert(age == seq!['0']);
    assert(piece[9] == age[0]);
    assert(piece =~= " Max-Age=0"@) by {
        assert(forall|i: int| 0 <= i < 9 ==> piece[i] == " Max-Age="@[i]);
    }
}

} // verus!
