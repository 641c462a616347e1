//! Laws on tokens: what checking one gives back of issuing it.

use crate::backend::TokenUser;
use crate::claims::{
    claims_survive_json, json_of, lemma_names_differ, stated_claims, Claims, TokenKind,
};
use crate::json::{is_scalar, members_of, reparsed};
use crate::jwt::{is_decoded, is_issued, later, JwtConfig, JwtError};
use crate::text::{lemma_position_at, position};
use crate::token::{
    are_parts, checking_secret, checks_expiry_only, expiry, has_three_parts, is_checked,
    is_compact, is_dotless, is_hmac, is_past, is_plain, is_read_back, is_rsa, is_sealed, is_token,
    is_verified, leeway_of, mac_length, mac_text, margin_of, signed_part, signs, verifies,
};
use jsonwebtoken::Algorithm;
use serde_json::Value;
use vstd::prelude::*;

verus! {

/// Claims whose JSON text can be read back: the embedded view is not nested deeper
/// than a parser follows.
pub open spec fn is_readable(claims: Claims) -> bool {
    reparsed(json_of(claims)) is Some
}

/// Whether a type of users makes this user, and no other, of what a token carries
/// of a subject and a view.
pub open spec fn is_remade<User: TokenUser>(subject: Value, view: Value, user: User) -> bool {
    &&& forall|read: Value, id: Option<User::Id>|
        reparsed(subject) == Some(read) && #[trigger] call_ensures(
            User::parse_subject,
            (Some(&read),),
            id,
        ) ==> id is Some
    &&& forall|read: Value, remade: Option<User>|
        reparsed(view) == Some(read) && #[trigger] call_ensures(
            User::from_claims,
            (&read,),
            remade,
        ) ==> remade == Some(user)
}

/// A token for claims gives, when it is accepted, those claims: with the times and
/// the kind as they were signed, and the subject and the view as JSON text carries
/// them.
pub proof fn accepted_claims_are_the_signed_ones(
    config: JwtConfig,
    signed: Claims,
    token: String,
    other: JwtConfig,
    at: u64,
    read: Value,
)
    requires
        config.is_signed(signed, Ok::<String, JwtError>(token)),
        is_checked(token@, other.decoding_key, other.validation, at, Some(read)),
    ensures
        stated_claims(read) matches Some(stated) && stated.iat == signed.iat && stated.exp
            == signed.exp && stated.typ == signed.typ && (stated.sub matches Some(sub) && reparsed(
            signed.sub,
        ) == Some(*sub)) && reparsed(signed.user) == Some(*stated.user),
{
    let json = json_of(signed);
    assert(is_read_back(json, read));
    lemma_names_differ();
    assert(members_of(json).dom().contains("sub"@));
    assert(members_of(json).dom().contains("iat"@));
    assert(members_of(json).dom().contains("exp"@));
    assert(members_of(json).dom().contains("typ"@));
    assert(members_of(json).dom().contains("user"@));
}

/// A token of one kind is never accepted as one of the other kind, whatever the
/// configuration that checks it and whenever it does.
pub proof fn kinds_are_not_interchangeable<User: TokenUser>(
    config: JwtConfig,
    subject: Result<Value, serde_json::Error>,
    view: Value,
    typ: TokenKind,
    ttl: u64,
    now: u64,
    token: String,
    other: JwtConfig,
    expected: TokenKind,
    outcome: Option<(User, u64, u64)>,
)
    requires
        is_issued(config, subject, view, typ, ttl, now, Ok::<String, JwtError>(token)),
        other.decodes(token@, expected, outcome),
        typ != expected,
    ensures
        outcome is None,
{
    let at = choose|at: u64| #[trigger] other.decodes_at(token@, expected, at, outcome);
    let (claims, id, user) = choose|
        claims: Option<Value>,
        id: Option<User::Id>,
        user: Option<User>,
    |
        is_checked(token@, other.decoding_key, other.validation, at, claims)
            && #[trigger] is_decoded(claims, expected, id, user, outcome);
    if let Some(read) = claims {
        accepted_claims_are_the_signed_ones(
            config,
            Claims { sub: subject->Ok_0, iat: now, exp: later(now, ttl), typ, user: view },
            token,
            other,
            at,
            read,
        );
    }
}

/// What is decoded has not expired: where the rules check the expiry, a token is
/// accepted at no time at which it is past.
pub proof fn decoded_token_is_not_past<User: TokenUser>(
    config: JwtConfig,
    algorithm: Algorithm,
    token: Seq<char>,
    expected: TokenKind,
    at: u64,
    user: User,
    iat: u64,
    exp: u64,
)
    requires
        checks_expiry_only(config.validation, algorithm),
        config.decodes_at(token, expected, at, Some((user, iat, exp))),
    ensures
        !is_past(exp, config.validation, at),
{
    let outcome = Some((user, iat, exp));
    let (claims, id, found) = choose|
        claims: Option<Value>,
        id: Option<User::Id>,
        found: Option<User>,
    |
        is_checked(token, config.decoding_key, config.validation, at, claims)
            && #[trigger] is_decoded(claims, expected, id, found, outcome);
    let read = claims->0;
    assert(expiry(read) == Some(exp));
}

/// A token that was issued is accepted with the counterpart of the key until it
/// expires, and gives the user and the times that it was issued for.
///
/// The subject is a scalar, the claims can be read back from their text, and the
/// type of users makes the user of what a token carries.
pub proof fn issued_token_is_accepted<User: TokenUser>(
    config: JwtConfig,
    subject: Value,
    view: Value,
    typ: TokenKind,
    ttl: u64,
    now: u64,
    token: String,
    at: u64,
    user: User,
    outcome: Option<(User, u64, u64)>,
)
    requires
        config.is_paired(),
        is_issued(
            config,
            Ok::<Value, serde_json::Error>(subject),
            view,
            typ,
            ttl,
            now,
            Ok::<String, JwtError>(token),
        ),
        is_scalar(subject),
        is_readable(Claims { sub: subject, iat: now, exp: later(now, ttl), typ, user: view }),
        is_remade(subject, view, user),
        config.decodes_at(token@, typ, at, outcome),
        !is_past(later(now, ttl), config.validation, at),
    ensures
        outcome == Some((user, now, later(now, ttl))),
{
    let signed = Claims { sub: subject, iat: now, exp: later(now, ttl), typ, user: view };
    let (claims, id, found) = choose|
        claims: Option<Value>,
        id: Option<User::Id>,
        found: Option<User>,
    |
        is_checked(token@, config.decoding_key, config.validation, at, claims)
            && #[trigger] is_decoded(claims, typ, id, found, outcome);
    let json = json_of(signed);
    lemma_names_differ();
    claims_survive_json(signed, json);
    assert(is_plain(json)) by {
        reveal_strlit("aud");
        reveal_strlit("iss");
        reveal_strlit("nbf");
        reveal_strlit("sub");
        reveal_strlit("iat");
        reveal_strlit("exp");
        reveal_strlit("typ");
        reveal_strlit("user");
        assert("aud"@[0] == 'a' && "nbf"@[0] == 'n');
        assert("iss"@[1] == 's' && "iat"@[1] == 'a' && "iss"@[0] == 'i');
        assert("sub"@[0] == 's' && "exp"@[0] == 'e' && "typ"@[0] == 't' && "user"@[0] == 'u'
            && "iat"@[0] == 'i');
    }
    assert(reparsed(json) is Some);
    assert(claims is Some);
    accepted_claims_are_the_signed_ones(config, signed, token, config, at, claims->0);
}

proof fn lemma_first_part(first: Seq<char>, rest: Seq<char>)
    requires
        is_dotless(first),
    ensures
        position(first + seq!['.'] + rest, '.') == first.len(),
        (first + seq!['.'] + rest).take(first.len() as int) == first,
        (first + seq!['.'] + rest).skip(first.len() as int + 1) == rest,
{
    let all = first + seq!['.'] + rest;
    assert forall|i: int| 0 <= i < first.len() implies all[i] != '.' by {
        assert(all[i] == first[i]);
    }
    lemma_position_at(all, '.', first.len() as int);
    assert(all.take(first.len() as int) =~= first);
    assert(all.skip(first.len() as int + 1) =~= rest);
}

/// The parts of a token are its only ones.
pub proof fn parts_are_unique(
    token: Seq<char>,
    header: Seq<char>,
    payload: Seq<char>,
    code: Seq<char>,
    other_header: Seq<char>,
    other_payload: Seq<char>,
    other_code: Seq<char>,
)
    requires
        are_parts(token, header, payload, code),
        are_parts(token, other_header, other_payload, other_code),
    ensures
        header == other_header,
        payload == other_payload,
        code == other_code,
{
    let dot = seq!['.'];
    assert(token =~= header + dot + (payload + dot + code));
    assert(token =~= other_header + dot + (other_payload + dot + other_code));
    lemma_first_part(header, payload + dot + code);
    lemma_first_part(other_header, other_payload + dot + other_code);
    lemma_first_part(payload, code);
    lemma_first_part(other_payload, other_code);
}

/// What follows from a token being accepted: the rules let its text pass.
proof fn lemma_accepted_text<User: TokenUser>(
    config: JwtConfig,
    token: Seq<char>,
    expected: TokenKind,
    accepted: (User, u64, u64),
)
    requires
        config.decodes(token, expected, Some(accepted)),
    ensures
        has_three_parts(token),
        forall|algorithm: Algorithm| #[trigger]
            checks_expiry_only(config.validation, algorithm) ==> {
                &&& is_compact(token)
                &&& is_verified(token, algorithm, config.decoding_key)
                &&& is_hmac(algorithm) && checking_secret(config.decoding_key) is Some
                    ==> is_sealed(token, algorithm, checking_secret(config.decoding_key)->0)
            },
{
    let outcome = Some(accepted);
    let at = choose|at: u64| #[trigger] config.decodes_at(token, expected, at, outcome);
    let (claims, id, user) = choose|
        claims: Option<Value>,
        id: Option<User::Id>,
        user: Option<User>,
    |
        is_checked(token, config.decoding_key, config.validation, at, claims)
            && #[trigger] is_decoded(claims, expected, id, user, outcome);
    assert(claims is Some);
}

/// A text that is not three parts with dots between them is refused, whatever the rules
/// are.
pub proof fn malformed_token_is_refused<User: TokenUser>(
    config: JwtConfig,
    token: Seq<char>,
    expected: TokenKind,
    outcome: Option<(User, u64, u64)>,
)
    requires
        !has_three_parts(token),
        config.decodes(token, expected, outcome),
    ensures
        outcome is None,
{
    if outcome is Some {
        lemma_accepted_text(config, token, expected, outcome->0);
    }
}

/// A text with fewer than two dots is not three parts with dots between them.
pub proof fn two_dots_make_three_parts(token: Seq<char>)
    requires
        forall|i: int, j: int| 0 <= i < j < token.len() ==> token[i] != '.' || token[j] != '.',
    ensures
        !has_three_parts(token),
{
    reveal(has_three_parts);
    if has_three_parts(token) {
        let (header, payload, code) = choose|
            header: Seq<char>,
            payload: Seq<char>,
            code: Seq<char>,
        | #[trigger]
            are_parts(token, header, payload, code);
        let i = header.len() as int;
        let j = header.len() as int + 1 + payload.len();
        assert(token[i] == '.');
        assert(token[j] == '.');
    }
}

/// A text with a character that tokens do not have is refused.
pub proof fn foreign_character_is_refused<User: TokenUser>(
    config: JwtConfig,
    algorithm: Algorithm,
    token: Seq<char>,
    expected: TokenKind,
    outcome: Option<(User, u64, u64)>,
)
    requires
        checks_expiry_only(config.validation, algorithm),
        !is_compact(token),
        config.decodes(token, expected, outcome),
    ensures
        outcome is None,
{
    if outcome is Some {
        lemma_accepted_text(config, token, expected, outcome->0);
    }
}

/// The last part of an accepted token verifies as the signature of the others, with the
/// configured key and the algorithm that the rules name.
pub proof fn accepted_token_is_verified<User: TokenUser>(
    config: JwtConfig,
    algorithm: Algorithm,
    token: Seq<char>,
    header: Seq<char>,
    payload: Seq<char>,
    code: Seq<char>,
    expected: TokenKind,
    accepted: (User, u64, u64),
)
    requires
        checks_expiry_only(config.validation, algorithm),
        are_parts(token, header, payload, code),
        config.decodes(token, expected, Some(accepted)),
    ensures
        verifies(algorithm, config.decoding_key, signed_part(header, payload), code),
{
    lemma_accepted_text(config, token, expected, accepted);
    reveal(is_verified);
    let (h, p, c) = choose|h: Seq<char>, p: Seq<char>, c: Seq<char>| #[trigger]
        are_parts(token, h, p, c) && verifies(
            algorithm,
            config.decoding_key,
            signed_part(h, p),
            c,
        );
    parts_are_unique(token, header, payload, code, h, p, c);
}

/// With a shared secret, no token is accepted that is not sealed with that secret.
pub proof fn unsealed_token_is_refused<User: TokenUser>(
    config: JwtConfig,
    algorithm: Algorithm,
    secret: Seq<u8>,
    token: Seq<char>,
    expected: TokenKind,
    outcome: Option<(User, u64, u64)>,
)
    requires
        checks_expiry_only(config.validation, algorithm),
        is_hmac(algorithm),
        checking_secret(config.decoding_key) == Some(secret),
        !is_sealed(token, algorithm, secret),
        config.decodes(token, expected, outcome),
    ensures
        outcome is None,
{
    if outcome is Some {
        lemma_accepted_text(config, token, expected, outcome->0);
    }
}

/// A token is not sealed if its last part is not the code of the others: if the header
/// or the payload was changed so that their code is another one, or the code was.
pub proof fn changed_token_is_not_sealed(
    token: Seq<char>,
    header: Seq<char>,
    payload: Seq<char>,
    code: Seq<char>,
    algorithm: Algorithm,
    secret: Seq<u8>,
)
    requires
        are_parts(token, header, payload, code),
        code != mac_text(algorithm, secret, signed_part(header, payload)),
    ensures
        !is_sealed(token, algorithm, secret),
{
    reveal(is_sealed);
    if is_sealed(token, algorithm, secret) {
        let (h, p, c) = choose|h: Seq<char>, p: Seq<char>, c: Seq<char>| #[trigger]
            are_parts(token, h, p, c) && c == mac_text(algorithm, secret, signed_part(h, p))
                && c.len() == mac_length(algorithm);
        parts_are_unique(token, header, payload, code, h, p, c);
    }
}

/// A sealed token is not sealed any more once anything is appended to it, whichever
/// secret the seals are under.
pub proof fn lengthened_token_is_not_sealed(
    token: Seq<char>,
    more: Seq<char>,
    algorithm: Algorithm,
    secret: Seq<u8>,
    other: Seq<u8>,
)
    requires
        is_sealed(token, algorithm, secret),
        more.len() > 0,
    ensures
        !is_sealed(token + more, algorithm, other),
{
    reveal(is_sealed);
    let (header, payload, code) = choose|header: Seq<char>, payload: Seq<char>, code: Seq<char>|
        #[trigger] are_parts(token, header, payload, code) && code == mac_text(
            algorithm,
            secret,
            signed_part(header, payload),
        ) && code.len() == mac_length(algorithm);
    let longer = token + more;
    if is_sealed(longer, algorithm, other) {
        let (h, p, c) = choose|h: Seq<char>, p: Seq<char>, c: Seq<char>| #[trigger]
            are_parts(longer, h, p, c) && c == mac_text(algorithm, other, signed_part(h, p))
                && c.len() == mac_length(algorithm);
        let dot = seq!['.'];
        assert(longer =~= header + dot + (payload + dot + (code + more)));
        assert(longer =~= h + dot + (p + dot + c));
        lemma_first_part(header, payload + dot + (code + more));
        lemma_first_part(h, p + dot + c);
        lemma_first_part(payload, code + more);
        lemma_first_part(p, c);
        assert(c == code + more);
    }
}

/// A token that was issued is refused once anything is appended to it.
pub proof fn lengthened_token_is_refused<User: TokenUser>(
    config: JwtConfig,
    secret: Seq<u8>,
    claims: Claims,
    token: String,
    more: Seq<char>,
    expected: TokenKind,
    outcome: Option<(User, u64, u64)>,
)
    requires
        config.is_symmetric(secret),
        checks_expiry_only(config.validation, config.algorithm),
        config.is_signed(claims, Ok::<String, JwtError>(token)),
        more.len() > 0,
        config.decodes(token@ + more, expected, outcome),
    ensures
        outcome is None,
{
    lengthened_token_is_not_sealed(token@, more, config.algorithm, secret, secret);
    unsealed_token_is_refused(config, config.algorithm, secret, token@ + more, expected, outcome);
}

/// A token that was signed with another algorithm than the rules name is refused.
pub proof fn token_of_another_algorithm_is_refused<User: TokenUser>(
    config: JwtConfig,
    claims: Claims,
    token: String,
    other: JwtConfig,
    algorithm: Algorithm,
    expected: TokenKind,
    outcome: Option<(User, u64, u64)>,
)
    requires
        config.is_signed(claims, Ok::<String, JwtError>(token)),
        checks_expiry_only(other.validation, algorithm),
        algorithm != config.algorithm,
        other.decodes(token@, expected, outcome),
    ensures
        outcome is None,
{
    let at = choose|at: u64| #[trigger] other.decodes_at(token@, expected, at, outcome);
    let (claims_read, id, user) = choose|
        claims_read: Option<Value>,
        id: Option<User::Id>,
        user: Option<User>,
    |
        is_checked(token@, other.decoding_key, other.validation, at, claims_read)
            && #[trigger] is_decoded(claims_read, expected, id, user, outcome);
    assert(is_token(token@, config.algorithm, json_of(claims), config.encoding_key));
    assert(claims_read is None);
}

/// With a configuration that is made from a secret, an issued token is past exactly
/// from its expiry on.
pub proof fn token_is_past_from_its_expiry_on(config: JwtConfig, exp: u64, at: u64)
    requires
        leeway_of(config.validation) == 0,
        margin_of(config.validation) == 1,
    ensures
        is_past(exp, config.validation, at) <==> exp <= at,
{
}

/// A token is issued for a subject exactly if signing returns one for the claims, which
/// it always does with a key that can sign, but for the elliptic curves.
pub proof fn token_is_issued_where_signing_succeeds(
    config: JwtConfig,
    subject: Value,
    view: Value,
    typ: TokenKind,
    ttl: u64,
    now: u64,
    outcome: Result<String, JwtError>,
)
    requires
        is_issued(config, Ok::<Value, serde_json::Error>(subject), view, typ, ttl, now, outcome),
    ensures
        outcome is Ok <==> signs(
            config.algorithm,
            json_of(Claims { sub: subject, iat: now, exp: later(now, ttl), typ, user: view }),
            config.encoding_key,
        ),
        config.signs_always() ==> outcome is Ok,
{
}

/// Nothing of the user but the subject and the embedded view flows into a token: issuing
/// one for users who agree in these comes to the same at the same time, be it a token or
/// an error. Under the RSA algorithms, which draw random numbers, the tokens may differ.
pub proof fn only_subject_and_view_are_signed<User: TokenUser>(
    config: JwtConfig,
    first: User,
    second: User,
    subject: Result<Value, serde_json::Error>,
    view: Value,
    typ: TokenKind,
    ttl: u64,
    now: u64,
    first_outcome: Result<String, JwtError>,
    second_outcome: Result<String, JwtError>,
)
    requires
        forall|said: Result<Value, serde_json::Error>| #[trigger]
            call_ensures(User::subject, (&first,), said) ==> said == subject,
        forall|said: Result<Value, serde_json::Error>| #[trigger]
            call_ensures(User::subject, (&second,), said) ==> said == subject,
        forall|shown: Value| #[trigger]
            call_ensures(User::to_claims, (&first,), shown) ==> shown == view,
        forall|shown: Value| #[trigger]
            call_ensures(User::to_claims, (&second,), shown) ==> shown == view,
        config.encodes_at(first, typ, ttl, now, first_outcome),
        config.encodes_at(second, typ, ttl, now, second_outcome),
    ensures
        match (first_outcome, second_outcome) {
            (Ok(token), Ok(other)) => is_rsa(config.algorithm) || token@ == other@,
            (Err(error), Err(other)) => error == other,
            _ => false,
        },
{
}

/// The re-issue of a token is due exactly in the last third of its lifetime: from
/// the second that is a third of the lifetime before its expiry, until it expires.
pub proof fn refresh_is_due_in_the_last_third(config: JwtConfig, iat: u64, exp: u64, now: u64)
    requires
        config.sliding_refresh,
        iat < exp,
    ensures
        config.is_refresh_due(iat, exp, now) <==> exp - (exp - iat) / 3 <= now < exp,
{
}

/// No re-issue is due for a token that was just issued, for one that has expired,
/// or where sliding refresh is off.
pub proof fn refresh_is_not_due(config: JwtConfig, iat: u64, exp: u64, now: u64)
    requires
        !config.sliding_refresh || now <= iat || exp <= now,
    ensures
        !config.is_refresh_due(iat, exp, now),
{
}

/// Once the re-issue of a token is due, it stays due until the token expires.
pub proof fn refresh_stays_due(config: JwtConfig, iat: u64, exp: u64, now: u64, then_now: u64)
    requires
        config.is_refresh_due(iat, exp, now),
        now <= then_now < exp,
    ensures
        config.is_refresh_due(iat, exp, then_now),
{
}

} // verus!
