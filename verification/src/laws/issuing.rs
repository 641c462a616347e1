//! Laws on issuing tokens and accepting them: what a token says of its user, its kind
//! and its times, and for how long it is good.

use crate::backend::TokenUser;
use crate::claims::{
    json_of, lemma_names_differ, read_claims, stated_claims, Claims, StatedClaims, TokenKind,
};
use crate::clock::{is_reading, whole_seconds};
use crate::json::{json_null, json_str, json_u64, members_of, reparsed};
use crate::jwt::{accept_claims, is_decoded, is_issued, later, JwtConfig, JwtError};
use crate::laws::requests::is_faithful;
use crate::laws::tokens::{
    accepted_claims_are_the_signed_ones, decoded_token_is_not_past, issued_token_is_accepted,
    kinds_are_not_interchangeable,
};
use crate::token::{
    can_sign, checked_claims, checks_expiry_only, is_checked, is_hmac, is_pair, is_rsa, is_sealed,
    is_token, json_token_error, leeway_of, margin_of, signed_token, signing_error,
    signing_secret, signs,
};
use jsonwebtoken::Validation;
use serde_json::Value;
use std::time::Duration;
use vstd::prelude::*;

verus! {

/// The word for a kind of token.
pub open spec fn word(kind: TokenKind) -> Seq<char> {
    match kind {
        TokenKind::Access => "access"@,
        TokenKind::Refresh => "refresh"@,
    }
}

/// Whether a JSON value says which kind of token it is: it is the word for it, or an
/// object whose only member has that name and is null.
pub open spec fn names_kind(typ: Value, kind: TokenKind) -> bool {
    match json_str(typ) {
        Some(text) => text == word(kind),
        None => {
            &&& members_of(typ).dom().contains(word(kind))
            &&& json_null(members_of(typ)[word(kind)])
            &&& forall|name: Seq<char>| #[trigger]
                members_of(typ).dom().contains(name) ==> name == word(kind)
        },
    }
}

/// The timestamp so many seconds after another one, or the last one that there is.
pub open spec fn after(now: u64, seconds: u64) -> int {
    if now + seconds <= u64::MAX {
        now + seconds
    } else {
        u64::MAX as int
    }
}

/// Whether what expires at a time is over at another one, by the configured rules: its
/// leeway is used up, or less than the margin of it is left.
pub open spec fn is_over(validation: Validation, exp: int, at: u64) -> bool {
    exp < margin_of(validation) || exp + leeway_of(validation) < at + margin_of(validation)
}

/// Whether a type of users makes an ID of a subject.
pub open spec fn has_id<User: TokenUser>(subject: Option<&Value>) -> bool {
    exists|id: Option<User::Id>| #[trigger]
        call_ensures(User::parse_subject, (subject,), id) && id is Some
}

/// Whether a user is what a type of users makes of what a token carries of a subject and
/// a view, and has an ID of it too.
pub open spec fn is_carried<User: TokenUser>(subject: Value, view: Value, user: User) -> bool {
    &&& reparsed(subject) matches Some(read) && has_id::<User>(Some(&read))
    &&& reparsed(view) matches Some(read) && call_ensures(User::from_claims, (&read,), Some(user))
}

/// Whether a user is what a token for another one, or for the same one, makes of it.
pub open spec fn is_told<User: TokenUser>(of: User, user: User) -> bool {
    exists|subject: Value, view: Value|
        call_ensures(User::subject, (&of,), Ok::<Value, serde_json::Error>(subject))
            && call_ensures(User::to_claims, (&of,), view) && #[trigger] is_carried(
            subject,
            view,
            user,
        )
}

/// The words for the kinds are read back, and nothing else is.
pub proof fn kinds_are_told_by_their_words(
    kind: TokenKind,
    word_of: &'static str,
    name: &str,
    named: Option<TokenKind>,
)
    ensures
        call_ensures(TokenKind::name, (kind,), word_of) ==> word_of@ == word(kind),
        call_ensures(TokenKind::from_name, (name,), named) ==> match named {
            Some(k) => name@ == word(k),
            None => name@ != "access"@ && name@ != "refresh"@,
        },
{
}

/// A `typ` claim gives the one kind that it names, if it names one.
pub proof fn kind_is_the_one_named(typ: &Value, kind: Option<TokenKind>)
    requires
        call_ensures(TokenKind::from_json, (typ,), kind),
    ensures
        kind matches Some(k) ==> names_kind(*typ, k),
        kind is None ==> !names_kind(*typ, TokenKind::Access) && !names_kind(
            *typ,
            TokenKind::Refresh,
        ),
{
    lemma_names_differ();
    lemma_kind_is_named(*typ, TokenKind::Access);
    lemma_kind_is_named(*typ, TokenKind::Refresh);
}

proof fn lemma_kind_is_named(typ: Value, kind: TokenKind)
    ensures
        crate::claims::kind_of(typ) == Some(kind) <==> names_kind(typ, kind),
{
    lemma_names_differ();
    let names = members_of(typ).dom();
    if json_str(typ) is None && names_kind(typ, kind) {
        assert(names =~= set![word(kind)]);
    }
    if json_str(typ) is None && names == set!["access"@] {
        assert(names.contains("access"@));
    }
    if json_str(typ) is None && names == set!["refresh"@] {
        assert(names.contains("refresh"@));
    }
}

/// The JSON form of claims has five members, each with what the claim says.
pub proof fn json_form_has_five_members(claims: Claims, json: Value, name: Seq<char>)
    requires
        call_ensures(Claims::into_json, (claims,), json),
    ensures
        members_of(json).dom().contains(name) <==> name == "sub"@ || name == "iat"@ || name
            == "exp"@ || name == "typ"@ || name == "user"@,
        members_of(json)["sub"@] == claims.sub,
        json_u64(members_of(json)["iat"@]) == Some(claims.iat),
        json_u64(members_of(json)["exp"@]) == Some(claims.exp),
        json_str(members_of(json)["typ"@]) == Some(word(claims.typ)),
        members_of(json)["user"@] == claims.user,
{
}

/// Claims are read from a JSON value exactly if it has the times as numbers, a kind and
/// a view of the user; a subject may be missing.
pub proof fn claims_are_read_as_stated(json: &Value, claims: Option<StatedClaims<'_>>)
    requires
        call_ensures(read_claims, (json,), claims),
    ensures
        match claims {
            Some(c) => {
                &&& members_of(*json).dom().contains("iat"@)
                &&& json_u64(members_of(*json)["iat"@]) == Some(c.iat)
                &&& members_of(*json).dom().contains("exp"@)
                &&& json_u64(members_of(*json)["exp"@]) == Some(c.exp)
                &&& members_of(*json).dom().contains("typ"@)
                &&& names_kind(members_of(*json)["typ"@], c.typ)
                &&& members_of(*json).dom().contains("user"@)
                &&& *c.user == members_of(*json)["user"@]
                &&& c.sub matches Some(sub) ==> members_of(*json).dom().contains("sub"@) && *sub
                    == members_of(*json)["sub"@]
                &&& c.sub is None ==> !members_of(*json).dom().contains("sub"@)
            },
            None => {
                ||| !members_of(*json).dom().contains("iat"@)
                ||| json_u64(members_of(*json)["iat"@]) is None
                ||| !members_of(*json).dom().contains("exp"@)
                ||| json_u64(members_of(*json)["exp"@]) is None
                ||| !members_of(*json).dom().contains("typ"@)
                ||| !names_kind(members_of(*json)["typ"@], TokenKind::Access) && !names_kind(
                    members_of(*json)["typ"@],
                    TokenKind::Refresh,
                )
                ||| !members_of(*json).dom().contains("user"@)
            },
        },
{
    lemma_kind_is_named(members_of(*json)["typ"@], TokenKind::Access);
    lemma_kind_is_named(members_of(*json)["typ"@], TokenKind::Refresh);
}

/// The subject that JSON claims state, if they state one.
pub open spec fn subject_in<'a>(json: Value) -> Option<&'a Value> {
    if members_of(json).dom().contains("sub"@) {
        Some(&members_of(json)["sub"@])
    } else {
        None
    }
}

/// Whether JSON claims are those of a token of a kind for a user, with these times.
pub open spec fn is_account<User: TokenUser>(
    json: Value,
    kind: TokenKind,
    user: User,
    iat: u64,
    exp: u64,
) -> bool {
    &&& members_of(json).dom().contains("iat"@)
    &&& json_u64(members_of(json)["iat"@]) == Some(iat)
    &&& members_of(json).dom().contains("exp"@)
    &&& json_u64(members_of(json)["exp"@]) == Some(exp)
    &&& members_of(json).dom().contains("typ"@)
    &&& names_kind(members_of(json)["typ"@], kind)
    &&& members_of(json).dom().contains("user"@)
    &&& call_ensures(User::from_claims, (&members_of(json)["user"@],), Some(user))
    &&& has_id::<User>(subject_in(json))
}

/// Whether something is missing in JSON claims: a time, the kind, the view of the user,
/// or what the type of users makes of the subject or of the view.
pub open spec fn is_wanting<User: TokenUser>(json: Value, kind: TokenKind) -> bool {
    ||| !members_of(json).dom().contains("iat"@)
    ||| json_u64(members_of(json)["iat"@]) is None
    ||| !members_of(json).dom().contains("exp"@)
    ||| json_u64(members_of(json)["exp"@]) is None
    ||| !members_of(json).dom().contains("typ"@)
    ||| !names_kind(members_of(json)["typ"@], kind)
    ||| !members_of(json).dom().contains("user"@)
    ||| call_ensures(User::from_claims, (&members_of(json)["user"@],), None::<User>)
    ||| call_ensures(User::parse_subject, (subject_in(json),), None::<User::Id>)
}

/// Whether an outcome is what claims, or the want of them, should come to.
pub open spec fn is_due_outcome<User: TokenUser>(
    claims: Option<Value>,
    kind: TokenKind,
    outcome: Option<(User, u64, u64)>,
) -> bool {
    match (claims, outcome) {
        (Some(json), Some((user, iat, exp))) => is_account(json, kind, user, iat, exp),
        (Some(json), None) => is_wanting::<User>(json, kind),
        (None, outcome) => outcome is None,
    }
}

pub(crate) proof fn lemma_decoded_is_due<User: TokenUser>(
    claims: Option<Value>,
    kind: TokenKind,
    id: Option<User::Id>,
    user: Option<User>,
    outcome: Option<(User, u64, u64)>,
)
    requires
        is_decoded(claims, kind, id, user, outcome),
    ensures
        is_due_outcome(claims, kind, outcome),
{
    if let Some(json) = claims {
        let typ = members_of(json)["typ"@];
        lemma_kind_is_named(typ, TokenKind::Access);
        lemma_kind_is_named(typ, TokenKind::Refresh);
        if let Some(stated) = stated_claims(json) {
            assert(stated.sub == subject_in(json));
            assert(call_ensures(User::parse_subject, (subject_in(json),), id));
        }
    }
}

/// Claims are accepted exactly if nothing is missing in them, and then give the user
/// that is made of the view, and the times that they state.
pub proof fn claims_are_accepted_if_nothing_is_missing<User: TokenUser>(
    claims: &Option<Value>,
    kind: TokenKind,
    outcome: Option<(User, u64, u64)>,
)
    requires
        call_ensures(accept_claims::<User>, (claims, kind), outcome),
    ensures
        is_due_outcome(*claims, kind, outcome),
{
    let (id, user) = choose|id: Option<User::Id>, user: Option<User>| #[trigger]
        is_decoded(*claims, kind, id, user, outcome);
    lemma_decoded_is_due(*claims, kind, id, user, outcome);
}

proof fn lemma_decoded_at<User: TokenUser>(
    config: JwtConfig,
    token: Seq<char>,
    kind: TokenKind,
    outcome: Option<(User, u64, u64)>,
) -> (at: u64)
    requires
        config.decodes(token, kind, outcome),
    ensures
        is_reading(at),
        config.decodes_at(token, kind, at, outcome),
        is_due_outcome(
            checked_claims(token, config.decoding_key, config.validation, at),
            kind,
            outcome,
        ),
{
    let at = choose|at: u64| #[trigger] config.decodes_at(token, kind, at, outcome);
    let (claims, id, user) = choose|
        claims: Option<Value>,
        id: Option<User::Id>,
        user: Option<User>,
    |
        is_checked(token, config.decoding_key, config.validation, at, claims)
            && #[trigger] is_decoded(claims, kind, id, user, outcome);
    lemma_decoded_is_due(claims, kind, id, user, outcome);
    at
}

/// A token is decoded by what its claims state, once they were checked with the
/// configured key and by the configured rules.
pub proof fn token_is_decoded_by_its_claims<User: TokenUser>(
    config: &JwtConfig,
    token: &str,
    kind: TokenKind,
    outcome: Option<(User, u64, u64)>,
) -> (at: u64)
    requires
        call_ensures(JwtConfig::decode_kind::<User>, (config, token, kind), outcome),
    ensures
        is_reading(at),
        is_due_outcome(
            checked_claims(token@, config.decoding_key, config.validation, at),
            kind,
            outcome,
        ),
{
    lemma_decoded_at(*config, token@, kind, outcome)
}

/// Decoding a token to its user decodes it as an access token.
pub proof fn access_tokens_are_decoded<User: TokenUser>(
    config: &JwtConfig,
    token: &str,
    user: Option<User>,
) -> (times: (u64, u64, u64))
    requires
        call_ensures(JwtConfig::decode::<User>, (config, token), user),
    ensures
        is_reading(times.0),
        is_due_outcome(
            checked_claims(token@, config.decoding_key, config.validation, times.0),
            TokenKind::Access,
            match user {
                Some(user) => Some((user, times.1, times.2)),
                None => None,
            },
        ),
{
    let outcome = choose|outcome: Option<(User, u64, u64)>| #[trigger]
        config.decodes(token@, TokenKind::Access, outcome) && user == match outcome {
            Some((user, _, _)) => Some(user),
            None => None,
        };
    let at = lemma_decoded_at(*config, token@, TokenKind::Access, outcome);
    match outcome {
        Some((_, iat, exp)) => (at, iat, exp),
        None => (at, 0, 0),
    }
}

/// Signing claims succeeds exactly where their JSON form can be signed, which is so for
/// a key that can sign with the algorithm, unless that is one on elliptic curves.
pub proof fn claims_are_signed_where_they_can_be(
    config: &JwtConfig,
    claims: Claims,
    json: Value,
    outcome: Result<String, JwtError>,
)
    requires
        call_ensures(Claims::into_json, (claims,), json),
        call_ensures(JwtConfig::sign_claims, (config, claims), outcome),
    ensures
        outcome is Ok <==> signs(config.algorithm, json, config.encoding_key),
        outcome is Ok ==> can_sign(config.algorithm, config.encoding_key),
        outcome matches Ok(token) ==> is_token(
            token@,
            config.algorithm,
            json,
            config.encoding_key,
        ),
        outcome matches Ok(token) ==> !is_rsa(config.algorithm) ==> token@ == signed_token(
            config.algorithm,
            json,
            config.encoding_key,
        ),
        can_sign(config.algorithm, config.encoding_key) && !(config.algorithm is ES256)
            && !(config.algorithm is ES384) ==> outcome is Ok,
        outcome matches Err(error) ==> error matches JwtError::Jwt(cause) && cause
            == signing_error(config.algorithm, json, config.encoding_key),
        outcome matches Ok(token) ==> is_hmac(config.algorithm) && (signing_secret(
            config.encoding_key,
        ) matches Some(secret)) ==> is_sealed(
            token@,
            config.algorithm,
            signing_secret(config.encoding_key)->0,
        ),
{
}

/// A token that was signed states its claims when it is accepted: of their kind only,
/// with their times, and with the user that is made of the view.
proof fn lemma_issued_says<User: TokenUser>(
    config: JwtConfig,
    subject: Result<Value, serde_json::Error>,
    view: Value,
    typ: TokenKind,
    ttl: u64,
    now: u64,
    token: String,
    other: JwtConfig,
    expected: TokenKind,
    found: User,
    iat: u64,
    exp: u64,
)
    requires
        is_issued(config, subject, view, typ, ttl, now, Ok::<String, JwtError>(token)),
        other.decodes(token@, expected, Some((found, iat, exp))),
    ensures
        subject is Ok,
        expected == typ,
        iat == now,
        exp == after(now, ttl),
        is_carried(subject->Ok_0, view, found),
{
    let outcome = Some((found, iat, exp));
    let at = choose|at: u64| #[trigger] other.decodes_at(token@, expected, at, outcome);
    let (claims, id, user) = choose|
        claims: Option<Value>,
        id: Option<User::Id>,
        user: Option<User>,
    |
        is_checked(token@, other.decoding_key, other.validation, at, claims)
            && #[trigger] is_decoded(claims, expected, id, user, outcome);
    let signed = Claims { sub: subject->Ok_0, iat: now, exp: later(now, ttl), typ, user: view };
    accepted_claims_are_the_signed_ones(config, signed, token, other, at, claims->0);
    let stated = stated_claims(claims->0)->0;
    let read = reparsed(signed.sub)->0;
    assert(*stated.sub->0 == read);
    assert(call_ensures(User::parse_subject, (Some(&read),), id));
}

/// Claims that were signed are those that are accepted, whoever checks them: of their kind,
/// with their times, and with what JSON text carries of their subject and their view.
pub proof fn signed_claims_are_accepted_as_they_are<User: TokenUser>(
    config: &JwtConfig,
    claims: Claims,
    token: String,
    other: &JwtConfig,
    text: &str,
    expected: TokenKind,
    found: User,
    iat: u64,
    exp: u64,
)
    requires
        call_ensures(
            JwtConfig::sign_claims,
            (config, claims),
            Ok::<String, JwtError>(token),
        ),
        text@ == token@,
        call_ensures(
            JwtConfig::decode_kind::<User>,
            (other, text, expected),
            Some((found, iat, exp)),
        ),
    ensures
        expected == claims.typ,
        iat == claims.iat,
        exp == claims.exp,
        is_carried(claims.sub, claims.user, found),
{
    let outcome = Some((found, iat, exp));
    let at = choose|at: u64| #[trigger] other.decodes_at(token@, expected, at, outcome);
    let (read, id, user) = choose|
        read: Option<Value>,
        id: Option<User::Id>,
        user: Option<User>,
    |
        is_checked(token@, other.decoding_key, other.validation, at, read)
            && #[trigger] is_decoded(read, expected, id, user, outcome);
    accepted_claims_are_the_signed_ones(*config, claims, token, *other, at, read->0);
    let stated = stated_claims(read->0)->0;
    let subject = reparsed(claims.sub)->0;
    assert(*stated.sub->0 == subject);
    assert(call_ensures(User::parse_subject, (Some(&subject),), id));
}

/// What a token is issued for at a given time, it states when it is accepted, whoever
/// checks it: its kind, its time of issue, its expiry a lifetime later, and the user.
pub proof fn token_states_what_it_is_issued_for<User: TokenUser>(
    config: &JwtConfig,
    subject: Result<Value, serde_json::Error>,
    view: Value,
    typ: TokenKind,
    ttl: Duration,
    now: u64,
    token: String,
    other: &JwtConfig,
    text: &str,
    expected: TokenKind,
    found: User,
    iat: u64,
    exp: u64,
)
    requires
        call_ensures(
            JwtConfig::encode_at,
            (config, subject, view, typ, ttl, now),
            Ok::<String, JwtError>(token),
        ),
        text@ == token@,
        call_ensures(
            JwtConfig::decode_kind::<User>,
            (other, text, expected),
            Some((found, iat, exp)),
        ),
    ensures
        subject is Ok,
        expected == typ,
        iat == now,
        exp == after(now, whole_seconds(ttl)),
        is_carried(subject->Ok_0, view, found),
{
    lemma_issued_says(
        *config,
        subject,
        view,
        typ,
        whole_seconds(ttl),
        now,
        token,
        *other,
        expected,
        found,
        iat,
        exp,
    );
}

/// No token is issued for a user without a subject, and the error is the user's own; with
/// a subject the error is one of signing, and comes of no key that can sign with the
/// algorithm, unless that is one on elliptic curves.
pub proof fn subject_decides_first(
    config: &JwtConfig,
    subject: Result<Value, serde_json::Error>,
    view: Value,
    typ: TokenKind,
    ttl: Duration,
    now: u64,
    outcome: Result<String, JwtError>,
)
    requires
        call_ensures(JwtConfig::encode_at, (config, subject, view, typ, ttl, now), outcome),
    ensures
        subject matches Err(error) ==> outcome == Err::<String, JwtError>(JwtError::Json(error)),
        subject is Ok ==> match outcome {
            Ok(_) => can_sign(config.algorithm, config.encoding_key),
            Err(error) => error is Jwt && (!can_sign(config.algorithm, config.encoding_key)
                || config.algorithm is ES256 || config.algorithm is ES384),
        },
{
}

/// The errors of issuing are told apart by `jsonwebtoken` too.
pub proof fn error_keeps_its_cause(
    error: JwtError,
    told: jsonwebtoken::errors::Error,
)
    requires
        call_ensures(JwtError::into_token_error, (error,), told),
    ensures
        error matches JwtError::Json(cause) ==> told == json_token_error(cause),
        error matches JwtError::Jwt(cause) ==> told == cause,
{
}

/// What issuing a token of a kind for a user, with a lifetime, says of the token.
pub(crate) proof fn lemma_encoded_says<User: TokenUser>(
    config: JwtConfig,
    user: User,
    typ: TokenKind,
    ttl: u64,
    token: String,
    other: JwtConfig,
    expected: TokenKind,
    found: User,
    iat: u64,
    exp: u64,
)
    requires
        config.encodes(user, typ, ttl, Ok::<String, JwtError>(token)),
        other.decodes(token@, expected, Some((found, iat, exp))),
    ensures
        expected == typ,
        is_reading(iat),
        exp == after(iat, ttl),
        is_told(user, found),
{
    let issued = Ok::<String, JwtError>(token);
    let now = choose|now: u64|
        is_reading(now) && #[trigger] config.encodes_at(user, typ, ttl, now, issued);
    let (subject, view) = choose|subject: Result<Value, serde_json::Error>, view: Value|
        call_ensures(User::subject, (&user,), subject) && call_ensures(
            User::to_claims,
            (&user,),
            view,
        ) && #[trigger] is_issued(config, subject, view, typ, ttl, now, issued);
    lemma_issued_says(
        config,
        subject,
        view,
        typ,
        ttl,
        now,
        token,
        other,
        expected,
        found,
        iat,
        exp,
    );
    let sub = subject->Ok_0;
    assert(subject == Ok::<Value, serde_json::Error>(sub));
    assert(is_carried(sub, view, found));
}

/// A token that was issued for a user, of a kind and for a lifetime, states just that when
/// it is accepted, whoever checks it.
pub proof fn token_states_its_kind_and_lifetime<User: TokenUser>(
    config: &JwtConfig,
    user: &User,
    typ: TokenKind,
    ttl: Duration,
    token: String,
    other: &JwtConfig,
    text: &str,
    expected: TokenKind,
    found: User,
    iat: u64,
    exp: u64,
)
    requires
        call_ensures(
            JwtConfig::encode_kind::<User>,
            (config, user, typ, ttl),
            Ok::<String, JwtError>(token),
        ),
        text@ == token@,
        call_ensures(
            JwtConfig::decode_kind::<User>,
            (other, text, expected),
            Some((found, iat, exp)),
        ),
    ensures
        expected == typ,
        is_reading(iat),
        exp == after(iat, whole_seconds(ttl)),
        is_told(*user, found),
{
    lemma_encoded_says(
        *config,
        *user,
        typ,
        whole_seconds(ttl),
        token,
        *other,
        expected,
        found,
        iat,
        exp,
    );
}

/// An access token is accepted as one only, and expires the configured lifetime of access
/// tokens after it was issued.
pub proof fn access_token_expires_as_configured<User: TokenUser>(
    config: &JwtConfig,
    user: &User,
    token: String,
    other: &JwtConfig,
    text: &str,
    expected: TokenKind,
    found: User,
    iat: u64,
    exp: u64,
)
    requires
        call_ensures(JwtConfig::encode::<User>, (config, user), Ok::<String, JwtError>(token)),
        text@ == token@,
        call_ensures(
            JwtConfig::decode_kind::<User>,
            (other, text, expected),
            Some((found, iat, exp)),
        ),
    ensures
        expected is Access,
        is_reading(iat),
        exp == after(iat, whole_seconds(config.ttl)),
        is_told(*user, found),
{
    lemma_encoded_says(
        *config,
        *user,
        TokenKind::Access,
        whole_seconds(config.ttl),
        token,
        *other,
        expected,
        found,
        iat,
        exp,
    );
}

/// A refresh token is accepted as one only, and expires the configured lifetime of refresh
/// tokens after it was issued.
pub proof fn refresh_token_expires_as_configured<User: TokenUser>(
    config: &JwtConfig,
    user: &User,
    token: String,
    other: &JwtConfig,
    text: &str,
    expected: TokenKind,
    found: User,
    iat: u64,
    exp: u64,
)
    requires
        call_ensures(
            JwtConfig::encode_refresh::<User>,
            (config, user),
            Ok::<String, JwtError>(token),
        ),
        text@ == token@,
        call_ensures(
            JwtConfig::decode_kind::<User>,
            (other, text, expected),
            Some((found, iat, exp)),
        ),
    ensures
        expected is Refresh,
        is_reading(iat),
        exp == after(iat, whole_seconds(config.refresh_ttl)),
        is_told(*user, found),
{
    lemma_encoded_says(
        *config,
        *user,
        TokenKind::Refresh,
        whole_seconds(config.refresh_ttl),
        token,
        *other,
        expected,
        found,
        iat,
        exp,
    );
}

/// What a token was issued for: when, what the user gave for it, and the claims.
pub struct Issue {
    pub now: u64,
    pub subject: Value,
    pub view: Value,
    pub json: Value,
}

/// Whether this is what a token was issued for: five claims, which are the user's subject
/// and view, the time of issue, the expiry so many seconds later and the kind, signed with
/// the configured key and algorithm.
pub open spec fn is_issue<User: TokenUser>(
    config: JwtConfig,
    user: User,
    kind: TokenKind,
    seconds: u64,
    token: Seq<char>,
    issue: Issue,
) -> bool {
    let members = members_of(issue.json);
    &&& is_reading(issue.now)
    &&& call_ensures(User::subject, (&user,), Ok::<Value, serde_json::Error>(issue.subject))
    &&& call_ensures(User::to_claims, (&user,), issue.view)
    &&& members.dom() == set!["sub"@, "iat"@, "exp"@, "typ"@, "user"@]
    &&& members["sub"@] == issue.subject
    &&& json_u64(members["iat"@]) == Some(issue.now)
    &&& json_u64(members["exp"@]) == Some(after(issue.now, seconds) as u64)
    &&& json_str(members["typ"@]) == Some(word(kind))
    &&& members["user"@] == issue.view
    &&& is_token(token, config.algorithm, issue.json, config.encoding_key)
    &&& !is_rsa(config.algorithm) ==> token == signed_token(
        config.algorithm,
        issue.json,
        config.encoding_key,
    )
}

/// A token that was issued for a user, of a kind and for so many seconds, is signed with the
/// configured key for just that, which is handed out.
pub proof fn issuing_signs_what_it_is_for<User: TokenUser>(
    config: JwtConfig,
    user: User,
    typ: TokenKind,
    ttl: u64,
    token: String,
) -> (issue: Issue)
    requires
        config.encodes(user, typ, ttl, Ok::<String, JwtError>(token)),
    ensures
        is_issue(config, user, typ, ttl, token@, issue),
{
    let issued = Ok::<String, JwtError>(token);
    let now = choose|now: u64|
        is_reading(now) && #[trigger] config.encodes_at(user, typ, ttl, now, issued);
    let (subject, view) = choose|subject: Result<Value, serde_json::Error>, view: Value|
        call_ensures(User::subject, (&user,), subject) && call_ensures(
            User::to_claims,
            (&user,),
            view,
        ) && #[trigger] is_issued(config, subject, view, typ, ttl, now, issued);
    let sub = subject->Ok_0;
    assert(subject == Ok::<Value, serde_json::Error>(sub));
    let claims = Claims { sub, iat: now, exp: later(now, ttl), typ, user: view };
    Issue { now, subject: sub, view, json: json_of(claims) }
}

/// An access token is signed for its user, for the configured lifetime of access tokens.
pub proof fn access_token_is_signed_for_its_user<User: TokenUser>(
    config: &JwtConfig,
    user: &User,
    token: String,
) -> (issue: Issue)
    requires
        call_ensures(JwtConfig::encode::<User>, (config, user), Ok::<String, JwtError>(token)),
    ensures
        is_issue(
            *config,
            *user,
            TokenKind::Access,
            whole_seconds(config.ttl),
            token@,
            issue,
        ),
{
    issuing_signs_what_it_is_for(
        *config,
        *user,
        TokenKind::Access,
        whole_seconds(config.ttl),
        token,
    )
}

/// A refresh token is signed for its user, for the configured lifetime of refresh tokens.
pub proof fn refresh_token_is_signed_for_its_user<User: TokenUser>(
    config: &JwtConfig,
    user: &User,
    token: String,
) -> (issue: Issue)
    requires
        call_ensures(
            JwtConfig::encode_refresh::<User>,
            (config, user),
            Ok::<String, JwtError>(token),
        ),
    ensures
        is_issue(
            *config,
            *user,
            TokenKind::Refresh,
            whole_seconds(config.refresh_ttl),
            token@,
            issue,
        ),
{
    issuing_signs_what_it_is_for(
        *config,
        *user,
        TokenKind::Refresh,
        whole_seconds(config.refresh_ttl),
        token,
    )
}

/// A token of a kind is signed for its user, for the lifetime that is asked for.
pub proof fn token_of_a_kind_is_signed_for_its_user<User: TokenUser>(
    config: &JwtConfig,
    user: &User,
    typ: TokenKind,
    ttl: Duration,
    token: String,
) -> (issue: Issue)
    requires
        call_ensures(
            JwtConfig::encode_kind::<User>,
            (config, user, typ, ttl),
            Ok::<String, JwtError>(token),
        ),
    ensures
        is_issue(*config, *user, typ, whole_seconds(ttl), token@, issue),
{
    issuing_signs_what_it_is_for(*config, *user, typ, whole_seconds(ttl), token)
}

/// A token is issued if the user gives a subject and the key can sign; else the error is the
/// user's own, or one of signing.
pub proof fn issuing_fails_with_the_subject_or_the_key<User: TokenUser>(
    config: &JwtConfig,
    user: &User,
    outcome: Result<String, JwtError>,
) -> (subject: Result<Value, serde_json::Error>)
    requires
        call_ensures(JwtConfig::encode::<User>, (config, user), outcome) || call_ensures(
            JwtConfig::encode_refresh::<User>,
            (config, user),
            outcome,
        ) || exists|typ: TokenKind, ttl: Duration| #[trigger]
            call_ensures(JwtConfig::encode_kind::<User>, (config, user, typ, ttl), outcome),
    ensures
        call_ensures(User::subject, (user,), subject),
        subject matches Err(error) ==> outcome == Err::<String, JwtError>(JwtError::Json(error)),
        subject is Ok ==> match outcome {
            Ok(_) => can_sign(config.algorithm, config.encoding_key),
            Err(error) => error is Jwt && (!can_sign(config.algorithm, config.encoding_key)
                || config.algorithm is ES256 || config.algorithm is ES384),
        },
{
    let (typ, ttl) = if call_ensures(JwtConfig::encode::<User>, (config, user), outcome) {
        (TokenKind::Access, whole_seconds(config.ttl))
    } else if call_ensures(JwtConfig::encode_refresh::<User>, (config, user), outcome) {
        (TokenKind::Refresh, whole_seconds(config.refresh_ttl))
    } else {
        let (typ, ttl) = choose|typ: TokenKind, ttl: Duration| #[trigger]
            call_ensures(JwtConfig::encode_kind::<User>, (config, user, typ, ttl), outcome);
        (typ, whole_seconds(ttl))
    };
    assert(config.encodes(*user, typ, ttl, outcome));
    let now = choose|now: u64|
        is_reading(now) && #[trigger] config.encodes_at(*user, typ, ttl, now, outcome);
    let (subject, view) = choose|subject: Result<Value, serde_json::Error>, view: Value|
        call_ensures(User::subject, (user,), subject) && call_ensures(
            User::to_claims,
            (user,),
            view,
        ) && #[trigger] is_issued(*config, subject, view, typ, ttl, now, outcome);
    subject
}

/// What checking a token that was issued for a clone of a user comes to at a given time;
/// the time of issue is handed out.
pub(crate) proof fn lemma_good_at<User: TokenUser>(
    config: JwtConfig,
    user: User,
    copy: User,
    remade: User,
    typ: TokenKind,
    ttl: u64,
    token: String,
    expected: TokenKind,
    at: u64,
    outcome: Option<(User, u64, u64)>,
) -> (now: u64)
    requires
        is_pair(config.algorithm, config.encoding_key, config.decoding_key),
        checks_expiry_only(config.validation, config.algorithm),
        is_faithful(user, remade),
        cloned(user, copy),
        config.encodes(copy, typ, ttl, Ok::<String, JwtError>(token)),
        config.decodes_at(token@, expected, at, outcome),
    ensures
        is_reading(now),
        outcome == if expected != typ || is_over(config.validation, after(now, ttl), at) {
            None
        } else {
            Some((remade, now, after(now, ttl) as u64))
        },
{
    let issued = Ok::<String, JwtError>(token);
    let now = choose|now: u64|
        is_reading(now) && #[trigger] config.encodes_at(copy, typ, ttl, now, issued);
    let (subject, view) = choose|subject: Result<Value, serde_json::Error>, view: Value|
        call_ensures(User::subject, (&copy,), subject) && call_ensures(
            User::to_claims,
            (&copy,),
            view,
        ) && #[trigger] is_issued(config, subject, view, typ, ttl, now, issued);
    assert(config.decodes(token@, expected, outcome));
    let sub = subject->Ok_0;
    assert(subject == Ok::<Value, serde_json::Error>(sub));
    let exp = after(now, ttl) as u64;
    if expected != typ {
        kinds_are_not_interchangeable(
            config,
            subject,
            view,
            typ,
            ttl,
            now,
            token,
            config,
            expected,
            outcome,
        );
    } else if is_over(config.validation, exp as int, at) {
        if let Some((found, iat, stated)) = outcome {
            lemma_issued_says(
                config,
                subject,
                view,
                typ,
                ttl,
                now,
                token,
                config,
                expected,
                found,
                iat,
                stated,
            );
            decoded_token_is_not_past(
                config,
                config.algorithm,
                token@,
                expected,
                at,
                found,
                iat,
                stated,
            );
        }
    } else {
        issued_token_is_accepted(
            config,
            sub,
            view,
            typ,
            ttl,
            now,
            token,
            at,
            remade,
            outcome,
        );
    }
    now
}

proof fn lemma_accepted_while_good<User: TokenUser>(
    config: JwtConfig,
    user: User,
    remade: User,
    typ: TokenKind,
    ttl: u64,
    token: String,
    expected: TokenKind,
    outcome: Option<(User, u64, u64)>,
) -> (times: (u64, u64))
    requires
        is_pair(config.algorithm, config.encoding_key, config.decoding_key),
        checks_expiry_only(config.validation, config.algorithm),
        is_faithful(user, remade),
        config.encodes(user, typ, ttl, Ok::<String, JwtError>(token)),
        config.decodes(token@, expected, outcome),
    ensures
        is_reading(times.0),
        is_reading(times.1),
        outcome == if expected != typ || is_over(
            config.validation,
            after(times.0, ttl),
            times.1,
        ) {
            None
        } else {
            Some((remade, times.0, after(times.0, ttl) as u64))
        },
{
    assert(cloned(user, user));
    let at = lemma_decoded_at(config, token@, expected, outcome);
    let now = lemma_good_at(
        config,
        user,
        user,
        remade,
        typ,
        ttl,
        token,
        expected,
        at,
        outcome,
    );
    (now, at)
}

/// An access token is accepted, as an access token, until its configured lifetime is
/// over, and never after; it then gives the user, its time of issue and its expiry.
///
/// The keys are a pair, only the expiry is checked, and the user survives being carried
/// by a token. The times are those of issuing and of checking.
pub proof fn access_token_is_good_until_it_expires<User: TokenUser>(
    config: &JwtConfig,
    user: &User,
    remade: User,
    token: String,
    text: &str,
    expected: TokenKind,
    outcome: Option<(User, u64, u64)>,
) -> (times: (u64, u64))
    requires
        is_pair(config.algorithm, config.encoding_key, config.decoding_key),
        checks_expiry_only(config.validation, config.algorithm),
        is_faithful(*user, remade),
        call_ensures(JwtConfig::encode::<User>, (config, user), Ok::<String, JwtError>(token)),
        text@ == token@,
        call_ensures(JwtConfig::decode_kind::<User>, (config, text, expected), outcome),
    ensures
        is_reading(times.0),
        is_reading(times.1),
        outcome == if expected is Refresh || is_over(
            config.validation,
            after(times.0, whole_seconds(config.ttl)),
            times.1,
        ) {
            None
        } else {
            Some((remade, times.0, after(times.0, whole_seconds(config.ttl)) as u64))
        },
{
    lemma_accepted_while_good(
        *config,
        *user,
        remade,
        TokenKind::Access,
        whole_seconds(config.ttl),
        token,
        expected,
        outcome,
    )
}

/// A refresh token is accepted, as a refresh token, until its configured lifetime is
/// over, and never after; it then gives the user, its time of issue and its expiry.
///
/// The keys are a pair, only the expiry is checked, and the user survives being carried
/// by a token. The times are those of issuing and of checking.
pub proof fn refresh_token_is_good_until_it_expires<User: TokenUser>(
    config: &JwtConfig,
    user: &User,
    remade: User,
    token: String,
    text: &str,
    expected: TokenKind,
    outcome: Option<(User, u64, u64)>,
) -> (times: (u64, u64))
    requires
        is_pair(config.algorithm, config.encoding_key, config.decoding_key),
        checks_expiry_only(config.validation, config.algorithm),
        is_faithful(*user, remade),
        call_ensures(
            JwtConfig::encode_refresh::<User>,
            (config, user),
            Ok::<String, JwtError>(token),
        ),
        text@ == token@,
        call_ensures(JwtConfig::decode_kind::<User>, (config, text, expected), outcome),
    ensures
        is_reading(times.0),
        is_reading(times.1),
        outcome == if expected is Access || is_over(
            config.validation,
            after(times.0, whole_seconds(config.refresh_ttl)),
            times.1,
        ) {
            None
        } else {
            Some((remade, times.0, after(times.0, whole_seconds(config.refresh_ttl)) as u64))
        },
{
    lemma_accepted_while_good(
        *config,
        *user,
        remade,
        TokenKind::Refresh,
        whole_seconds(config.refresh_ttl),
        token,
        expected,
        outcome,
    )
}

/// An access token is decoded to its user until its configured lifetime is over, and never
/// after; a refresh token is never decoded to a user.
///
/// The keys are a pair, only the expiry is checked, and the user survives being carried
/// by a token. The times are those of issuing and of checking.
pub proof fn access_token_is_decoded_to_its_user<User: TokenUser>(
    config: &JwtConfig,
    user: &User,
    remade: User,
    token: String,
    refresh: String,
    text: &str,
    decoded: Option<User>,
) -> (times: (u64, u64))
    requires
        is_pair(config.algorithm, config.encoding_key, config.decoding_key),
        checks_expiry_only(config.validation, config.algorithm),
        is_faithful(*user, remade),
        call_ensures(JwtConfig::encode::<User>, (config, user), Ok::<String, JwtError>(token)),
        call_ensures(
            JwtConfig::encode_refresh::<User>,
            (config, user),
            Ok::<String, JwtError>(refresh),
        ),
        call_ensures(JwtConfig::decode::<User>, (config, text), decoded),
    ensures
        is_reading(times.0),
        is_reading(times.1),
        text@ == token@ ==> decoded == if is_over(
            config.validation,
            after(times.0, whole_seconds(config.ttl)),
            times.1,
        ) {
            None
        } else {
            Some(remade)
        },
        text@ == refresh@ ==> decoded is None,
{
    let outcome = choose|outcome: Option<(User, u64, u64)>| #[trigger]
        config.decodes(text@, TokenKind::Access, outcome) && decoded == match outcome {
            Some((user, _, _)) => Some(user),
            None => None,
        };
    if text@ == refresh@ && outcome is Some {
        let (found, iat, exp) = outcome->0;
        lemma_encoded_says(
            *config,
            *user,
            TokenKind::Refresh,
            whole_seconds(config.refresh_ttl),
            refresh,
            *config,
            TokenKind::Access,
            found,
            iat,
            exp,
        );
    }
    if text@ == token@ {
        lemma_accepted_while_good(
            *config,
            *user,
            remade,
            TokenKind::Access,
            whole_seconds(config.ttl),
            token,
            TokenKind::Access,
            outcome,
        )
    } else {
        let now = choose|now: u64|
            is_reading(now) && #[trigger] config.encodes_at(
                *user,
                TokenKind::Access,
                whole_seconds(config.ttl),
                now,
                Ok::<String, JwtError>(token),
            );
        (now, now)
    }
}

} // verus!
