//! The claims of a token and their JSON form.

use crate::json::{
    inserted, is_scalar, json_null, json_str, json_u64, member, member_count, members_of, named,
    number_json, number_value, object_json, object_value, text_json, text_value,
};
use crate::text::same_text;
use serde_json::Value;
use vstd::prelude::*;

verus! {

/// Tells an access token, which authenticates requests, from a refresh token,
/// which is only ever exchanged for a new access token.
#[derive(Debug, Clone, Copy, PartialEq, Eq, Structural)]
pub enum TokenKind {
    Access,
    Refresh,
}

/// The claims of a token: the user's ID, when the token was issued and when it
/// expires, its kind, and the embedded view of the user.
#[derive(Debug)]
pub struct Claims {
    pub sub: Value,
    pub iat: u64,
    pub exp: u64,
    pub typ: TokenKind,
    pub user: Value,
}

/// The claims that were read from a JSON value, which may have no subject.
#[derive(Debug)]
pub struct StatedClaims<'a> {
    pub sub: Option<&'a Value>,
    pub iat: u64,
    pub exp: u64,
    pub typ: TokenKind,
    pub user: &'a Value,
}

/// The `typ` claim of a kind of token.
pub open spec fn kind_name(typ: TokenKind) -> Seq<char> {
    match typ {
        TokenKind::Access => "access"@,
        TokenKind::Refresh => "refresh"@,
    }
}

/// The kind of token with the given name.
pub open spec fn kind_named(name: Seq<char>) -> Option<TokenKind> {
    if name == "access"@ {
        Some(TokenKind::Access)
    } else if name == "refresh"@ {
        Some(TokenKind::Refresh)
    } else {
        None
    }
}

/// Whether a JSON value is an object with one member, which has the given name and
/// is null.
pub open spec fn is_lone_null(value: Value, name: Seq<char>) -> bool {
    &&& members_of(value).dom() == set![name]
    &&& json_null(members_of(value)[name])
}

/// The kind of token that a `typ` claim says: its name, or an object whose only
/// member has that name and is null.
pub open spec fn kind_of(typ: Value) -> Option<TokenKind> {
    match json_str(typ) {
        Some(name) => kind_named(name),
        None => if is_lone_null(typ, "access"@) {
            Some(TokenKind::Access)
        } else if is_lone_null(typ, "refresh"@) {
            Some(TokenKind::Refresh)
        } else {
            None
        },
    }
}

/// The names of the claims.
pub open spec fn claim_names() -> Set<Seq<char>> {
    set!["sub"@, "iat"@, "exp"@, "typ"@, "user"@]
}

/// The members of the JSON form of claims.
pub open spec fn claim_members(claims: Claims) -> Seq<(Seq<char>, Value)> {
    seq![
        ("sub"@, claims.sub),
        ("iat"@, number_json(claims.iat)),
        ("exp"@, number_json(claims.exp)),
        ("typ"@, text_json(kind_name(claims.typ))),
        ("user"@, claims.user),
    ]
}

/// The JSON form of claims.
pub open spec fn json_of(claims: Claims) -> Value {
    object_json(claim_members(claims))
}

/// Whether `json` says what `claims` say: it is an object with these five members
/// and no others.
pub open spec fn is_json_of(json: Value, claims: Claims) -> bool {
    let members = members_of(json);
    &&& members.dom() == claim_names()
    &&& members["sub"@] == claims.sub
    &&& is_scalar(members["iat"@])
    &&& json_u64(members["iat"@]) == Some(claims.iat)
    &&& is_scalar(members["exp"@])
    &&& json_u64(members["exp"@]) == Some(claims.exp)
    &&& is_scalar(members["typ"@])
    &&& json_str(members["typ"@]) == Some(kind_name(claims.typ))
    &&& members["user"@] == claims.user
}

/// Whether a JSON value states claims: it is an object with all of the five members
/// but perhaps `sub`, each of its type. Further members mean nothing.
pub open spec fn states_claims(json: Value) -> bool {
    let members = members_of(json);
    &&& members.dom().contains("iat"@)
    &&& members.dom().contains("exp"@)
    &&& members.dom().contains("typ"@)
    &&& members.dom().contains("user"@)
    &&& json_u64(members["iat"@]) is Some
    &&& json_u64(members["exp"@]) is Some
    &&& kind_of(members["typ"@]) is Some
}

/// The claims that a JSON value states.
pub open spec fn stated_claims<'a>(json: Value) -> Option<StatedClaims<'a>> {
    let members = members_of(json);
    if states_claims(json) {
        Some(
            StatedClaims {
                sub: if members.dom().contains("sub"@) {
                    Some(&members["sub"@])
                } else {
                    None
                },
                iat: json_u64(members["iat"@])->0,
                exp: json_u64(members["exp"@])->0,
                typ: kind_of(members["typ"@])->0,
                user: &members["user"@],
            },
        )
    } else {
        None
    }
}

/// The names of the claims and of the kinds differ.
pub proof fn lemma_names_differ()
    ensures
        "sub"@ != "iat"@,
        "sub"@ != "exp"@,
        "sub"@ != "typ"@,
        "sub"@ != "user"@,
        "iat"@ != "exp"@,
        "iat"@ != "typ"@,
        "iat"@ != "user"@,
        "exp"@ != "typ"@,
        "exp"@ != "user"@,
        "typ"@ != "user"@,
        "access"@ != "refresh"@,
{
    reveal_strlit("sub");
    reveal_strlit("iat");
    reveal_strlit("exp");
    reveal_strlit("typ");
    reveal_strlit("user");
    reveal_strlit("access");
    reveal_strlit("refresh");
    assert("sub"@[0] == 's' && "iat"@[0] == 'i' && "exp"@[0] == 'e');
    assert("typ"@[0] == 't' && "user"@[0] == 'u');
    assert("access"@.len() != "refresh"@.len());
}

impl TokenKind {
    /// The `typ` claim of this kind of token.
    pub fn name(self) -> (r: &'static str)
        ensures
            r@ == kind_name(self),
    {
        match self {
            TokenKind::Access => "access",
            TokenKind::Refresh => "refresh",
        }
    }

    /// The kind of token with the given name.
    pub fn from_name(name: &str) -> (r: Option<TokenKind>)
        ensures
            r == kind_named(name@),
    {
        if same_text(name, "access") {
            Some(TokenKind::Access)
        } else if same_text(name, "refresh") {
            Some(TokenKind::Refresh)
        } else {
            None
        }
    }

    /// The kind of token that a `typ` claim says.
    pub fn from_json(typ: &Value) -> (r: Option<TokenKind>)
        ensures
            r == kind_of(*typ),
    {
        match typ.as_str() {
            Some(name) => TokenKind::from_name(name),
            None => if lone_null(typ, "access") {
                Some(TokenKind::Access)
            } else if lone_null(typ, "refresh") {
                Some(TokenKind::Refresh)
            } else {
                None
            },
        }
    }
}

/// Whether a JSON value is an object with one member, which has the given name and
/// is null.
fn lone_null(value: &Value, name: &str) -> (r: bool)
    ensures
        r == is_lone_null(*value, name@),
{
    let ghost names = members_of(*value).dom();
    proof {
        if names == set![name@] {
            assert(names.contains(name@));
            assert(set![name@].len() == 1);
        }
    }
    match member(value, name) {
        Some(found) => match member_count(value) {
            Some(count) => {
                proof {
                    if count == 1 {
                        vstd::set_lib::lemma_len_subset(set![name@], names);
                        vstd::set_lib::lemma_subset_equality(set![name@], names);
                    }
                }
                count == 1 && found.is_null()
            },
            None => false,
        },
        None => false,
    }
}

impl Claims {
    /// The JSON form of the claims.
    pub fn into_json(self) -> (json: Value)
        ensures
            json == json_of(self),
            is_json_of(json, self),
    {
        let mut members: Vec<(String, Value)> = Vec::new();
        members.push(("sub".to_owned(), self.sub));
        members.push(("iat".to_owned(), number_value(self.iat)));
        members.push(("exp".to_owned(), number_value(self.exp)));
        members.push(("typ".to_owned(), text_value(self.typ.name())));
        members.push(("user".to_owned(), self.user));
        proof {
            lemma_names_differ();
            let all = named(members@);
            assert(all =~= claim_members(self));
            reveal_with_fuel(inserted, 6);
            assert(all.drop_last().drop_last().drop_last().drop_last().drop_last()
                =~= Seq::<(Seq<char>, Value)>::empty());
            assert(inserted(all).dom() =~= claim_names());
        }
        object_value(members)
    }
}

/// The claims that a JSON value states.
pub fn read_claims(json: &Value) -> (claims: Option<StatedClaims<'_>>)
    ensures
        claims == stated_claims(*json),
{
    let sub = member(json, "sub");
    let iat: u64 = match member(json, "iat") {
        Some(iat) => match iat.as_u64() {
            Some(iat) => iat,
            None => return None,
        },
        None => return None,
    };
    let exp: u64 = match member(json, "exp") {
        Some(exp) => match exp.as_u64() {
            Some(exp) => exp,
            None => return None,
        },
        None => return None,
    };
    let typ = match member(json, "typ") {
        Some(typ) => match TokenKind::from_json(typ) {
            Some(typ) => typ,
            None => return None,
        },
        None => return None,
    };
    let user = match member(json, "user") {
        Some(user) => user,
        None => return None,
    };
    Some(StatedClaims { sub, iat, exp, typ, user })
}

/// Reading the JSON form of claims gives the claims back.
pub proof fn claims_survive_json(claims: Claims, json: Value)
    requires
        is_json_of(json, claims),
    ensures
        stated_claims(json) == Some(
            StatedClaims {
                sub: Some(&claims.sub),
                iat: claims.iat,
                exp: claims.exp,
                typ: claims.typ,
                user: &claims.user,
            },
        ),
{
    lemma_names_differ();
}

} // verus!
