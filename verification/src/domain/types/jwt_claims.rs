use vstd::prelude::*;

use crate::clock::{clock_range, unix_now, SESSION_SECONDS};
use crate::decimal::{i64_to_text, int_text, parsed_i64, text_to_i64};
use crate::domain::errors::{Error, ErrorModel};
use crate::domain::types::claim_map::{ClaimMap, Entry};
use crate::ident::{id_text, id_to_text, parsed_id, text_to_id};

verus! {

/// The payload of a session token.
#[derive(Debug)]
pub struct JwtClaims {
    /// The user's name.
    pub sub: String,
    /// The user's identifier.
    pub user_id: u128,
    /// The user's role.
    pub role: String,
    /// When the session ends, in seconds since the Unix epoch.
    pub exp: i64,
    /// When the session began, in seconds since the Unix epoch.
    pub iat: i64,
}

/// The mathematical value of [`JwtClaims`].
pub ghost struct ClaimsModel {
    pub sub: Seq<char>,
    pub user_id: u128,
    pub role: Seq<char>,
    pub exp: i64,
    pub iat: i64,
}

impl View for JwtClaims {
    type V = ClaimsModel;

    open spec fn view(&self) -> ClaimsModel {
        ClaimsModel {
            sub: self.sub@,
            user_id: self.user_id,
            role: self.role@,
            exp: self.exp,
            iat: self.iat,
        }
    }
}

/// The claims of a session of `sub` that begins at `now`.
pub open spec fn claims_issued_at(sub: Seq<char>, user_id: u128, role: Seq<char>, now: i64)
    -> ClaimsModel
    recommends
        now + SESSION_SECONDS <= i64::MAX,
{
    ClaimsModel { sub, user_id, role, exp: (now + SESSION_SECONDS) as i64, iat: now }
}

/// Whether the session of `c` is running at `now`: it has begun and has not
/// ended.
pub open spec fn valid_at(c: ClaimsModel, now: i64) -> bool {
    c.exp > now && c.iat <= now
}

/// A session runs from its beginning for a day: it is running at `now` just
/// when it began at or before `now` and less than a day before.
pub proof fn lemma_session_window(
    sub: Seq<char>,
    user_id: u128,
    role: Seq<char>,
    begun: i64,
    now: i64,
)
    requires
        begun + SESSION_SECONDS <= i64::MAX,
    ensures
        valid_at(claims_issued_at(sub, user_id, role, begun), now) <==> begun <= now < begun
            + SESSION_SECONDS,
        valid_at(claims_issued_at(sub, user_id, role, begun), begun),
        now >= begun + 25 * 3600 ==> !valid_at(claims_issued_at(sub, user_id, role, begun), now),
{
}

/// The entries that claims are written as, in the order of their keys.
pub open spec fn claims_entries(c: ClaimsModel) -> Seq<Entry> {
    seq![
        ("exp"@, int_text(c.exp as int)),
        ("iat"@, int_text(c.iat as int)),
        ("role"@, c.role),
        ("sub"@, c.sub),
        ("user_id"@, id_text(c.user_id)),
    ]
}

/// The flat mapping that claims are written as.
pub open spec fn claims_map(c: ClaimsModel) -> Map<Seq<char>, Seq<char>> {
    Map::<Seq<char>, Seq<char>>::empty().insert("exp"@, int_text(c.exp as int)).insert(
        "iat"@,
        int_text(c.iat as int),
    ).insert("role"@, c.role).insert("sub"@, c.sub).insert("user_id"@, id_text(c.user_id))
}

/// Whether `text` is an identifier in its canonical form: it can be read,
/// and it is the hyphenated lower-case text of what it is read as.
pub open spec fn is_canonical_id(text: Seq<char>) -> bool {
    parsed_id(text) is Some && text == id_text(parsed_id(text)->0)
}

/// Whether a flat mapping holds claims: the five keys are there, the
/// identifier is in its canonical form, and the two times can be read.
pub open spec fn holds_claims(m: Map<Seq<char>, Seq<char>>) -> bool {
    &&& m.dom().contains("sub"@)
    &&& m.dom().contains("user_id"@)
    &&& m.dom().contains("role"@)
    &&& m.dom().contains("exp"@)
    &&& m.dom().contains("iat"@)
    &&& is_canonical_id(m["user_id"@])
    &&& parsed_i64(m["exp"@]) is Some
    &&& parsed_i64(m["iat"@]) is Some
}

/// The claims that a flat mapping holds, if it holds claims.
pub open spec fn claims_of_map(m: Map<Seq<char>, Seq<char>>) -> Option<ClaimsModel> {
    if holds_claims(m) {
        Some(
            ClaimsModel {
                sub: m["sub"@],
                user_id: parsed_id(m["user_id"@])->0,
                role: m["role"@],
                exp: parsed_i64(m["exp"@])->0,
                iat: parsed_i64(m["iat"@])->0,
            },
        )
    } else {
        None
    }
}

/// The five keys of the flat mapping differ from one another.
pub proof fn lemma_keys_differ()
    ensures
        "exp"@ != "iat"@,
        "exp"@ != "role"@,
        "exp"@ != "sub"@,
        "exp"@ != "user_id"@,
        "iat"@ != "role"@,
        "iat"@ != "sub"@,
        "iat"@ != "user_id"@,
        "role"@ != "sub"@,
        "role"@ != "user_id"@,
        "sub"@ != "user_id"@,
{
    reveal_strlit("exp");
    reveal_strlit("iat");
    reveal_strlit("role");
    reveal_strlit("sub");
    reveal_strlit("user_id");
    assert("exp"@[0] == 'e');
    assert("iat"@[0] == 'i');
    assert("role"@[0] == 'r');
    assert("sub"@[0] == 's');
    assert("user_id"@[0] == 'u');
}

/// The error that stands for every token that does not hold claims.
pub open spec fn malformed_token() -> ErrorModel {
    ErrorModel::LoginFailed("Error in JWT formatting"@)
}

fn malformed() -> (e: Error)
    ensures
        e@ == malformed_token(),
{
    Error::LoginFailed("Error in JWT formatting".to_owned())
}

impl JwtClaims {
    /// The claims of a session of `username` that begins now and lasts a
    /// day.
    pub fn new(username: String, user_id: u128, role: String) -> (r: JwtClaims)
        ensures
            clock_range(r.iat),
            r@ == claims_issued_at(username@, user_id, role@, r.iat),
    {
        let now = unix_now();
        JwtClaims::issued_at(username, user_id, role, now)
    }

    /// The claims of a session of `username` that begins at `now` and lasts
    /// a day.
    pub fn issued_at(username: String, user_id: u128, role: String, now: i64) -> (r: JwtClaims)
        requires
            now + SESSION_SECONDS <= i64::MAX,
        ensures
            r@ == claims_issued_at(username@, user_id, role@, now),
    {
        JwtClaims { sub: username, user_id, role, exp: now + SESSION_SECONDS, iat: now }
    }

    /// The claims as a flat mapping: every value as text, the times in base
    /// 10 and the identifier in its hyphenated form. The mapping reads back
    /// as the same claims.
    pub fn to_tree_map(&self) -> (r: ClaimMap)
        ensures
            r@ == claims_map(self@),
            r.entries() == claims_entries(self@),
            claims_of_map(r@) == Some(self@),
    {
        proof {
            lemma_keys_differ();
        }
        let mut claims = ClaimMap::new();
        claims.insert("exp".to_owned(), i64_to_text(self.exp));
        claims.insert("iat".to_owned(), i64_to_text(self.iat));
        claims.insert("role".to_owned(), self.role.clone());
        claims.insert("sub".to_owned(), self.sub.clone());
        claims.insert("user_id".to_owned(), id_to_text(self.user_id));
        assert(claims.entries() =~= claims_entries(self@));
        claims
    }

    /// Whether the session is running now.
    pub fn is_valid(&self) -> (r: bool)
        ensures
            exists|now: i64| clock_range(now) && r == valid_at(self@, now),
    {
        let now = unix_now();
        self.is_valid_at(now)
    }

    /// Whether the session is running at `now`.
    pub fn is_valid_at(&self, now: i64) -> (r: bool)
        ensures
            r == valid_at(self@, now),
    {
        self.exp > now && self.iat <= now
    }

    /// Reads claims from a flat mapping. Every mapping that lacks a key, whose
    /// identifier is not in its canonical form, or whose times cannot be
    /// read, gives the same error.
    pub fn try_from(claims: ClaimMap) -> (r: Result<JwtClaims, Error>)
        ensures
            match r {
                Ok(c) => claims_of_map(claims@) == Some(c@),
                Err(e) => claims_of_map(claims@) is None && e@ == malformed_token(),
            },
    {
        let sub = match claims.get("sub") {
            Some(v) => v,
            None => { return Err(malformed()); },
        };
        let user_id = match claims.get("user_id") {
            Some(v) => v,
            None => { return Err(malformed()); },
        };
        let role = match claims.get("role") {
            Some(v) => v,
            None => { return Err(malformed()); },
        };
        let exp = match claims.get("exp") {
            Some(v) => v,
            None => { return Err(malformed()); },
        };
        let iat = match claims.get("iat") {
            Some(v) => v,
            None => { return Err(malformed()); },
        };
        let user_id_text = user_id;
        let user_id = match text_to_id(user_id_text.as_str()) {
            Some(v) => v,
            None => { return Err(malformed()); },
        };
        if id_to_text(user_id) != *user_id_text {
            return Err(malformed());
        }
        let exp = match text_to_i64(exp.as_str()) {
            Some(v) => v,
            None => { return Err(malformed()); },
        };
        let iat = match text_to_i64(iat.as_str()) {
            Some(v) => v,
            None => { return Err(malformed()); },
        };
        Ok(JwtClaims { sub: sub.clone(), user_id, role: role.clone(), exp, iat })
    }
}

} // verus!
