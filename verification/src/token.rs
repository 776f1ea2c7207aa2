//! Tokens: signed claims that say who a user is, for how long, and for
//! which use.
//!
//! There are two classes. An access token lives for a quarter of an hour, a
//! refresh token for a day. Signing and checking the signature are left to
//! `jsonwebtoken`, and writing and reading an instant to `chrono`; which
//! claims a token carries and when an old token earns a new one is decided
//! here.

use crate::json::{
    json_of_outside, lemma_object_view, member_of, members_view, outside_of_json, Json,
    JsonNumber, JsonValue, Member, MemberValue, NumberValue,
};
use vstd::prelude::*;

verus! {

/// The class of a token.
#[derive(Debug, Clone, Copy, PartialEq, Eq, Structural)]
pub enum TokenType {
    AccessToken,
    RefreshToken,
}

/// What can go wrong with a token.
#[derive(Debug, Clone, Copy, PartialEq, Eq, Structural)]
pub enum UserError {
    /// The claims could not be written or signed.
    CannotGenerateToken,
    /// The old token did not pass the check, or holds other claims.
    CannotDecodeToken,
    /// The old token has run out.
    TokenExpired,
    /// The old token is of the other class.
    TokenTypeDoesNotMatch,
}

/// A moment in time: whole seconds since the start of 1970 in UTC, and the
/// nanoseconds since the last whole second.
#[derive(Debug, Clone, Copy, PartialEq, Eq, Structural)]
pub struct Instant {
    pub secs: i64,
    pub nanos: u32,
}

/// What a token says.
#[derive(Debug, PartialEq, Eq)]
pub struct UserClaim {
    /// When the token ends to count.
    pub exp: Instant,
    /// When the token was issued.
    pub iat: Instant,
    /// The class of the token: `access` or `refresh`.
    pub aud: String,
    pub id: i32,
    pub username: String,
    pub password: String,
}

/// What a [`UserClaim`] stands for.
pub struct UserClaimView {
    pub exp: Instant,
    pub iat: Instant,
    pub aud: Seq<char>,
    pub id: i32,
    pub username: Seq<char>,
    pub password: Seq<char>,
}

impl View for UserClaim {
    type V = UserClaimView;

    open spec fn view(&self) -> UserClaimView {
        UserClaimView {
            exp: self.exp,
            iat: self.iat,
            aud: self.aud@,
            id: self.id,
            username: self.username@,
            password: self.password@,
        }
    }
}

impl TokenType {
    /// The audience that tokens of this class are issued for.
    pub open spec fn spec_audience(self) -> Seq<char> {
        match self {
            TokenType::AccessToken => "access"@,
            TokenType::RefreshToken => "refresh"@,
        }
    }

    /// How long tokens of this class live, in seconds.
    pub open spec fn spec_lifetime_seconds(self) -> int {
        match self {
            TokenType::AccessToken => 900,
            TokenType::RefreshToken => 86400,
        }
    }

    /// The audience that tokens of this class are issued for.
    pub fn audience(self) -> (aud: &'static str)
        ensures
            aud@ == self.spec_audience(),
    {
        match self {
            TokenType::AccessToken => "access",
            TokenType::RefreshToken => "refresh",
        }
    }

    /// How long tokens of this class live, in seconds.
    pub fn lifetime_seconds(self) -> (secs: i64)
        ensures
            secs as int == self.spec_lifetime_seconds(),
            secs == 900 || secs == 86400,
    {
        match self {
            TokenType::AccessToken => 900,
            TokenType::RefreshToken => 86400,
        }
    }
}

impl Instant {
    /// Whether `self` is earlier than `other`.
    pub open spec fn before(self, other: Instant) -> bool {
        self.secs < other.secs || (self.secs == other.secs && self.nanos < other.nanos)
    }

    /// The instant `secs` seconds after `self`, if its seconds can be
    /// counted.
    pub open spec fn spec_plus_seconds(self, secs: int) -> Option<Instant> {
        if i64::MIN <= self.secs + secs <= i64::MAX {
            Some(Instant { secs: (self.secs + secs) as i64, nanos: self.nanos })
        } else {
            None
        }
    }

    /// Whether `self` is earlier than `other`.
    pub fn is_before(&self, other: &Instant) -> (earlier: bool)
        ensures
            earlier == self.before(*other),
    {
        self.secs < other.secs || (self.secs == other.secs && self.nanos < other.nanos)
    }

    /// The instant `secs` seconds after `self`, if its seconds can be
    /// counted.
    pub fn plus_seconds(&self, secs: i64) -> (later: Option<Instant>)
        ensures
            later == self.spec_plus_seconds(secs as int),
    {
        match self.secs.checked_add(secs) {
            Some(sum) => Some(Instant { secs: sum, nanos: self.nanos }),
            None => None,
        }
    }
}

/// The text that `chrono` writes for the instant of the given seconds and
/// nanoseconds when it serialises a `DateTime<Utc>`, or `None` where
/// `chrono` has no such date and time.
pub uninterp spec fn instant_text(secs: int, nanos: int) -> Option<Seq<char>>;

/// The instant that `chrono` reads from a text when it deserialises a
/// `DateTime<Utc>`, or `None` where it reports an error.
pub uninterp spec fn instant_of_text(text: Seq<char>) -> Option<Instant>;

/// The token that `jsonwebtoken::encode` makes of claims and a secret with
/// its default header, or `None` where it reports an error or the claims
/// hold a number that is no JSON number.
pub uninterp spec fn signed_token(claims: JsonValue, secret: Seq<char>) -> Option<Seq<char>>;

/// Whether an instant lies in the range of the clock: not further from the
/// start of 1970 than `chrono` has dates, and with less than a second of
/// nanoseconds.
pub open spec fn in_clock_range(at: Instant) -> bool {
    -9_000_000_000_000 <= at.secs <= 9_000_000_000_000 && at.nanos < 1_000_000_000
}

/// Reads the clock with `chrono::Utc::now`, and takes the instant apart
/// with `DateTime::timestamp` and `DateTime::timestamp_subsec_nanos`. Which
/// instant comes back depends on the moment of the call. `Utc::now` hands
/// back only what `DateTime::from_timestamp` made of the seconds and the
/// sub-second nanoseconds of the system time, so the seconds lie within the
/// years that `chrono` has, all of which are less than nine million million
/// seconds from the start of 1970, and the nanoseconds are less than a
/// second.
#[verifier::external_body]
fn current_instant() -> (now: Instant)
    ensures
        in_clock_range(now),
{
    let now = chrono::Utc::now();
    Instant { secs: now.timestamp(), nanos: now.timestamp_subsec_nanos() }
}

/// Writes an instant as `chrono` serialises a `DateTime<Utc>`:
/// `DateTime::from_timestamp` makes the date and time, `None` where there
/// is none, and `serde_json::to_value` hands back the string. The result
/// depends on the instant alone.
#[verifier::external_body]
fn format_instant(at: Instant) -> (text: Option<String>)
    ensures
        crate::json::text_option_view(text) == instant_text(at.secs as int, at.nanos as int),
{
    match serde_json::to_value(chrono::DateTime::from_timestamp(at.secs, at.nanos)?) {
        Ok(serde_json::Value::String(text)) => Some(text),
        _ => None,
    }
}

/// Reads an instant as `chrono` deserialises a `DateTime<Utc>` from a
/// string, through `serde_json::from_value`; its error gives `None`. The
/// result depends on the text alone.
#[verifier::external_body]
fn parse_instant(text: &str) -> (at: Option<Instant>)
    ensures
        at == instant_of_text(text@),
{
    let value = serde_json::Value::String(text.to_owned());
    match serde_json::from_value::<chrono::DateTime<chrono::Utc>>(value) {
        Ok(t) => Some(Instant { secs: t.timestamp(), nanos: t.timestamp_subsec_nanos() }),
        Err(_) => None,
    }
}

/// Signs claims with `jsonwebtoken::encode`, under the default header and
/// the key that `EncodingKey::from_secret` makes of the secret's bytes. An
/// error gives `None`. The result depends on the claims and the secret
/// alone.
#[verifier::external_body]
fn sign_claims(claims: &Json, secret: &str) -> (token: Option<String>)
    ensures
        crate::json::text_option_view(token) == signed_token(claims@, secret@),
{
    let header = jsonwebtoken::Header::default();
    let key = jsonwebtoken::EncodingKey::from_secret(secret.as_bytes());
    jsonwebtoken::encode(&header, &outside_of_json(claims)?, &key).ok()
}

/// Checks a token with `jsonwebtoken::decode`, under the default
/// validation and the key that `DecodingKey::from_secret` makes of the
/// secret's bytes, and hands back the claims as a document. An error gives
/// `None`. The validation asks for a numeric `exp` claim and compares it
/// with the clock, so nothing is claimed of the result.
#[verifier::external_body]
fn verify_token(token: &str, secret: &str) -> (claims: Option<Json>) {
    let key = jsonwebtoken::DecodingKey::from_secret(secret.as_bytes());
    let validation = jsonwebtoken::Validation::default();
    match jsonwebtoken::decode::<serde_json::Value>(token, &key, &validation) {
        Ok(data) => Some(json_of_outside(&data.claims)),
        Err(_) => None,
    }
}

/// The document that claims are written as, given the texts of the two
/// instants.
pub open spec fn claims_json(claim: UserClaimView, exp: Seq<char>, iat: Seq<char>) -> JsonValue {
    JsonValue::Object(
        seq![
            MemberValue { name: "exp"@, value: JsonValue::String(exp) },
            MemberValue { name: "iat"@, value: JsonValue::String(iat) },
            MemberValue { name: "aud"@, value: JsonValue::String(claim.aud) },
            MemberValue { name: "id"@, value: JsonValue::Number(NumberValue::Int(claim.id as int)) },
            MemberValue { name: "username"@, value: JsonValue::String(claim.username) },
            MemberValue { name: "password"@, value: JsonValue::String(claim.password) },
        ],
    )
}

/// The document that claims are written as, or `None` where one of the two
/// instants cannot be written.
pub open spec fn json_of_claims(claim: UserClaimView) -> Option<JsonValue> {
    match (
        instant_text(claim.exp.secs as int, claim.exp.nanos as int),
        instant_text(claim.iat.secs as int, claim.iat.nanos as int),
    ) {
        (Some(exp), Some(iat)) => Some(claims_json(claim, exp, iat)),
        _ => None,
    }
}

/// The text of a member that has to be a string.
pub open spec fn text_member(members: Seq<MemberValue>, name: Seq<char>) -> Option<Seq<char>> {
    match member_of(members, name) {
        Some(JsonValue::String(text)) => Some(text),
        _ => None,
    }
}

/// The instant of a member that has to be a string that holds one.
pub open spec fn instant_member(members: Seq<MemberValue>, name: Seq<char>) -> Option<Instant> {
    match text_member(members, name) {
        Some(text) => instant_of_text(text),
        None => None,
    }
}

/// The number of a member that has to be an integer of 32 bits.
pub open spec fn id_member(members: Seq<MemberValue>, name: Seq<char>) -> Option<i32> {
    match member_of(members, name) {
        Some(JsonValue::Number(NumberValue::Int(n))) => if i32::MIN <= n <= i32::MAX {
            Some(n as i32)
        } else {
            None
        },
        _ => None,
    }
}

/// The claims that a document holds: an object with the two instants
/// `exp` and `iat` as strings, the strings `aud`, `username` and
/// `password`, and the integer `id`. Members of other names are passed
/// over.
pub open spec fn claims_of_json(doc: JsonValue) -> Option<UserClaimView> {
    match doc {
        JsonValue::Object(members) => match (
            instant_member(members, "exp"@),
            instant_member(members, "iat"@),
            text_member(members, "aud"@),
            id_member(members, "id"@),
            text_member(members, "username"@),
            text_member(members, "password"@),
        ) {
            (Some(exp), Some(iat), Some(aud), Some(id), Some(username), Some(password)) => Some(
                UserClaimView { exp, iat, aud, id, username, password },
            ),
            _ => None,
        },
        _ => None,
    }
}

/// The view of claims that may be missing.
pub open spec fn claim_option_view(claim: Option<UserClaim>) -> Option<UserClaimView> {
    match claim {
        Some(c) => Some(c@),
        None => None,
    }
}

/// Reads the text of a member that has to be a string.
fn read_text(doc: &Json, name: &str) -> (text: Option<String>)
    ensures
        doc@ is Object ==> crate::json::text_option_view(text) == text_member(
            doc@->Object_0,
            name@,
        ),
        !(doc@ is Object) ==> text is None,
{
    match doc.member(name) {
        Some(Json::String(text)) => Some(text.clone()),
        _ => None,
    }
}

/// Reads the instant of a member that has to be a string that holds one.
fn read_instant(doc: &Json, name: &str) -> (at: Option<Instant>)
    ensures
        doc@ is Object ==> at == instant_member(doc@->Object_0, name@),
        !(doc@ is Object) ==> at is None,
{
    match read_text(doc, name) {
        Some(text) => parse_instant(text.as_str()),
        None => None,
    }
}

/// Reads the number of a member that has to be an integer of 32 bits.
fn read_id(doc: &Json, name: &str) -> (id: Option<i32>)
    ensures
        doc@ is Object ==> id == id_member(doc@->Object_0, name@),
        !(doc@ is Object) ==> id is None,
{
    match doc.member(name) {
        Some(Json::Number(number)) => match number.as_integer() {
            Some(n) => if -2147483648 <= n && n <= 2147483647 {
                Some(n as i32)
            } else {
                None
            },
            None => None,
        },
        _ => None,
    }
}

impl UserClaim {
    /// Reads claims from a document.
    pub fn from_json(doc: &Json) -> (claim: Option<UserClaim>)
        ensures
            claim_option_view(claim) == claims_of_json(doc@),
    {
        let exp = read_instant(doc, "exp");
        let iat = read_instant(doc, "iat");
        let aud = read_text(doc, "aud");
        let id = read_id(doc, "id");
        let username = read_text(doc, "username");
        let password = read_text(doc, "password");
        match (exp, iat, aud, id, username, password) {
            (Some(exp), Some(iat), Some(aud), Some(id), Some(username), Some(password)) => Some(
                UserClaim { exp, iat, aud, id, username, password },
            ),
            _ => None,
        }
    }

    /// Writes the claims as a document, or `None` where one of the two
    /// instants cannot be written.
    pub fn to_json(&self) -> (doc: Option<Json>)
        ensures
            crate::json::json_option_view(doc) == json_of_claims(self@),
    {
        let exp = match format_instant(self.exp) {
            Some(text) => text,
            None => {
                return None;
            },
        };
        let iat = match format_instant(self.iat) {
            Some(text) => text,
            None => {
                return None;
            },
        };
        let id = if self.id >= 0 {
            JsonNumber::PosInt(self.id as u64)
        } else {
            JsonNumber::NegInt(self.id as i64)
        };
        let ghost wanted = claims_json(self@, exp@, iat@);
        let mut members: Vec<Member> = Vec::new();
        members.push(Member { name: "exp".to_owned(), value: Json::String(exp) });
        members.push(Member { name: "iat".to_owned(), value: Json::String(iat) });
        members.push(Member { name: "aud".to_owned(), value: Json::String(self.aud.clone()) });
        members.push(Member { name: "id".to_owned(), value: Json::Number(id) });
        members.push(
            Member { name: "username".to_owned(), value: Json::String(self.username.clone()) },
        );
        members.push(
            Member { name: "password".to_owned(), value: Json::String(self.password.clone()) },
        );
        proof {
            lemma_object_view(members);
            assert(members_view(members@) =~= wanted->Object_0);
        }
        Some(Json::Object(members))
    }
}

/// The claims of a token issued at `now`: it ends to count one lifetime of
/// its class later. There are none where that moment cannot be counted.
pub open spec fn issued_claims(
    now: Instant,
    id: i32,
    username: Seq<char>,
    password: Seq<char>,
    token_type: TokenType,
) -> Option<UserClaimView> {
    match now.spec_plus_seconds(token_type.spec_lifetime_seconds()) {
        Some(exp) => Some(
            UserClaimView {
                exp,
                iat: now,
                aud: token_type.spec_audience(),
                id,
                username,
                password,
            },
        ),
        None => None,
    }
}

/// The token that is issued at `now` under `secret`: the signed document of
/// its claims. Where the claims cannot be written or signed, no token can
/// be generated.
pub open spec fn issued(
    secret: Seq<char>,
    now: Instant,
    id: i32,
    username: Seq<char>,
    password: Seq<char>,
    token_type: TokenType,
) -> Result<Seq<char>, UserError> {
    match issued_claims(now, id, username, password, token_type) {
        Some(claim) => match json_of_claims(claim) {
            Some(doc) => match signed_token(doc, secret) {
                Some(token) => Ok(token),
                None => Err(UserError::CannotGenerateToken),
            },
            None => Err(UserError::CannotGenerateToken),
        },
        None => Err(UserError::CannotGenerateToken),
    }
}

/// The token that an old token earns at `now`, given the claims that the
/// check of the old token handed back, if it handed any back.
///
/// An old token that did not pass the check, or whose claims are not those
/// of a user, cannot be decoded. One of the other class does not match. One
/// whose expiry lies before `now` has expired. Any other earns a token of
/// its class for the same user, issued at `now`.
pub open spec fn reissued(
    secret: Seq<char>,
    decoded: Option<JsonValue>,
    now: Instant,
    token_type: TokenType,
) -> Result<Seq<char>, UserError> {
    match decoded {
        Some(doc) => match claims_of_json(doc) {
            Some(claim) => if claim.aud != token_type.spec_audience() {
                Err(UserError::TokenTypeDoesNotMatch)
            } else if claim.exp.before(now) {
                Err(UserError::TokenExpired)
            } else {
                issued(secret, now, claim.id, claim.username, claim.password, token_type)
            },
            None => Err(UserError::CannotDecodeToken),
        },
        None => Err(UserError::CannotDecodeToken),
    }
}

/// What the result of issuing a token stands for.
pub open spec fn token_result_view(result: Result<String, UserError>) -> Result<
    Seq<char>,
    UserError,
> {
    match result {
        Ok(token) => Ok(token@),
        Err(e) => Err(e),
    }
}

/// Issues and reissues tokens under one secret.
pub struct UserManager {
    secret: String,
}

impl UserManager {
    /// The secret that the tokens are signed with.
    pub closed spec fn secret_view(&self) -> Seq<char> {
        self.secret@
    }

    /// A manager that signs with `secret`.
    pub fn new(secret: String) -> (manager: UserManager)
        ensures
            manager.secret_view() == secret@,
    {
        UserManager { secret }
    }

    /// Issues a token of the given class for a user, as of `now`.
    pub fn issue_token_at(
        &self,
        now: Instant,
        id: i32,
        username: String,
        password: String,
        token_type: TokenType,
    ) -> (result: Result<String, UserError>)
        ensures
            token_result_view(result) == issued(
                self.secret_view(),
                now,
                id,
                username@,
                password@,
                token_type,
            ),
    {
        let exp = match now.plus_seconds(token_type.lifetime_seconds()) {
            Some(exp) => exp,
            None => {
                return Err(UserError::CannotGenerateToken);
            },
        };
        let claim = UserClaim {
            exp,
            iat: now,
            aud: token_type.audience().to_owned(),
            id,
            username,
            password,
        };
        let doc = match claim.to_json() {
            Some(doc) => doc,
            None => {
                return Err(UserError::CannotGenerateToken);
            },
        };
        match sign_claims(&doc, self.secret.as_str()) {
            Some(token) => Ok(token),
            None => Err(UserError::CannotGenerateToken),
        }
    }

    /// Issues a token of the given class for a user, as of the moment of
    /// the call: the token that [`issued`] gives for an instant in the range
    /// of the clock.
    pub fn issue_token(
        &self,
        id: i32,
        username: String,
        password: String,
        token_type: TokenType,
    ) -> (result: Result<String, UserError>)
        ensures
            exists|now: Instant|
                in_clock_range(now) && token_result_view(result) == #[trigger] issued(
                    self.secret_view(),
                    now,
                    id,
                    username@,
                    password@,
                    token_type,
                ),
    {
        let now = current_instant();
        self.issue_token_at(now, id, username, password, token_type)
    }

    /// Decides what an old token earns at `now`, given the claims that the
    /// check of the old token handed back, if it handed any back.
    pub fn reissue_decoded(&self, decoded: Option<Json>, now: Instant, token_type: TokenType) -> (result:
        Result<String, UserError>)
        ensures
            token_result_view(result) == reissued(
                self.secret_view(),
                crate::json::json_option_view(decoded),
                now,
                token_type,
            ),
    {
        let doc = match decoded {
            Some(doc) => doc,
            None => {
                return Err(UserError::CannotDecodeToken);
            },
        };
        let claim = match UserClaim::from_json(&doc) {
            Some(claim) => claim,
            None => {
                return Err(UserError::CannotDecodeToken);
            },
        };
        if claim.aud != token_type.audience().to_owned() {
            return Err(UserError::TokenTypeDoesNotMatch);
        }
        if claim.exp.is_before(&now) {
            return Err(UserError::TokenExpired);
        }
        self.issue_token_at(now, claim.id, claim.username, claim.password, token_type)
    }

    /// Trades an old token for a new one of the given class, as of the
    /// moment of the call. The old token is checked against the secret and
    /// the clock; what it earns is then decided as [`reissued`] says.
    pub fn reissue_token(&self, old_token: String, token_type: TokenType) -> (result: Result<
        String,
        UserError,
    >)
        ensures
            exists|decoded: Option<JsonValue>, now: Instant|
                in_clock_range(now) && token_result_view(result) == #[trigger] reissued(
                    self.secret_view(),
                    decoded,
                    now,
                    token_type,
                ),
    {
        let decoded = verify_token(old_token.as_str(), self.secret.as_str());
        let now = current_instant();
        let ghost seen = crate::json::json_option_view(decoded);
        let result = self.reissue_decoded(decoded, now, token_type);
        assert(in_clock_range(now) && token_result_view(result) == reissued(
            self.secret_view(),
            seen,
            now,
            token_type,
        ));
        result
    }
}

} // verus!
