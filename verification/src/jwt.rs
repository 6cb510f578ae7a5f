//! JSON Web Tokens: the claims the service signs, and the access/refresh token pair
//! handed out at login.
use vstd::prelude::*;

use crate::errors::ErrorResponder;
use crate::text::{
    bearer, bearer_token, decimal, i64_to_string, is_unicode_ws, json_string,
    lemma_bearer_token_read_back, lemma_decimal_parses_back, parse_i64, parse_i64_spec,
    push_json_string, push_nat_digits, strip_bearer,
};
use crate::time::{
    checked_add_seconds, format_utc, in_utc_range, max_delta_secs, max_utc_secs, min_utc_secs,
    clock_reading, utc_display, utc_now, Timestamp,
};

verus! {

/// `jsonwebtoken::errors::Error`, the error of its `encode` and `decode`.
#[verifier::external_type_specification]
#[verifier::external_body]
pub struct ExJwtError(jsonwebtoken::errors::Error);

/// The claims carried by a token.
pub struct Claims {
    /// The user the token was issued to.
    pub sub: i32,
    /// The identifier shared by the access and the refresh token of one login.
    pub jti: String,
    /// Whether this is a refresh token.
    pub refresh: bool,
    /// Expiry, in seconds since the Unix epoch.
    pub exp: usize,
}

/// A request's verified token.
pub struct JWT {
    pub claims: Claims,
}

/// The pair of tokens handed out at login or refresh.
pub struct JWTToken {
    pub access_token: String,
    pub refresh_token: String,
}

/// Why a token could not be made or read.
pub enum TokenError {
    /// The expiry would lie outside the dates `chrono` can represent.
    InvalidTimestamp,
    /// `jsonwebtoken` refused; the text is its error's message.
    Jwt(String),
}

impl TokenError {
    /// The text of this error.
    pub open spec fn text(&self) -> Seq<char> {
        match self {
            TokenError::InvalidTimestamp => "Invalid timestamp"@,
            TokenError::Jwt(m) => m@,
        }
    }

    /// The text of this error, as shown to clients.
    pub fn message(&self) -> (m: String)
        ensures
            m@ == self.text(),
    {
        match self {
            TokenError::InvalidTimestamp => "Invalid timestamp".to_owned(),
            TokenError::Jwt(m) => m.clone(),
        }
    }
}

/// `true` or `false` as JSON writes them.
pub open spec fn bool_json(b: bool) -> Seq<char> {
    if b {
        seq!['t', 'r', 'u', 'e']
    } else {
        seq!['f', 'a', 'l', 's', 'e']
    }
}

/// The compact JSON object `{"sub":..,"jti":..,"refresh":..,"exp":..}` for the given
/// claims, fields in this order, as `serde_json` writes the `Claims` struct.
pub open spec fn claims_json(sub: int, jti: Seq<char>, refresh: bool, exp: int) -> Seq<char> {
    seq!['{', '"', 's', 'u', 'b', '"', ':'] + decimal(sub)
        + seq![',', '"', 'j', 't', 'i', '"', ':'] + json_string(jti)
        + seq![',', '"', 'r', 'e', 'f', 'r', 'e', 's', 'h', '"', ':'] + bool_json(refresh)
        + seq![',', '"', 'e', 'x', 'p', '"', ':'] + decimal(exp) + seq!['}']
}

impl Claims {
    /// The JSON text of these claims.
    pub open spec fn json(&self) -> Seq<char> {
        claims_json(self.sub as int, self.jti@, self.refresh, self.exp as int)
    }

    /// Writes these claims as compact JSON.
    pub fn to_json(&self) -> (s: String)
        ensures
            s@ == self.json(),
    {
        let mut s = String::new();
        s.append("{\"sub\":");
        let sub = i64_to_string(self.sub as i64);
        s.append(sub.as_str());
        s.append(",\"jti\":");
        push_json_string(&mut s, self.jti.as_str());
        s.append(",\"refresh\":");
        if self.refresh {
            s.append("true");
        } else {
            s.append("false");
        }
        s.append(",\"exp\":");
        push_nat_digits(&mut s, self.exp as u64);
        s.append("}");
        proof {
            reveal_strlit("{\"sub\":");
            reveal_strlit(",\"jti\":");
            reveal_strlit(",\"refresh\":");
            reveal_strlit("true");
            reveal_strlit("false");
            reveal_strlit(",\"exp\":");
            reveal_strlit("}");
            assert(decimal(self.exp as int) == crate::text::nat_digits(self.exp as nat));
            assert(s@ =~= self.json());
        }
        s
    }
}

/// What `jsonwebtoken` makes of the claims `claims_json` with an HS512 header and the HMAC
/// secret `secret`: the token, or `None` when encoding fails.
pub uninterp spec fn hs512_encode(claims_json: Seq<char>, secret: Seq<u8>) -> Option<Seq<char>>;

/// The characters of a compact JWT: the base64url alphabet and the dots between parts.
pub open spec fn is_jwt_char(c: char) -> bool {
    ||| ('A' <= c <= 'Z')
    ||| ('a' <= c <= 'z')
    ||| ('0' <= c <= '9')
    ||| c == '-'
    ||| c == '_'
    ||| c == '.'
}

/// Whether `t` looks like a token `jsonwebtoken` makes: not empty, starting with `e` (the
/// first base64url character of any JSON object) and made of JWT characters only.
pub open spec fn jwt_shaped(t: Seq<char>) -> bool {
    &&& t.len() > 0
    &&& t[0] == 'e'
    &&& forall|i: int| 0 <= i < t.len() ==> is_jwt_char(#[trigger] t[i])
}

/// Whether `j` is the JSON text of some claims, as `Claims::to_json` writes them.
pub open spec fn is_claims_text(j: Seq<char>) -> bool {
    exists|sub: i32, jti: Seq<char>, refresh: bool, exp: usize|
        #[trigger] claims_json(sub as int, jti, refresh, exp as int) == j
}

/// `jsonwebtoken::encode` with `Header::new(Algorithm::HS512)` and
/// `EncodingKey::from_secret(secret)`; the claims are handed over as their JSON text in a
/// `serde_json::value::RawValue`, which `serde_json` writes out unchanged. Its outcome
/// depends on the claims text and the secret alone. It fails only where `RawValue` refuses
/// the text as JSON: HMAC signing does not fail, so the JSON of any claims encodes.
#[verifier::external_body]
fn encode_hs512(claims_json: &str, secret: &[u8]) -> (r: Result<
    String,
    jsonwebtoken::errors::Error,
>)
    ensures
        r matches Ok(t) ==> hs512_encode(claims_json@, secret@) == Some(t@),
        r is Err ==> hs512_encode(claims_json@, secret@) is None,
        r matches Ok(t) ==> jwt_shaped(t@),
        is_claims_text(claims_json@) ==> r is Ok,
{
    let raw = serde_json::value::RawValue::from_string(claims_json.to_owned())?;
    let header = jsonwebtoken::Header::new(jsonwebtoken::Algorithm::HS512);
    jsonwebtoken::encode(&header, &raw, &jsonwebtoken::EncodingKey::from_secret(secret))
}

/// What `jsonwebtoken` reads from `token` with an HS512 key made from `secret` before it
/// looks at the values of the claims: the payload's JSON text once the header, the
/// signature, the base64url parts and the JSON of the payload are accepted, else `None`.
pub uninterp spec fn hs512_claims(token: Seq<char>, secret: Seq<u8>) -> Option<Seq<char>>;

/// `jsonwebtoken::decode::<Box<RawValue>>` with `DecodingKey::from_secret(secret)` and
/// `Validation::new(Algorithm::HS512)` with no required claim and the `exp` and `aud`
/// checks off, giving the payload's JSON text; it depends on the token and secret alone.
/// A token made by `encode_hs512` from the JSON of some claims with the same secret reads
/// back as that text: its payload is the base64url of the text, which `RawValue` keeps.
#[verifier::external_body]
fn decode_hs512(token: &str, secret: &[u8]) -> (r: Result<String, jsonwebtoken::errors::Error>)
    ensures
        r matches Ok(c) ==> hs512_claims(token@, secret@) == Some(c@),
        r is Err ==> hs512_claims(token@, secret@) is None,
        forall|j: Seq<char>|
            #![trigger hs512_encode(j, secret@)]
            is_claims_text(j) && hs512_encode(j, secret@) == Some(token@) ==> (r is Ok && (
                r matches Ok(c) ==> c@ == j)),
{
    let key = jsonwebtoken::DecodingKey::from_secret(secret);
    let mut validation = jsonwebtoken::Validation::new(jsonwebtoken::Algorithm::HS512);
    validation.required_spec_claims.clear();
    validation.validate_exp = false;
    validation.validate_aud = false;
    match jsonwebtoken::decode::<Box<serde_json::value::RawValue>>(token, &key, &validation) {
        Ok(data) => Ok(data.claims.get().to_owned()),
        Err(e) => Err(e),
    }
}

/// Whether `jsonwebtoken` accepts `token` (HS512, key from `secret`) on every check but
/// the expiry: those of `hs512_claims`, then the required `exp` claim and the `aud` claim.
pub uninterp spec fn hs512_accepts(token: Seq<char>, secret: Seq<u8>) -> bool;

/// `jsonwebtoken::decode::<IgnoredAny>` with `DecodingKey::from_secret(secret)` and
/// `Validation::new(Algorithm::HS512)` with its `exp` check off; it depends on the token and
/// secret alone. The JSON of some claims has an `exp` and no `aud`, so a token made from it
/// by `encode_hs512` with the same secret passes.
#[verifier::external_body]
fn check_hs512(token: &str, secret: &[u8]) -> (r: Result<(), jsonwebtoken::errors::Error>)
    ensures
        r is Ok <==> hs512_accepts(token@, secret@),
        forall|j: Seq<char>|
            #![trigger hs512_encode(j, secret@)]
            is_claims_text(j) && hs512_encode(j, secret@) == Some(token@) ==> r is Ok,
{
    let key = jsonwebtoken::DecodingKey::from_secret(secret);
    let mut validation = jsonwebtoken::Validation::new(jsonwebtoken::Algorithm::HS512);
    validation.validate_exp = false;
    match jsonwebtoken::decode::<serde::de::IgnoredAny>(token, &key, &validation) {
        Ok(_) => Ok(()),
        Err(e) => Err(e),
    }
}

/// `jsonwebtoken::get_current_timestamp()`: the system clock in whole seconds since the
/// Unix epoch, the reading `jsonwebtoken` checks expiry against. Nothing is stated of it.
#[verifier::external_body]
fn jwt_clock() -> u64 {
    jsonwebtoken::get_current_timestamp()
}

/// The message of `jsonwebtoken`'s `ExpiredSignature` error: its `Display` writes the
/// kind's name.
#[verifier::external_body]
fn expired_signature_message() -> (m: String)
    ensures
        m@ == "ExpiredSignature"@,
{
    jsonwebtoken::errors::Error::from(jsonwebtoken::errors::ErrorKind::ExpiredSignature).to_string()
}

/// The message of a `jsonwebtoken` error (its `Display`). Nothing is stated of the text.
#[verifier::external_body]
fn jwt_error_message(e: &jsonwebtoken::errors::Error) -> String {
    e.to_string()
}

/// The SHA-256 digest of the UTF-8 bytes of `input`, as lower-case hexadecimal.
pub uninterp spec fn sha256_hex(input: Seq<char>) -> Seq<char>;

/// Whether `c` is a lower-case hexadecimal digit.
pub open spec fn is_lower_hex(c: char) -> bool {
    ('0' <= c <= '9') || ('a' <= c <= 'f')
}

/// `sha256::digest(input)`: `hex::encode` of the 32-byte SHA-256 digest, so 64
/// lower-case hexadecimal digits.
#[verifier::external_body]
fn sha256_digest(input: &str) -> (r: String)
    ensures
        r@ == sha256_hex(input@),
        r@.len() == 64,
        forall|i: int| 0 <= i < 64 ==> is_lower_hex(#[trigger] r@[i]),
{
    sha256::digest(input)
}

/// The value read from a duration setting: the setting parsed as an `i64`, or `default`
/// when it is missing or does not parse.
pub open spec fn duration_spec(value: Option<Seq<char>>, default: i64) -> i64 {
    match value {
        Some(v) => match parse_i64_spec(v) {
            Some(d) => d,
            None => default,
        },
        None => default,
    }
}

/// Get duration time (seconds) from the text of its setting, `None` when unset.
pub fn get_duration(value: Option<&str>, default: i64) -> (d: i64)
    ensures
        d == duration_spec(
            match value {
                Some(v) => Some(v@),
                None => None,
            },
            default,
        ),
{
    match value {
        Some(s) => match parse_i64(s) {
            Some(d) => d,
            None => default,
        },
        None => default,
    }
}

/// A duration setting written as a decimal number of seconds is read back exactly.
pub proof fn lemma_duration_setting_read_back(seconds: i64, default: i64)
    ensures
        duration_spec(Some(decimal(seconds as int)), default) == seconds,
{
    lemma_decimal_parses_back(seconds);
}

/// Whether `d` seconds can be made into a `chrono::TimeDelta`.
pub open spec fn duration_in_range(d: i64) -> bool {
    -max_delta_secs() <= d <= max_delta_secs()
}

/// The token for the claims `(user_id, jti, refresh, exp)`, signed with `secret`
/// (`None` when encoding fails).
pub open spec fn token_of(user_id: i32, jti: Seq<char>, refresh: bool, exp: i64, secret: Seq<u8>) -> Option<Seq<char>> {
    hs512_encode(claims_json(user_id as int, jti, refresh, (exp as usize) as int), secret)
}

/// Whether the moment `duration` seconds after `now` is a date `chrono` can represent.
pub open spec fn expiry_representable(now: Timestamp, duration: i64) -> bool {
    min_utc_secs() <= now.secs + duration <= max_utc_secs()
}

/// Signs a token for `user_id` that expires `duration` seconds after `now`. The expiry
/// must be a date `chrono` can represent (`checked_add_signed` gives `None` otherwise, and
/// the answer is then `InvalidTimestamp`); the claims' JSON always encodes.
pub fn create_token_at(
    user_id: i32,
    jti: &str,
    refresh: bool,
    duration: i64,
    now: Timestamp,
    secret: &[u8],
) -> (r: Result<String, TokenError>)
    requires
        in_utc_range(now),
        duration_in_range(duration),
    ensures
        r is Ok <==> expiry_representable(now, duration),
        r matches Ok(t) ==> token_of(user_id, jti@, refresh, (now.secs + duration) as i64, secret@)
            == Some(t@) && jwt_shaped(t@),
        r matches Err(e) ==> e is InvalidTimestamp,
{
    let expiration = match checked_add_seconds(now, duration) {
        Some(e) => e,
        None => {
            return Err(TokenError::InvalidTimestamp);
        },
    };
    let claims = Claims { sub: user_id, jti: jti.to_owned(), refresh, exp: expiration as usize };
    let json = claims.to_json();
    assert(is_claims_text(json@)) by {
        assert(claims_json(claims.sub as int, claims.jti@, claims.refresh, claims.exp as int)
            == json@);
    }
    match encode_hs512(json.as_str(), secret) {
        Ok(t) => Ok(t),
        Err(e) => Err(TokenError::Jwt(jwt_error_message(&e))),
    }
}

/// Why making a token that expires `duration` seconds after a clock reading can fail with
/// `e`: only with `InvalidTimestamp`, for a reading after which the expiry is not a date
/// `chrono` can represent.
pub open spec fn creation_fails(duration: i64, e: TokenError) -> bool {
    &&& e is InvalidTimestamp
    &&& exists|now: Timestamp| clock_reading(now) && !#[trigger] expiry_representable(now, duration)
}

/// Signs a token for `user_id` that expires `duration` seconds from now: `create_token_at`
/// for the clock's reading, which decides the outcome as `create_token_at` states.
pub fn create_token(user_id: i32, jti: &str, refresh: bool, duration: i64, secret: &[u8]) -> (r: Result<
    String,
    TokenError,
>)
    requires
        duration_in_range(duration),
    ensures
        r matches Ok(t) ==> exists|now: Timestamp|
            #![trigger token_of(user_id, jti@, refresh, (now.secs + duration) as i64, secret@)]
            clock_reading(now) && expiry_representable(now, duration) && token_of(
                user_id,
                jti@,
                refresh,
                (now.secs + duration) as i64,
                secret@,
            ) == Some(t@),
        r matches Ok(t) ==> jwt_shaped(t@),
        r matches Err(e) ==> creation_fails(duration, e),
{
    let now = utc_now();
    create_token_at(user_id, jti, refresh, duration, now, secret)
}

/// The text that `jti` digests: the login time as `chrono` writes it, then the user id.
pub open spec fn jti_input(now: Timestamp, user_id: i32) -> Seq<char> {
    utc_display(now.secs, now.nanos) + decimal(user_id as int)
}

/// The token of a pair issued to `user_id` at `login`: the claims carry the identifier
/// digested from `login` and the user id, and expire `duration` seconds after `login`.
pub open spec fn pair_token_at(user_id: i32, login: Timestamp, refresh: bool, duration: i64, secret: Seq<u8>) -> Option<Seq<char>> {
    token_of(user_id, sha256_hex(jti_input(login, user_id)), refresh, (login.secs + duration) as i64, secret)
}

/// Why making a token pair whose tokens expire `access` and `refresh` seconds after the
/// clock reading it is issued at can fail with `e`: only with `InvalidTimestamp`, for a
/// reading after which one of the expiries is not a date `chrono` can represent.
pub open spec fn pair_creation_fails(access: i64, refresh: i64, e: TokenError) -> bool {
    &&& e is InvalidTimestamp
    &&& exists|login: Timestamp|
        clock_reading(login) && !(#[trigger] expiry_representable(login, access)
            && expiry_representable(login, refresh))
}

/// Whether making such a token pair can fail: for some clock reading, one of the expiries
/// is not a date `chrono` can represent.
pub open spec fn pair_can_fail(access: i64, refresh: i64) -> bool {
    exists|e: TokenError| #[trigger] pair_creation_fails(access, refresh, e)
}

/// Whether `t` is a token pair for `user_id` issued at a clock reading `login`: both
/// tokens share the identifier digested from `login` and the user id; the access token
/// expires `access` seconds and the refresh token `refresh` seconds after `login`.
pub open spec fn token_pair_for(t: (Seq<char>, Seq<char>), user_id: i32, access: i64, refresh: i64, secret: Seq<u8>) -> bool {
    exists|login: Timestamp|
        #![trigger jti_input(login, user_id)]
        {
            &&& clock_reading(login)
            &&& expiry_representable(login, access)
            &&& expiry_representable(login, refresh)
            &&& pair_token_at(user_id, login, false, access, secret) == Some(t.0)
            &&& pair_token_at(user_id, login, true, refresh, secret) == Some(t.1)
            &&& jwt_shaped(t.0)
            &&& jwt_shaped(t.1)
        }
}

impl JWTToken {
    /// The access and refresh durations, in seconds, from the texts of
    /// `JWT_ACCESS_DURATION` and `JWT_REFRESH_DURATION`: 60 and 300 when unset or unparsable.
    pub fn get_token_durations(access: Option<&str>, refresh: Option<&str>) -> (d: (i64, i64))
        ensures
            d.0 == duration_spec(
                match access {
                    Some(v) => Some(v@),
                    None => None,
                },
                60,
            ),
            d.1 == duration_spec(
                match refresh {
                    Some(v) => Some(v@),
                    None => None,
                },
                300,
            ),
    {
        let access_duration = get_duration(access, 60);
        let refresh_duration = get_duration(refresh, 300);
        (access_duration, refresh_duration)
    }

    /// The token identifier of a login by `user_id` at `login`: the SHA-256 digest of the
    /// login time as `chrono` writes it followed by the user id.
    pub fn jti_for(login: Timestamp, user_id: i32) -> (jti: String)
        requires
            in_utc_range(login),
        ensures
            jti@ == sha256_hex(jti_input(login, user_id)),
            jti@.len() == 64,
            forall|i: int| 0 <= i < 64 ==> is_lower_hex(#[trigger] jti@[i]),
    {
        let mut input = format_utc(login);
        let id = i64_to_string(user_id as i64);
        input.append(id.as_str());
        sha256_digest(input.as_str())
    }

    /// Makes the access and the refresh token for `user_id` issued at `login`: both carry
    /// the identifier digested from `login`, and expire `durations.0` and `durations.1`
    /// seconds after `login`. Fails with `InvalidTimestamp` exactly when one of the expiries
    /// is not a date `chrono` can represent.
    pub fn create_tokens_at(user_id: i32, durations: (i64, i64), login: Timestamp, secret: &[u8]) -> (r: Result<
        Self,
        TokenError,
    >)
        requires
            in_utc_range(login),
            duration_in_range(durations.0),
            duration_in_range(durations.1),
        ensures
            r is Ok <==> expiry_representable(login, durations.0) && expiry_representable(
                login,
                durations.1,
            ),
            r matches Ok(t) ==> pair_token_at(user_id, login, false, durations.0, secret@) == Some(
                t.access_token@,
            ) && pair_token_at(user_id, login, true, durations.1, secret@) == Some(
                t.refresh_token@,
            ) && jwt_shaped(t.access_token@) && jwt_shaped(t.refresh_token@),
            r matches Err(e) ==> e is InvalidTimestamp,
    {
        let (access, refresh) = durations;
        let jti = Self::jti_for(Timestamp { secs: login.secs, nanos: login.nanos }, user_id);
        let at = Timestamp { secs: login.secs, nanos: login.nanos };
        let access_token = match create_token_at(user_id, jti.as_str(), false, access, at, secret) {
            Ok(t) => t,
            Err(e) => {
                return Err(e);
            },
        };
        let refresh_token = match create_token_at(user_id, jti.as_str(), true, refresh, login, secret) {
            Ok(t) => t,
            Err(e) => {
                return Err(e);
            },
        };
        Ok(JWTToken { access_token, refresh_token })
    }

    /// Makes the access and the refresh token for `user_id`: `create_tokens_at` for the
    /// clock's reading, which decides the outcome as `create_tokens_at` states.
    pub fn create_tokens(user_id: i32, durations: (i64, i64), secret: &[u8]) -> (r: Result<
        Self,
        TokenError,
    >)
        requires
            duration_in_range(durations.0),
            duration_in_range(durations.1),
        ensures
            r matches Ok(t) ==> token_pair_for(
                (t.access_token@, t.refresh_token@),
                user_id,
                durations.0,
                durations.1,
                secret@,
            ),
            r matches Err(e) ==> pair_creation_fails(durations.0, durations.1, e),
    {
        let login = utc_now();
        let r = Self::create_tokens_at(
            user_id,
            durations,
            Timestamp { secs: login.secs, nanos: login.nanos },
            secret,
        );
        proof {
            if r is Err {
                assert(!(expiry_representable(login, durations.0) && expiry_representable(
                    login,
                    durations.1,
                )));
            }
        }
        r
    }

    /// The tokens for `user_id`, or a 500 response when they cannot be made.
    pub fn create_token(user_id: i32, durations: (i64, i64), secret: &[u8]) -> (r: Result<
        Self,
        ErrorResponder,
    >)
        requires
            duration_in_range(durations.0),
            duration_in_range(durations.1),
        ensures
            r matches Ok(t) ==> token_pair_for(
                (t.access_token@, t.refresh_token@),
                user_id,
                durations.0,
                durations.1,
                secret@,
            ),
            r matches Err(e) ==> e.status_code() == 500 && e.message_text()
                == "Something went wrong!!!"@,
            r is Err ==> pair_can_fail(durations.0, durations.1),
    {
        match Self::create_tokens(user_id, durations, secret) {
            Ok(jwt) => Ok(jwt),
            Err(e) => {
                assert(pair_creation_fails(durations.0, durations.1, e));
                Err(ErrorResponder::internal_error("Something went wrong!!!"))
            },
        }
    }
}

/// What reading the `Authorization` value `token` (`Bearer <token>`) gives: the JSON text
/// of its claims when `jsonwebtoken` accepts the token's signature and form, else its error.
pub open spec fn decoded(token: Seq<char>, secret: Seq<u8>, r: Result<String, TokenError>) -> bool {
    match hs512_claims(bearer_token(token), secret) {
        Some(c) => r matches Ok(s) && s@ == c,
        None => r matches Err(e) && e is Jwt,
    }
}

/// Whether `r` gives back the claims of an issued token: when the bearer token in `token` is
/// the one made with `secret` from the JSON of some claims, `r` is that JSON.
pub open spec fn reads_back(token: Seq<char>, secret: Seq<u8>, r: Result<String, TokenError>) -> bool {
    forall|j: Seq<char>|
        #![trigger hs512_encode(j, secret)]
        is_claims_text(j) && hs512_encode(j, secret) == Some(bearer_token(token)) ==> (r matches Ok(
            c,
        ) && c@ == j)
}

/// Reads a token from an `Authorization` value (`Bearer <token>`): checks its HS512
/// signature with `secret` and gives the JSON text of its claims. The claims' values are
/// checked by `validate_claims` once the JSON has been read into `Claims`.
pub fn decode_token(token: &str, secret: &[u8]) -> (r: Result<String, TokenError>)
    ensures
        decoded(token@, secret@, r),
        reads_back(token@, secret@, r),
{
    let stripped = strip_bearer(token);
    match decode_hs512(stripped.as_str(), secret) {
        Ok(claims) => Ok(claims),
        Err(e) => Err(TokenError::Jwt(jwt_error_message(&e))),
    }
}

/// Whether `jsonwebtoken`'s expiry check refuses a token expiring at `exp` at the clock
/// reading `now`: it refuses when `exp < now - 60` (its default leeway), the subtraction
/// done in `u64`, wrapping below the leeway.
pub open spec fn expired(exp: usize, now: u64) -> bool {
    exp < (if now >= 60 {
        now - 60
    } else {
        now - 60 + 0x1_0000_0000_0000_0000
    })
}

/// Whether a token expiring at `exp` is refused at the clock reading `now`.
pub fn is_expired(exp: usize, now: u64) -> (b: bool)
    ensures
        b == expired(exp, now),
{
    let bound: u64 = if now >= 60 {
        now - 60
    } else {
        u64::MAX - (59 - now)
    };
    (exp as u64) < bound
}

/// The answer of checking the claims of the `Authorization` value `token`, which expire at
/// `exp`, at the clock reading `now`: `ExpiredSignature` when expired, else what
/// `jsonwebtoken`'s remaining checks of the bearer token say.
pub open spec fn validated(token: Seq<char>, exp: usize, now: u64, secret: Seq<u8>, r: Result<(), TokenError>) -> bool {
    if expired(exp, now) {
        r matches Err(e) && e is Jwt && e.text() == "ExpiredSignature"@
    } else if hs512_accepts(bearer_token(token), secret) {
        r is Ok
    } else {
        r matches Err(e) && e is Jwt
    }
}

/// Whether `r` accepts an issued token exactly while it has not expired: when the bearer
/// token in `token` is the one made with `secret` from the JSON of some claims, `r` is `Ok`
/// if and only if `exp` is not expired at `now`.
pub open spec fn accepts_unexpired(token: Seq<char>, exp: usize, now: u64, secret: Seq<u8>, r: Result<(), TokenError>) -> bool {
    forall|j: Seq<char>|
        #![trigger hs512_encode(j, secret)]
        is_claims_text(j) && hs512_encode(j, secret) == Some(bearer_token(token)) ==> (r is Ok
            <==> !expired(exp, now))
}

/// Checks the claims read from the `Authorization` value `token` at the clock reading
/// `now`: their expiry first, then the rest of `jsonwebtoken`'s validation of the token.
pub fn validate_claims_at(token: &str, claims: &Claims, now: u64, secret: &[u8]) -> (r: Result<
    (),
    TokenError,
>)
    ensures
        validated(token@, claims.exp, now, secret@, r),
        accepts_unexpired(token@, claims.exp, now, secret@, r),
{
    if is_expired(claims.exp, now) {
        return Err(TokenError::Jwt(expired_signature_message()));
    }
    let stripped = strip_bearer(token);
    match check_hs512(stripped.as_str(), secret) {
        Ok(()) => Ok(()),
        Err(e) => Err(TokenError::Jwt(jwt_error_message(&e))),
    }
}

/// Checks the claims read from the `Authorization` value `token`: `validate_claims_at` for
/// the clock's reading, which decides the outcome as `validate_claims_at` states.
pub fn validate_claims(token: &str, claims: &Claims, secret: &[u8]) -> (r: Result<(), TokenError>)
    ensures
        exists|now: u64|
            #[trigger] validated(token@, claims.exp, now, secret@, r) && accepts_unexpired(
                token@,
                claims.exp,
                now,
                secret@,
                r,
            ),
{
    let now = jwt_clock();
    validate_claims_at(token, claims, now, secret)
}

/// A token the service issued is read back with exactly the claims it was signed with, and
/// is accepted until its expiry plus the leeway: sent as `Bearer <token>`, reading it gives
/// the claims' JSON, and checking those claims at `now` succeeds from the leeway's end
/// after the epoch up to 60 seconds past `exp`, and fails after that.
pub proof fn lemma_issued_token_reads_back(
    user_id: i32,
    jti: Seq<char>,
    refresh: bool,
    exp: i64,
    secret: Seq<u8>,
    t: Seq<char>,
    now: u64,
    read: Result<String, TokenError>,
    checked: Result<(), TokenError>,
)
    requires
        token_of(user_id, jti, refresh, exp, secret) == Some(t),
        jwt_shaped(t),
        reads_back(bearer() + seq![' '] + t, secret, read),
        accepts_unexpired(bearer() + seq![' '] + t, exp as usize, now, secret, checked),
    ensures
        read matches Ok(c) && c@ == claims_json(user_id as int, jti, refresh, (exp as usize) as int),
        60 <= now <= (exp as usize) + 60 ==> checked is Ok,
        now > (exp as usize) + 60 ==> checked is Err,
{
    assert(bearer().len() == 6);
    assert(t[0] == 'e');
    assert(!is_unicode_ws(t.last())) by {
        assert(is_jwt_char(t[t.len() - 1]));
    }
    if t.len() >= 6 {
        assert(t.take(6)[0] == 'e');
        assert(t.take(6) != bearer());
    }
    lemma_bearer_token_read_back(t);
    let j = claims_json(user_id as int, jti, refresh, (exp as usize) as int);
    assert(is_claims_text(j));
    assert(hs512_encode(j, secret) == Some(t));
}

} // verus!
