//! What the HTTP handlers decide, once the database and the token have been read.
use vstd::prelude::*;
use vstd::string::StringSliceAdditionalSpecFns;

use crate::auth::{argon2_matches, check_credential_spec, Credential};
use crate::db::DbError;
use crate::errors::ErrorResponder;
use crate::jwt::{
    duration_in_range, jti_input, pair_can_fail, sha256_hex, token_of, token_pair_for, Claims, JWTToken,
    TokenError,
};
use crate::time::{clock_reading, Timestamp};
use crate::room::is_went_wrong;
use crate::user::{User, UserRecord};

verus! {

/// The body of `POST /auth/refresh`.
pub struct RefreshBody<'a> {
    pub refresh_token: &'a str,
}

/// The outcome of the request guard that turns an `Authorization` header into a `User`.
pub enum AuthOutcome {
    Success(User),
    /// The request is refused with this status and response.
    Failure(u16, ErrorResponder),
}

/// The guard's outcome. `token` is `None` when the request has no `Authorization` header,
/// else the claims of its token (or why it was refused); `db_available` says whether the
/// database state could be had; `record` is the record found for the claims' user.
pub open spec fn authorize_spec(
    token: Option<Result<Claims, TokenError>>,
    db_available: bool,
    record: Option<UserRecord>,
    out: AuthOutcome,
) -> bool {
    match token {
        None => out matches AuthOutcome::Failure(s, e) && s == 401 && e.status_code() == 401
            && e.message_text() == "No Token provided!!!"@,
        Some(Err(err)) => out matches AuthOutcome::Failure(s, e) && s == 401 && e.status_code()
            == 401 && e.message_text() == "Error Token - "@ + err.text(),
        Some(Ok(claims)) => if !db_available {
            out matches AuthOutcome::Failure(s, e) && s == 500 && e.status_code() == 500
                && e.message_text() == "Something went wrong"@
        } else if !claims.refresh && record is Some {
            out matches AuthOutcome::Success(u) && u.id == record->0.id && u.username
                == record->0.username
        } else {
            out matches AuthOutcome::Failure(s, e) && s == 401 && e.status_code() == 401
                && e.message_text() == "Invalid Token!!!"@
        },
    }
}

/// The request guard of `User`: who sent the request, or why it is refused.
pub fn authorize(
    token: Option<Result<Claims, TokenError>>,
    db_available: bool,
    record: Option<UserRecord>,
) -> (out: AuthOutcome)
    ensures
        authorize_spec(token, db_available, record, out),
{
    match token {
        None => AuthOutcome::Failure(401, ErrorResponder::unauthorize("No Token provided!!!")),
        Some(Ok(claims)) => {
            if !db_available {
                return AuthOutcome::Failure(
                    500,
                    ErrorResponder::internal_error("Something went wrong"),
                );
            }
            match User::from_jwt_claims(&claims, record) {
                Some(u) => AuthOutcome::Success(u),
                None => AuthOutcome::Failure(401, ErrorResponder::unauthorize("Invalid Token!!!")),
            }
        },
        Some(Err(err)) => {
            let mut message = "Error Token - ".to_owned();
            let text = err.message();
            message.append(text.as_str());
            AuthOutcome::Failure(401, ErrorResponder::unauthorize(message.as_str()))
        },
    }
}

/// Whether signing in with `password`, given the lookup of its username, succeeds.
pub open spec fn signs_in(password: Seq<u8>, lookup: Result<Option<UserRecord>, DbError>) -> bool {
    lookup matches Ok(Some(rc)) && argon2_matches(password, rc.password@)
}

/// Whether the refresh endpoint makes a token pair: the token is a refresh token and its
/// user exists.
pub open spec fn refreshes(decoded: Result<Claims, TokenError>, record: Option<UserRecord>) -> bool {
    decoded matches Ok(claims) && claims.refresh && record is Some
}

/// `POST /auth/token`: signs in with `credential` (`lookup` is the lookup of its username)
/// and hands out a token pair for the user.
pub fn token(
    credential: &Credential,
    lookup: Result<Option<UserRecord>, DbError>,
    durations: (i64, i64),
    secret: &[u8],
) -> (r: Result<JWTToken, ErrorResponder>)
    requires
        signs_in(credential.password.spec_bytes(), lookup) ==> duration_in_range(durations.0)
            && duration_in_range(durations.1),
    ensures
        match lookup {
            Ok(Some(rc)) => if argon2_matches(credential.password.spec_bytes(), rc.password@) {
                &&& r matches Ok(t) ==> token_pair_for(
                    (t.access_token@, t.refresh_token@),
                    rc.id,
                    durations.0,
                    durations.1,
                    secret@,
                )
                &&& r matches Err(e) ==> is_went_wrong(e) && pair_can_fail(durations.0, durations.1)
            } else {
                r matches Err(e) && check_credential_spec(
                    credential.password.spec_bytes(),
                    lookup,
                    Err(e),
                )
            },
            _ => r matches Err(e) && check_credential_spec(
                credential.password.spec_bytes(),
                lookup,
                Err(e),
            ),
        },
{
    match credential.check_credential(lookup) {
        Ok(user) => JWTToken::create_token(user.id, durations, secret),
        Err(resp) => Err(resp),
    }
}

/// The answer of the refresh endpoint: a token pair for the user when the token is a valid
/// refresh token and its user exists (a 500 response when the pair cannot be made), else 400.
pub open spec fn refresh_spec(
    decoded: Result<Claims, TokenError>,
    record: Option<UserRecord>,
    durations: (i64, i64),
    secret: Seq<u8>,
    r: Result<JWTToken, ErrorResponder>,
) -> bool {
    match (decoded, record) {
        (Ok(claims), Some(u)) if claims.refresh => {
            &&& r matches Ok(t) ==> token_pair_for(
                (t.access_token@, t.refresh_token@),
                u.id,
                durations.0,
                durations.1,
                secret,
            )
            &&& r matches Err(e) ==> is_went_wrong(e) && pair_can_fail(durations.0, durations.1)
        },
        _ => r matches Err(e) && e.status_code() == 400 && e.message_text() == "Invalid Token!!!"@,
    }
}

/// Access and refresh tokens are not interchangeable: claims that the request guard
/// accepts are refused by the refresh endpoint, and refresh claims are refused by the guard.
pub proof fn lemma_access_and_refresh_tokens_apart(
    claims: Claims,
    record: Option<UserRecord>,
    out: AuthOutcome,
    refresh_record: Option<UserRecord>,
    durations: (i64, i64),
    secret: Seq<u8>,
    r: Result<JWTToken, ErrorResponder>,
)
    requires
        authorize_spec(Some(Ok(claims)), true, record, out),
        refresh_spec(Ok(claims), refresh_record, durations, secret, r),
    ensures
        out is Success ==> (r matches Err(e) && e.status_code() == 400),
        claims.refresh ==> (out matches AuthOutcome::Failure(s, _) && s == 401),
{
}

/// The refresh endpoint hands out a pair of the same form as sign-in: for the user of the
/// refresh token, issued at one clock reading `login`, an access token (claims with
/// `refresh` false) expiring `durations.0` seconds after `login` and a refresh token
/// (claims with `refresh` true) expiring `durations.1` seconds after it, both carrying the
/// identifier digested from `login` and the user id.
pub proof fn lemma_refreshed_pair_like_sign_in(
    claims: Claims,
    record: Option<UserRecord>,
    durations: (i64, i64),
    secret: Seq<u8>,
    t: JWTToken,
)
    requires
        refresh_spec(Ok(claims), record, durations, secret, Ok(t)),
    ensures
        claims.refresh,
        record is Some,
        exists|login: Timestamp|
            #![trigger jti_input(login, record->0.id)]
            {
                &&& clock_reading(login)
                &&& token_of(
                    record->0.id,
                    sha256_hex(jti_input(login, record->0.id)),
                    false,
                    (login.secs + durations.0) as i64,
                    secret,
                ) == Some(t.access_token@)
                &&& token_of(
                    record->0.id,
                    sha256_hex(jti_input(login, record->0.id)),
                    true,
                    (login.secs + durations.1) as i64,
                    secret,
                ) == Some(t.refresh_token@)
            },
{
}

/// `POST /auth/refresh`: a new token pair in exchange for a refresh token. `decoded` is the
/// refresh token read from the body, `record` the record found for its user.
pub fn refresh(
    decoded: Result<Claims, TokenError>,
    record: Option<UserRecord>,
    durations: (i64, i64),
    secret: &[u8],
) -> (r: Result<JWTToken, ErrorResponder>)
    requires
        refreshes(decoded, record) ==> duration_in_range(durations.0) && duration_in_range(
            durations.1,
        ),
    ensures
        refresh_spec(decoded, record, durations, secret@, r),
{
    let error_resp = ErrorResponder::bad_request("Invalid Token!!!");
    if let Ok(claims) = decoded {
        if claims.refresh {
            if let Some(u) = record {
                let token = JWTToken::create_token(u.id, durations, secret)?;
                return Ok(token);
            }
        }
    }
    Err(error_resp)
}

/// The body of the default error page: `{"message": "<reason>"}`, with `Unknown` when the
/// status has no reason phrase.
pub open spec fn catcher_body_spec(reason: Option<Seq<char>>) -> Seq<char> {
    "{\"message\": \""@ + match reason {
        Some(r) => r,
        None => "Unknown"@,
    } + "\"}"@
}

/// The JSON body the default catcher answers with, given the status's reason phrase.
pub fn default_catcher_body(reason: Option<&str>) -> (b: String)
    ensures
        b@ == catcher_body_spec(
            match reason {
                Some(r) => Some(r@),
                None => None,
            },
        ),
{
    let mut status_reason = "Unknown";
    if let Some(reason) = reason {
        status_reason = reason;
    }
    let mut b = "{\"message\": \"".to_owned();
    b.append(status_reason);
    b.append("\"}");
    b
}

} // verus!
