use chat_service::auth::Credential;
use chat_service::db::DbError;
use chat_service::jwt::{decode_token, Claims, TokenError};
use chat_service::routes::{authorize, default_catcher_body, refresh, token, AuthOutcome};
use chat_service::user::{CreateUser, UserRecord};

const SECRET: &[u8] = b"routes-secret";

fn claims(sub: i32, refresh: bool) -> Claims {
    Claims { sub, jti: "j".into(), refresh, exp: 0 }
}

fn record(id: i32) -> UserRecord {
    UserRecord { id, username: "zed".into(), password: "h".into() }
}

fn failure(o: AuthOutcome) -> (u16, u16, String) {
    match o {
        AuthOutcome::Failure(s, e) => (s, e.status(), e.message().to_string()),
        AuthOutcome::Success(_) => panic!("unexpected success"),
    }
}

#[test]
fn guard_without_header() {
    assert_eq!(failure(authorize(None, true, None)), (401, 401, "No Token provided!!!".into()));
}

#[test]
fn guard_with_bad_token() {
    let o = authorize(Some(Err(TokenError::Jwt("ExpiredSignature".into()))), true, None);
    assert_eq!(failure(o), (401, 401, "Error Token - ExpiredSignature".into()));
}

#[test]
fn guard_without_database() {
    let o = authorize(Some(Ok(claims(1, false))), false, Some(record(1)));
    assert_eq!(failure(o), (500, 500, "Something went wrong".into()));
}

#[test]
fn guard_accepts_access_token_of_known_user() {
    match authorize(Some(Ok(claims(1, false))), true, Some(record(1))) {
        AuthOutcome::Success(u) => {
            assert_eq!(u.id, 1);
            assert_eq!(u.username, "zed");
        }
        _ => panic!("refused"),
    }
}

#[test]
fn guard_refuses_refresh_token_and_unknown_user() {
    assert_eq!(failure(authorize(Some(Ok(claims(1, true))), true, Some(record(1)))), (401, 401, "Invalid Token!!!".into()));
    assert_eq!(failure(authorize(Some(Ok(claims(1, false))), true, None)), (401, 401, "Invalid Token!!!".into()));
}

#[test]
fn refresh_only_with_refresh_token() {
    let e = refresh(Ok(claims(1, false)), Some(record(1)), (60, 300), SECRET).err().unwrap();
    assert_eq!((e.status(), e.message()), (400, "Invalid Token!!!"));
    let e = refresh(Ok(claims(1, true)), None, (60, 300), SECRET).err().unwrap();
    assert_eq!((e.status(), e.message()), (400, "Invalid Token!!!"));
    let e = refresh(Err(TokenError::Jwt("InvalidToken".into())), None, (60, 300), SECRET).err().unwrap();
    assert_eq!((e.status(), e.message()), (400, "Invalid Token!!!"));
    let pair = refresh(Ok(claims(1, true)), Some(record(4)), (60, 300), SECRET).ok().unwrap();
    let v: serde_json::Value = serde_json::from_str(&decode_token(&pair.access_token, SECRET).ok().unwrap()).unwrap();
    assert_eq!(v["sub"], 4);
}

#[test]
fn token_endpoint() {
    let row = CreateUser { username: "amy", password: "pw", password_2: "pw" }.insert(Ok(None)).ok().unwrap();
    let rec = UserRecord { id: 11, username: row.username, password: row.password };
    let cred = Credential { username: "amy", password: "pw" };
    let pair = token(&cred, Ok(Some(rec)), (60, 300), SECRET).ok().unwrap();
    let v: serde_json::Value = serde_json::from_str(&decode_token(&pair.refresh_token, SECRET).ok().unwrap()).unwrap();
    assert_eq!(v["sub"], 11);
    assert_eq!(v["refresh"], true);
    let e = token(&cred, Ok(None), (60, 300), SECRET).err().unwrap();
    assert_eq!(e.status(), 401);
    let e = token(&cred, Err(DbError { message: "down".into() }), (60, 300), SECRET).err().unwrap();
    assert_eq!((e.status(), e.message()), (500, "down"));
}

#[test]
fn catcher_body() {
    assert_eq!(default_catcher_body(Some("Not Found")), "{\"message\": \"Not Found\"}");
    assert_eq!(default_catcher_body(None), "{\"message\": \"Unknown\"}");
}
