use chat_service::auth::Credential;
use chat_service::db::DbError;
use chat_service::user::{CreateUser, User, UserRecord};

fn register(username: &str, password: &str) -> UserRecord {
    let form = CreateUser { username, password, password_2: password };
    let row = form.insert(Ok(None)).ok().unwrap();
    assert_eq!(row.username, username);
    assert!(row.password.starts_with("$argon2"));
    assert_ne!(row.password, password);
    UserRecord { id: 7, username: row.username, password: row.password }
}

#[test]
fn registered_user_signs_in() {
    let record = register("alice", "s3cret");
    let cred = Credential { username: "alice", password: "s3cret" };
    let found = cred.check_credential(Ok(Some(record))).ok().unwrap();
    assert_eq!(found.id, 7);
    assert_eq!(found.username, "alice");
}

#[test]
fn wrong_password_is_401() {
    let record = register("bob", "right");
    let cred = Credential { username: "bob", password: "wrong" };
    let e = cred.check_credential(Ok(Some(record))).err().unwrap();
    assert_eq!(e.status(), 401);
    assert_eq!(e.message(), "Password or Username not correct!!!");
}

#[test]
fn unknown_user_is_401() {
    let cred = Credential { username: "nobody", password: "x" };
    let e = cred.check_credential(Ok(None)).err().unwrap();
    assert_eq!(e.status(), 401);
    assert_eq!(e.message(), "Password or Username not correct!!!");
}

#[test]
fn malformed_hash_is_401() {
    let cred = Credential { username: "carol", password: "x" };
    let rec = UserRecord { id: 1, username: "carol".into(), password: "not a phc string".into() };
    assert_eq!(cred.check_credential(Ok(Some(rec))).err().unwrap().status(), 401);
}

#[test]
fn hash_without_salt_or_hash_field_is_401() {
    let cred = Credential { username: "carol", password: "x" };
    for h in ["", "argon2id$v=19$m=19456,t=2,p=1$c2FsdA$aGFzaA", "$argon2id$c2FsdA"] {
        let rec = UserRecord { id: 1, username: "carol".into(), password: h.into() };
        assert_eq!(cred.check_credential(Ok(Some(rec))).err().unwrap().status(), 401);
    }
}

#[test]
fn registered_name_was_free_and_keeps_names_apart() {
    let mut store: Vec<UserRecord> = vec![register("gina", "pw")];
    let lookup = |name: &str, store: &Vec<UserRecord>| -> Option<UserRecord> {
        store.iter().find(|r| r.username == name).map(|r| UserRecord {
            id: r.id,
            username: r.username.clone(),
            password: r.password.clone(),
        })
    };
    let form = CreateUser { username: "gina", password: "pw2", password_2: "pw2" };
    let e = form.insert(Ok(lookup("gina", &store))).err().unwrap();
    assert_eq!((e.status(), e.message()), (400, "Username already exists!!"));
    let form = CreateUser { username: "hank", password: "pw2", password_2: "pw2" };
    let row = form.insert(Ok(lookup("hank", &store))).ok().unwrap();
    store.push(UserRecord { id: 8, username: row.username, password: row.password });
    let names: Vec<&str> = store.iter().map(|r| r.username.as_str()).collect();
    assert_eq!(names, vec!["gina", "hank"]);
}

#[test]
fn failed_lookup_is_500_with_its_message() {
    let cred = Credential { username: "dave", password: "x" };
    let e = cred.check_credential(Err(DbError { message: "connection lost".into() })).err().unwrap();
    assert_eq!(e.status(), 500);
    assert_eq!(e.message(), "connection lost");
}

#[test]
fn registration_errors() {
    let form = CreateUser { username: "eve", password: "a", password_2: "b" };
    assert!(!form.verify_password());
    let e = form.insert(Ok(None)).err().unwrap();
    assert_eq!((e.status(), e.message()), (400, "Password not match!"));
    let form = CreateUser { username: "eve", password: "a", password_2: "a" };
    assert!(form.verify_password());
    let taken = UserRecord { id: 1, username: "eve".into(), password: "h".into() };
    let e = form.insert(Ok(Some(taken))).err().unwrap();
    assert_eq!((e.status(), e.message()), (400, "Username already exists!!"));
    let e = form.insert(Err(DbError { message: "x".into() })).err().unwrap();
    assert_eq!((e.status(), e.message()), (400, "Username already exists!!"));
}

#[test]
fn username_lookups() {
    assert!(CreateUser::verified_login(&Ok(None)));
    let taken = UserRecord { id: 1, username: "eve".into(), password: "h".into() };
    assert!(!CreateUser::verified_login(&Ok(Some(taken))));
    assert!(!CreateUser::verified_login(&Err(DbError { message: "x".into() })));
}

#[test]
fn user_get_flattens_lookup() {
    let rec = UserRecord { id: 2, username: "f".into(), password: "h".into() };
    assert_eq!(User::get(Ok(Some(rec))).map(|r| r.id), Some(2));
    assert!(User::get(Ok(None)).is_none());
    assert!(User::get(Err(DbError { message: "x".into() })).is_none());
}
