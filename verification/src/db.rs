//! The database: how its address is put together, how it is created, and the errors
//! queries report.
use vstd::prelude::*;

verus! {

/// A failed query; the text is the database error's message.
pub struct DbError {
    pub message: String,
}

/// The database systems the service can be connected to.
pub enum DatabaseBackend {
    MySql,
    Postgres,
    Sqlite,
}

/// `postgres://<user>:<password>@<host>:<port>`.
pub open spec fn base_url_spec(user: Seq<char>, password: Seq<char>, host: Seq<char>, port: Seq<char>) -> Seq<char> {
    seq!['p', 'o', 's', 't', 'g', 'r', 'e', 's', ':', '/', '/'] + user + seq![':'] + password
        + seq!['@'] + host + seq![':'] + port
}

/// `<url>/<db_name>`.
pub open spec fn database_url_spec(url: Seq<char>, db_name: Seq<char>) -> Seq<char> {
    url + seq!['/'] + db_name
}

/// `CREATE DATABASE "<db_name>";`.
pub open spec fn create_database_spec(db_name: Seq<char>) -> Seq<char> {
    seq!['C', 'R', 'E', 'A', 'T', 'E', ' ', 'D', 'A', 'T', 'A', 'B', 'A', 'S', 'E', ' ', '"']
        + db_name + seq!['"', ';']
}

/// The error Postgres reports when the database already exists.
pub open spec fn already_exists_spec(db_name: Seq<char>) -> Seq<char> {
    "Execution Error: error returned from database: database \""@ + db_name + "\" already exists"@
}

/// The address to connect to after trying to create the database: `<url>/<db_name>` when
/// the backend is Postgres and the database was created or already existed; empty otherwise.
pub open spec fn created_url_spec(
    backend: DatabaseBackend,
    url: Seq<char>,
    db_name: Seq<char>,
    executed: Result<(), Seq<char>>,
) -> Seq<char> {
    match backend {
        DatabaseBackend::Postgres => match executed {
            Ok(_) => database_url_spec(url, db_name),
            Err(m) => if m == already_exists_spec(db_name) {
                database_url_spec(url, db_name)
            } else {
                seq![]
            },
        },
        _ => seq![],
    }
}

/// The server address `postgres://<user>:<password>@<host>:<port>`.
pub fn base_url(user: &str, password: &str, host: &str, port: &str) -> (r: String)
    ensures
        r@ == base_url_spec(user@, password@, host@, port@),
{
    let mut r = String::new();
    r.append("postgres://");
    r.append(user);
    r.append(":");
    r.append(password);
    r.append("@");
    r.append(host);
    r.append(":");
    r.append(port);
    proof {
        reveal_strlit("postgres://");
        reveal_strlit(":");
        reveal_strlit("@");
        assert(r@ =~= base_url_spec(user@, password@, host@, port@));
    }
    r
}

/// The address of the database `db_name` on the server at `url`.
pub fn database_url(url: &str, db_name: &str) -> (r: String)
    ensures
        r@ == database_url_spec(url@, db_name@),
{
    let mut r = String::new();
    r.append(url);
    r.append("/");
    r.append(db_name);
    proof {
        reveal_strlit("/");
        assert(r@ =~= database_url_spec(url@, db_name@));
    }
    r
}

/// The statement that creates the database `db_name`.
pub fn create_database_statement(db_name: &str) -> (r: String)
    ensures
        r@ == create_database_spec(db_name@),
{
    let mut r = String::new();
    r.append("CREATE DATABASE \"");
    r.append(db_name);
    r.append("\";");
    proof {
        reveal_strlit("CREATE DATABASE \"");
        reveal_strlit("\";");
        assert(r@ =~= create_database_spec(db_name@));
    }
    r
}

/// The message of the error that says the database `db_name` already exists.
pub fn already_exists_message(db_name: &str) -> (r: String)
    ensures
        r@ == already_exists_spec(db_name@),
{
    let mut r = String::new();
    r.append("Execution Error: error returned from database: database \"");
    r.append(db_name);
    r.append("\" already exists");
    proof {
        assert(r@ =~= already_exists_spec(db_name@));
    }
    r
}

/// After the statement that creates `db_name` was run (Postgres only; `executed` is its
/// outcome, the error as its message): the address of the database, or an empty text
/// when it could not be created.
pub fn created_database_url(
    backend: DatabaseBackend,
    url: &str,
    db_name: &str,
    executed: Result<(), String>,
) -> (r: String)
    ensures
        r@ == created_url_spec(
            backend,
            url@,
            db_name@,
            match executed {
                Ok(u) => Ok(u),
                Err(m) => Err(m@),
            },
        ),
{
    match backend {
        DatabaseBackend::Postgres => match executed {
            Ok(_) => database_url(url, db_name),
            Err(m) => {
                let expected = already_exists_message(db_name);
                if m == expected {
                    database_url(url, db_name)
                } else {
                    String::new()
                }
            },
        },
        _ => String::new(),
    }
}

} // verus!
