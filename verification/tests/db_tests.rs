use chat_service::db::{already_exists_message, base_url, create_database_statement, created_database_url, database_url, DatabaseBackend};

#[test]
fn urls() {
    assert_eq!(base_url("u", "p", "localhost", "5432"), "postgres://u:p@localhost:5432");
    assert_eq!(database_url("postgres://u:p@h:1", "chat"), "postgres://u:p@h:1/chat");
    assert_eq!(create_database_statement("chat"), "CREATE DATABASE \"chat\";");
}

#[test]
fn created_database() {
    let url = "postgres://u:p@h:1";
    assert_eq!(created_database_url(DatabaseBackend::Postgres, url, "chat", Ok(())), "postgres://u:p@h:1/chat");
    let exists = already_exists_message("chat");
    assert_eq!(exists, "Execution Error: error returned from database: database \"chat\" already exists");
    assert_eq!(created_database_url(DatabaseBackend::Postgres, url, "chat", Err(exists)), "postgres://u:p@h:1/chat");
    assert_eq!(created_database_url(DatabaseBackend::Postgres, url, "chat", Err("boom".to_string())), "");
    assert_eq!(created_database_url(DatabaseBackend::Sqlite, url, "chat", Ok(())), "");
    assert_eq!(created_database_url(DatabaseBackend::MySql, url, "chat", Ok(())), "");
}
