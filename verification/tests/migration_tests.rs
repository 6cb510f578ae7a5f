use chat_service::migration::{ColumnType, Message, Migration, Migrator};

#[test]
fn identifiers() {
    assert_eq!(Message::Table.name(), "message");
    assert_eq!(Message::UserID.name(), "user_id");
    assert_eq!(Message::RoomID.name(), "room_id");
    assert_eq!(Message::CreatedAt.name(), "created_at");
    assert_eq!(Message::Content.name(), "content");
    assert_eq!(Message::Id.name(), "id");
}

#[test]
fn message_table() {
    let t = Migration.up();
    assert_eq!(t.name, "message");
    assert!(t.if_not_exists);
    let names: Vec<&str> = t.columns.iter().map(|c| c.name).collect();
    assert_eq!(names, vec!["id", "content", "user_id", "room_id", "created_at"]);
    assert!(t.columns[0].primary_key && t.columns[0].auto_increment);
    assert!(matches!(t.columns[1].column_type, ColumnType::String));
    assert!(matches!(t.columns[4].column_type, ColumnType::DateTime));
    assert!(t.columns[4].default_current_timestamp);
    assert_eq!(t.foreign_keys.len(), 2);
    assert_eq!(t.foreign_keys[0].name, "fk-msg-user-id");
    assert_eq!(t.foreign_keys[1].to_table, "room");
    assert_eq!(Migration.down(), "message");
    assert_eq!(Migration.name(), "m20231006_000003_create_message_table");
    assert_eq!(Migrator::migrations().len(), 3);
}
