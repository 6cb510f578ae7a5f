//! The database schema the service migrates to: the `message` table and the order of
//! the migrations.
use vstd::prelude::*;

verus! {

/// The identifiers of the `message` table and its columns.
pub enum Message {
    Table,
    Id,
    UserID,
    RoomID,
    Content,
    CreatedAt,
}

impl Message {
    /// The identifier's name in the database: the snake-case name of the variant, the
    /// table named after the enum.
    pub open spec fn name_spec(&self) -> Seq<char> {
        match self {
            Message::Table => "message"@,
            Message::Id => "id"@,
            Message::UserID => "user_id"@,
            Message::RoomID => "room_id"@,
            Message::Content => "content"@,
            Message::CreatedAt => "created_at"@,
        }
    }

    /// The identifier's name in the database.
    pub fn name(&self) -> (n: &'static str)
        ensures
            n@ == self.name_spec(),
    {
        match self {
            Message::Table => "message",
            Message::Id => "id",
            Message::UserID => "user_id",
            Message::RoomID => "room_id",
            Message::Content => "content",
            Message::CreatedAt => "created_at",
        }
    }
}

/// The type of a column.
pub enum ColumnType {
    Integer,
    String,
    DateTime,
}

/// A column of a table being created.
pub struct ColumnDef {
    pub name: &'static str,
    pub column_type: ColumnType,
    pub not_null: bool,
    pub auto_increment: bool,
    pub primary_key: bool,
    /// Whether the column defaults to the current time.
    pub default_current_timestamp: bool,
}

/// A foreign key: `from_table.from_column` refers to `to_table.to_column`.
pub struct ForeignKeyDef {
    pub name: &'static str,
    pub from_table: &'static str,
    pub from_column: &'static str,
    pub to_table: &'static str,
    pub to_column: &'static str,
}

/// A table to create (only when it does not exist yet, if `if_not_exists`).
pub struct TableDef {
    pub name: &'static str,
    pub if_not_exists: bool,
    pub columns: Vec<ColumnDef>,
    pub foreign_keys: Vec<ForeignKeyDef>,
}

/// The migration that creates the `message` table.
pub struct Migration;

/// The migrations, in the order they are applied.
pub struct Migrator;

/// Whether `c` is the column `name` of type `t` that is not null and has no other property.
pub open spec fn plain_column(c: ColumnDef, name: Seq<char>, t: ColumnType) -> bool {
    &&& c.name@ == name
    &&& c.column_type == t
    &&& c.not_null
    &&& !c.auto_increment
    &&& !c.primary_key
    &&& !c.default_current_timestamp
}

fn column(name: &'static str, column_type: ColumnType) -> (c: ColumnDef)
    ensures
        c.name == name,
        c.column_type == column_type,
        c.not_null,
        !c.auto_increment,
        !c.primary_key,
        !c.default_current_timestamp,
{
    ColumnDef {
        name,
        column_type,
        not_null: true,
        auto_increment: false,
        primary_key: false,
        default_current_timestamp: false,
    }
}

impl Migration {
    /// The migration's name (the name of its module).
    pub fn name(&self) -> (n: &'static str)
        ensures
            n@ == "m20231006_000003_create_message_table"@,
    {
        "m20231006_000003_create_message_table"
    }

    /// What `up` creates: the `message` table (if it does not exist) with an integer
    /// primary key `id` that counts up, the not-null columns `content` (text), `user_id`
    /// and `room_id` (integers) and `created_at` (date and time, the current time by
    /// default), and foreign keys from `user_id` to `user.id` and from `room_id` to `room.id`.
    pub fn up(&self) -> (t: TableDef)
        ensures
            t.name@ == "message"@,
            t.if_not_exists,
            t.columns.len() == 5,
            t.columns[0].name@ == "id"@,
            t.columns[0].column_type is Integer,
            t.columns[0].not_null && t.columns[0].auto_increment && t.columns[0].primary_key,
            !t.columns[0].default_current_timestamp,
            plain_column(t.columns[1], "content"@, ColumnType::String),
            plain_column(t.columns[2], "user_id"@, ColumnType::Integer),
            plain_column(t.columns[3], "room_id"@, ColumnType::Integer),
            t.columns[4].name@ == "created_at"@,
            t.columns[4].column_type is DateTime,
            t.columns[4].not_null && t.columns[4].default_current_timestamp,
            !t.columns[4].auto_increment && !t.columns[4].primary_key,
            t.foreign_keys.len() == 2,
            t.foreign_keys[0].name@ == "fk-msg-user-id"@,
            t.foreign_keys[0].from_table@ == "message"@,
            t.foreign_keys[0].from_column@ == "user_id"@,
            t.foreign_keys[0].to_table@ == "user"@,
            t.foreign_keys[0].to_column@ == "id"@,
            t.foreign_keys[1].name@ == "fk-msg-room-id"@,
            t.foreign_keys[1].from_table@ == "message"@,
            t.foreign_keys[1].from_column@ == "room_id"@,
            t.foreign_keys[1].to_table@ == "room"@,
            t.foreign_keys[1].to_column@ == "id"@,
    {
        let table = Message::Table.name();
        let mut columns: Vec<ColumnDef> = Vec::new();
        columns.push(
            ColumnDef {
                name: Message::Id.name(),
                column_type: ColumnType::Integer,
                not_null: true,
                auto_increment: true,
                primary_key: true,
                default_current_timestamp: false,
            },
        );
        columns.push(column(Message::Content.name(), ColumnType::String));
        columns.push(column(Message::UserID.name(), ColumnType::Integer));
        columns.push(column(Message::RoomID.name(), ColumnType::Integer));
        columns.push(
            ColumnDef {
                name: Message::CreatedAt.name(),
                column_type: ColumnType::DateTime,
                not_null: true,
                auto_increment: false,
                primary_key: false,
                default_current_timestamp: true,
            },
        );
        let mut foreign_keys: Vec<ForeignKeyDef> = Vec::new();
        foreign_keys.push(
            ForeignKeyDef {
                name: "fk-msg-user-id",
                from_table: table,
                from_column: Message::UserID.name(),
                to_table: "user",
                to_column: "id",
            },
        );
        foreign_keys.push(
            ForeignKeyDef {
                name: "fk-msg-room-id",
                from_table: table,
                from_column: Message::RoomID.name(),
                to_table: "room",
                to_column: "id",
            },
        );
        TableDef { name: table, if_not_exists: true, columns, foreign_keys }
    }

    /// What `down` drops: the `message` table.
    pub fn down(&self) -> (t: &'static str)
        ensures
            t@ == "message"@,
    {
        Message::Table.name()
    }
}

impl Migrator {
    /// The names of the migrations, in the order they are applied: the `user` table, the
    /// `room` table, then the `message` table.
    pub fn migrations() -> (m: Vec<&'static str>)
        ensures
            m.len() == 3,
            m[0]@ == "m20231006_000001_create_user_table"@,
            m[1]@ == "m20231006_000002_create_room_table"@,
            m[2]@ == "m20231006_000003_create_message_table"@,
    {
        let mut m: Vec<&'static str> = Vec::new();
        m.push("m20231006_000001_create_user_table");
        m.push("m20231006_000002_create_room_table");
        m.push(Migration.name());
        m
    }
}

} // verus!
