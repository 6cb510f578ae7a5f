//! Chat rooms.
use vstd::prelude::*;

use crate::db::DbError;
use crate::errors::ErrorResponder;

verus! {

/// A row of the `room` table.
pub struct RoomRecord {
    pub id: i32,
    pub name: String,
}

/// A row to add to the `room` table (its id is given by the database).
pub struct NewRoom {
    pub name: String,
}

/// The form that creates a room.
pub struct Room<'a> {
    pub name: &'a str,
}

/// Whether `e` is the 500 response "Something went wrong!!!".
pub open spec fn is_went_wrong(e: ErrorResponder) -> bool {
    e.status_code() == 500 && e.message_text() == "Something went wrong!!!"@
}

impl<'a> Room<'a> {
    /// All rooms, as read (ordered by id) from the database; a failed read is a 500 response.
    pub fn all(result: Result<Vec<RoomRecord>, DbError>) -> (r: Result<Vec<RoomRecord>, ErrorResponder>)
        ensures
            match result {
                Ok(records) => r == Ok::<Vec<RoomRecord>, ErrorResponder>(records),
                Err(_) => r matches Err(e) && is_went_wrong(e),
            },
    {
        match result {
            Ok(records) => Ok(records),
            Err(_) => Err(ErrorResponder::internal_error("Something went wrong!!!")),
        }
    }

    /// The row that creates this room.
    pub fn new_record(&self) -> (n: NewRoom)
        ensures
            n.name@ == self.name@,
    {
        NewRoom { name: self.name.to_owned() }
    }

    /// The answer once the row was inserted: the stored room, or a 500 response.
    pub fn insert(&self, inserted: Result<RoomRecord, DbError>) -> (r: Result<RoomRecord, ErrorResponder>)
        ensures
            match inserted {
                Ok(rc) => r == Ok::<RoomRecord, ErrorResponder>(rc),
                Err(_) => r matches Err(e) && is_went_wrong(e),
            },
    {
        match inserted {
            Ok(rc) => Ok(rc),
            Err(_) => Err(ErrorResponder::internal_error("Something went wrong!!!")),
        }
    }
}

} // verus!
