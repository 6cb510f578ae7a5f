//! Users: who a token belongs to, and how new accounts are registered.
use vstd::prelude::*;
use vstd::string::StringSliceAdditionalSpecFns;

use crate::auth::{argon2_hash, argon2_matches};
use crate::db::DbError;
use crate::errors::ErrorResponder;
use crate::jwt::Claims;

verus! {

/// A row of the `user` table.
pub struct UserRecord {
    pub id: i32,
    pub username: String,
    /// The password's argon2 hash, as a PHC string.
    pub password: String,
}

/// A signed-in user, as handlers see it.
pub struct User {
    pub id: i32,
    pub username: String,
}

/// A row to add to the `user` table (its id is given by the database).
pub struct NewUser {
    pub username: String,
    pub password: String,
}

/// The registration form.
pub struct CreateUser<'r> {
    pub username: &'r str,
    pub password: &'r str,
    pub password_2: &'r str,
}

/// Whether a username lookup found no user (and did not fail).
pub open spec fn username_free(lookup: Result<Option<UserRecord>, DbError>) -> bool {
    lookup matches Ok(None)
}

/// The answer to a registration with `form`, given the lookup of its username: 400 when
/// the passwords differ, else 400 when the username is taken (or the lookup failed), else
/// the row to insert, holding the username and an argon2 hash of the password.
pub open spec fn register_spec<'r>(
    form: CreateUser<'r>,
    lookup: Result<Option<UserRecord>, DbError>,
    r: Result<NewUser, ErrorResponder>,
) -> bool {
    if form.password@ != form.password_2@ {
        r matches Err(e) && e.status_code() == 400 && e.message_text() == "Password not match!"@
    } else if !username_free(lookup) {
        r matches Err(e) && e.status_code() == 400 && e.message_text()
            == "Username already exists!!"@
    } else {
        r matches Ok(u) && u.username@ == form.username@ && argon2_matches(
            form.password.spec_bytes(),
            u.password@,
        )
    }
}

/// Registration is accepted only for two equal passwords and a username that the lookup
/// found free, and the row it gives holds that username.
pub proof fn lemma_registration_needs_free_name<'r>(
    form: CreateUser<'r>,
    lookup: Result<Option<UserRecord>, DbError>,
    row: NewUser,
)
    requires
        register_spec(form, lookup, Ok(row)),
    ensures
        form.password@ == form.password_2@,
        lookup matches Ok(None),
        row.username@ == form.username@,
{
}

/// Whether no two records of `store` share a username.
pub open spec fn distinct_usernames(store: Seq<UserRecord>) -> bool {
    forall|i: int, j: int|
        #![trigger store[i], store[j]]
        0 <= i < j < store.len() ==> store[i].username@ != store[j].username@
}

/// Whether `lookup` is what looking `username` up in the `user` table `store` can answer:
/// no record when none has that username, a record of the table with that username when
/// one is found (a failed lookup says nothing).
pub open spec fn lookup_in(
    store: Seq<UserRecord>,
    username: Seq<char>,
    lookup: Result<Option<UserRecord>, DbError>,
) -> bool {
    match lookup {
        Ok(None) => forall|i: int| 0 <= i < store.len() ==> #[trigger] store[i].username@ != username,
        Ok(Some(rc)) => rc.username@ == username && exists|i: int|
            0 <= i < store.len() && #[trigger] store[i] == rc,
        Err(_) => true,
    }
}

/// Registration keeps usernames unique: when the lookup answers for a table whose
/// usernames are distinct and the registration is accepted, no stored user had that
/// username, and the table with the new row added, under whatever id, still has distinct
/// usernames.
pub proof fn lemma_registration_keeps_usernames_distinct<'r>(
    store: Seq<UserRecord>,
    form: CreateUser<'r>,
    lookup: Result<Option<UserRecord>, DbError>,
    row: NewUser,
    id: i32,
)
    requires
        distinct_usernames(store),
        lookup_in(store, form.username@, lookup),
        register_spec(form, lookup, Ok(row)),
    ensures
        form.password@ == form.password_2@,
        forall|i: int| 0 <= i < store.len() ==> #[trigger] store[i].username@ != form.username@,
        distinct_usernames(
            store.push(UserRecord { id, username: row.username, password: row.password }),
        ),
{
    let added = UserRecord { id, username: row.username, password: row.password };
    let grown = store.push(added);
    assert forall|i: int, j: int| 0 <= i < j < grown.len() implies grown[i].username@
        != grown[j].username@ by {
        assert(grown[i] == store[i]);
        if j < store.len() {
            assert(grown[j] == store[j]);
        } else {
            assert(grown[j] == added);
            assert(store[i].username@ != form.username@);
        }
    }
}

impl User {
    /// The user a token's claims stand for, given the record found for `claims.sub`
    /// (`None` when there is none). Refresh tokens stand for nobody.
    pub fn from_jwt_claims(claims: &Claims, record: Option<UserRecord>) -> (u: Option<Self>)
        ensures
            claims.refresh ==> u is None,
            !claims.refresh ==> match record {
                Some(r) => u matches Some(v) && v.id == r.id && v.username == r.username,
                None => u is None,
            },
    {
        if claims.refresh {
            return None;
        }
        match record {
            Some(record) => Some(User { id: record.id, username: record.username }),
            None => None,
        }
    }

    /// The record a lookup by id found; a failed lookup finds nothing.
    pub fn get(lookup: Result<Option<UserRecord>, DbError>) -> (r: Option<UserRecord>)
        ensures
            r == match lookup {
                Ok(found) => found,
                Err(_) => None,
            },
    {
        match lookup {
            Ok(rc) => rc,
            Err(_) => None,
        }
    }
}

impl<'r> CreateUser<'r> {
    /// Whether the password was typed the same way twice.
    pub fn verify_password(&self) -> (r: bool)
        ensures
            r == (self.password@ == self.password_2@),
    {
        let a = self.password.to_owned();
        let b = self.password_2.to_owned();
        a == b
    }

    /// Whether the username is still free, given the lookup of that username.
    pub fn verified_login(lookup: &Result<Option<UserRecord>, DbError>) -> (r: bool)
        ensures
            r == username_free(*lookup),
    {
        match lookup {
            Ok(r) => match r {
                Some(_) => false,
                None => true,
            },
            Err(_) => false,
        }
    }

    /// Registers the account: the passwords must match and the username must be free
    /// (`lookup` is the lookup of the username; it is not consulted when the passwords
    /// differ). The row to insert holds the username and an argon2 hash of the password.
    pub fn insert(&self, lookup: Result<Option<UserRecord>, DbError>) -> (r: Result<
        NewUser,
        ErrorResponder,
    >)
        requires
            self.password@ == self.password_2@ && username_free(lookup)
                ==> self.password.spec_bytes().len() <= 0xFFFF_FFFF,
        ensures
            register_spec(*self, lookup, r),
    {
        let verified = self.verify_password();
        match verified {
            true => {
                let available = Self::verified_login(&lookup);
                match available {
                    true => {
                        let hash_password = argon2_hash(self.password.as_bytes());
                        Ok(NewUser { username: self.username.to_owned(), password: hash_password })
                    },
                    false => Err(ErrorResponder::bad_request("Username already exists!!")),
                }
            },
            false => Err(ErrorResponder::bad_request("Password not match!")),
        }
    }
}

} // verus!
