//! Signing in: checking a username and password against the stored argon2 hash.
use argon2::password_hash::{PasswordHasher, PasswordVerifier};
use vstd::prelude::*;
use vstd::string::StringSliceAdditionalSpecFns;

use crate::db::DbError;
use crate::errors::ErrorResponder;
use crate::user::{register_spec, CreateUser, NewUser, UserRecord};

verus! {

/// Whether the argon2 hash in the PHC string `password_hash` is the hash of `password`
/// (false when the string is not a valid PHC string).
pub uninterp spec fn argon2_matches(password: Seq<u8>, password_hash: Seq<char>) -> bool;

/// Whether `h` can be a PHC string that holds a salt and a hash: it starts with `$` and
/// has at least three `$`, which separate the empty first field, the algorithm, the salt
/// and the hash.
pub open spec fn phc_shaped(h: Seq<char>) -> bool {
    &&& h.len() > 0
    &&& h[0] == '$'
    &&& h.filter(|c: char| c == '$').len() >= 3
}

/// `PasswordHash::new(password_hash)`, then `Argon2::default().verify_password(password, &hash)`
/// and `is_ok()`; `false` when the PHC string does not parse. `PasswordHash::new` refuses
/// an empty string and one whose first `$`-separated field is not empty, and
/// `verify_password` refuses a hash without salt or hash field, so a string that is not
/// `phc_shaped` never matches.
#[verifier::external_body]
pub(crate) fn argon2_verify(password: &[u8], password_hash: &str) -> (r: bool)
    ensures
        r == argon2_matches(password@, password_hash@),
        !phc_shaped(password_hash@) ==> !r,
{
    match argon2::password_hash::PasswordHash::new(password_hash) {
        Ok(ph) => argon2::Argon2::default().verify_password(password, &ph).is_ok(),
        Err(_) => false,
    }
}

/// `Argon2::default().hash_password(password, &SaltString::generate(&mut OsRng))` written
/// as a PHC string. The salt is random, so the text is not determined; what is stated is
/// that `verify_password` accepts `password` against it. `hash_password` fails, and the
/// call panics, for passwords longer than `argon2::MAX_PWD_LEN` bytes.
#[verifier::external_body]
pub(crate) fn argon2_hash(password: &[u8]) -> (h: String)
    requires
        password@.len() <= 0xFFFF_FFFF,
    ensures
        argon2_matches(password@, h@),
{
    let salt = argon2::password_hash::SaltString::generate(&mut argon2::password_hash::rand_core::OsRng);
    argon2::Argon2::default().hash_password(password, &salt).unwrap().to_string()
}

/// The sign-in form.
pub struct Credential<'r> {
    pub username: &'r str,
    pub password: &'r str,
}

/// The answer to a sign-in with `password`, given the lookup of its username: the record
/// when it was found and the password matches its hash; 401 when no user was found or the
/// password does not match; 500 with the database's message when the lookup failed.
pub open spec fn check_credential_spec(
    password: Seq<u8>,
    lookup: Result<Option<UserRecord>, DbError>,
    r: Result<UserRecord, ErrorResponder>,
) -> bool {
    match lookup {
        Ok(Some(rc)) => if argon2_matches(password, rc.password@) {
            r == Ok::<UserRecord, ErrorResponder>(rc)
        } else {
            r matches Err(e) && e.status_code() == 401 && e.message_text()
                == "Password or Username not correct!!!"@
        },
        Ok(None) => r matches Err(e) && e.status_code() == 401 && e.message_text()
            == "Password or Username not correct!!!"@,
        Err(a) => r matches Err(e) && e.status_code() == 500 && e.message_text() == a.message@,
    }
}

/// A password chosen at registration signs in: when a registration form is accepted, the
/// row it produced, once stored, lets the same username sign in with the same password.
pub proof fn lemma_registered_user_signs_in<'a, 'b>(
    form: CreateUser<'a>,
    lookup: Result<Option<UserRecord>, DbError>,
    new_user: NewUser,
    id: i32,
    credential: Credential<'b>,
    r: Result<UserRecord, ErrorResponder>,
)
    requires
        register_spec(form, lookup, Ok(new_user)),
        credential.password@ == form.password@,
        check_credential_spec(
            credential.password.spec_bytes(),
            Ok(Some(UserRecord { id, username: new_user.username, password: new_user.password })),
            r,
        ),
    ensures
        r == Ok::<UserRecord, ErrorResponder>(
            UserRecord { id, username: new_user.username, password: new_user.password },
        ),
{
}

impl<'r> Credential<'r> {
    /// Whether this password matches the argon2 hash `password_hash`.
    fn verify_password(&self, password_hash: &str) -> (r: bool)
        ensures
            r == argon2_matches(self.password.spec_bytes(), password_hash@),
            !phc_shaped(password_hash@) ==> !r,
    {
        argon2_verify(self.password.as_bytes(), password_hash)
    }

    /// Checks this credential against `lookup`, the lookup of its username.
    pub fn check_credential(&self, lookup: Result<Option<UserRecord>, DbError>) -> (r: Result<
        UserRecord,
        ErrorResponder,
    >)
        ensures
            check_credential_spec(self.password.spec_bytes(), lookup, r),
            lookup matches Ok(Some(rc)) && !phc_shaped(rc.password@) ==> (r matches Err(e)
                && e.status_code() == 401),
    {
        match lookup {
            Ok(record) => match record {
                Some(rc) => {
                    if self.verify_password(rc.password.as_str()) {
                        Ok(rc)
                    } else {
                        Err(ErrorResponder::unauthorize("Password or Username not correct!!!"))
                    }
                },
                None => Err(ErrorResponder::unauthorize("Password or Username not correct!!!")),
            },
            Err(a) => Err(ErrorResponder::internal_error(a.message.as_str())),
        }
    }
}

} // verus!
