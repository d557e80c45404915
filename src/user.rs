use vstd::prelude::*;
use vstd::string::StringExecFns;

use crate::error::AppError;
use crate::id::{hyphenated, is_random_uuid, parse_uuid, parsed_uuid, UserId};
use crate::name::{valid_name, UserName};

verus! {

pub open spec fn invalid_stored_id_message() -> Seq<char> {
    "failed to reconstruct user: invalid id"@
}

pub open spec fn invalid_stored_name_message() -> Seq<char> {
    "failed to reconstruct user: invalid name"@
}

/// Whether a stored pair of texts describes a user.
pub open spec fn reconstructible(id: Seq<char>, name: Seq<char>) -> bool {
    parsed_uuid(id) is Some && valid_name(name)
}

/// A user: an identity and a validated name.
#[derive(Debug)]
pub struct User {
    id: UserId,
    name: UserName,
}

impl View for User {
    /// The identity's value and the name's text.
    type V = (u128, Seq<char>);

    closed spec fn view(&self) -> (u128, Seq<char>) {
        (self.id@, self.name@)
    }
}

impl Clone for User {
    fn clone(&self) -> (r: User)
        ensures
            r@ == self@,
    {
        User { id: self.id, name: self.name.clone() }
    }
}

impl User {
    /// A brand-new user with a freshly generated identity.
    pub fn new(name: UserName) -> (r: User)
        ensures
            r@.1 == name@,
            is_random_uuid(r@.0),
    {
        User { id: UserId::new(), name }
    }

    /// The user's identity.
    pub fn id(&self) -> (r: &UserId)
        ensures
            r@ == self@.0,
    {
        &self.id
    }

    /// The user's name.
    pub fn name(&self) -> (r: &UserName)
        ensures
            r@ == self@.1,
    {
        &self.name
    }

    /// Rebuilds a stored user from the outcome of parsing its identity text
    /// and its raw name. Any failure means the store is inconsistent, so it is
    /// reported as `Internal`; the identity is checked first.
    pub fn reconstruct_parsed(parsed_id: Option<u128>, name: String) -> (r: Result<
        User,
        AppError,
    >)
        ensures
            r is Ok <==> parsed_id is Some && valid_name(name@),
            r is Ok ==> r->Ok_0@ == (parsed_id->Some_0, name@),
            r is Err ==> r->Err_0 is Internal,
            parsed_id is None ==> r is Err && r->Err_0.spec_message()
                == invalid_stored_id_message(),
            parsed_id is Some && !valid_name(name@) ==> r is Err && r->Err_0.spec_message()
                == invalid_stored_name_message(),
    {
        let id = match UserId::from_parsed(parsed_id) {
            Ok(id) => id,
            Err(_) => {
                return Err(
                    AppError::Internal(
                        String::from_str("failed to reconstruct user: invalid id"),
                    ),
                );
            },
        };
        let name = match UserName::new(name) {
            Ok(name) => name,
            Err(_) => {
                return Err(
                    AppError::Internal(
                        String::from_str("failed to reconstruct user: invalid name"),
                    ),
                );
            },
        };
        Ok(User { id, name })
    }

    /// Rebuilds a user from the texts kept in storage.
    pub fn reconstruct(id: String, name: String) -> (r: Result<User, AppError>)
        ensures
            r is Ok <==> reconstructible(id@, name@),
            r is Ok ==> r->Ok_0@ == (parsed_uuid(id@)->Some_0, name@),
            r is Err ==> r->Err_0 is Internal,
            parsed_uuid(id@) is None ==> r->Err_0.spec_message() == invalid_stored_id_message(),
            parsed_uuid(id@) is Some && !valid_name(name@) ==> r->Err_0.spec_message()
                == invalid_stored_name_message(),
            forall|v: u128|
                #[trigger] hyphenated(v) == id@ && valid_name(name@) ==> r is Ok && r->Ok_0@ == (
                    v,
                    name@,
                ),
    {
        let parsed = parse_uuid(id.as_str());
        User::reconstruct_parsed(parsed, name)
    }

    /// Rebuilds a user from a stored record.
    pub fn try_from_record(record: UserRecord) -> (r: Result<User, AppError>)
        ensures
            r is Ok <==> reconstructible(record.id@, record.name@),
            r is Ok ==> r->Ok_0@ == (parsed_uuid(record.id@)->Some_0, record.name@),
            r is Err ==> r->Err_0 is Internal,
            parsed_uuid(record.id@) is None ==> r->Err_0.spec_message()
                == invalid_stored_id_message(),
            parsed_uuid(record.id@) is Some && !valid_name(record.name@) ==> r->Err_0.spec_message()
                == invalid_stored_name_message(),
            forall|v: u128|
                #[trigger] hyphenated(v) == record.id@ && valid_name(record.name@) ==> r is Ok
                    && r->Ok_0@ == (v, record.name@),
    {
        User::reconstruct(record.id, record.name)
    }
}

/// The stored form of a user: its identity text and its name text.
#[derive(Clone, Debug, PartialEq, Eq)]
pub struct UserRecord {
    pub id: String,
    pub name: String,
}

impl UserRecord {
    /// The record that stores `user`.
    pub fn from_user(user: &User) -> (r: UserRecord)
        ensures
            r.id@ == hyphenated(user@.0),
            r.name@ == user@.1,
            valid_name(r.name@),
    {
        let name = user.name().as_str();
        UserRecord { id: user.id().to_text(), name: String::from_str(name) }
    }
}

} // verus!
