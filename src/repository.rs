use vstd::prelude::*;
use vstd::string::StringExecFns;

use crate::error::AppError;
use crate::id::{parsed_uuid, UserId};
use crate::user::{reconstructible, User, UserRecord};

verus! {

/// Whether `users` is a correct answer to a batch lookup of `ids` in a store
/// holding `records`: it holds exactly the requested users that exist, each
/// once, with its stored name. Missing identities are left out.
pub open spec fn lookup_result(
    users: Seq<User>,
    ids: Seq<UserId>,
    records: Map<u128, Seq<char>>,
) -> bool {
    &&& forall|i: int|
        0 <= i < users.len() ==> {
            &&& exists|j: int| 0 <= j < ids.len() && ids[j]@ == (#[trigger] users[i])@.0
            &&& records.contains_key(users[i]@.0)
            &&& records[users[i]@.0] == users[i]@.1
        }
    &&& forall|j: int|
        0 <= j < ids.len() && records.contains_key((#[trigger] ids[j])@) ==> exists|i: int|
            0 <= i < users.len() && (#[trigger] users[i])@.0 == ids[j]@
    &&& forall|i: int, k: int|
        0 <= i < users.len() && 0 <= k < users.len() && i != k ==> (#[trigger] users[i])@.0
            != (#[trigger] users[k])@.0
}

/// Storage of users, whatever the technology behind it.
pub trait UserRepository {
    /// The stored users: each identity's value with its name's text.
    /// An implementation written in verified code defines this as what it
    /// holds and is held to the contracts below. The default, an empty map,
    /// only lets implementations outside verified code compile: the
    /// contracts say nothing of those, and nothing checks them.
    closed spec fn records(&self) -> Map<u128, Seq<char>> {
        Map::empty()
    }

    /// Inserts `user`, or overwrites the name stored under its identity.
    /// A failure is technical and leaves the store as it was.
    fn save(&mut self, user: &User) -> (r: Result<(), AppError>)
        ensures
            r is Ok ==> final(self).records() == old(self).records().insert(user@.0, user@.1),
            r is Err ==> r->Err_0 is Internal && final(self).records() == old(self).records(),
    ;

    /// Looks up the users with the given identities; those that do not exist
    /// are left out. Any failure, a corrupted record included, is technical.
    fn get_by_ids(&self, ids: &[UserId]) -> (r: Result<Vec<User>, AppError>)
        ensures
            r is Ok ==> lookup_result(r->Ok_0@, ids@, self.records()),
            r is Err ==> r->Err_0 is Internal,
    ;
}

/// Saving the same user twice leaves one record under its identity, with its
/// name, and the second save changes nothing.
pub proof fn lemma_save_twice<R: UserRepository>(first: R, second: R, third: R, user: User)
    requires
        second.records() == first.records().insert(user@.0, user@.1),
        third.records() == second.records().insert(user@.0, user@.1),
    ensures
        third.records() == second.records(),
        third.records().dom() == first.records().dom().insert(user@.0),
        third.records()[user@.0] == user@.1,
{
    assert(third.records() =~= second.records());
    assert(third.records().dom() =~= first.records().dom().insert(user@.0));
}

/// Gives access to the repository that the use cases work with.
pub trait ProvideUserRepository {
    type Repository: UserRepository;

    /// The repository held.
    spec fn repository(&self) -> Self::Repository;

    fn provide(&mut self) -> (r: &mut Self::Repository)
        ensures
            *r == old(self).repository(),
            final(self).repository() == *final(r),
    ;
}

/// The context of the running service: it owns the repository.
pub struct AppContext<R: UserRepository> {
    pub user_repository: R,
}

impl<R: UserRepository> ProvideUserRepository for AppContext<R> {
    type Repository = R;

    open spec fn repository(&self) -> R {
        self.user_repository
    }

    fn provide(&mut self) -> (r: &mut R) {
        &mut self.user_repository
    }
}

pub open spec fn convert_failed_context() -> Seq<char> {
    "failed to convert users"@
}

/// The identities that a sequence of users holds.
pub open spec fn ids_of_users(users: Seq<User>) -> Set<u128> {
    Set::new(|k: u128| exists|i: int| 0 <= i < users.len() && (#[trigger] users[i])@.0 == k)
}

/// The requested identities that the store holds.
pub open spec fn existing_ids(ids: Seq<UserId>, records: Map<u128, Seq<char>>) -> Set<u128> {
    Set::new(
        |k: u128|
            records.contains_key(k) && exists|j: int| 0 <= j < ids.len() && (#[trigger] ids[j])@ == k,
    )
}

/// A successful lookup returns exactly the requested identities that exist,
/// whatever mix of existing and missing identities was asked for.
pub proof fn lemma_lookup_returns_existing(
    users: Seq<User>,
    ids: Seq<UserId>,
    records: Map<u128, Seq<char>>,
)
    requires
        lookup_result(users, ids, records),
    ensures
        ids_of_users(users) == existing_ids(ids, records),
{
    assert forall|k: u128| ids_of_users(users).contains(k) implies existing_ids(
        ids,
        records,
    ).contains(k) by {
        let i = choose|i: int| 0 <= i < users.len() && (#[trigger] users[i])@.0 == k;
        assert(records.contains_key(users[i]@.0));
    }
    assert forall|k: u128| existing_ids(ids, records).contains(k) implies ids_of_users(
        users,
    ).contains(k) by {
        let j = choose|j: int| 0 <= j < ids.len() && (#[trigger] ids[j])@ == k;
        assert(records.contains_key(ids[j]@));
    }
    assert(ids_of_users(users) =~= existing_ids(ids, records));
}

/// A successful lookup of identities none of which exists returns nothing.
pub proof fn lemma_lookup_of_missing_is_empty(
    users: Seq<User>,
    ids: Seq<UserId>,
    records: Map<u128, Seq<char>>,
)
    requires
        lookup_result(users, ids, records),
        forall|j: int| 0 <= j < ids.len() ==> !records.contains_key((#[trigger] ids[j])@),
    ensures
        users.len() == 0,
{
    if users.len() > 0 {
        let u = users[0];
        assert(records.contains_key(u@.0));
        let j = choose|j: int| 0 <= j < ids.len() && ids[j]@ == (#[trigger] users[0])@.0;
        assert(!records.contains_key(ids[j]@));
    }
}

/// Whether every stored record describes a user.
pub open spec fn all_reconstructible(records: Seq<UserRecord>) -> bool {
    forall|i: int|
        0 <= i < records.len() ==> reconstructible(
            (#[trigger] records[i]).id@,
            records[i].name@,
        )
}

/// Rebuilds the users of a batch of stored records, in order. One record
/// that does not describe a user fails the whole batch as `Internal`.
pub fn users_from_records(records: Vec<UserRecord>) -> (r: Result<Vec<User>, AppError>)
    ensures
        r is Ok <==> all_reconstructible(records@),
        r is Ok ==> r->Ok_0@.len() == records@.len() && forall|i: int|
            0 <= i < records@.len() ==> (#[trigger] r->Ok_0@[i])@ == (
                parsed_uuid(records@[i].id@)->Some_0,
                records@[i].name@,
            ),
        r is Err ==> r->Err_0 is Internal && (convert_failed_context() + ": "@).is_prefix_of(
            r->Err_0.spec_message(),
        ),
{
    let mut users: Vec<User> = Vec::new();
    let mut i: usize = 0;
    while i < records.len()
        invariant
            i <= records@.len(),
            users@.len() == i,
            forall|k: int| 0 <= k < i ==> reconstructible(
                (#[trigger] records@[k]).id@,
                records@[k].name@,
            ),
            forall|k: int|
                0 <= k < i ==> (#[trigger] users@[k])@ == (
                    parsed_uuid(records@[k].id@)->Some_0,
                    records@[k].name@,
                ),
        decreases records@.len() - i,
    {
        let record = UserRecord { id: records[i].id.clone(), name: records[i].name.clone() };
        match User::try_from_record(record) {
            Ok(user) => {
                users.push(user);
            },
            Err(e) => {
                assert(!reconstructible(records@[i as int].id@, records@[i as int].name@));
                let e = e.context("failed to convert users");
                proof {
                    reveal_strlit("failed to convert users");
                    reveal_strlit(": ");
                }
                return Err(e);
            },
        }
        i = i + 1;
    }
    Ok(users)
}

} // verus!
