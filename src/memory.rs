use vstd::prelude::*;

use crate::error::AppError;
use crate::id::UserId;
use crate::repository::{lookup_result, UserRepository};
use crate::user::User;

verus! {

/// What a sequence of saved users stores: each identity with the name of its
/// last occurrence.
pub open spec fn stored_records(s: Seq<User>) -> Map<u128, Seq<char>>
    decreases s.len(),
{
    if s.len() == 0 {
        Map::empty()
    } else {
        stored_records(s.drop_last()).insert(s.last()@.0, s.last()@.1)
    }
}

/// `i` is the last position of `s` that holds identity `k`.
pub open spec fn last_position(s: Seq<User>, k: u128, i: int) -> bool {
    &&& 0 <= i < s.len()
    &&& s[i]@.0 == k
    &&& forall|j: int| i < j < s.len() ==> (#[trigger] s[j])@.0 != k
}

pub open spec fn absent(s: Seq<User>, k: u128) -> bool {
    forall|j: int| 0 <= j < s.len() ==> (#[trigger] s[j])@.0 != k
}

proof fn lemma_absent(s: Seq<User>, k: u128)
    requires
        absent(s, k),
    ensures
        !stored_records(s).contains_key(k),
    decreases s.len(),
{
    if s.len() > 0 {
        assert(s.drop_last()[0 as int] == s[0 as int] || s.drop_last().len() == 0);
        assert(absent(s.drop_last(), k)) by {
            assert forall|j: int| 0 <= j < s.drop_last().len() implies (
            #[trigger] s.drop_last()[j])@.0 != k by {
                assert(s.drop_last()[j] == s[j]);
            }
        }
        lemma_absent(s.drop_last(), k);
    }
}

proof fn lemma_last_position(s: Seq<User>, k: u128, i: int)
    requires
        last_position(s, k, i),
    ensures
        stored_records(s).contains_key(k),
        stored_records(s)[k] == s[i]@.1,
    decreases s.len(),
{
    if i < s.len() - 1 {
        assert(s.last()@.0 != k);
        assert(last_position(s.drop_last(), k, i)) by {
            assert forall|j: int| i < j < s.drop_last().len() implies (
            #[trigger] s.drop_last()[j])@.0 != k by {
                assert(s.drop_last()[j] == s[j]);
            }
        }
        lemma_last_position(s.drop_last(), k, i);
    }
}

proof fn lemma_update_last(s: Seq<User>, i: int, u: User)
    requires
        last_position(s, u@.0, i),
    ensures
        stored_records(s.update(i, u)) == stored_records(s).insert(u@.0, u@.1),
    decreases s.len(),
{
    let t = s.update(i, u);
    if i == s.len() - 1 {
        assert(t.drop_last() =~= s.drop_last());
        assert(stored_records(t) =~= stored_records(s).insert(u@.0, u@.1));
    } else {
        assert(t.drop_last() =~= s.drop_last().update(i, u));
        assert(s.last()@.0 != u@.0);
        assert(last_position(s.drop_last(), u@.0, i)) by {
            assert forall|j: int| i < j < s.drop_last().len() implies (
            #[trigger] s.drop_last()[j])@.0 != u@.0 by {
                assert(s.drop_last()[j] == s[j]);
            }
        }
        lemma_update_last(s.drop_last(), i, u);
        assert(stored_records(t) =~= stored_records(s).insert(u@.0, u@.1));
    }
}

/// The last position of `users` that holds identity `id`, if any.
fn last_position_of(users: &Vec<User>, id: u128) -> (r: Option<usize>)
    ensures
        r is Some ==> last_position(users@, id, r->Some_0 as int),
        r is None ==> absent(users@, id),
{
    let mut i: usize = users.len();
    while i > 0
        invariant
            i <= users.len(),
            forall|j: int| i <= j < users.len() ==> (#[trigger] users@[j])@.0 != id,
        decreases i,
    {
        if users[i - 1].id().as_u128() == id {
            return Some(i - 1);
        }
        i = i - 1;
    }
    None
}

/// A repository that keeps users in memory.
pub struct MemoryUserRepository {
    users: Vec<User>,
}

impl MemoryUserRepository {
    /// An empty repository.
    pub fn new() -> (r: MemoryUserRepository)
        ensures
            r.records() == Map::<u128, Seq<char>>::empty(),
    {
        MemoryUserRepository { users: Vec::new() }
    }
}

impl UserRepository for MemoryUserRepository {
    closed spec fn records(&self) -> Map<u128, Seq<char>> {
        stored_records(self.users@)
    }

    fn save(&mut self, user: &User) -> (r: Result<(), AppError>)
        ensures
            r is Ok,
    {
        let copy = user.clone();
        match last_position_of(&self.users, user.id().as_u128()) {
            Some(i) => {
                proof {
                    lemma_update_last(self.users@, i as int, copy);
                }
                self.users.set(i, copy);
            },
            None => {
                let ghost before = self.users@;
                self.users.push(copy);
                proof {
                    assert(self.users@.drop_last() =~= before);
                }
            },
        }
        Ok(())
    }

    fn get_by_ids(&self, ids: &[UserId]) -> (r: Result<Vec<User>, AppError>)
        ensures
            r is Ok,
    {
        let ghost records = self.records();
        let mut found: Vec<User> = Vec::new();
        let mut j: usize = 0;
        while j < ids.len()
            invariant
                j <= ids@.len(),
                records == stored_records(self.users@),
                forall|i: int|
                    0 <= i < found@.len() ==> {
                        &&& exists|jj: int| 0 <= jj < j && ids@[jj]@ == (#[trigger] found@[i])@.0
                        &&& records.contains_key(found@[i]@.0)
                        &&& records[found@[i]@.0] == found@[i]@.1
                    },
                forall|jj: int|
                    0 <= jj < j && records.contains_key((#[trigger] ids@[jj])@) ==> exists|i: int|
                        0 <= i < found@.len() && (#[trigger] found@[i])@.0 == ids@[jj]@,
                forall|i: int, k: int|
                    0 <= i < found@.len() && 0 <= k < found@.len() && i != k ==> (
                    #[trigger] found@[i])@.0 != (#[trigger] found@[k])@.0,
            decreases ids@.len() - j,
        {
            let id = ids[j].as_u128();
            match last_position_of(&found, id) {
                Some(p) => {
                    proof {
                        assert forall|i: int| 0 <= i < found@.len() implies exists|jj: int|
                            0 <= jj < j + 1 && ids@[jj]@ == (#[trigger] found@[i])@.0 by {
                            let jj = choose|jj: int| 0 <= jj < j && ids@[jj]@ == found@[i]@.0;
                        }
                        assert(found@[p as int]@.0 == ids@[j as int]@);
                    }
                },
                None => match last_position_of(&self.users, id) {
                    Some(p) => {
                        proof {
                            lemma_last_position(self.users@, id, p as int);
                        }
                        let ghost before = found@;
                        found.push(self.users[p].clone());
                        proof {
                            assert(found@[before.len() as int]@.0 == ids@[j as int]@);
                            assert forall|i: int| 0 <= i < found@.len() implies exists|jj: int|
                                0 <= jj < j + 1 && ids@[jj]@ == (#[trigger] found@[i])@.0 by {
                                if i < before.len() {
                                    assert(found@[i] == before[i]);
                                    let jj = choose|jj: int|
                                        0 <= jj < j && ids@[jj]@ == before[i]@.0;
                                } else {
                                    assert(ids@[j as int]@ == found@[i]@.0);
                                }
                            }
                            assert forall|jj: int|
                                0 <= jj < j + 1 && records.contains_key(
                                    (#[trigger] ids@[jj])@,
                                ) implies exists|i: int|
                                0 <= i < found@.len() && (#[trigger] found@[i])@.0
                                    == ids@[jj]@ by {
                                if jj < j {
                                    let i = choose|i: int|
                                        0 <= i < before.len() && before[i]@.0 == ids@[jj]@;
                                    assert(found@[i] == before[i]);
                                } else {
                                    assert(found@[before.len() as int]@.0 == ids@[jj]@);
                                }
                            }
                        }
                    },
                    None => {
                        proof {
                            lemma_absent(self.users@, id);
                            assert forall|i: int| 0 <= i < found@.len() implies exists|jj: int|
                                0 <= jj < j + 1 && ids@[jj]@ == (#[trigger] found@[i])@.0 by {
                                let jj = choose|jj: int| 0 <= jj < j && ids@[jj]@ == found@[i]@.0;
                            }
                        }
                    },
                },
            }
            j = j + 1;
        }
        Ok(found)
    }
}

} // verus!
