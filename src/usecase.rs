use vstd::prelude::*;

use crate::error::AppError;
use crate::id::is_random_uuid;
use crate::name::UserName;
use crate::repository::{ProvideUserRepository, UserRepository};
use crate::user::User;

verus! {

/// The validated input of the create-user use case.
#[derive(Debug)]
pub struct CreateUserCommand {
    name: UserName,
}

impl View for CreateUserCommand {
    type V = Seq<char>;

    closed spec fn view(&self) -> Seq<char> {
        self.name@
    }
}

impl CreateUserCommand {
    pub fn new(name: UserName) -> (r: CreateUserCommand)
        ensures
            r@ == name@,
    {
        CreateUserCommand { name }
    }

    /// The name of the user to create.
    pub fn name(&self) -> (r: &UserName)
        ensures
            r@ == self@,
    {
        &self.name
    }
}

pub open spec fn create_failed_context() -> Seq<char> {
    "failed to create user"@
}

/// Creates a user with a fresh identity and the command's name, stores it
/// and returns it. A storage failure is returned with added context and its
/// kind kept; the store is then unchanged.
pub fn create_user<T: ProvideUserRepository>(ctx: &mut T, cmd: CreateUserCommand) -> (r: Result<
    User,
    AppError,
>)
    ensures
        r is Ok ==> {
            &&& r->Ok_0@.1 == cmd@
            &&& is_random_uuid(r->Ok_0@.0)
            &&& final(ctx).repository().records() == old(ctx).repository().records().insert(
                r->Ok_0@.0,
                cmd@,
            )
        },
        r is Err ==> {
            &&& r->Err_0 is Internal
            &&& (create_failed_context() + ": "@).is_prefix_of(r->Err_0.spec_message())
            &&& final(ctx).repository().records() == old(ctx).repository().records()
        },
{
    let user = User::new(cmd.name);
    let repository = ctx.provide();
    match repository.save(&user) {
        Ok(()) => Ok(user),
        Err(e) => {
            let e = e.context("failed to create user");
            proof {
                reveal_strlit("failed to create user");
                reveal_strlit(": ");
            }
            Err(e)
        },
    }
}

} // verus!
