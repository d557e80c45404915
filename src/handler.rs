use vstd::prelude::*;
use vstd::string::StringExecFns;

use crate::error::AppError;
use crate::id::{hyphenated, is_random_uuid};
use crate::name::{length_message, letters_only_message, all_ascii_letters, valid_name, UserName};
use crate::repository::{ProvideUserRepository, UserRepository};
use crate::usecase::{create_user, CreateUserCommand};
use crate::user::User;

verus! {

/// The inbound "create user" payload.
#[derive(Clone, Debug, PartialEq, Eq)]
pub struct CreateUserRequest {
    pub name: String,
}

/// A user as it goes out on the wire.
#[derive(Clone, Debug, PartialEq, Eq)]
pub struct UserPayload {
    pub id: String,
    pub name: String,
}

/// The outbound "create user" payload.
#[derive(Clone, Debug, PartialEq, Eq)]
pub struct CreateUserResponse {
    pub user: Option<UserPayload>,
}

/// The status kinds that the transport reports.
#[derive(Clone, Copy, Debug, PartialEq, Eq)]
pub enum StatusCode {
    InvalidArgument,
    NotFound,
    Internal,
}

/// A transport status: its kind and the message shown to the caller.
#[derive(Clone, Debug, PartialEq, Eq)]
pub struct RpcStatus {
    pub code: StatusCode,
    pub message: String,
}

/// The message that replaces every internal failure at the boundary.
pub open spec fn generic_internal_message() -> Seq<char> {
    "internal error"@
}

impl UserPayload {
    /// The wire form of `user`: the identity's text and the name's text.
    pub fn from_user(user: &User) -> (r: UserPayload)
        ensures
            r.id@ == hyphenated(user@.0),
            r.name@ == user@.1,
    {
        UserPayload { id: user.id().to_text(), name: user.name().to_text() }
    }
}

impl CreateUserResponse {
    pub fn from_user(user: &User) -> (r: CreateUserResponse)
        ensures
            r.user is Some,
            r.user->Some_0.id@ == hyphenated(user@.0),
            r.user->Some_0.name@ == user@.1,
    {
        CreateUserResponse { user: Some(UserPayload::from_user(user)) }
    }
}

impl CreateUserCommand {
    /// Validates the request's name; a broken rule is an `InvalidArgument`
    /// that names it.
    pub fn try_from_request(request: CreateUserRequest) -> (r: Result<
        CreateUserCommand,
        AppError,
    >)
        ensures
            r is Ok <==> valid_name(request.name@),
            r is Ok ==> r->Ok_0@ == request.name@,
            r is Err ==> r->Err_0 is InvalidArgument,
            !all_ascii_letters(request.name@) ==> r->Err_0.spec_message()
                == letters_only_message(),
            all_ascii_letters(request.name@) && !valid_name(request.name@)
                ==> r->Err_0.spec_message() == length_message(),
    {
        match UserName::new(request.name) {
            Ok(name) => Ok(CreateUserCommand::new(name)),
            Err(e) => Err(e),
        }
    }
}

/// The status shown to the caller for `err`: validation and not-found
/// messages go out as they are, internal ones are replaced by a fixed text.
pub fn handle_error(err: &AppError) -> (r: RpcStatus)
    ensures
        err is InvalidArgument ==> r.code == StatusCode::InvalidArgument && r.message@
            == err.spec_message(),
        err is NotFound ==> r.code == StatusCode::NotFound && r.message@ == err.spec_message(),
        err is Internal ==> r.code == StatusCode::Internal && r.message@
            == generic_internal_message(),
{
    match err {
        AppError::InvalidArgument(m) => RpcStatus { code: StatusCode::InvalidArgument, message: m.clone() },
        AppError::NotFound(m) => RpcStatus { code: StatusCode::NotFound, message: m.clone() },
        AppError::Internal(_) => RpcStatus {
            code: StatusCode::Internal,
            message: String::from_str("internal error"),
        },
    }
}

/// Serves "create user" requests against the context's repository.
pub struct UserServiceHandler<C: ProvideUserRepository> {
    ctx: C,
}

impl<C: ProvideUserRepository> UserServiceHandler<C> {
    /// The context the handler works with.
    pub closed spec fn context(&self) -> C {
        self.ctx
    }

    /// The records of the context's repository.
    pub open spec fn stored(&self) -> Map<u128, Seq<char>> {
        self.context().repository().records()
    }

    pub fn new(ctx: C) -> (r: UserServiceHandler<C>)
        ensures
            r.context() == ctx,
    {
        UserServiceHandler { ctx }
    }

    pub fn ctx(&self) -> (r: &C)
        ensures
            *r == self.context(),
    {
        &self.ctx
    }

    /// Validates the request, creates and stores the user, and returns it.
    /// An invalid name is rejected before the repository is touched.
    pub fn create_user(&mut self, request: CreateUserRequest) -> (r: Result<
        CreateUserResponse,
        AppError,
    >)
        ensures
            !valid_name(request.name@) ==> {
                &&& r is Err
                &&& r->Err_0 is InvalidArgument
                &&& !all_ascii_letters(request.name@) ==> r->Err_0.spec_message()
                    == letters_only_message()
                &&& all_ascii_letters(request.name@) ==> r->Err_0.spec_message()
                    == length_message()
                &&& final(self).stored() == old(self).stored()
            },
            r is Ok ==> valid_name(request.name@) && exists|v: u128|
                {
                    &&& r->Ok_0.user is Some
                    &&& is_random_uuid(v)
                    &&& (#[trigger] hyphenated(v)) == r->Ok_0.user->Some_0.id@
                    &&& r->Ok_0.user->Some_0.name@ == request.name@
                    &&& final(self).stored() == old(self).stored().insert(v, request.name@)
                },
            r is Err && valid_name(request.name@) ==> r->Err_0 is Internal
                && final(self).stored() == old(self).stored(),
    {
        let cmd = match CreateUserCommand::try_from_request(request) {
            Ok(cmd) => cmd,
            Err(e) => {
                return Err(e);
            },
        };
        match create_user(&mut self.ctx, cmd) {
            Ok(user) => Ok(CreateUserResponse::from_user(&user)),
            Err(e) => Err(e),
        }
    }
}

} // verus!
