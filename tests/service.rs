use user_service::error::AppError;
use user_service::handler::{
    handle_error, CreateUserRequest, CreateUserResponse, RpcStatus, StatusCode,
    UserServiceHandler,
};
use user_service::id::UserId;
use user_service::memory::MemoryUserRepository;
use user_service::name::UserName;
use user_service::repository::{AppContext, UserRepository};
use user_service::usecase::{create_user, CreateUserCommand};
use user_service::user::User;

/// A repository whose storage is unreachable, counting the attempts.
struct DownRepository {
    attempts: usize,
}

impl UserRepository for DownRepository {
    fn save(&mut self, _user: &User) -> Result<(), AppError> {
        self.attempts += 1;
        Err(AppError::Internal("connection refused".to_string()))
    }

    fn get_by_ids(&self, _ids: &[UserId]) -> Result<Vec<User>, AppError> {
        Err(AppError::Internal("connection refused".to_string()))
    }
}

fn name(s: &str) -> UserName {
    UserName::new(s.to_string()).unwrap()
}

fn request(s: &str) -> CreateUserRequest {
    CreateUserRequest { name: s.to_string() }
}

#[test]
fn save_twice_keeps_one_record_with_latest_name() {
    let mut repo = MemoryUserRepository::new();
    let u = User::new(name("alice"));
    repo.save(&u).unwrap();
    repo.save(&u).unwrap();
    let found = repo.get_by_ids(&[*u.id()]).unwrap();
    assert_eq!(found.len(), 1);
    assert_eq!(found[0].name().as_str(), "alice");

    let renamed = User::reconstruct(u.id().to_text(), "alicia".to_string()).unwrap();
    repo.save(&renamed).unwrap();
    let found = repo.get_by_ids(&[*u.id()]).unwrap();
    assert_eq!(found.len(), 1);
    assert_eq!(found[0].name().as_str(), "alicia");
}

#[test]
fn get_by_ids_skips_missing_ids() {
    let mut repo = MemoryUserRepository::new();
    let a = User::new(name("ann"));
    let b = User::new(name("ben"));
    repo.save(&a).unwrap();
    repo.save(&b).unwrap();
    let missing = UserId::from_u128(42);
    let found = repo.get_by_ids(&[missing, *b.id(), *a.id(), *b.id()]).unwrap();
    assert_eq!(found.len(), 2);
    assert!(found.iter().any(|u| u.id() == a.id() && u.name().as_str() == "ann"));
    assert!(found.iter().any(|u| u.id() == b.id() && u.name().as_str() == "ben"));
    assert!(repo.get_by_ids(&[missing]).unwrap().is_empty());
    assert!(repo.get_by_ids(&[]).unwrap().is_empty());
}

#[test]
fn create_user_stores_the_new_user() {
    let mut ctx = AppContext { user_repository: MemoryUserRepository::new() };
    let user = create_user(&mut ctx, CreateUserCommand::new(name("dave"))).unwrap();
    assert_eq!(user.name().as_str(), "dave");
    let found = ctx.user_repository.get_by_ids(&[*user.id()]).unwrap();
    assert_eq!(found.len(), 1);
    assert_eq!(found[0].id(), user.id());
}

#[test]
fn create_user_reports_storage_failure_as_internal() {
    let mut ctx = AppContext { user_repository: DownRepository { attempts: 0 } };
    let e = create_user(&mut ctx, CreateUserCommand::new(name("dave"))).unwrap_err();
    assert_eq!(
        e,
        AppError::Internal("failed to create user: connection refused".to_string())
    );
}

#[test]
fn request_alice_creates_and_returns_user() {
    let mut handler =
        UserServiceHandler::new(AppContext { user_repository: MemoryUserRepository::new() });
    let first: CreateUserResponse = handler.create_user(request("alice")).unwrap();
    let second = handler.create_user(request("alice")).unwrap();
    let first = first.user.unwrap();
    let second = second.user.unwrap();
    assert_eq!(first.name, "alice");
    assert_eq!(second.name, "alice");
    assert_ne!(first.id, second.id);
    assert_eq!(first.id.len(), 36);
    let id = UserId::from_str(&first.id).unwrap();
    let stored = handler.ctx().user_repository.get_by_ids(&[id]).unwrap();
    assert_eq!(stored.len(), 1);
    assert_eq!(stored[0].name().as_str(), "alice");
}

#[test]
fn request_with_short_name_is_rejected_before_storage() {
    let mut handler =
        UserServiceHandler::new(AppContext { user_repository: DownRepository { attempts: 0 } });
    let e = handler.create_user(request("a")).unwrap_err();
    assert_eq!(handler.ctx().user_repository.attempts, 0);
    let status = handle_error(&e);
    assert_eq!(status.code, StatusCode::InvalidArgument);
    assert!(status.message.contains("2 to 9 characters"));
}

#[test]
fn request_with_digit_is_rejected_before_storage() {
    let mut handler =
        UserServiceHandler::new(AppContext { user_repository: DownRepository { attempts: 0 } });
    let e = handler.create_user(request("alice1")).unwrap_err();
    assert_eq!(handler.ctx().user_repository.attempts, 0);
    assert_eq!(
        handle_error(&e),
        RpcStatus {
            code: StatusCode::InvalidArgument,
            message: "user name must consist of ASCII letters only".to_string(),
        }
    );
}

#[test]
fn storage_outage_gives_generic_internal_status() {
    let mut handler =
        UserServiceHandler::new(AppContext { user_repository: DownRepository { attempts: 0 } });
    let e = handler.create_user(request("alice")).unwrap_err();
    assert_eq!(handler.ctx().user_repository.attempts, 1);
    assert!(e.message().contains("connection refused"));
    let status = handle_error(&e);
    assert_eq!(status.code, StatusCode::Internal);
    assert_eq!(status.message, "internal error");
}

#[test]
fn not_found_message_goes_out_verbatim() {
    let status = handle_error(&AppError::NotFound("no such user".to_string()));
    assert_eq!(
        status,
        RpcStatus { code: StatusCode::NotFound, message: "no such user".to_string() }
    );
}

#[test]
fn response_carries_id_and_name_text() {
    let u = User::reconstruct(
        "67e55044-10b1-426f-9247-bb680e5fe0c8".to_string(),
        "erin".to_string(),
    )
    .unwrap();
    let r = CreateUserResponse::from_user(&u).user.unwrap();
    assert_eq!(r.id, "67e55044-10b1-426f-9247-bb680e5fe0c8");
    assert_eq!(r.name, "erin");
}

#[test]
fn command_from_request_keeps_name() {
    let cmd = CreateUserCommand::try_from_request(request("frank")).unwrap();
    assert_eq!(cmd.name().as_str(), "frank");
    assert!(CreateUserCommand::try_from_request(request("fr4nk")).is_err());
}
