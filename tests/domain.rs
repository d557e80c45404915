use user_service::error::AppError;
use user_service::id::UserId;
use user_service::name::UserName;
use user_service::repository::users_from_records;
use user_service::user::{User, UserRecord};

fn name(s: &str) -> UserName {
    UserName::new(s.to_string()).unwrap()
}

#[test]
fn letter_names_are_accepted_and_kept() {
    for s in ["ab", "alice", "Bob", "ABCDEFGHI", "zZ"] {
        let n = UserName::new(s.to_string()).unwrap();
        assert_eq!(n.to_text(), s);
        assert_eq!(n.as_str(), s);
    }
}

#[test]
fn short_name_is_rejected_with_length_message() {
    let e = UserName::new("a".to_string()).unwrap_err();
    assert_eq!(
        e,
        AppError::InvalidArgument("user name must be 2 to 9 characters long".to_string())
    );
}

#[test]
fn empty_and_long_names_are_rejected() {
    for s in ["", "abcdefghij", "abcdefghijklmnop"] {
        let e = UserName::new(s.to_string()).unwrap_err();
        assert!(matches!(e, AppError::InvalidArgument(_)));
        assert!(e.message().contains("2 to 9"));
    }
}

#[test]
fn non_letter_names_are_rejected() {
    for s in ["alice1", "a b", "al-ice", "été", "a1", "1"] {
        let e = UserName::new(s.to_string()).unwrap_err();
        assert_eq!(
            e,
            AppError::InvalidArgument("user name must consist of ASCII letters only".to_string())
        );
    }
}

#[test]
fn letters_rule_is_checked_before_length() {
    let e = UserName::new("abcdefghij1".to_string()).unwrap_err();
    assert!(e.message().contains("ASCII letters"));
}

#[test]
fn new_users_get_distinct_v4_ids() {
    let a = User::new(name("alice"));
    let b = User::new(name("alice"));
    assert_ne!(a.id(), b.id());
    let v = a.id().as_u128();
    assert_eq!((v >> 76) & 0xf, 4);
    assert_eq!((v >> 62) & 0x3, 2);
    assert_eq!(a.name().as_str(), "alice");
}

#[test]
fn id_text_is_lowercase_hyphenated() {
    let id = UserId::from_u128(0x0123456789abcdef0123456789ABCDEF);
    assert_eq!(id.to_text(), "01234567-89ab-cdef-0123-456789abcdef");
}

#[test]
fn id_parses_its_own_text() {
    let id = UserId::from_u128(0xa1a2a3a4b1b2c1c2d1d2d3d4d5d6d7d8);
    let back = UserId::from_str(&id.to_text()).unwrap();
    assert_eq!(back, id);
}

#[test]
fn malformed_id_is_invalid_argument() {
    let e = UserId::from_str("not-a-uuid").unwrap_err();
    assert_eq!(e, AppError::InvalidArgument("invalid user id".to_string()));
    assert!(UserId::from_parsed(None).is_err());
    assert_eq!(UserId::from_parsed(Some(7)).unwrap().as_u128(), 7);
}

#[test]
fn reconstruct_accepts_stored_user() {
    let u = User::reconstruct(
        "67e55044-10b1-426f-9247-bb680e5fe0c8".to_string(),
        "alice".to_string(),
    )
    .unwrap();
    assert_eq!(u.id().to_text(), "67e55044-10b1-426f-9247-bb680e5fe0c8");
    assert_eq!(u.name().to_text(), "alice");
}

#[test]
fn reconstruct_with_malformed_name_is_internal() {
    let e = User::reconstruct(
        "67e55044-10b1-426f-9247-bb680e5fe0c8".to_string(),
        "a1".to_string(),
    )
    .unwrap_err();
    assert_eq!(
        e,
        AppError::Internal("failed to reconstruct user: invalid name".to_string())
    );
}

#[test]
fn reconstruct_with_malformed_id_is_internal() {
    let e = User::reconstruct("xyz".to_string(), "alice".to_string()).unwrap_err();
    assert_eq!(
        e,
        AppError::Internal("failed to reconstruct user: invalid id".to_string())
    );
}

#[test]
fn record_round_trip() {
    let u = User::new(name("carol"));
    let rec = UserRecord::from_user(&u);
    assert_eq!(rec.id, u.id().to_text());
    assert_eq!(rec.name, "carol");
    let back = User::try_from_record(rec).unwrap();
    assert_eq!(back.id(), u.id());
    assert_eq!(back.name().as_str(), "carol");
}

#[test]
fn records_convert_in_order_or_fail_whole_batch() {
    let a = User::new(name("ann"));
    let b = User::new(name("ben"));
    let users =
        users_from_records(vec![UserRecord::from_user(&a), UserRecord::from_user(&b)]).unwrap();
    assert_eq!(users.len(), 2);
    assert_eq!(users[0].id(), a.id());
    assert_eq!(users[1].name().as_str(), "ben");

    let bad = UserRecord { id: b.id().to_text(), name: "b2".to_string() };
    let e = users_from_records(vec![UserRecord::from_user(&a), bad]).unwrap_err();
    assert!(matches!(e, AppError::Internal(_)));
    assert!(e.message().starts_with("failed to convert users"));
    assert!(users_from_records(vec![]).unwrap().is_empty());
}

#[test]
fn context_keeps_kind() {
    let e = AppError::NotFound("x".to_string()).context("ctx");
    assert_eq!(e, AppError::NotFound("ctx: x".to_string()));
    let e = AppError::Internal("down".to_string()).context("failed to create user");
    assert_eq!(e, AppError::Internal("failed to create user: down".to_string()));
}

#[test]
fn record_conversion_reports_like_reconstruct() {
    let bad_name = UserRecord {
        id: "67e55044-10b1-426f-9247-bb680e5fe0c8".to_string(),
        name: "a1".to_string(),
    };
    assert_eq!(
        User::try_from_record(bad_name).unwrap_err(),
        AppError::Internal("failed to reconstruct user: invalid name".to_string())
    );
    let bad_id = UserRecord { id: "nope".to_string(), name: "alice".to_string() };
    assert_eq!(
        User::try_from_record(bad_id).unwrap_err(),
        AppError::Internal("failed to reconstruct user: invalid id".to_string())
    );
    let e = users_from_records(vec![UserRecord { id: "nope".to_string(), name: "ab".to_string() }])
        .unwrap_err();
    assert_eq!(
        e,
        AppError::Internal(
            "failed to convert users: failed to reconstruct user: invalid id".to_string()
        )
    );
}
