use axum_project::{
    get_base_state, get_hello_app_state, hash_password, password_outcome, verify_password,
    AppError, UpsertUser, UserCondition, UserFilter,
};

#[test]
fn password_hash_and_check() {
    let hash = hash_password("s3cret").unwrap();
    assert_ne!(hash, "s3cret");
    assert_eq!(hash.len(), 60);
    assert!(hash.starts_with("$2b$12$"));
    assert_eq!(verify_password("s3cret", &hash), Ok(true));
    assert_eq!(verify_password("wrong", &hash), Err(AppError::Unauthorized));
}

#[test]
fn password_check_fails_closed() {
    assert_eq!(verify_password("x", "not a bcrypt hash"), Err(AppError::Unauthorized));
    assert_eq!(password_outcome(Some(true)), Ok(true));
    assert_eq!(password_outcome(Some(false)), Err(AppError::Unauthorized));
    assert_eq!(password_outcome(None), Err(AppError::Unauthorized));
}

#[test]
fn user_change_for_update() {
    let u = UpsertUser { id: Some(3), username: None, password: Some("  pw  ".to_string()) };
    let c = u.to_user_change().unwrap();
    assert_eq!(c.id, Some(3));
    assert_eq!(c.username, None);
    assert_eq!(c.password, "pw");
}

#[test]
fn user_change_for_create() {
    let u = UpsertUser {
        id: None,
        username: Some("\u{3000} neo\u{a0}".to_string()),
        password: Some("pw\n".to_string()),
    };
    let c = u.to_user_change().unwrap();
    assert_eq!(c.id, None);
    assert_eq!(c.username.as_deref(), Some("neo"));
    assert_eq!(c.password, "pw");
}

#[test]
fn user_change_missing_fields() {
    let u = UpsertUser { id: Some(3), username: None, password: None };
    assert_eq!(u.to_user_change().err(), Some(AppError::Unauthorized));
    let u = UpsertUser { id: None, username: None, password: Some("pw".to_string()) };
    assert_eq!(u.to_user_change().err(), Some(AppError::Unauthorized));
}

#[test]
fn condition_priority() {
    let mut c = UserCondition::default();
    assert_eq!(c.make_condition().err(), Some(AppError::Internal));
    c.github = Some("gh".to_string());
    assert_eq!(c.make_condition().err(), Some(AppError::Internal));
    c.username = Some("dol".to_string());
    assert!(matches!(c.make_condition(), Ok(UserFilter::UsernameContains(ref s)) if s == "dol"));
    c.naver = Some("nv".to_string());
    assert!(matches!(c.make_condition(), Ok(UserFilter::Naver(ref s)) if s == "nv"));
    c.kakao = Some("kk".to_string());
    assert!(matches!(c.make_condition(), Ok(UserFilter::Kakao(ref s)) if s == "kk"));
    c.google = Some("gg".to_string());
    assert!(matches!(c.make_condition(), Ok(UserFilter::Google(ref s)) if s == "gg"));
    c.id = Some(9);
    assert!(matches!(c.make_condition(), Ok(UserFilter::Id(9))));
}

#[test]
fn demo_state() {
    let s = get_hello_app_state();
    assert_eq!(s.auth_token, "auth_token");
    assert_eq!(s.current_users, 3);
    let base = get_base_state();
    assert_eq!(*base.lock().unwrap(), vec![0, 0, 0]);
}
