use axum_project::{
    authenticate, authorize_edit, is_edit_user, issue_access_token, AppError, CurrentUser,
    TokenConfig, TokenError, UpsertUser, ACCESS_TTL, LEEWAY,
};

const NOW: u64 = 1_700_000_000;

fn target(id: Option<i32>) -> UpsertUser {
    UpsertUser { id, username: Some("name".to_string()), password: Some("pw".to_string()) }
}

#[test]
fn authenticate_without_header() {
    let cfg = TokenConfig::new("mw-secret".to_string());
    assert_eq!(authenticate(&cfg, None, NOW).err(), Some(AppError::Unauthorized));
}

#[test]
fn authenticate_with_valid_header() {
    let cfg = TokenConfig::new("mw-secret".to_string());
    let token = issue_access_token(&cfg, 8, "frank", NOW);
    let header = format!("Bearer {}", token);
    let user = authenticate(&cfg, Some(&header), NOW + 5).unwrap();
    assert_eq!(user.0, 8);
    assert_eq!(user.1, "frank");
}

#[test]
fn authenticate_with_expired_or_bad_header() {
    let cfg = TokenConfig::new("mw-secret".to_string());
    let token = issue_access_token(&cfg, 8, "frank", NOW);
    let late = NOW + ACCESS_TTL + LEEWAY + 1;
    assert_eq!(
        authenticate(&cfg, Some(&token), late).err(),
        Some(AppError::Token(TokenError::Expired))
    );
    assert_eq!(
        authenticate(&cfg, Some("Bearer x.y.z"), NOW).err(),
        Some(AppError::Token(TokenError::Malformed))
    );
}

#[test]
fn current_user_equality_is_by_id() {
    let a = CurrentUser(1, "a".to_string());
    let b = CurrentUser(1, "renamed".to_string());
    let c = CurrentUser(2, "a".to_string());
    assert!(a == b);
    assert!(a != c);
    assert!(a.is_user(1));
    assert!(!a.is_user(2));
}

#[test]
fn ownership_check() {
    let me = CurrentUser(4, "me".to_string());
    assert_eq!(is_edit_user(&me, &target(Some(4))), Ok(true));
    assert_eq!(is_edit_user(&me, &target(Some(5))), Ok(false));
    assert_eq!(is_edit_user(&me, &target(None)), Err(AppError::NotFound));
    assert_eq!(authorize_edit(&me, &target(Some(4))), Ok(()));
    assert_eq!(authorize_edit(&me, &target(Some(5))), Err(AppError::Unauthorized));
    assert_eq!(authorize_edit(&me, &target(None)), Err(AppError::NotFound));
}

#[test]
fn error_status_codes() {
    assert_eq!(AppError::auth_error(), AppError::Unauthorized);
    assert_eq!(AppError::Unauthorized.status_code(), 401);
    assert_eq!(AppError::Token(TokenError::Expired).status_code(), 401);
    assert_eq!(AppError::NotFound.status_code(), 404);
    assert_eq!(AppError::BadRequest.status_code(), 400);
    assert_eq!(AppError::Internal.status_code(), 500);
    assert_eq!(AppError::from(TokenError::Malformed), AppError::Token(TokenError::Malformed));
}
