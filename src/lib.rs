//! Token issuance and rotation for a web backend: password checks, signed
//! access tokens, a refresh-token table whose tokens are spent by rotation,
//! and the request middleware that turns an `Authorization` header into a current
//! user.
pub mod auth;
pub mod dto;
pub mod error;
pub mod middle;
pub mod hash;
pub mod jwt;
pub mod state;
pub mod store;
pub mod user;

pub use auth::{create_refresh, create_token, login, logout, refresh};
pub use dto::{ReadUser, ReqUser, RequestUser, Tokens, TokensUserId, UserDTO};
pub use error::{AppError, TokenError};
pub use middle::{authenticate, authorize_edit, is_edit_user, CurrentUser};
pub use hash::{hash_password, password_outcome, verify_password, COST};
pub use jwt::{
    access_claims_from, issue_access_token, issue_refresh_token, refresh_claims_from, strip_bearer,
    validate_jwt_token, validate_jwt_token_without_exp, validate_refresh_token, JwtClaims,
    RawClaims, RefreshClaims, TokenConfig, ACCESS_TTL, LEEWAY,
};
pub use state::{get_base_state, get_hello_app_state, HelloAppState};
pub use store::{RefreshRecord, RefreshStore, REFRESH_TTL};
pub use user::{UpsertUser, UserChange, UserCondition, UserDto, UserFilter};
