use vstd::prelude::*;

use crate::error::{AppError, TokenError};
use crate::jwt::{
    access_verdict, bearer_stripped, is_expired, jwt_fields, jwt_text, validate_jwt_token,
    TokenConfig,
};
use crate::user::UpsertUser;

verus! {

/// The identity that the authentication middleware attached to a request: user id and
/// user name. Two of them are equal when their ids are.
#[derive(Clone, Debug)]
pub struct CurrentUser(pub i32, pub String);

impl View for CurrentUser {
    type V = (i32, Seq<char>);

    open spec fn view(&self) -> Self::V {
        (self.0, self.1@)
    }
}

impl PartialEq for CurrentUser {
    fn eq(&self, other: &CurrentUser) -> (r: bool) {
        self.0 == other.0
    }
}

impl vstd::std_specs::cmp::PartialEqSpecImpl for CurrentUser {
    open spec fn obeys_eq_spec() -> bool {
        true
    }

    open spec fn eq_spec(&self, other: &CurrentUser) -> bool {
        self.0 == other.0
    }
}

impl CurrentUser {
    /// Whether this is the user with id `id`.
    pub fn is_user(&self, id: i32) -> (r: bool)
        ensures
            r == (self.0 == id),
    {
        self.0 == id
    }
}

pub open spec fn header_view(h: Option<&str>) -> Option<Seq<char>> {
    match h {
        Some(s) => Some(s@),
        None => None,
    }
}

/// What the middleware answers a request with, given its `Authorization`
/// header: the identity it lets the request through with, or the error.
pub open spec fn auth_outcome(secret: Seq<char>, header: Option<Seq<char>>, now: u64) -> Result<
    (i32, Seq<char>),
    AppError,
> {
    match header {
        None => Err(AppError::Unauthorized),
        Some(h) => match access_verdict(jwt_fields(secret, bearer_stripped(h)), now, true) {
            Ok(c) => Ok((c.1, c.2)),
            Err(e) => Err(AppError::Token(e)),
        },
    }
}

pub open spec fn current_user_result_view(r: Result<CurrentUser, AppError>) -> Result<
    (i32, Seq<char>),
    AppError,
> {
    match r {
        Ok(u) => Ok(u@),
        Err(e) => Err(e),
    }
}

/// The authentication middleware: a request passes, with its identity
/// attached, only when it carries an `Authorization` header whose token is
/// valid at `now`. Without the header it is refused as unauthorized; with a
/// bad token it is refused with the token's error.
pub fn authenticate(cfg: &TokenConfig, header: Option<&str>, now: u64) -> (r: Result<CurrentUser, AppError>)
    ensures
        current_user_result_view(r) == auth_outcome(cfg.secret@, header_view(header), now),
        forall|e: u64, u: i32, n: Seq<char>|
            header is Some && #[trigger] jwt_text(cfg.secret@, Some(e), None, u, n) == bearer_stripped(
                header->Some_0@,
            ) ==> if is_expired(e, now) {
                r == Err::<CurrentUser, AppError>(AppError::Token(TokenError::Expired))
            } else {
                r is Ok && r->Ok_0@ == (u, n)
            },
{
    match header {
        None => Err(AppError::Unauthorized),
        Some(h) => match validate_jwt_token(cfg, h, now) {
            Ok(claims) => Ok(CurrentUser(claims.user_id, claims.username)),
            Err(e) => Err(AppError::Token(e)),
        },
    }
}

/// Whether the signed-in user may edit `target_user`: only their own record.
/// A target without an id is a record that cannot be found.
pub fn is_edit_user(edit_user_id: &CurrentUser, target_user: &UpsertUser) -> (r: Result<bool, AppError>)
    ensures
        target_user.id is None ==> r == Err::<bool, AppError>(AppError::NotFound),
        target_user.id is Some ==> r == Ok::<bool, AppError>(target_user.id->Some_0 == edit_user_id.0),
{
    match target_user.id {
        Some(id) => Ok(edit_user_id.is_user(id)),
        None => Err(AppError::NotFound),
    }
}

/// The ownership check in front of every edit of a user record: it lets the
/// edit through only when the record is the signed-in user's own.
pub fn authorize_edit(edit_user_id: &CurrentUser, target_user: &UpsertUser) -> (r: Result<(), AppError>)
    ensures
        r is Ok <==> target_user.id == Some(edit_user_id.0),
        target_user.id is None ==> r == Err::<(), AppError>(AppError::NotFound),
        target_user.id is Some && target_user.id != Some(edit_user_id.0) ==> r == Err::<(), AppError>(
            AppError::Unauthorized,
        ),
{
    match is_edit_user(edit_user_id, target_user) {
        Ok(true) => Ok(()),
        Ok(false) => Err(AppError::Unauthorized),
        Err(e) => Err(e),
    }
}

} // verus!
