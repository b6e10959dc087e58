use vstd::prelude::*;

use crate::error::AppError;

verus! {

/// The characters with the Unicode White_Space property, which
/// `char::is_whitespace` tests for.
pub open spec fn is_white_space(c: char) -> bool {
    ('\u{9}' <= c <= '\u{d}') || c == ' ' || c == '\u{85}' || c == '\u{a0}' || c == '\u{1680}'
        || ('\u{2000}' <= c <= '\u{200a}') || c == '\u{2028}' || c == '\u{2029}' || c == '\u{202f}'
        || c == '\u{205f}' || c == '\u{3000}'
}

/// The text without its leading white space.
pub open spec fn trim_start(s: Seq<char>) -> Seq<char>
    decreases s.len(),
{
    if s.len() > 0 && is_white_space(s[0]) {
        trim_start(s.drop_first())
    } else {
        s
    }
}

/// The text without its trailing white space.
pub open spec fn trim_end(s: Seq<char>) -> Seq<char>
    decreases s.len(),
{
    if s.len() > 0 && is_white_space(s.last()) {
        trim_end(s.drop_last())
    } else {
        s
    }
}

/// The text with its leading and trailing white space removed.
pub open spec fn trimmed(s: Seq<char>) -> Seq<char> {
    trim_end(trim_start(s))
}

/// Relies on str::trim, which drops the leading and trailing characters that
/// `char::is_whitespace` accepts.
#[verifier::external_body]
fn trim_text(s: &str) -> (r: String)
    ensures
        r@ == trimmed(s@),
{
    s.trim().to_string()
}

pub open spec fn opt_text(s: Option<String>) -> Option<Seq<char>> {
    match s {
        Some(t) => Some(t@),
        None => None,
    }
}

/// A request to create or change a user: with an id it changes that user,
/// without one it creates a user.
#[derive(Debug)]
pub struct UpsertUser {
    pub id: Option<i32>,
    pub username: Option<String>,
    pub password: Option<String>,
}

/// The row that a create or an update of a user writes: an update names its
/// user by id and may leave the name as it is.
#[derive(Debug)]
pub struct UserChange {
    pub id: Option<i32>,
    pub username: Option<String>,
    pub password: String,
}

impl UpsertUser {
    /// The row that this request writes. The password is required and
    /// trimmed. With an id the request is an update and the name is optional;
    /// without one it is a create, and the name is required and trimmed. A
    /// missing field is refused as unauthorized (401).
    pub fn to_user_change(&self) -> (r: Result<UserChange, AppError>)
        ensures
            self.password is None ==> r is Err && r->Err_0 == AppError::Unauthorized,
            self.password is Some && self.id is Some ==> r is Ok && r->Ok_0.id == self.id
                && opt_text(r->Ok_0.username) == opt_text(self.username) && r->Ok_0.password@
                == trimmed(self.password->Some_0@),
            self.password is Some && self.id is None && self.username is None ==> r is Err
                && r->Err_0 == AppError::Unauthorized,
            self.password is Some && self.id is None && self.username is Some ==> r is Ok
                && r->Ok_0.id is None && opt_text(r->Ok_0.username) == Some(
                trimmed(self.username->Some_0@),
            ) && r->Ok_0.password@ == trimmed(self.password->Some_0@),
    {
        let password = match &self.password {
            Some(p) => trim_text(p.as_str()),
            None => {
                return Err(AppError::Unauthorized);
            },
        };
        match self.id {
            Some(id) => {
                let username = match &self.username {
                    Some(n) => Some(n.clone()),
                    None => None,
                };
                Ok(UserChange { id: Some(id), username, password })
            },
            None => match &self.username {
                Some(n) => Ok(UserChange { id: None, username: Some(trim_text(n.as_str())), password }),
                None => Err(AppError::Unauthorized),
            },
        }
    }
}

/// A stored user as the service sees it, with the ids of the accounts that
/// it has linked at outside sign-in providers.
#[derive(Debug)]
pub struct UserDto {
    pub id: i32,
    pub username: String,
    pub google: Option<String>,
    pub kakao: Option<String>,
    pub github: Option<String>,
    pub naver: Option<String>,
}

/// What a user search may name.
#[derive(Debug)]
pub struct UserCondition {
    pub id: Option<i32>,
    pub username: Option<String>,
    pub google: Option<String>,
    pub kakao: Option<String>,
    pub github: Option<String>,
    pub naver: Option<String>,
}

/// The one filter that a user search runs with.
#[derive(Debug)]
pub enum UserFilter {
    /// The user with this id.
    Id(i32),
    /// The user linked to this Google account.
    Google(String),
    /// The user linked to this Kakao account.
    Kakao(String),
    /// The user linked to this Naver account.
    Naver(String),
    /// The users whose name contains this text.
    UsernameContains(String),
}

impl Default for UserCondition {
    fn default() -> (r: UserCondition)
        ensures
            r.id is None,
            r.username is None,
            r.google is None,
            r.kakao is None,
            r.github is None,
            r.naver is None,
    {
        UserCondition { id: None, username: None, google: None, kakao: None, github: None, naver: None }
    }
}

impl UserCondition {
    /// The filter of this search: the first field that is set, in the order
    /// id, Google, Kakao, Naver, name. The GitHub field takes no part. A
    /// search with none of these set fails as an internal error (500).
    pub fn make_condition(&self) -> (r: Result<UserFilter, AppError>)
        ensures
            self.id is Some ==> (r matches Ok(UserFilter::Id(i)) && i == self.id->Some_0),
            self.id is None && self.google is Some ==> (r matches Ok(UserFilter::Google(g)) && g@
                == self.google->Some_0@),
            self.id is None && self.google is None && self.kakao is Some ==> (r matches Ok(
                UserFilter::Kakao(k),
            ) && k@ == self.kakao->Some_0@),
            self.id is None && self.google is None && self.kakao is None && self.naver is Some ==> (
            r matches Ok(UserFilter::Naver(n)) && n@ == self.naver->Some_0@),
            self.id is None && self.google is None && self.kakao is None && self.naver is None
                && self.username is Some ==> (r matches Ok(UserFilter::UsernameContains(u)) && u@
                == self.username->Some_0@),
            self.id is None && self.google is None && self.kakao is None && self.naver is None
                && self.username is None ==> r is Err && r->Err_0 == AppError::Internal,
    {
        if let Some(id) = self.id {
            Ok(UserFilter::Id(id))
        } else if let Some(oauth) = &self.google {
            Ok(UserFilter::Google(oauth.clone()))
        } else if let Some(oauth) = &self.kakao {
            Ok(UserFilter::Kakao(oauth.clone()))
        } else if let Some(oauth) = &self.naver {
            Ok(UserFilter::Naver(oauth.clone()))
        } else if let Some(username) = &self.username {
            Ok(UserFilter::UsernameContains(username.clone()))
        } else {
            Err(AppError::Internal)
        }
    }
}

} // verus!
