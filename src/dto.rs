use vstd::prelude::*;

verus! {

/// What a client sees of a user: id and name.
#[derive(Debug)]
pub struct ReadUser {
    pub id: i32,
    pub username: String,
}

/// A stored user, with the hash of their password.
#[derive(Debug)]
pub struct UserDTO {
    pub id: i32,
    pub username: String,
    pub password: String,
}

/// A login request.
#[derive(Debug)]
pub struct ReqUser {
    pub username: String,
    pub password: String,
    pub save_id: Option<bool>,
}

/// A login request without the remember-me flag.
#[derive(Debug)]
pub struct RequestUser {
    pub username: String,
    pub password: String,
}

/// A freshly issued pair of tokens and the user they were issued to.
#[derive(Debug)]
pub struct Tokens {
    pub jwt: String,
    pub refresh: String,
    pub user_info: ReadUser,
}

impl View for Tokens {
    type V = (Seq<char>, Seq<char>, i32, Seq<char>);

    open spec fn view(&self) -> Self::V {
        (self.jwt@, self.refresh@, self.user_info.id, self.user_info.username@)
    }
}

/// A pair of tokens with the user name they belong to.
#[derive(Debug)]
pub struct TokensUserId {
    pub jwt: String,
    pub refresh: String,
    pub username: String,
}

} // verus!
