use vstd::prelude::*;

use crate::dto::{ReadUser, ReqUser, Tokens, UserDTO};
use crate::error::{AppError, TokenError};
use crate::hash::{bcrypt_verdict, password_accepted, verify_password};
use crate::jwt::{
    access_outcome, access_verdict, bearer_stripped, issue_access_token, issue_refresh_token,
    issued_before, issued_with_serial, jwt_fields, jwt_text, refresh_outcome, refresh_verdict,
    validate_jwt_token_without_exp, validate_refresh_token, TokenConfig,
};
use crate::store::{keys_issued_before, RefreshStore, REFRESH_TTL};

verus! {

/// The identity that a pair `(jwt, refresh)` asks to renew: both decode under
/// `secret`, the access token read without its expiry, and both name the same
/// user. It is that user's id and the name in the access token.
pub open spec fn rotation_identity(secret: Seq<char>, jwt: Seq<char>, refresh: Seq<char>) -> Option<
    (i32, Seq<char>),
> {
    match (
        access_verdict(jwt_fields(secret, bearer_stripped(jwt)), 0, false),
        refresh_verdict(jwt_fields(secret, bearer_stripped(refresh))),
    ) {
        (Ok(ac), Ok(rc)) => if ac.1 == rc.0 {
            Some((ac.1, ac.2))
        } else {
            None
        },
        _ => None,
    }
}

/// The error of a pair that names no single user: the access token's own
/// error first, then the refresh token's, then a mismatch of users, which is
/// refused as a bad signature.
pub open spec fn rotation_refusal(secret: Seq<char>, jwt: Seq<char>, refresh: Seq<char>) -> TokenError {
    match (
        access_verdict(jwt_fields(secret, bearer_stripped(jwt)), 0, false),
        refresh_verdict(jwt_fields(secret, bearer_stripped(refresh))),
    ) {
        (Err(e), _) => e,
        (Ok(_), Err(e)) => e,
        _ => TokenError::InvalidSignature,
    }
}

/// Both tokens decode, but they name different users.
pub open spec fn users_differ(secret: Seq<char>, jwt: Seq<char>, refresh: Seq<char>) -> bool {
    match (
        access_verdict(jwt_fields(secret, bearer_stripped(jwt)), 0, false),
        refresh_verdict(jwt_fields(secret, bearer_stripped(refresh))),
    ) {
        (Ok(ac), Ok(rc)) => ac.1 != rc.0,
        _ => false,
    }
}

/// The table holds `refresh` for `user_id`.
pub open spec fn holds_record(store: Map<Seq<char>, (i32, u64)>, refresh: Seq<char>, user_id: i32) -> bool {
    store.contains_key(refresh) && store[refresh].0 == user_id
}

/// The pair names one user, yet the table holds no row of `refresh` for that
/// user: it was never issued, was already rotated, or was logged out.
pub open spec fn refused_as_unknown(
    secret: Seq<char>,
    store: Map<Seq<char>, (i32, u64)>,
    jwt: Seq<char>,
    refresh: Seq<char>,
) -> bool {
    match rotation_identity(secret, jwt, refresh) {
        Some(id) => !holds_record(store, refresh, id.0),
        None => false,
    }
}

/// A rotation of `(jwt, refresh)` at `now` goes through to reissue: the pair
/// names one user, the table holds the refresh token for that user, and the
/// row has not expired.
pub open spec fn rotation_allowed(
    secret: Seq<char>,
    store: Map<Seq<char>, (i32, u64)>,
    jwt: Seq<char>,
    refresh: Seq<char>,
    now: u64,
) -> bool {
    match rotation_identity(secret, jwt, refresh) {
        Some(id) => holds_record(store, refresh, id.0) && now <= store[refresh].1,
        None => false,
    }
}

/// The tokens issued to `(user_id, username)` at `now`, the refresh token with
/// serial `serial`.
pub open spec fn issued_tokens(cfg: TokenConfig, user_id: i32, username: Seq<char>, now: u64, serial: u64) -> (
    Seq<char>,
    Seq<char>,
) {
    (
        jwt_text(cfg.secret@, Some((now + cfg.access_ttl) as u64), None, user_id, username),
        jwt_text(cfg.secret@, None, Some(serial), user_id, username),
    )
}

/// Issues a refresh token for `(user_id, username)` with the table's next
/// serial, and stores it for `user_id` until `REFRESH_TTL` seconds after
/// `now`. The serial is used up, so the token differs from every token the
/// table was ever given.
pub fn create_refresh(
    cfg: &TokenConfig,
    store: &mut RefreshStore,
    user_id: i32,
    username: &str,
    now: u64,
) -> (r: Result<String, AppError>)
    requires
        old(store).wf(),
        old(store).next_serial() < u64::MAX,
        now + REFRESH_TTL <= u64::MAX,
    ensures
        final(store).wf(),
        r is Ok,
        r->Ok_0@ == jwt_text(cfg.secret@, None, Some(old(store).next_serial()), user_id, username@),
        issued_with_serial(r->Ok_0@, old(store).next_serial()),
        bearer_stripped(r->Ok_0@) == r->Ok_0@,
        !old(store)@.contains_key(r->Ok_0@),
        final(store)@ == old(store)@.insert(r->Ok_0@, (user_id, (now + REFRESH_TTL) as u64)),
        final(store).next_serial() == old(store).next_serial() + 1,
{
    proof {
        store.lemma_keys_issued_before();
    }
    let serial = store.take_serial();
    let token = issue_refresh_token(cfg, user_id, username, serial);
    proof {
        let t = token@;
        assert(jwt_text(cfg.secret@, None, Some(serial), user_id, username@) == t);
        if old(store)@.contains_key(t) {
            assert(issued_before(t, serial));
        }
        assert forall|s: Seq<char>, e: Option<u64>, n: Option<u64>, u: i32, m: Seq<char>|
            #[trigger] jwt_text(s, e, n, u, m) == t implies n is Some && n->Some_0 < store.next_serial() by {
        }
    }
    let kept = token.clone();
    store.upsert(token, user_id, now + REFRESH_TTL);
    Ok(kept)
}

/// Issues an access token and a stored refresh token for `(user_id, username)`.
pub fn create_token(
    cfg: &TokenConfig,
    store: &mut RefreshStore,
    user_id: i32,
    username: &str,
    now: u64,
) -> (r: Result<(String, String), AppError>)
    requires
        old(store).wf(),
        old(store).next_serial() < u64::MAX,
        now + REFRESH_TTL <= u64::MAX,
        now + cfg.access_ttl <= u64::MAX,
    ensures
        final(store).wf(),
        r is Ok,
        (r->Ok_0.0@, r->Ok_0.1@) == issued_tokens(*cfg, user_id, username@, now, old(store).next_serial()),
        bearer_stripped(r->Ok_0.0@) == r->Ok_0.0@,
        bearer_stripped(r->Ok_0.1@) == r->Ok_0.1@,
        issued_with_serial(r->Ok_0.1@, old(store).next_serial()),
        !old(store)@.contains_key(r->Ok_0.1@),
        final(store)@ == old(store)@.insert(r->Ok_0.1@, (user_id, (now + REFRESH_TTL) as u64)),
        final(store).next_serial() == old(store).next_serial() + 1,
{
    let jwt = issue_access_token(cfg, user_id, username, now);
    match create_refresh(cfg, store, user_id, username, now) {
        Ok(refresh) => Ok((jwt, refresh)),
        Err(e) => Err(e),
    }
}

/// Signs a user in: `user` is the stored user that carries the requested
/// name, if any. Without such a user, or with a password that the stored
/// hash does not accept, the login is refused with one and the same error
/// and the table is left as it was; otherwise a pair of tokens is issued.
pub fn login(
    cfg: &TokenConfig,
    store: &mut RefreshStore,
    request_user: &ReqUser,
    user: Option<&UserDTO>,
    now: u64,
) -> (r: Result<Tokens, AppError>)
    requires
        old(store).wf(),
        old(store).next_serial() < u64::MAX,
        now + REFRESH_TTL <= u64::MAX,
        now + cfg.access_ttl <= u64::MAX,
    ensures
        final(store).wf(),
        r is Err ==> r->Err_0 == AppError::Unauthorized && final(store)@ == old(store)@
            && final(store).next_serial() == old(store).next_serial(),
        r is Ok <==> user is Some && password_accepted(
            bcrypt_verdict(request_user.password@, user->Some_0.password@),
        ),
        r is Ok ==> {
            let u = user->Some_0;
            &&& (r->Ok_0.jwt@, r->Ok_0.refresh@) == issued_tokens(
                *cfg,
                u.id,
                u.username@,
                now,
                old(store).next_serial(),
            )
            &&& r->Ok_0.user_info.id == u.id
            &&& r->Ok_0.user_info.username@ == u.username@
            &&& bearer_stripped(r->Ok_0.jwt@) == r->Ok_0.jwt@
            &&& bearer_stripped(r->Ok_0.refresh@) == r->Ok_0.refresh@
            &&& final(store)@ == old(store)@.insert(r->Ok_0.refresh@, (u.id, (now + REFRESH_TTL) as u64))
            &&& final(store).next_serial() == old(store).next_serial() + 1
        },
{
    match user {
        None => Err(AppError::Unauthorized),
        Some(u) => {
            if verify_password(request_user.password.as_str(), u.password.as_str()).is_err() {
                return Err(AppError::Unauthorized);
            }
            match create_token(cfg, store, u.id, u.username.as_str(), now) {
                Ok((jwt, refresh)) => Ok(
                    Tokens {
                        jwt,
                        refresh,
                        user_info: ReadUser { id: u.id, username: u.username.clone() },
                    },
                ),
                Err(e) => Err(e),
            }
        },
    }
}

/// Logs out: deletes the refresh token's row, whether or not there was one.
pub fn logout(store: &mut RefreshStore, refresh: &str)
    requires
        old(store).wf(),
    ensures
        final(store).wf(),
        final(store)@ == old(store)@.remove(refresh@),
        final(store).next_serial() == old(store).next_serial(),
{
    let _rows = store.delete(refresh);
}

/// Rotates a pair of tokens at `now`: the access token may be expired, the
/// refresh token must be in the table for the same user and not past its
/// expiry. On success its row is deleted before a new pair is issued, and the
/// new refresh token is another text, so a refresh token is spent by one
/// rotation. A pair that names two users is refused as a bad signature; a
/// refresh token that the table does not hold for the user, or whose row has
/// expired, is refused as expired. A refused rotation leaves the table as it
/// was.
pub fn refresh(
    cfg: &TokenConfig,
    store: &mut RefreshStore,
    jwt: &str,
    refresh_token: &str,
    now: u64,
) -> (r: Result<Tokens, AppError>)
    requires
        old(store).wf(),
        old(store).next_serial() < u64::MAX,
        now + REFRESH_TTL <= u64::MAX,
        now + cfg.access_ttl <= u64::MAX,
    ensures
        final(store).wf(),
        r is Ok <==> rotation_allowed(cfg.secret@, old(store)@, jwt@, refresh_token@, now),
        r is Err ==> final(store)@ == old(store)@ && final(store).next_serial() == old(store).next_serial(),
        rotation_identity(cfg.secret@, jwt@, refresh_token@) is None ==> r == Err::<Tokens, AppError>(
            AppError::Token(rotation_refusal(cfg.secret@, jwt@, refresh_token@)),
        ),
        users_differ(cfg.secret@, jwt@, refresh_token@) ==> r == Err::<Tokens, AppError>(
            AppError::Token(TokenError::InvalidSignature),
        ),
        refused_as_unknown(cfg.secret@, old(store)@, jwt@, refresh_token@) ==> r == Err::<Tokens, AppError>(
            AppError::Token(TokenError::Expired),
        ),
        rotation_identity(cfg.secret@, jwt@, refresh_token@) is Some && holds_record(
            old(store)@,
            refresh_token@,
            rotation_identity(cfg.secret@, jwt@, refresh_token@)->Some_0.0,
        ) && now > old(store)@[refresh_token@].1 ==> r == Err::<Tokens, AppError>(
            AppError::Token(TokenError::Expired),
        ),
        r is Ok ==> {
            let id = rotation_identity(cfg.secret@, jwt@, refresh_token@)->Some_0;
            &&& (r->Ok_0.jwt@, r->Ok_0.refresh@) == issued_tokens(
                *cfg,
                id.0,
                id.1,
                now,
                old(store).next_serial(),
            )
            &&& r->Ok_0.user_info.id == id.0
            &&& r->Ok_0.user_info.username@ == id.1
            &&& r->Ok_0.refresh@ != refresh_token@
            &&& issued_with_serial(r->Ok_0.refresh@, old(store).next_serial())
            &&& bearer_stripped(r->Ok_0.jwt@) == r->Ok_0.jwt@
            &&& bearer_stripped(r->Ok_0.refresh@) == r->Ok_0.refresh@
            &&& final(store)@ == old(store)@.remove(refresh_token@).insert(
                r->Ok_0.refresh@,
                (id.0, (now + REFRESH_TTL) as u64),
            )
            &&& final(store).next_serial() == old(store).next_serial() + 1
        },
{
    let jwt_claims = match validate_jwt_token_without_exp(cfg, jwt) {
        Ok(c) => c,
        Err(e) => {
            return Err(AppError::Token(e));
        },
    };
    let refresh_claims = match validate_refresh_token(cfg, refresh_token) {
        Ok(c) => c,
        Err(e) => {
            return Err(AppError::Token(e));
        },
    };
    if refresh_claims.user_id != jwt_claims.user_id {
        return Err(AppError::Token(TokenError::InvalidSignature));
    }
    let user_id = jwt_claims.user_id;
    let username = jwt_claims.username;
    match store.find(refresh_token, user_id) {
        None => Err(AppError::Token(TokenError::Expired)),
        Some(record) => {
            if now > record.expires_at {
                return Err(AppError::Token(TokenError::Expired));
            }
            proof {
                store.lemma_keys_issued_before();
                assert(issued_before(refresh_token@, store.next_serial()));
            }
            let ghost spent = refresh_token@;
            let ghost serial = store.next_serial();
            let _rows = store.delete(refresh_token);
            match create_token(cfg, store, user_id, username.as_str(), now) {
                Ok((jwt, refresh)) => {
                    proof {
                        assert(jwt_text(cfg.secret@, None, Some(serial), user_id, username@) == refresh@);
                        if refresh@ == spent {
                            assert(issued_before(spent, serial));
                        }
                    }
                    Ok(Tokens { jwt, refresh, user_info: ReadUser { id: user_id, username } })
                },
                Err(e) => Err(e),
            }
        },
    }
}

/// A rotation spends its refresh token. Once a rotation of `(jwt, refresh)`
/// has gone through on a valid table, deleting the row of `refresh` and
/// storing `reissued` issued with the table's next serial, a second rotation
/// with the same pair finds no row for its user, at any time, and is refused
/// as expired.
pub proof fn lemma_rotation_spends_refresh(
    secret: Seq<char>,
    before: Map<Seq<char>, (i32, u64)>,
    serial: u64,
    after: Map<Seq<char>, (i32, u64)>,
    jwt: Seq<char>,
    refresh: Seq<char>,
    reissued: Seq<char>,
    expires_at: u64,
    first_now: u64,
    second_now: u64,
)
    requires
        keys_issued_before(before, serial),
        rotation_allowed(secret, before, jwt, refresh, first_now),
        issued_with_serial(reissued, serial),
        after == before.remove(refresh).insert(
            reissued,
            (rotation_identity(secret, jwt, refresh)->Some_0.0, expires_at),
        ),
    ensures
        refused_as_unknown(secret, after, jwt, refresh),
        !rotation_allowed(secret, after, jwt, refresh, second_now),
{
    lemma_spent_refresh_never_reissued(before, serial, refresh, reissued, serial);
    assert(!after.contains_key(refresh));
}

/// A token that a valid table held is never issued again: a refresh token
/// issued with the table's serial at that time, or any later one, is another
/// text.
pub proof fn lemma_spent_refresh_never_reissued(
    table: Map<Seq<char>, (i32, u64)>,
    serial: u64,
    spent: Seq<char>,
    issued: Seq<char>,
    later_serial: u64,
)
    requires
        keys_issued_before(table, serial),
        table.contains_key(spent),
        issued_with_serial(issued, later_serial),
        serial <= later_serial,
    ensures
        issued != spent,
{
    if issued == spent {
        assert(issued_before(spent, serial));
        let (s, u, m) = choose|s: Seq<char>, u: i32, m: Seq<char>|
            #[trigger] jwt_text(s, None, Some(later_serial), u, m) == issued;
        assert(jwt_text(s, None, Some(later_serial), u, m) == spent);
    }
}

/// Logout is final: after the row of `refresh` is deleted, a rotation with it
/// is refused, and on the same grounds as one whose token the table never
/// held.
pub proof fn lemma_revoked_refresh_is_unknown(
    secret: Seq<char>,
    store: Map<Seq<char>, (i32, u64)>,
    never_held: Map<Seq<char>, (i32, u64)>,
    jwt: Seq<char>,
    refresh: Seq<char>,
    now: u64,
)
    requires
        !never_held.contains_key(refresh),
    ensures
        !rotation_allowed(secret, store.remove(refresh), jwt, refresh, now),
        !rotation_allowed(secret, never_held, jwt, refresh, now),
        refused_as_unknown(secret, store.remove(refresh), jwt, refresh) == refused_as_unknown(
            secret,
            never_held,
            jwt,
            refresh,
        ),
        refused_as_unknown(secret, store.remove(refresh), jwt, refresh) == (rotation_identity(
            secret,
            jwt,
            refresh,
        ) is Some),
{
    assert(!store.remove(refresh).contains_key(refresh));
}

} // verus!
