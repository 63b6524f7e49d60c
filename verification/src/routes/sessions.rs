//! The endpoints on sessions: login, logout, and the sessions of the user
//! who asks.

use vstd::prelude::*;
use crate::database::{Database, DatabaseView, email_at, lemma_issued_token_resolves};
use crate::error::{Error, ErrorKind, failure, Result};
use crate::identity::{admitted, rejection, requester, resolve_identity};
use crate::registry::{lemma_revocation_is_terminal, NOT_COMPLETED};
use crate::schema::user::{summaries, User, UserSession};
use crate::token::{UserToken, well_formed};
use crate::vault::verifies;

verus! {

/// What a client is told where the login fails.
pub const WRONG_PASSWORD: &'static str = "Senha incorreta";

/// What a request to log in holds.
#[derive(Debug)]
pub struct LoginRequest {
    pub email: String,
    pub password: String,
}

impl LoginRequest {
    /// Whether `db` knows the user and the password is theirs.
    pub open spec fn authenticates(self, db: DatabaseView) -> bool {
        db.has_user(self.email@) && verifies(db.user(self.email@).password, self.password@)
    }
}

/// Authenticates a login: `user` is the user of the email that was given,
/// if there is one, and `password` the password that was given. No user and
/// a password that is not the user's fail alike, with `WrongPassword`.
pub fn authenticate(user: Option<User>, password: &str) -> (r: Result<User>)
    ensures
        match r {
            Ok(known) => user == Some(known) && verifies(known@.password, password@),
            Err(e) => {
                &&& user matches Some(known) ==> !verifies(known@.password, password@)
                &&& e@ == failure(ErrorKind::WrongPassword, WRONG_PASSWORD@)
            },
        },
{
    match user {
        Some(user) => if user.verify_password(password) {
            Ok(user)
        } else {
            Err(Error::new(ErrorKind::WrongPassword, WRONG_PASSWORD))
        },
        None => Err(Error::new(ErrorKind::WrongPassword, WRONG_PASSWORD)),
    }
}

/// Logs a user in: where the email is a user's and the password is theirs,
/// a session is issued with a fresh random token, which is returned. An
/// unknown email and a wrong password fail alike, with `WrongPassword`, so
/// that nothing tells which emails are registered. A token that is already
/// held, or the end of the ids, fails with `StorageUnavailable`. A failure
/// changes nothing.
pub fn login(db: &mut Database, body: LoginRequest) -> (r: Result<UserToken>)
    requires
        old(db)@.wf(),
    ensures
        final(db)@.wf(),
        !body.authenticates(old(db)@) ==> (r matches Err(e) && e@ == failure(
            ErrorKind::WrongPassword,
            WRONG_PASSWORD@,
        )),
        body.authenticates(old(db)@) && old(db)@.issues_for(body.email@) ==> r is Ok,
        match r {
            Ok(token) => {
                &&& body.authenticates(old(db)@)
                &&& well_formed(token@)
                &&& old(db)@.can_issue(body.email@, token@)
                &&& final(db)@ == old(db)@.issued(body.email@, token@)
                &&& final(db)@.sessions.holds(token@)
                &&& final(db)@.owner(token@) == old(db)@.user(body.email@)
            },
            Err(e) => {
                &&& final(db)@ == old(db)@
                &&& body.authenticates(old(db)@) ==> e@ == failure(
                    ErrorKind::StorageUnavailable,
                    NOT_COMPLETED@,
                )
            },
        },
{
    let user = authenticate(db.read_user(body.email.as_str()), body.password.as_str())?;
    let r = user.create_token(db);
    proof {
        if r is Ok {
            lemma_issued_token_resolves(old(db)@, body.email@, r->Ok_0@);
        }
    }
    r
}

/// Logs the session of `bearer_token` out: the session is revoked, and the
/// token resolves to nothing from then on.
pub fn logout(db: &mut Database, bearer_token: Option<&str>) -> (r: Result<()>)
    requires
        old(db)@.wf(),
    ensures
        final(db)@.wf(),
        match rejection(old(db)@, bearer_token) {
            Some(refusal) => r matches Err(e) && e@ == refusal && final(db)@ == old(db)@,
            None => {
                &&& r is Ok
                &&& final(db)@ == admitted(old(db)@, bearer_token).revoked(
                    requester(old(db)@, bearer_token).email,
                    Some(old(db)@.sessions.session(bearer_token->0@).id),
                )
                &&& !final(db)@.sessions.holds(bearer_token->0@)
            },
        },
{
    let token = UserToken::from_header(bearer_token)?;
    let session = db.resolve(token.as_str())?;
    proof {
        let before = old(db)@;
        let i = before.sessions.index_of(token@);
        assert(before.sessions.at(i, token@));
        assert(before.has_user(before.sessions.sessions[i].owner_email));
        assert(email_at(before.users, before.index_of(session@.owner_email), session@.owner_email));
        assert(db@.sessions.at(i, token@));
        lemma_revocation_is_terminal(db@.sessions, i, Some(session.id));
    }
    db.revoke(session.owner_email.as_str(), Some(session.id));
    Ok(())
}

/// The sessions of the user who asks, in the order in which they were
/// made; the one of `bearer_token` is marked as used first.
pub fn sessions(db: &mut Database, bearer_token: Option<&str>) -> (r: Result<Vec<UserSession>>)
    requires
        old(db)@.wf(),
    ensures
        final(db)@.wf(),
        match rejection(old(db)@, bearer_token) {
            Some(refusal) => r matches Err(e) && e@ == refusal && final(db)@ == old(db)@,
            None => {
                &&& final(db)@ == admitted(old(db)@, bearer_token)
                &&& r matches Ok(list) && list@ == summaries(
                    final(db)@.sessions.of(requester(old(db)@, bearer_token).email),
                )
            },
        },
{
    let user = resolve_identity(db, bearer_token)?;
    user.list_sessions(db)
}

/// Revokes all sessions of the user who asks, the one of `bearer_token`
/// among them.
pub fn delete_sessions(db: &mut Database, bearer_token: Option<&str>) -> (r: Result<()>)
    requires
        old(db)@.wf(),
    ensures
        final(db)@.wf(),
        match rejection(old(db)@, bearer_token) {
            Some(refusal) => r matches Err(e) && e@ == refusal && final(db)@ == old(db)@,
            None => r is Ok && final(db)@ == admitted(old(db)@, bearer_token).revoked(
                requester(old(db)@, bearer_token).email,
                None,
            ),
        },
{
    let user = resolve_identity(db, bearer_token)?;
    user.delete_session(db, None)
}

/// Revokes the session `id` of the user who asks. An id that is not one of
/// that user's sessions revokes nothing and is no failure.
pub fn delete_session(db: &mut Database, id: i32, bearer_token: Option<&str>) -> (r: Result<()>)
    requires
        old(db)@.wf(),
    ensures
        final(db)@.wf(),
        match rejection(old(db)@, bearer_token) {
            Some(refusal) => r matches Err(e) && e@ == refusal && final(db)@ == old(db)@,
            None => r is Ok && final(db)@ == admitted(old(db)@, bearer_token).revoked(
                requester(old(db)@, bearer_token).email,
                Some(id),
            ),
        },
{
    let user = resolve_identity(db, bearer_token)?;
    user.delete_session(db, Some(id))
}

} // verus!
