//! The identity resolver: from what a request presents to who is asking.

use vstd::prelude::*;
use crate::database::{Database, DatabaseView, lemma_issued_token_resolves};
use crate::error::{ErrorKind, ErrorView, failure, Result};
use crate::registry::{INVALID_SESSION, lemma_revocation_is_terminal};
use crate::schema::user::{User, UserView};
use crate::token::{missing_credential, UserToken};

verus! {

/// Why `db` turns away a request that presents `bearer_token`, if it does:
/// for want of a token, or because no session has the token.
pub open spec fn rejection(db: DatabaseView, bearer_token: Option<&str>) -> Option<ErrorView> {
    match bearer_token {
        None => Some(missing_credential()),
        Some(token) => if db.sessions.holds(token@) {
            None
        } else {
            Some(failure(ErrorKind::InvalidSession, INVALID_SESSION@))
        },
    }
}

/// The user who presents `bearer_token`, where `db` does not turn the
/// request away.
pub open spec fn requester(db: DatabaseView, bearer_token: Option<&str>) -> UserView {
    db.owner(bearer_token->0@)
}

/// The store after it has let the request with `bearer_token` in: the
/// session of the token is marked as used.
pub open spec fn admitted(db: DatabaseView, bearer_token: Option<&str>) -> DatabaseView {
    db.resolved(bearer_token->0@)
}

/// Resolves a bearer token to the user who is asking. A request without a
/// token fails with `MissingCredential`. A token that no session has fails
/// with `InvalidSession`, whatever was wrong with it. Otherwise the user is
/// read afresh from `db`, so that a change of rights shows at once, and the
/// session is marked as used at the clock's reading. A failure changes
/// nothing.
pub fn resolve_identity(db: &mut Database, bearer_token: Option<&str>) -> (r: Result<User>)
    requires
        old(db)@.wf(),
    ensures
        final(db)@.wf(),
        match rejection(old(db)@, bearer_token) {
            Some(refusal) => r matches Err(e) && e@ == refusal && final(db)@ == old(db)@,
            None => {
                &&& r matches Ok(user) && user@ == requester(old(db)@, bearer_token)
                &&& final(db)@ == admitted(old(db)@, bearer_token)
            },
        },
{
    let token = UserToken::from_header(bearer_token)?;
    User::from_token(db, token)
}

/// Revocation is terminal: once a session is revoked, by its id or with
/// all the sessions of its owner, a request that presents its token is
/// turned away with `InvalidSession`.
pub proof fn lemma_revoked_token_is_rejected(db: DatabaseView, token: &str, id: Option<i32>)
    requires
        db.wf(),
        db.sessions.holds(token@),
        id is None || id == Some(db.sessions.session(token@).id),
    ensures
        rejection(db.revoked(db.sessions.session(token@).owner_email, id), Some(token)) == Some(
            failure(ErrorKind::InvalidSession, INVALID_SESSION@),
        ),
{
    let i = db.sessions.index_of(token@);
    assert(db.sessions.at(i, token@));
    lemma_revocation_is_terminal(db.sessions, i, id);
}

/// A token that was issued to a user is let in, and the requester is that
/// user.
pub proof fn lemma_issued_token_is_admitted(db: DatabaseView, owner: Seq<char>, token: &str)
    requires
        db.wf(),
        db.can_issue(owner, token@),
    ensures
        rejection(db.issued(owner, token@), Some(token)) is None,
        requester(db.issued(owner, token@), Some(token)) == db.user(owner),
{
    lemma_issued_token_resolves(db, owner, token@);
}

} // verus!
