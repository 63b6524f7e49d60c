//! The store of identities: the users and their sessions.
//!
//! Users are keyed by their email, which no two of them share. Every
//! session belongs to a user of the store: a user who leaves takes their
//! sessions along, and one who changes email keeps them.

use vstd::prelude::*;
use crate::error::{Error, ErrorKind, failure, Result};
use crate::registry::{
    lemma_filter_keeps_wf, lemma_filter_members, NOT_COMPLETED, RegistryView, Session,
    SessionRegistry, survives,
};
use crate::schema::user::{User, UserView};
use crate::text::same;
use crate::token::well_formed;

verus! {

/// What a client is told where the email is already taken.
pub const ALREADY_REGISTERED: &'static str = "O email especificado já está registrado";

/// The mathematical content of a [`Database`].
pub struct DatabaseView {
    pub users: Seq<UserView>,
    pub sessions: RegistryView,
}

/// Whether `i` is the position among `users` of the one with the email
/// `email`.
pub open spec fn email_at(users: Seq<UserView>, i: int, email: Seq<char>) -> bool {
    0 <= i < users.len() && users[i].email == email
}

/// Whether one of `users` has the email `email`.
pub open spec fn has_email(users: Seq<UserView>, email: Seq<char>) -> bool {
    exists|i: int| #[trigger] email_at(users, i, email)
}

/// The position among `users` of the one with the email `email`, where one
/// has it.
pub open spec fn index_of_email(users: Seq<UserView>, email: Seq<char>) -> int {
    choose|i: int| email_at(users, i, email)
}

impl DatabaseView {
    /// Whether some user has the email `email`.
    pub open spec fn has_user(self, email: Seq<char>) -> bool {
        has_email(self.users, email)
    }

    /// The position of the user with the email `email`, where one has it.
    pub open spec fn index_of(self, email: Seq<char>) -> int {
        index_of_email(self.users, email)
    }

    /// The user with the email `email`, where one has it.
    pub open spec fn user(self, email: Seq<char>) -> UserView {
        self.users[self.index_of(email)]
    }

    /// The user who owns the session with the token `token`, where one
    /// has it.
    pub open spec fn owner(self, token: Seq<char>) -> UserView {
        self.user(self.sessions.session(token).owner_email)
    }

    /// What holds of every store: no two users share an email, the
    /// registry is valid, and every session belongs to a user.
    pub open spec fn wf(self) -> bool {
        &&& forall|i: int, j: int|
            0 <= i < j < self.users.len() ==> (#[trigger] self.users[i]).email != (
            #[trigger] self.users[j]).email
        &&& self.sessions.wf()
        &&& forall|k: int|
            0 <= k < self.sessions.sessions.len() ==> self.has_user(
                (#[trigger] self.sessions.sessions[k]).owner_email,
            )
    }

    /// Whether `user` can take the place of the user at the position `i`:
    /// its email is that user's, or nobody's.
    pub open spec fn can_replace(self, i: int, user: UserView) -> bool {
        user.email == self.users[i].email || !self.has_user(user.email)
    }

    /// Whether `user` can take the place of the user with the email
    /// `old_email`: its email is `old_email`, or nobody's.
    pub open spec fn can_update(self, old_email: Seq<char>, user: UserView) -> bool {
        user.email == old_email || !self.has_user(user.email)
    }

    /// The store with `user` in the place of the user with the email
    /// `old_email`, whose sessions go over to `user`; the store as it is
    /// where nobody has that email.
    pub open spec fn updated(self, old_email: Seq<char>, user: UserView) -> DatabaseView {
        if self.has_user(old_email) {
            self.replaced(self.index_of(old_email), user)
        } else {
            self
        }
    }

    /// The store without the user with the email `email` and without that
    /// user's sessions; the store as it is where nobody has that email.
    pub open spec fn deleted(self, email: Seq<char>) -> DatabaseView {
        if self.has_user(email) {
            self.removed(self.index_of(email))
        } else {
            self
        }
    }

    /// The store after the session with the token `token` was used.
    pub open spec fn resolved(self, token: Seq<char>) -> DatabaseView {
        DatabaseView { sessions: self.sessions.resolved(token), ..self }
    }

    /// The store with `user` added.
    pub open spec fn inserted(self, user: UserView) -> DatabaseView {
        DatabaseView { users: self.users.push(user), ..self }
    }

    /// The store with `user` in the place of the user at the position `i`,
    /// whose sessions go over to `user`.
    pub open spec fn replaced(self, i: int, user: UserView) -> DatabaseView {
        DatabaseView {
            users: self.users.update(i, user),
            sessions: self.sessions.renamed(self.users[i].email, user.email),
        }
    }

    /// The store after its clock was shown the time `to`.
    pub open spec fn advanced(self, to: i64) -> DatabaseView {
        DatabaseView { sessions: self.sessions.advanced(to), ..self }
    }

    /// Whether a session can be issued for `owner` with `token`: `owner` is
    /// a user, and the registry can take the token.
    pub open spec fn can_issue(self, owner: Seq<char>, token: Seq<char>) -> bool {
        self.has_user(owner) && self.sessions.can_issue(token)
    }

    /// Whether issuing a session for `owner` is bound to work, whatever
    /// token is drawn: `owner` is a user, ids are left, and no session has
    /// a token of the shape of a drawn one.
    pub open spec fn issues_for(self, owner: Seq<char>) -> bool {
        &&& self.has_user(owner)
        &&& self.sessions.next_id < i32::MAX
        &&& forall|token: Seq<char>| well_formed(token) ==> !#[trigger] self.sessions.holds(token)
    }

    /// The store after a session was issued for `owner` with `token`.
    pub open spec fn issued(self, owner: Seq<char>, token: Seq<char>) -> DatabaseView {
        DatabaseView { sessions: self.sessions.issued(owner, token), ..self }
    }

    /// The store after a revocation for `owner`: of the session `id`, or of
    /// all the owner's sessions where `id` is `None`.
    pub open spec fn revoked(self, owner: Seq<char>, id: Option<i32>) -> DatabaseView {
        DatabaseView { sessions: self.sessions.revoked(owner, id), ..self }
    }

    /// The store without the user at the position `i` and without that
    /// user's sessions.
    pub open spec fn removed(self, i: int) -> DatabaseView {
        DatabaseView {
            users: self.users.remove(i),
            sessions: self.sessions.revoked(self.users[i].email, None),
        }
    }
}

/// The users of the marketplace and the registry of their sessions.
pub struct Database {
    users: Vec<User>,
    sessions: SessionRegistry,
}

/// The views of `users`, in order.
pub open spec fn user_views(users: Seq<User>) -> Seq<UserView> {
    users.map_values(|u: User| u@)
}

impl View for Database {
    type V = DatabaseView;

    closed spec fn view(&self) -> DatabaseView {
        DatabaseView { users: user_views(self.users@), sessions: self.sessions@ }
    }
}

impl Database {
    /// A store without users, around an empty registry.
    pub fn new() -> (db: Database)
        ensures
            db@.users == Seq::<UserView>::empty(),
            db@.sessions == (RegistryView { sessions: Seq::empty(), next_id: 1, now: 0 }),
            db@.wf(),
    {
        let db = Database { users: Vec::new(), sessions: SessionRegistry::new() };
        assert(db@.users =~= Seq::<UserView>::empty());
        db
    }

    /// The reading of the store's clock.
    pub fn now(&self) -> (now: i64)
        ensures
            now == self@.sessions.now,
    {
        self.sessions.now()
    }

    /// Shows the store's clock the time `to`. The clock never runs
    /// backwards: a time before its reading leaves it as it is.
    pub fn advance(&mut self, to: i64)
        requires
            old(self)@.wf(),
        ensures
            final(self)@ == old(self)@.advanced(to),
            final(self)@.wf(),
    {
        self.sessions.advance(to);
        proof {
            lemma_sessions_keep_owners(old(self)@, self@);
        }
    }

    /// Reads the wall clock and shows the store's clock what it says.
    pub fn tick(&mut self)
        requires
            old(self)@.wf(),
        ensures
            exists|to: i64| final(self)@ == #[trigger] old(self)@.advanced(to),
            final(self)@.wf(),
    {
        let ghost before = self.sessions@;
        self.sessions.tick();
        proof {
            let to = choose|to: i64| self.sessions@ == #[trigger] before.advanced(to);
            assert(self@ == old(self)@.advanced(to));
            lemma_sessions_keep_owners(old(self)@, self@);
        }
    }

    /// Issues a session for the user `owner_email` with the token `token`,
    /// made at the clock's reading and not yet used. An owner who is no
    /// user, a token that is already held, or the end of the ids fails
    /// with `StorageUnavailable` and changes nothing.
    pub fn issue(&mut self, owner_email: &str, token: String) -> (r: Result<Session>)
        requires
            old(self)@.wf(),
        ensures
            final(self)@.wf(),
            match r {
                Ok(session) => {
                    &&& old(self)@.can_issue(owner_email@, token@)
                    &&& session@ == old(self)@.sessions.fresh(owner_email@, token@)
                    &&& final(self)@ == old(self)@.issued(owner_email@, token@)
                    &&& final(self)@.sessions.holds(token@)
                },
                Err(e) => {
                    &&& !old(self)@.can_issue(owner_email@, token@)
                    &&& e@ == failure(ErrorKind::StorageUnavailable, NOT_COMPLETED@)
                    &&& final(self)@ == old(self)@
                },
            },
    {
        if self.position(owner_email).is_none() {
            return Err(Error::new(ErrorKind::StorageUnavailable, NOT_COMPLETED));
        }
        let r = self.sessions.issue(owner_email, token);
        proof {
            if r is Ok {
                lemma_issue_keeps_wf(old(self)@, owner_email@, token@);
            }
        }
        r
    }

    /// Looks the session with the token `token` up and marks it as used at
    /// the clock's reading. A token that no session has fails with
    /// `InvalidSession` and changes nothing.
    pub fn resolve(&mut self, token: &str) -> (r: Result<Session>)
        requires
            old(self)@.wf(),
        ensures
            final(self)@.wf(),
            match r {
                Ok(session) => {
                    &&& old(self)@.sessions.holds(token@)
                    &&& final(self)@ == old(self)@.resolved(token@)
                    &&& session@ == old(self)@.sessions.session(token@).touched(
                        old(self)@.sessions.now,
                    )
                },
                Err(e) => {
                    &&& !old(self)@.sessions.holds(token@)
                    &&& e@ == failure(ErrorKind::InvalidSession, crate::registry::INVALID_SESSION@)
                    &&& final(self)@ == old(self)@
                },
            },
    {
        let r = self.sessions.resolve(token);
        proof {
            if r is Ok {
                assert(old(self)@.sessions.at(old(self)@.sessions.index_of(token@), token@));
            }
            lemma_sessions_keep_owners(old(self)@, self@);
        }
        r
    }

    /// The sessions of `owner_email`, in the order in which they were made.
    pub fn sessions_of(&self, owner_email: &str) -> (r: Vec<Session>)
        ensures
            crate::registry::session_views(r@) == self@.sessions.of(owner_email@),
    {
        self.sessions.list(owner_email)
    }

    /// Revokes the session `id` of `owner_email`, or all sessions of
    /// `owner_email` where `id` is `None`. A session of another owner stays,
    /// whatever its id; revoking what is not there changes nothing.
    pub fn revoke(&mut self, owner_email: &str, id: Option<i32>)
        requires
            old(self)@.wf(),
        ensures
            final(self)@ == old(self)@.revoked(owner_email@, id),
            final(self)@.wf(),
    {
        self.sessions.revoke(owner_email, id);
        proof {
            lemma_revoke_keeps_wf(old(self)@, owner_email@, id);
        }
    }

    /// The position of the user with the email `email`, if there is one.
    fn position(&self, email: &str) -> (r: Option<usize>)
        ensures
            match r {
                Some(i) => email_at(self@.users, i as int, email@),
                None => !self@.has_user(email@),
            },
    {
        let mut i: usize = 0;
        while i < self.users.len()
            invariant
                i <= self.users.len(),
                forall|k: int| 0 <= k < i ==> !#[trigger] email_at(self@.users, k, email@),
            decreases self.users.len() - i,
        {
            if same(self.users[i].email.as_str(), email) {
                return Some(i);
            }
            i += 1;
        }
        None
    }

    /// The user with the email `email`, if there is one.
    pub fn read_user(&self, email: &str) -> (r: Option<User>)
        requires
            self@.wf(),
        ensures
            match r {
                Some(user) => self@.has_user(email@) && user@ == self@.user(email@),
                None => !self@.has_user(email@),
            },
    {
        match self.position(email) {
            Some(i) => {
                proof {
                    lemma_index_of(self@, i as int, email@);
                }
                Some(self.users[i].clone())
            },
            None => None,
        }
    }

    /// All users, in the order in which they were added.
    pub fn list_users(&self) -> (r: Vec<User>)
        ensures
            user_views(r@) == self@.users,
    {
        let mut all: Vec<User> = Vec::new();
        let mut i: usize = 0;
        while i < self.users.len()
            invariant
                i <= self.users.len(),
                user_views(all@) == self@.users.take(i as int),
            decreases self.users.len() - i,
        {
            let ghost before = user_views(all@);
            all.push(self.users[i].clone());
            assert(user_views(all@) =~= before.push(self@.users[i as int]));
            assert(self@.users.take(i + 1) =~= self@.users.take(i as int).push(
                self@.users[i as int],
            ));
            i += 1;
        }
        assert(self@.users.take(i as int) =~= self@.users);
        all
    }

    /// Adds `user`. An email that is already taken fails with
    /// `DuplicateIdentity` and changes nothing.
    pub fn insert_user(&mut self, user: User) -> (r: Result<()>)
        requires
            old(self)@.wf(),
        ensures
            final(self)@.wf(),
            match r {
                Ok(_) => !old(self)@.has_user(user@.email) && final(self)@ == old(self)@.inserted(
                    user@,
                ),
                Err(e) => {
                    &&& old(self)@.has_user(user@.email)
                    &&& e@ == failure(ErrorKind::DuplicateIdentity, ALREADY_REGISTERED@)
                    &&& final(self)@ == old(self)@
                },
            },
    {
        if self.position(user.email.as_str()).is_some() {
            return Err(Error::new(ErrorKind::DuplicateIdentity, ALREADY_REGISTERED));
        }
        let ghost added = user@;
        self.users.push(user);
        proof {
            assert(self@.users =~= old(self)@.users.push(added));
            lemma_insert_keeps_wf(old(self)@, added);
        }
        Ok(())
    }

    /// Puts `user` in the place of the user with the email `old_email`,
    /// whose sessions go over to `user`. Where there is no such user,
    /// nothing changes. An email that another user has fails with
    /// `DuplicateIdentity` and changes nothing.
    pub fn update_user(&mut self, old_email: &str, user: &User) -> (r: Result<()>)
        requires
            old(self)@.wf(),
        ensures
            final(self)@.wf(),
            match r {
                Ok(_) => {
                    &&& old(self)@.has_user(old_email@) ==> old(self)@.can_update(old_email@, user@)
                    &&& final(self)@ == old(self)@.updated(old_email@, user@)
                },
                Err(e) => {
                    &&& old(self)@.has_user(old_email@)
                    &&& !old(self)@.can_update(old_email@, user@)
                    &&& e@ == failure(ErrorKind::DuplicateIdentity, ALREADY_REGISTERED@)
                    &&& final(self)@ == old(self)@
                },
            },
    {
        match self.position(old_email) {
            Some(i) => {
                if !same(old_email, user.email.as_str()) && self.position(
                    user.email.as_str(),
                ).is_some() {
                    return Err(Error::new(ErrorKind::DuplicateIdentity, ALREADY_REGISTERED));
                }
                self.users[i] = user.clone();
                self.sessions.rename_owner(old_email, user.email.as_str());
                proof {
                    assert(self@.users =~= old(self)@.users.update(i as int, user@));
                    lemma_index_of(old(self)@, i as int, old_email@);
                    lemma_replace_keeps_wf(old(self)@, i as int, user@);
                }
                Ok(())
            },
            None => Ok(()),
        }
    }

    /// Takes the user with the email `email` out, and with them their
    /// sessions. Where there is no such user, nothing changes.
    pub fn delete_user(&mut self, email: &str)
        requires
            old(self)@.wf(),
        ensures
            final(self)@.wf(),
            final(self)@ == old(self)@.deleted(email@),
    {
        match self.position(email) {
            Some(i) => {
                self.users.remove(i);
                self.sessions.revoke(email, None);
                proof {
                    assert(self@.users =~= old(self)@.users.remove(i as int));
                    lemma_index_of(old(self)@, i as int, email@);
                    lemma_remove_keeps_wf(old(self)@, i as int);
                }
            },
            None => {},
        }
    }
}

/// An email is held at one position only.
pub proof fn lemma_index_of(db: DatabaseView, i: int, email: Seq<char>)
    requires
        db.wf(),
        email_at(db.users, i, email),
    ensures
        db.has_user(email),
        db.index_of(email) == i,
        db.user(email) == db.users[i],
{
    let j = db.index_of(email);
    assert(email_at(db.users, j, email));
    if i < j {
        assert(db.users[i].email != db.users[j].email);
    } else if j < i {
        assert(db.users[j].email != db.users[i].email);
    }
}

/// A store stays valid where the users stay and every session of the valid
/// registry after has the owner that the session in its place had before.
pub proof fn lemma_sessions_keep_owners(before: DatabaseView, after: DatabaseView)
    requires
        before.wf(),
        after.users == before.users,
        after.sessions.wf(),
        after.sessions.sessions.len() == before.sessions.sessions.len(),
        forall|k: int|
            0 <= k < before.sessions.sessions.len() ==> (
            #[trigger] after.sessions.sessions[k]).owner_email
                == before.sessions.sessions[k].owner_email,
    ensures
        after.wf(),
{
    assert forall|k: int| 0 <= k < after.sessions.sessions.len() implies after.has_user(
        (#[trigger] after.sessions.sessions[k]).owner_email,
    ) by {
        let owner = before.sessions.sessions[k].owner_email;
        let i = choose|i: int| #[trigger] email_at(before.users, i, owner);
        assert(email_at(after.users, i, owner));
    }
}

/// Issuing a session for a user leaves a store valid.
pub proof fn lemma_issue_keeps_wf(db: DatabaseView, owner: Seq<char>, token: Seq<char>)
    requires
        db.wf(),
        db.can_issue(owner, token),
    ensures
        db.issued(owner, token).wf(),
{
    let after = db.issued(owner, token);
    crate::registry::lemma_issue_keeps_wf(db.sessions, owner, token);
    assert forall|k: int| 0 <= k < after.sessions.sessions.len() implies after.has_user(
        (#[trigger] after.sessions.sessions[k]).owner_email,
    ) by {
        let email = after.sessions.sessions[k].owner_email;
        if k < db.sessions.sessions.len() {
            assert(email == db.sessions.sessions[k].owner_email);
        }
        let i = choose|i: int| #[trigger] email_at(db.users, i, email);
        assert(email_at(after.users, i, email));
    }
}

/// A token that was issued to a user resolves to that user: the session is
/// there, and its owner is the user as the store holds them.
pub proof fn lemma_issued_token_resolves(db: DatabaseView, owner: Seq<char>, token: Seq<char>)
    requires
        db.wf(),
        db.can_issue(owner, token),
    ensures
        db.issued(owner, token).wf(),
        db.issued(owner, token).sessions.holds(token),
        db.issued(owner, token).sessions.session(token) == db.sessions.fresh(owner, token),
        db.issued(owner, token).owner(token) == db.user(owner),
{
    let after = db.issued(owner, token);
    lemma_issue_keeps_wf(db, owner, token);
    crate::registry::lemma_issue_keeps_wf(db.sessions, owner, token);
    crate::registry::lemma_index_of(after.sessions, db.sessions.sessions.len() as int, token);
}

/// When a user leaves, their sessions leave with them: none of their
/// tokens resolves any more.
pub proof fn lemma_deleted_user_has_no_sessions(db: DatabaseView, k: int)
    requires
        db.wf(),
        0 <= k < db.sessions.sessions.len(),
    ensures
        !db.deleted(db.sessions.sessions[k].owner_email).sessions.holds(
            db.sessions.sessions[k].token,
        ),
        db.deleted(db.sessions.sessions[k].owner_email).wf(),
{
    let email = db.sessions.sessions[k].owner_email;
    assert(db.has_user(email));
    let i = db.index_of(email);
    assert(email_at(db.users, i, email));
    lemma_remove_keeps_wf(db, i);
    crate::registry::lemma_revocation_is_terminal(db.sessions, k, None);
}

/// Revoking sessions leaves a store valid.
pub proof fn lemma_revoke_keeps_wf(db: DatabaseView, owner: Seq<char>, id: Option<i32>)
    requires
        db.wf(),
    ensures
        db.revoked(owner, id).wf(),
{
    let after = db.revoked(owner, id);
    let keep = survives(owner, id);
    lemma_filter_keeps_wf(db.sessions, keep);
    assert forall|k: int| 0 <= k < after.sessions.sessions.len() implies after.has_user(
        (#[trigger] after.sessions.sessions[k]).owner_email,
    ) by {
        let s = lemma_filter_members(db.sessions.sessions, keep, k);
        let left = after.sessions.sessions[k];
        let j = db.index_of(left.owner_email);
        assert(db.has_user(db.sessions.sessions[s].owner_email));
        assert(email_at(after.users, j, left.owner_email));
    }
}

/// Adding a user whose email is free leaves a store valid.
pub proof fn lemma_insert_keeps_wf(db: DatabaseView, user: UserView)
    requires
        db.wf(),
        !db.has_user(user.email),
    ensures
        db.inserted(user).wf(),
{
    let after = db.inserted(user);
    assert forall|i: int, j: int| 0 <= i < j < after.users.len() implies (
    #[trigger] after.users[i]).email != (#[trigger] after.users[j]).email by {
        if j == db.users.len() {
            assert(!email_at(db.users, i, user.email));
        }
    }
    assert forall|k: int| 0 <= k < after.sessions.sessions.len() implies after.has_user(
        (#[trigger] after.sessions.sessions[k]).owner_email,
    ) by {
        let owner = db.sessions.sessions[k].owner_email;
        let i = choose|i: int| #[trigger] email_at(db.users, i, owner);
        assert(email_at(after.users, i, owner));
    }
}

/// Replacing a user by one whose email is theirs or free leaves a store
/// valid.
pub proof fn lemma_replace_keeps_wf(db: DatabaseView, i: int, user: UserView)
    requires
        db.wf(),
        0 <= i < db.users.len(),
        db.can_replace(i, user),
    ensures
        db.replaced(i, user).wf(),
{
    let after = db.replaced(i, user);
    let old_email = db.users[i].email;
    assert forall|a: int, b: int| 0 <= a < b < after.users.len() implies (
    #[trigger] after.users[a]).email != (#[trigger] after.users[b]).email by {
        if a == i {
            assert(!email_at(db.users, b, user.email) || user.email == old_email);
            assert(db.users[a].email != db.users[b].email);
        } else if b == i {
            assert(!email_at(db.users, a, user.email) || user.email == old_email);
            assert(db.users[a].email != db.users[b].email);
        } else {
            assert(db.users[a].email != db.users[b].email);
        }
    }
    assert forall|k: int| 0 <= k < after.sessions.sessions.len() implies after.has_user(
        (#[trigger] after.sessions.sessions[k]).owner_email,
    ) by {
        let before = db.sessions.sessions[k];
        if before.owner_email == old_email {
            assert(email_at(after.users, i, user.email));
        } else {
            let j = choose|j: int| #[trigger] email_at(db.users, j, before.owner_email);
            assert(email_at(after.users, j, before.owner_email));
        }
    }
}

/// Taking a user out together with their sessions leaves a store valid.
pub proof fn lemma_remove_keeps_wf(db: DatabaseView, i: int)
    requires
        db.wf(),
        0 <= i < db.users.len(),
    ensures
        db.removed(i).wf(),
{
    let after = db.removed(i);
    let email = db.users[i].email;
    let keep = survives(email, None);
    lemma_filter_keeps_wf(db.sessions, keep);
    assert forall|a: int, b: int| 0 <= a < b < after.users.len() implies (
    #[trigger] after.users[a]).email != (#[trigger] after.users[b]).email by {
        let a0 = if a < i { a } else { a + 1 };
        let b0 = if b < i { b } else { b + 1 };
        assert(db.users[a0].email != db.users[b0].email);
    }
    assert forall|k: int| 0 <= k < after.sessions.sessions.len() implies after.has_user(
        (#[trigger] after.sessions.sessions[k]).owner_email,
    ) by {
        let s = lemma_filter_members(db.sessions.sessions, keep, k);
        let left = after.sessions.sessions[k];
        let j = db.index_of(left.owner_email);
        assert(db.has_user(db.sessions.sessions[s].owner_email));
        assert(j != i);
        let j1 = if j < i { j } else { j - 1 };
        assert(email_at(after.users, j1, left.owner_email));
    }
}

} // verus!
