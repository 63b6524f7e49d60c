//! Users: the identity records.

use vstd::prelude::*;
use vstd::utf8::encode_utf8;
use crate::database::{ALREADY_REGISTERED, Database, email_at, lemma_index_of, user_views};
use crate::error::{Error, ErrorKind, failure, Result};
use crate::policy::OwnerDescriptor;
use crate::registry::{INVALID_SESSION, NOT_COMPLETED, Session, session_views, SessionView};
use crate::text::{owned, text_or, value_or};
use crate::token::{generate_token, UserToken, well_formed};
use crate::vault::{HASH_FAILED, hash_password, LENGTH_LIMIT, verifies, verify_password};

verus! {

/// What a client is told where no user has the email asked for.
pub const USER_NOT_FOUND: &'static str = "Usuário não encontrado";

/// A session as its owner is shown it: without the token.
#[derive(Debug, Clone, Copy, PartialEq, Eq)]
pub struct UserSession {
    pub id: i32,
    pub created: i64,
    pub used: Option<i64>,
}

/// What the owner is shown of the session `s`.
pub open spec fn summary(s: SessionView) -> UserSession {
    UserSession { id: s.id, created: s.created_at, used: s.last_used_at }
}

/// What the owner is shown of each of `sessions`, in order.
pub open spec fn summaries(sessions: Seq<SessionView>) -> Seq<UserSession> {
    sessions.map_values(|s: SessionView| summary(s))
}

impl UserSession {
    /// What the owner is shown of `session`.
    pub fn of(session: &Session) -> (r: UserSession)
        ensures
            r == summary(session@),
    {
        UserSession { id: session.id, created: session.created_at, used: session.last_used_at }
    }
}

/// Whether `password` can be hashed: it has at most
/// [`LENGTH_LIMIT`] bytes.
pub open spec fn hashes(password: Seq<char>) -> bool {
    encode_utf8(password).len() <= LENGTH_LIMIT
}

/// Whether an edit asks for a password that cannot be hashed.
pub open spec fn unhashable(new_password: Option<&str>) -> bool {
    new_password matches Some(p) && !hashes(p@)
}

/// Whether `user` is what `old` becomes where each given field is replaced
/// and the others are kept, the password by a hash record made from it.
pub open spec fn is_change(
    user: UserView,
    old: UserView,
    new_email: Option<&str>,
    new_password: Option<&str>,
    new_name: Option<&str>,
    new_admin: Option<bool>,
) -> bool {
    &&& user.email == text_or(new_email, old.email)
    &&& user.name == text_or(new_name, old.name)
    &&& user.admin == value_or(new_admin, old.admin)
    &&& match new_password {
        Some(p) => verifies(user.password, p@),
        None => user.password == old.password,
    }
}

/// Whether `user` is a newly registered user of this email, password and
/// name: without administrator's rights, the password as a hash record.
pub open spec fn is_registration(
    user: UserView,
    email: Seq<char>,
    password: Seq<char>,
    name: Seq<char>,
) -> bool {
    &&& user.email == email
    &&& user.name == name
    &&& !user.admin
    &&& verifies(user.password, password)
}

/// Whether `e` is the failure of hashing a password.
pub open spec fn is_hash_failure(e: crate::error::ErrorView) -> bool {
    &&& e.kind == ErrorKind::Internal
    &&& e.description == Some(HASH_FAILED@)
    &&& e.source is Some
}

/// The mathematical content of a [`User`].
pub struct UserView {
    pub email: Seq<char>,
    pub name: Seq<char>,
    pub admin: bool,
    pub password: Seq<char>,
}

/// An identity record. `email` identifies the user and is the login name;
/// `password` is a hash record of the credential vault, never the cleartext.
#[derive(Debug, PartialEq, Eq)]
pub struct User {
    pub email: String,
    pub name: String,
    pub admin: bool,
    pub password: String,
}

impl View for User {
    type V = UserView;

    open spec fn view(&self) -> UserView {
        UserView {
            email: self.email@,
            name: self.name@,
            admin: self.admin,
            password: self.password@,
        }
    }
}

impl Clone for User {
    fn clone(&self) -> (r: Self)
        ensures
            r@ == self@,
    {
        User {
            email: self.email.clone(),
            name: self.name.clone(),
            admin: self.admin,
            password: self.password.clone(),
        }
    }
}

impl User {
    /// Who owns this user's record: the user.
    pub fn owner_descriptor(&self) -> (d: OwnerDescriptor)
        ensures
            d@ == self@.email,
    {
        OwnerDescriptor { email: self.email.clone() }
    }

    /// The user of `db` with the email `email`; `NotFound` where there is
    /// none.
    pub fn from_email(db: &Database, email: &str) -> (r: Result<User>)
        requires
            db@.wf(),
        ensures
            match r {
                Ok(user) => db@.has_user(email@) && user@ == db@.user(email@),
                Err(e) => !db@.has_user(email@) && e@ == failure(
                    ErrorKind::NotFound,
                    USER_NOT_FOUND@,
                ),
            },
    {
        match db.read_user(email) {
            Some(user) => Ok(user),
            None => Err(Error::new(ErrorKind::NotFound, USER_NOT_FOUND)),
        }
    }

    /// The user whose session has the token `token`, read afresh from
    /// `db`. The session is marked as used at the clock's reading. A token
    /// that no session has fails with `InvalidSession` and changes nothing.
    pub fn from_token(db: &mut Database, token: UserToken) -> (r: Result<User>)
        requires
            old(db)@.wf(),
        ensures
            final(db)@.wf(),
            match r {
                Ok(user) => {
                    &&& old(db)@.sessions.holds(token@)
                    &&& user@ == old(db)@.owner(token@)
                    &&& final(db)@ == old(db)@.resolved(token@)
                },
                Err(e) => {
                    &&& !old(db)@.sessions.holds(token@)
                    &&& e@ == failure(ErrorKind::InvalidSession, INVALID_SESSION@)
                    &&& final(db)@ == old(db)@
                },
            },
    {
        let session = db.resolve(token.as_str())?;
        proof {
            let i = old(db)@.sessions.index_of(token@);
            assert(old(db)@.sessions.at(i, token@));
            assert(old(db)@.has_user(old(db)@.sessions.sessions[i].owner_email));
            let u = old(db)@.index_of(session@.owner_email);
            assert(email_at(old(db)@.users, u, session@.owner_email));
            assert(email_at(db@.users, u, session@.owner_email));
            lemma_index_of(db@, u, session@.owner_email);
        }
        match db.read_user(session.owner_email.as_str()) {
            Some(user) => Ok(user),
            None => Err(Error::new(ErrorKind::InvalidSession, INVALID_SESSION)),
        }
    }

    /// Issues a session for this user, with a fresh random token and made
    /// at the clock's reading. Fails with `StorageUnavailable`, changing
    /// nothing, where this is no user of `db`, where the token is already
    /// held, or where the ids are used up; it works where none of these
    /// can be.
    pub fn create_token(&self, db: &mut Database) -> (r: Result<UserToken>)
        requires
            old(db)@.wf(),
        ensures
            final(db)@.wf(),
            !old(db)@.has_user(self@.email) ==> r is Err,
            old(db)@.issues_for(self@.email) ==> r is Ok,
            match r {
                Ok(token) => {
                    &&& well_formed(token@)
                    &&& old(db)@.can_issue(self@.email, token@)
                    &&& final(db)@ == old(db)@.issued(self@.email, token@)
                },
                Err(e) => {
                    &&& e@ == failure(ErrorKind::StorageUnavailable, NOT_COMPLETED@)
                    &&& final(db)@ == old(db)@
                },
            },
    {
        let session = db.issue(self.email.as_str(), generate_token())?;
        Ok(UserToken::new(session.token))
    }

    /// All users of `db`, in the order in which they were added.
    pub fn list(db: &Database) -> (r: Result<Vec<User>>)
        ensures
            r matches Ok(users) && user_views(users@) == db@.users,
    {
        Ok(db.list_users())
    }

    /// The sessions of this user, in the order in which they were made.
    pub fn list_sessions(&self, db: &Database) -> (r: Result<Vec<UserSession>>)
        ensures
            r matches Ok(sessions) && sessions@ == summaries(db@.sessions.of(self@.email)),
    {
        let sessions = db.sessions_of(self.email.as_str());
        let mut shown: Vec<UserSession> = Vec::new();
        let mut i: usize = 0;
        while i < sessions.len()
            invariant
                i <= sessions.len(),
                shown@ == summaries(session_views(sessions@).take(i as int)),
            decreases sessions.len() - i,
        {
            shown.push(UserSession::of(&sessions[i]));
            assert(shown@ =~= summaries(session_views(sessions@).take(i + 1)));
            i += 1;
        }
        assert(session_views(sessions@).take(i as int) =~= session_views(sessions@));
        Ok(shown)
    }

    /// Revokes the session `id` of this user, or all of this user's
    /// sessions where `id` is `None`. Revoking what is not there changes
    /// nothing and is no failure.
    pub fn delete_session(&self, db: &mut Database, id: Option<i32>) -> (r: Result<()>)
        requires
            old(db)@.wf(),
        ensures
            final(db)@.wf(),
            r is Ok,
            final(db)@ == old(db)@.revoked(self@.email, id),
    {
        db.revoke(self.email.as_str(), id);
        Ok(())
    }

    /// Whether `password` is this user's: whether the stored record was
    /// made from it.
    pub fn verify_password(&self, password: &str) -> (r: bool)
        ensures
            r == verifies(self@.password, password@),
    {
        verify_password(self.password.as_str(), password)
    }

    /// A fresh token for a session.
    pub fn generate_token() -> (r: Result<String>)
        ensures
            r matches Ok(token) && well_formed(token@),
    {
        Ok(generate_token())
    }

    /// The hash record of `password`, made with a fresh random salt. Fails
    /// only on a password that cannot be hashed.
    pub fn hash_password(password: &str) -> (r: Result<String>)
        ensures
            match r {
                Ok(record) => hashes(password@) && verifies(record@, password@),
                Err(e) => !hashes(password@) && is_hash_failure(e@),
            },
    {
        hash_password(password)
    }

    /// Adds this user to `db`. An email that is already taken fails with
    /// `DuplicateIdentity` and changes nothing.
    pub fn create(&self, db: &mut Database) -> (r: Result<()>)
        requires
            old(db)@.wf(),
        ensures
            final(db)@.wf(),
            match r {
                Ok(_) => !old(db)@.has_user(self@.email) && final(db)@ == old(db)@.inserted(
                    self@,
                ),
                Err(e) => {
                    &&& old(db)@.has_user(self@.email)
                    &&& e@ == failure(ErrorKind::DuplicateIdentity, ALREADY_REGISTERED@)
                    &&& final(db)@ == old(db)@
                },
            },
    {
        db.insert_user(self.clone())
    }

    /// Puts this user in the place of the user of `db` with the email
    /// `old_email`, whose sessions go over to this user. Where there is no
    /// such user, nothing changes. An email that another user has fails
    /// with `DuplicateIdentity` and changes nothing.
    pub fn update(&self, db: &mut Database, old_email: &str) -> (r: Result<()>)
        requires
            old(db)@.wf(),
        ensures
            final(db)@.wf(),
            match r {
                Ok(_) => {
                    &&& old(db)@.has_user(old_email@) ==> old(db)@.can_update(old_email@, self@)
                    &&& final(db)@ == old(db)@.updated(old_email@, self@)
                },
                Err(e) => {
                    &&& old(db)@.has_user(old_email@)
                    &&& !old(db)@.can_update(old_email@, self@)
                    &&& e@ == failure(ErrorKind::DuplicateIdentity, ALREADY_REGISTERED@)
                    &&& final(db)@ == old(db)@
                },
            },
    {
        db.update_user(old_email, self)
    }

    /// Takes this user out of `db`, and with them their sessions.
    pub fn delete(self, db: &mut Database) -> (r: Result<()>)
        requires
            old(db)@.wf(),
        ensures
            final(db)@.wf(),
            r is Ok,
            final(db)@ == old(db)@.deleted(self@.email),
    {
        db.delete_user(self.email.as_str());
        Ok(())
    }

    /// This user with each given field replaced and the others kept. A new
    /// password is kept as a hash record made with a fresh random salt;
    /// one that cannot be hashed fails.
    pub fn changed(
        self,
        new_email: Option<&str>,
        new_password: Option<&str>,
        new_name: Option<&str>,
        new_admin: Option<bool>,
    ) -> (r: Result<User>)
        ensures
            match r {
                Ok(user) => !unhashable(new_password) && is_change(
                    user@,
                    self@,
                    new_email,
                    new_password,
                    new_name,
                    new_admin,
                ),
                Err(e) => unhashable(new_password) && is_hash_failure(e@),
            },
    {
        let mut user = self;
        if let Some(new_email) = new_email {
            user.email = owned(new_email);
        }
        if let Some(new_password) = new_password {
            user.password = hash_password(new_password)?;
        }
        if let Some(new_name) = new_name {
            user.name = owned(new_name);
        }
        if let Some(new_admin) = new_admin {
            user.admin = new_admin;
        }
        Ok(user)
    }

    /// Changes this user as asked and stores the result in `db` in the
    /// place of the user with this user's email. A new password is stored
    /// as a hash record made with a fresh random salt. A password that
    /// cannot be hashed fails first; then an email that another user has
    /// fails with `DuplicateIdentity`. A failure changes nothing.
    pub fn modify(
        self,
        db: &mut Database,
        new_email: Option<&str>,
        new_password: Option<&str>,
        new_name: Option<&str>,
        new_admin: Option<bool>,
    ) -> (r: Result<User>)
        requires
            old(db)@.wf(),
        ensures
            final(db)@.wf(),
            match r {
                Ok(user) => {
                    &&& !unhashable(new_password)
                    &&& is_change(user@, self@, new_email, new_password, new_name, new_admin)
                    &&& old(db)@.has_user(self@.email) ==> old(db)@.can_update(
                        self@.email,
                        user@,
                    )
                    &&& final(db)@ == old(db)@.updated(self@.email, user@)
                },
                Err(e) => {
                    &&& final(db)@ == old(db)@
                    &&& if unhashable(new_password) {
                        is_hash_failure(e@)
                    } else {
                        &&& old(db)@.has_user(self@.email)
                        &&& text_or(new_email, self@.email) != self@.email
                        &&& old(db)@.has_user(text_or(new_email, self@.email))
                        &&& e@ == failure(ErrorKind::DuplicateIdentity, ALREADY_REGISTERED@)
                    }
                },
            },
    {
        let old_email = self.email.clone();
        let user = self.changed(new_email, new_password, new_name, new_admin)?;
        db.update_user(old_email.as_str(), &user)?;
        Ok(user)
    }

    /// A new user with the email `email`, the name `name` and no
    /// administrator's rights, whose password is kept as a hash record made
    /// with a fresh random salt. A password that cannot be hashed fails.
    pub fn fresh(email: &str, password: &str, name: &str) -> (r: Result<User>)
        ensures
            match r {
                Ok(user) => hashes(password@) && is_registration(
                    user@,
                    email@,
                    password@,
                    name@,
                ),
                Err(e) => !hashes(password@) && is_hash_failure(e@),
            },
    {
        Ok(
            User {
                email: owned(email),
                password: hash_password(password)?,
                name: owned(name),
                admin: false,
            },
        )
    }

    /// Registers a user with the email `email`, the name `name` and no
    /// administrator's rights, whose password is stored as a hash record
    /// made with a fresh random salt. A password that cannot be hashed
    /// fails first; then an email that is already taken fails with
    /// `DuplicateIdentity`. A failure changes nothing.
    pub fn register(db: &mut Database, email: &str, password: &str, name: &str) -> (r: Result<
        User,
    >)
        requires
            old(db)@.wf(),
        ensures
            final(db)@.wf(),
            match r {
                Ok(user) => {
                    &&& hashes(password@)
                    &&& !old(db)@.has_user(email@)
                    &&& is_registration(user@, email@, password@, name@)
                    &&& final(db)@ == old(db)@.inserted(user@)
                },
                Err(e) => {
                    &&& final(db)@ == old(db)@
                    &&& if !hashes(password@) {
                        is_hash_failure(e@)
                    } else {
                        old(db)@.has_user(email@) && e@ == failure(
                            ErrorKind::DuplicateIdentity,
                            ALREADY_REGISTERED@,
                        )
                    }
                },
            },
    {
        let user = User::fresh(email, password, name)?;
        db.insert_user(user.clone())?;
        Ok(user)
    }
}

} // verus!
