//! The endpoints on users. A user's record belongs to that user.

use vstd::prelude::*;
use crate::database::{ALREADY_REGISTERED, Database, DatabaseView, user_views};
use crate::error::{ErrorKind, failure, Result};
use crate::identity::{admitted, rejection, requester, resolve_identity};
use crate::policy::{Action, authorize, authorize_owned, permits, require};
use crate::schema::user::{hashes, is_hash_failure, is_registration, User, USER_NOT_FOUND, UserView};
use crate::text::{borrowed, edited, joined};
use crate::vault::verifies;

verus! {

/// What a requester is told who may not list the users.
pub const MAY_NOT_LIST: &'static str = "Você não tem permissão para listar os usuários";

/// What a requester is told who may not see that user.
pub const MAY_NOT_READ: &'static str = "Você não tem permissão para ver esse usuário";

/// What a requester is told who may not edit that user.
pub const MAY_NOT_MODIFY: &'static str = "Você não tem permissão para modificar esse usuário";

/// What a requester is told who may not remove that user.
pub const MAY_NOT_REMOVE: &'static str = "Você não tem permissão para remover esse usuário";

/// What a request to register holds.
#[derive(Debug)]
pub struct RegisterRequest {
    pub email: String,
    pub password: String,
    pub name: String,
}

/// What a request to edit a user holds: a new value for each field that is
/// to change.
#[derive(Debug)]
pub struct UpdateRequest {
    pub email: Option<String>,
    pub password: Option<String>,
    pub name: Option<String>,
    pub admin: Option<bool>,
}

impl UpdateRequest {
    /// Whether the edit asks for a password that cannot be hashed.
    pub open spec fn unhashable(self) -> bool {
        self.password matches Some(p) && !hashes(p@)
    }

    /// The administrator's flag after this edit, made by `requester`, of
    /// `target`: only an administrator can hand the rights on, anyone can
    /// lay them down.
    pub open spec fn admin_after(self, requester: UserView, target: UserView) -> bool {
        match self.admin {
            Some(wanted) => wanted && requester.admin,
            None => target.admin,
        }
    }

    /// Whether `user` is what this edit, made by `requester`, makes of
    /// `target`.
    pub open spec fn makes(self, requester: UserView, target: UserView, user: UserView) -> bool {
        &&& user.email == edited(self.email, target.email)
        &&& user.name == edited(self.name, target.name)
        &&& user.admin == self.admin_after(requester, target)
        &&& match self.password {
            Some(p) => verifies(user.password, p@),
            None => user.password == target.password,
        }
    }
}

/// What the store does with a request that `db` has let in and that
/// concerns the user `email`: why it fails before anything is changed, if
/// it does. The user must exist, and the requester must be allowed the
/// action on that user's record, for which `refusal` is the word.
pub open spec fn obstacle(
    db: DatabaseView,
    bearer_token: Option<&str>,
    email: Seq<char>,
    refusal: Seq<char>,
) -> Option<crate::error::ErrorView> {
    if !db.has_user(email) {
        Some(failure(ErrorKind::NotFound, USER_NOT_FOUND@))
    } else if !permits(requester(db, bearer_token), email) {
        Some(failure(ErrorKind::Forbidden, refusal))
    } else {
        None
    }
}

/// Decides whether `requester` may list all users: the list has no owner,
/// so that only an administrator may.
pub fn may_list(requester: &User) -> (r: Result<()>)
    ensures
        match r {
            Ok(_) => requester@.admin,
            Err(e) => !requester@.admin && e@ == failure(ErrorKind::Forbidden, MAY_NOT_LIST@),
        },
{
    require(authorize_owned(requester, &None, Action::Read), MAY_NOT_LIST)
}

/// Decides whether `requester` may see the record of `target`.
pub fn may_read(requester: &User, target: &User) -> (r: Result<()>)
    ensures
        match r {
            Ok(_) => permits(requester@, target@.email),
            Err(e) => !permits(requester@, target@.email) && e@ == failure(
                ErrorKind::Forbidden,
                MAY_NOT_READ@,
            ),
        },
{
    require(authorize(requester, &target.owner_descriptor(), Action::Read), MAY_NOT_READ)
}

/// Decides whether `requester` may remove `target`.
pub fn may_delete(requester: &User, target: &User) -> (r: Result<()>)
    ensures
        match r {
            Ok(_) => permits(requester@, target@.email),
            Err(e) => !permits(requester@, target@.email) && e@ == failure(
                ErrorKind::Forbidden,
                MAY_NOT_REMOVE@,
            ),
        },
{
    require(authorize(requester, &target.owner_descriptor(), Action::Delete), MAY_NOT_REMOVE)
}

/// Edits `target` as `body` asks, on behalf of `requester`, who must be
/// `target` or an administrator. Only an administrator can give
/// administrator's rights: from anyone else the request for them is taken
/// as one to lay them down. A new password is kept as a hash record.
pub fn edit(requester: &User, target: User, body: &UpdateRequest) -> (r: Result<User>)
    ensures
        match r {
            Ok(user) => {
                &&& permits(requester@, target@.email)
                &&& !body.unhashable()
                &&& body.makes(requester@, target@, user@)
            },
            Err(e) => if !permits(requester@, target@.email) {
                e@ == failure(ErrorKind::Forbidden, MAY_NOT_MODIFY@)
            } else {
                body.unhashable() && is_hash_failure(e@)
            },
        },
{
    require(authorize(requester, &target.owner_descriptor(), Action::Write), MAY_NOT_MODIFY)?;
    let admin = match body.admin {
        Some(wanted) => Some(wanted && requester.admin),
        None => None,
    };
    target.changed(borrowed(&body.email), borrowed(&body.password), borrowed(&body.name), admin)
}

/// All users, for an administrator.
pub fn list(db: &mut Database, bearer_token: Option<&str>) -> (r: Result<Vec<User>>)
    requires
        old(db)@.wf(),
    ensures
        final(db)@.wf(),
        match rejection(old(db)@, bearer_token) {
            Some(refusal) => r matches Err(e) && e@ == refusal && final(db)@ == old(db)@,
            None => {
                &&& final(db)@ == admitted(old(db)@, bearer_token)
                &&& if requester(old(db)@, bearer_token).admin {
                    r matches Ok(users) && user_views(users@) == final(db)@.users
                } else {
                    r matches Err(e) && e@ == failure(ErrorKind::Forbidden, MAY_NOT_LIST@)
                }
            },
        },
{
    let requester = resolve_identity(db, bearer_token)?;
    may_list(&requester)?;
    User::list(db)
}

/// The user `email`, for that user and for an administrator.
pub fn read(db: &mut Database, bearer_token: Option<&str>, email: &str) -> (r: Result<User>)
    requires
        old(db)@.wf(),
    ensures
        final(db)@.wf(),
        match rejection(old(db)@, bearer_token) {
            Some(refusal) => r matches Err(e) && e@ == refusal && final(db)@ == old(db)@,
            None => {
                &&& final(db)@ == admitted(old(db)@, bearer_token)
                &&& match obstacle(old(db)@, bearer_token, email@, MAY_NOT_READ@) {
                    Some(refusal) => r matches Err(e) && e@ == refusal,
                    None => r matches Ok(user) && user@ == old(db)@.user(email@),
                }
            },
        },
{
    let requester = resolve_identity(db, bearer_token)?;
    let target = User::from_email(db, email)?;
    may_read(&requester, &target)?;
    Ok(target)
}

/// Registers the user that `body` describes, without administrator's
/// rights. Anyone may register.
pub fn create(db: &mut Database, body: RegisterRequest) -> (r: Result<User>)
    requires
        old(db)@.wf(),
    ensures
        final(db)@.wf(),
        match r {
            Ok(user) => {
                &&& hashes(body.password@)
                &&& !old(db)@.has_user(body.email@)
                &&& is_registration(user@, body.email@, body.password@, body.name@)
                &&& final(db)@ == old(db)@.inserted(user@)
            },
            Err(e) => {
                &&& final(db)@ == old(db)@
                &&& if !hashes(body.password@) {
                    is_hash_failure(e@)
                } else {
                    old(db)@.has_user(body.email@) && e@ == failure(
                        ErrorKind::DuplicateIdentity,
                        ALREADY_REGISTERED@,
                    )
                }
            },
        },
{
    User::register(db, body.email.as_str(), body.password.as_str(), body.name.as_str())
}

/// Edits the user `email` as `body` asks, for that user and for an
/// administrator. Only an administrator can give administrator's rights.
pub fn update(
    db: &mut Database,
    bearer_token: Option<&str>,
    body: UpdateRequest,
    email: &str,
) -> (r: Result<User>)
    requires
        old(db)@.wf(),
    ensures
        final(db)@.wf(),
        match rejection(old(db)@, bearer_token) {
            Some(refusal) => r matches Err(e) && e@ == refusal && final(db)@ == old(db)@,
            None => match obstacle(old(db)@, bearer_token, email@, MAY_NOT_MODIFY@) {
                Some(refusal) => {
                    &&& r matches Err(e) && e@ == refusal
                    &&& final(db)@ == admitted(old(db)@, bearer_token)
                },
                None => match r {
                    Ok(user) => {
                        &&& !body.unhashable()
                        &&& body.makes(
                            requester(old(db)@, bearer_token),
                            old(db)@.user(email@),
                            user@,
                        )
                        &&& admitted(old(db)@, bearer_token).can_update(email@, user@)
                        &&& final(db)@ == admitted(old(db)@, bearer_token).updated(email@, user@)
                    },
                    Err(e) => {
                        &&& final(db)@ == admitted(old(db)@, bearer_token)
                        &&& if body.unhashable() {
                            is_hash_failure(e@)
                        } else {
                            &&& edited(body.email, email@) != email@
                            &&& old(db)@.has_user(edited(body.email, email@))
                            &&& e@ == failure(ErrorKind::DuplicateIdentity, ALREADY_REGISTERED@)
                        }
                    },
                },
            },
        },
{
    let requester = resolve_identity(db, bearer_token)?;
    let target = User::from_email(db, email)?;
    let user = edit(&requester, target, &body)?;
    user.update(db, email)?;
    Ok(user)
}

/// Removes the user `email`, for that user and for an administrator. The
/// user's sessions go with them.
pub fn delete(db: &mut Database, bearer_token: Option<&str>, email: &str) -> (r: Result<()>)
    requires
        old(db)@.wf(),
    ensures
        final(db)@.wf(),
        match rejection(old(db)@, bearer_token) {
            Some(refusal) => r matches Err(e) && e@ == refusal && final(db)@ == old(db)@,
            None => match obstacle(old(db)@, bearer_token, email@, MAY_NOT_REMOVE@) {
                Some(refusal) => {
                    &&& r matches Err(e) && e@ == refusal
                    &&& final(db)@ == admitted(old(db)@, bearer_token)
                },
                None => r is Ok && final(db)@ == admitted(old(db)@, bearer_token).deleted(email@),
            },
        },
{
    let requester = resolve_identity(db, bearer_token)?;
    let target = User::from_email(db, email)?;
    may_delete(&requester, &target)?;
    target.delete(db)
}

/// Where the users are found.
pub const LOCATION: &'static str = "https://cincobola.misterio.me/users/";

/// Where `user` is found: under [`LOCATION`], by its email.
pub fn location(user: &User) -> (r: String)
    ensures
        r@ == LOCATION@ + user@.email,
{
    joined(LOCATION, user.email.as_str())
}

} // verus!
