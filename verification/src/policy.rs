//! The authorization policy: one rule for every resource.

use vstd::prelude::*;
use crate::error::{Error, ErrorKind, failure, Result};
use crate::schema::user::{User, UserView};
use crate::text::same;

verus! {

/// What a requester wants to do with a resource.
#[derive(Clone, Copy, Debug, PartialEq, Eq, Structural)]
pub enum Action {
    Read,
    Write,
    Delete,
}

/// The outcome of the policy.
#[derive(Clone, Copy, Debug, PartialEq, Eq, Structural)]
pub enum Decision {
    Allow,
    Deny,
}

/// The one identity that owns a resource: the email of a shop's owner, of
/// the owner of a product's shop, or of a purchase's purchaser.
#[derive(Debug, PartialEq, Eq)]
pub struct OwnerDescriptor {
    pub email: String,
}

impl View for OwnerDescriptor {
    type V = Seq<char>;

    open spec fn view(&self) -> Seq<char> {
        self.email@
    }
}

impl Clone for OwnerDescriptor {
    fn clone(&self) -> (r: Self)
        ensures
            r@ == self@,
    {
        OwnerDescriptor { email: self.email.clone() }
    }
}

/// The rule: an administrator may do anything, anyone else only what
/// concerns a resource of their own.
pub open spec fn permits(requester: UserView, owner: Seq<char>) -> bool {
    requester.admin || requester.email == owner
}

/// Decides whether `requester` may perform `action` on the resource owned by
/// `owner`. The rule is the same for every action.
pub fn authorize(requester: &User, owner: &OwnerDescriptor, action: Action) -> (d: Decision)
    ensures
        d == Decision::Allow <==> permits(requester@, owner@),
        d == Decision::Deny <==> !permits(requester@, owner@),
{
    if requester.admin || same(requester.email.as_str(), owner.email.as_str()) {
        Decision::Allow
    } else {
        Decision::Deny
    }
}

/// The rule for a resource that may have no owner: an administrator may do
/// anything, anyone else only what concerns a resource that has an owner and
/// is their own.
pub open spec fn permits_owned(requester: UserView, owner: Option<Seq<char>>) -> bool {
    requester.admin || owner == Some(requester.email)
}

/// The view of an optional owner.
pub open spec fn owner_view(owner: Option<OwnerDescriptor>) -> Option<Seq<char>> {
    match owner {
        Some(o) => Some(o@),
        None => None,
    }
}

/// Decides whether `requester` may perform `action` on a resource whose
/// owner, if it has one, is `owner`.
pub fn authorize_owned(requester: &User, owner: &Option<OwnerDescriptor>, action: Action) -> (d:
    Decision)
    ensures
        d == Decision::Allow <==> permits_owned(requester@, owner_view(*owner)),
        d == Decision::Deny <==> !permits_owned(requester@, owner_view(*owner)),
{
    match owner {
        Some(owner) => authorize(requester, owner, action),
        None => if requester.admin {
            Decision::Allow
        } else {
            Decision::Deny
        },
    }
}

/// Turns a decision into a result: a denial becomes the failure `Forbidden`
/// with `description`.
pub fn require(decision: Decision, description: &str) -> (r: Result<()>)
    ensures
        decision == Decision::Allow ==> r is Ok,
        decision == Decision::Deny ==> (r matches Err(e) && e@ == failure(
            ErrorKind::Forbidden,
            description@,
        )),
{
    match decision {
        Decision::Allow => Ok(()),
        Decision::Deny => Err(Error::new(ErrorKind::Forbidden, description)),
    }
}

} // verus!
