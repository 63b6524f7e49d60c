//! The session registry: the sessions that stand behind the bearer tokens.
//!
//! A session is made at login and proves, until it is revoked, that its
//! token was handed to its owner. The registry keeps the sessions in the
//! order in which they were made, gives each an id that is never used
//! again, and never holds one token twice.

use vstd::prelude::*;
use crate::error::{Error, ErrorKind, failure, Result};
use crate::text::{owned, same};

verus! {

/// What a client is told where no session has the token.
pub const INVALID_SESSION: &'static str = "Sessão inválida";

/// What a client is told where the store could not do what was asked.
pub const NOT_COMPLETED: &'static str = "Não foi possível completar operação";

/// The mathematical content of a [`Session`].
pub struct SessionView {
    pub id: i32,
    pub owner_email: Seq<char>,
    pub token: Seq<char>,
    pub created_at: i64,
    pub last_used_at: Option<i64>,
}

/// A session. `owner_email` names the user who logged in; `token` is the
/// secret that the client presents; the times are microseconds since the
/// Unix epoch, `last_used_at` being `None` until the token is first used.
#[derive(Debug, PartialEq, Eq)]
pub struct Session {
    pub id: i32,
    pub owner_email: String,
    pub token: String,
    pub created_at: i64,
    pub last_used_at: Option<i64>,
}

impl View for Session {
    type V = SessionView;

    open spec fn view(&self) -> SessionView {
        SessionView {
            id: self.id,
            owner_email: self.owner_email@,
            token: self.token@,
            created_at: self.created_at,
            last_used_at: self.last_used_at,
        }
    }
}

impl Clone for Session {
    fn clone(&self) -> (r: Self)
        ensures
            r@ == self@,
    {
        Session {
            id: self.id,
            owner_email: self.owner_email.clone(),
            token: self.token.clone(),
            created_at: self.created_at,
            last_used_at: self.last_used_at,
        }
    }
}

impl SessionView {
    /// This session after a use at the time `now`.
    pub open spec fn touched(self, now: i64) -> SessionView {
        SessionView { last_used_at: Some(now), ..self }
    }

    /// This session in the hands of `owner`.
    pub open spec fn owned_by(self, owner: Seq<char>) -> SessionView {
        SessionView { owner_email: owner, ..self }
    }

    /// Whether this session was last used at `now` at the latest, if it was
    /// used at all.
    pub open spec fn used_by(self, now: i64) -> bool {
        self.last_used_at matches Some(used) ==> used <= now
    }

    /// Whether a revocation for `owner`, of the session `id` or of all
    /// where `id` is `None`, takes this session away.
    pub open spec fn revoked_by(self, owner: Seq<char>, id: Option<i32>) -> bool {
        self.owner_email == owner && (id is None || id == Some(self.id))
    }
}

/// The test for the sessions of `owner`.
pub open spec fn belongs_to(owner: Seq<char>) -> spec_fn(SessionView) -> bool {
    |s: SessionView| s.owner_email == owner
}

/// The test for the sessions that a revocation for `owner` and `id` leaves.
pub open spec fn survives(owner: Seq<char>, id: Option<i32>) -> spec_fn(SessionView) -> bool {
    |s: SessionView| !s.revoked_by(owner, id)
}

/// What becomes of a session when those of `old` go over to `new`.
pub open spec fn handed_over(old: Seq<char>, new: Seq<char>) -> spec_fn(
    SessionView,
) -> SessionView {
    |s: SessionView|
        if s.owner_email == old {
            s.owned_by(new)
        } else {
            s
        }
}

/// The mathematical content of a [`SessionRegistry`]: the sessions in the
/// order in which they were made, the id that the next one gets, and the
/// reading of the registry's clock.
pub struct RegistryView {
    pub sessions: Seq<SessionView>,
    pub next_id: i32,
    pub now: i64,
}

impl RegistryView {
    /// What holds of every registry: ids grow with the position and stay
    /// below the next one, no token occurs twice, creation times do not
    /// shrink with the position, and no time lies ahead of the clock.
    pub open spec fn wf(self) -> bool {
        &&& forall|i: int, j: int|
            0 <= i < j < self.sessions.len() ==> (#[trigger] self.sessions[i]).id < (
            #[trigger] self.sessions[j]).id
        &&& forall|i: int|
            0 <= i < self.sessions.len() ==> (#[trigger] self.sessions[i]).id < self.next_id
        &&& forall|i: int, j: int|
            0 <= i < j < self.sessions.len() ==> (#[trigger] self.sessions[i]).token != (
            #[trigger] self.sessions[j]).token
        &&& forall|i: int, j: int|
            0 <= i < j < self.sessions.len() ==> (#[trigger] self.sessions[i]).created_at <= (
            #[trigger] self.sessions[j]).created_at
        &&& forall|i: int|
            0 <= i < self.sessions.len() ==> (#[trigger] self.sessions[i]).created_at <= self.now
        &&& forall|i: int|
            0 <= i < self.sessions.len() ==> (#[trigger] self.sessions[i]).used_by(self.now)
    }

    /// Whether `i` is the position of the session with the token `token`.
    pub open spec fn at(self, i: int, token: Seq<char>) -> bool {
        0 <= i < self.sessions.len() && self.sessions[i].token == token
    }

    /// Whether some session has the token `token`.
    pub open spec fn holds(self, token: Seq<char>) -> bool {
        exists|i: int| #[trigger] self.at(i, token)
    }

    /// The position of the session with the token `token`, where one has it.
    pub open spec fn index_of(self, token: Seq<char>) -> int {
        choose|i: int| self.at(i, token)
    }

    /// The session with the token `token`, where one has it.
    pub open spec fn session(self, token: Seq<char>) -> SessionView {
        self.sessions[self.index_of(token)]
    }

    /// The registry after the session with the token `token` was used.
    pub open spec fn resolved(self, token: Seq<char>) -> RegistryView {
        self.touched(self.index_of(token))
    }

    /// Whether a session can be issued for `token`: the token is free and
    /// the ids are not used up.
    pub open spec fn can_issue(self, token: Seq<char>) -> bool {
        !self.holds(token) && self.next_id < i32::MAX
    }

    /// The session that is made for `owner` with `token`.
    pub open spec fn fresh(self, owner: Seq<char>, token: Seq<char>) -> SessionView {
        SessionView {
            id: self.next_id,
            owner_email: owner,
            token,
            created_at: self.now,
            last_used_at: None,
        }
    }

    /// The registry after the clock was shown the time `to`: it moves
    /// forward to it, never back.
    pub open spec fn advanced(self, to: i64) -> RegistryView {
        RegistryView {
            now: if to > self.now {
                to
            } else {
                self.now
            },
            ..self
        }
    }

    /// The registry after a session was issued for `owner` with `token`.
    pub open spec fn issued(self, owner: Seq<char>, token: Seq<char>) -> RegistryView {
        RegistryView {
            sessions: self.sessions.push(self.fresh(owner, token)),
            next_id: (self.next_id + 1) as i32,
            ..self
        }
    }

    /// The registry after the session at the position `i` was used.
    pub open spec fn touched(self, i: int) -> RegistryView {
        RegistryView {
            sessions: self.sessions.update(i, self.sessions[i].touched(self.now)),
            ..self
        }
    }

    /// The sessions of `owner`, in the order in which they were made.
    pub open spec fn of(self, owner: Seq<char>) -> Seq<SessionView> {
        self.sessions.filter(belongs_to(owner))
    }

    /// The registry after a revocation for `owner`: of the session `id`, or
    /// of all the owner's sessions where `id` is `None`.
    pub open spec fn revoked(self, owner: Seq<char>, id: Option<i32>) -> RegistryView {
        RegistryView {
            sessions: self.sessions.filter(survives(owner, id)),
            ..self
        }
    }

    /// The registry after the sessions of `old` went over to `new`.
    pub open spec fn renamed(self, old: Seq<char>, new: Seq<char>) -> RegistryView {
        RegistryView {
            sessions: self.sessions.map_values(handed_over(old, new)),
            ..self
        }
    }
}

/// The sessions of a registry, with its counter of ids and its clock.
pub struct SessionRegistry {
    sessions: Vec<Session>,
    next_id: i32,
    now: i64,
}

/// The views of `sessions`, in order.
pub open spec fn session_views(sessions: Seq<Session>) -> Seq<SessionView> {
    sessions.map_values(|s: Session| s@)
}

impl View for SessionRegistry {
    type V = RegistryView;

    closed spec fn view(&self) -> RegistryView {
        RegistryView {
            sessions: session_views(self.sessions@),
            next_id: self.next_id,
            now: self.now,
        }
    }
}

impl SessionRegistry {
    /// A registry without sessions, whose first id is 1 and whose clock
    /// stands at the epoch.
    pub fn new() -> (r: SessionRegistry)
        ensures
            r@ == (RegistryView { sessions: Seq::empty(), next_id: 1, now: 0 }),
            r@.wf(),
    {
        let r = SessionRegistry { sessions: Vec::new(), next_id: 1, now: 0 };
        assert(r@.sessions =~= Seq::empty());
        r
    }

    /// The reading of the registry's clock.
    pub fn now(&self) -> (now: i64)
        ensures
            now == self@.now,
    {
        self.now
    }

    /// Shows the clock the time `to`. The clock never runs backwards: a
    /// time before its reading leaves it as it is.
    pub fn advance(&mut self, to: i64)
        ensures
            final(self)@ == old(self)@.advanced(to),
            old(self)@.wf() ==> final(self)@.wf(),
    {
        if to > self.now {
            self.now = to;
        }
    }

    /// Reads the wall clock and shows the registry's clock what it says.
    pub fn tick(&mut self)
        ensures
            exists|to: i64| final(self)@ == #[trigger] old(self)@.advanced(to),
            old(self)@.wf() ==> final(self)@.wf(),
    {
        let to = crate::clock::now();
        self.advance(to);
    }

    /// Issues a session for `owner_email` with the token `token`, made at
    /// the clock's reading and not yet used. A token that is already held,
    /// or the end of the ids, fails with `StorageUnavailable` and changes
    /// nothing: a collision is never written over.
    pub fn issue(&mut self, owner_email: &str, token: String) -> (r: Result<Session>)
        requires
            old(self)@.wf(),
        ensures
            final(self)@.wf(),
            match r {
                Ok(session) => {
                    &&& old(self)@.can_issue(token@)
                    &&& session@ == old(self)@.fresh(owner_email@, token@)
                    &&& final(self)@ == old(self)@.issued(owner_email@, token@)
                    &&& final(self)@.holds(token@)
                },
                Err(e) => {
                    &&& !old(self)@.can_issue(token@)
                    &&& e@ == failure(ErrorKind::StorageUnavailable, NOT_COMPLETED@)
                    &&& final(self)@ == old(self)@
                },
            },
    {
        if self.position(token.as_str()).is_some() || self.next_id == i32::MAX {
            return Err(Error::new(ErrorKind::StorageUnavailable, NOT_COMPLETED));
        }
        let session = Session {
            id: self.next_id,
            owner_email: owned(owner_email),
            token,
            created_at: self.now,
            last_used_at: None,
        };
        let issued = session.clone();
        self.sessions.push(session);
        self.next_id = self.next_id + 1;
        proof {
            assert(self@.sessions =~= old(self)@.sessions.push(issued@));
            lemma_issue_keeps_wf(old(self)@, owner_email@, token@);
        }
        Ok(issued)
    }

    /// Looks the session with the token `token` up and marks it as used at
    /// the clock's reading. A token that no session has fails with
    /// `InvalidSession` and changes nothing.
    pub fn resolve(&mut self, token: &str) -> (r: Result<Session>)
        requires
            old(self)@.wf(),
        ensures
            final(self)@.wf(),
            match r {
                Ok(session) => {
                    &&& old(self)@.holds(token@)
                    &&& final(self)@ == old(self)@.resolved(token@)
                    &&& session@ == old(self)@.session(token@).touched(old(self)@.now)
                },
                Err(e) => {
                    &&& !old(self)@.holds(token@)
                    &&& e@ == failure(ErrorKind::InvalidSession, INVALID_SESSION@)
                    &&& final(self)@ == old(self)@
                },
            },
    {
        match self.position(token) {
            Some(i) => {
                self.sessions[i].last_used_at = Some(self.now);
                let session = self.sessions[i].clone();
                proof {
                    assert(self@.sessions =~= old(self)@.sessions.update(i as int, session@));
                    lemma_index_of(old(self)@, i as int, token@);
                }
                Ok(session)
            },
            None => Err(Error::new(ErrorKind::InvalidSession, INVALID_SESSION)),
        }
    }

    /// The sessions of `owner_email`, in the order in which they were made.
    pub fn list(&self, owner_email: &str) -> (r: Vec<Session>)
        ensures
            session_views(r@) == self@.of(owner_email@),
    {
        let mut found: Vec<Session> = Vec::new();
        let ghost all = self@.sessions;
        let mut i: usize = 0;
        assert(session_views(found@) =~= all.take(0).filter(belongs_to(owner_email@)));
        while i < self.sessions.len()
            invariant
                i <= self.sessions.len(),
                all == self@.sessions,
                session_views(found@) == all.take(i as int).filter(belongs_to(owner_email@)),
            decreases self.sessions.len() - i,
        {
            proof {
                lemma_filter_step(all, belongs_to(owner_email@), i as int);
            }
            if same(self.sessions[i].owner_email.as_str(), owner_email) {
                found.push(self.sessions[i].clone());
                assert(session_views(found@) =~= all.take(i as int).filter(
                    belongs_to(owner_email@),
                ).push(all[i as int]));
            }
            i += 1;
        }
        assert(all.take(i as int) =~= all);
        found
    }

    /// Revokes the session `id` of `owner_email`, or all sessions of
    /// `owner_email` where `id` is `None`. A session of another owner stays,
    /// whatever its id; revoking what is not there changes nothing.
    pub fn revoke(&mut self, owner_email: &str, id: Option<i32>)
        requires
            old(self)@.wf(),
        ensures
            final(self)@ == old(self)@.revoked(owner_email@, id),
            final(self)@.wf(),
    {
        let ghost all = self@.sessions;
        let ghost keep = survives(owner_email@, id);
        let mut sessions: Vec<Session> = Vec::new();
        core::mem::swap(&mut self.sessions, &mut sessions);
        assert(session_views(self.sessions@) =~= all.take(0).filter(keep));
        for session in it: sessions.into_iter()
            invariant
                session_views(it.seq()) == all,
                keep == survives(owner_email@, id),
                session_views(self.sessions@) == all.take(it.index() as int).filter(keep),
                self.next_id == old(self).next_id,
                self.now == old(self).now,
        {
            proof {
                lemma_filter_step(all, keep, it.index() as int);
            }
            let revoked = same(session.owner_email.as_str(), owner_email) && match id {
                Some(id) => session.id == id,
                None => true,
            };
            if !revoked {
                let ghost kept = session@;
                self.sessions.push(session);
                assert(session_views(self.sessions@) =~= all.take(it.index() as int).filter(
                    keep,
                ).push(kept));
            }
        }
        proof {
            assert(all.take(all.len() as int) =~= all);
            lemma_filter_keeps_wf(old(self)@, keep);
        }
    }

    /// Hands the sessions of `old_email` over to `new_email`.
    pub fn rename_owner(&mut self, old_email: &str, new_email: &str)
        ensures
            final(self)@ == old(self)@.renamed(old_email@, new_email@),
            old(self)@.wf() ==> final(self)@.wf(),
    {
        let mut i: usize = 0;
        let ghost change = handed_over(old_email@, new_email@);
        while i < self.sessions.len()
            invariant
                i <= self.sessions.len(),
                self.sessions.len() == old(self).sessions.len(),
                self.next_id == old(self).next_id,
                self.now == old(self).now,
                change == handed_over(old_email@, new_email@),
                forall|k: int|
                    0 <= k < i ==> (#[trigger] self.sessions@[k])@ == change(
                        old(self).sessions@[k]@,
                    ),
                forall|k: int|
                    i <= k < self.sessions.len() ==> (#[trigger] self.sessions@[k]) == old(
                        self,
                    ).sessions@[k],
            decreases self.sessions.len() - i,
        {
            if same(self.sessions[i].owner_email.as_str(), old_email) {
                self.sessions[i].owner_email = owned(new_email);
            }
            i += 1;
        }
        assert(self@.sessions =~= old(self)@.sessions.map_values(change));
    }

    /// The position of the session with the token `token`, if there is one.
    fn position(&self, token: &str) -> (r: Option<usize>)
        ensures
            match r {
                Some(i) => self@.at(i as int, token@),
                None => !self@.holds(token@),
            },
    {
        let mut i: usize = 0;
        while i < self.sessions.len()
            invariant
                i <= self.sessions.len(),
                forall|k: int| 0 <= k < i ==> !#[trigger] self@.at(k, token@),
            decreases self.sessions.len() - i,
        {
            if same(self.sessions[i].token.as_str(), token) {
                return Some(i);
            }
            i += 1;
        }
        None
    }
}

/// A token is held at one position only.
pub proof fn lemma_index_of(reg: RegistryView, i: int, token: Seq<char>)
    requires
        reg.wf(),
        reg.at(i, token),
    ensures
        reg.holds(token),
        reg.index_of(token) == i,
        reg.session(token) == reg.sessions[i],
{
    let j = reg.index_of(token);
    assert(reg.at(j, token));
    if i < j {
        assert(reg.sessions[i].token != reg.sessions[j].token);
    } else if j < i {
        assert(reg.sessions[j].token != reg.sessions[i].token);
    }
}

/// No two sessions of a registry have the same token.
pub proof fn lemma_tokens_are_unique(reg: RegistryView, i: int, j: int)
    requires
        reg.wf(),
        0 <= i < reg.sessions.len(),
        0 <= j < reg.sessions.len(),
        i != j,
    ensures
        reg.sessions[i].token != reg.sessions[j].token,
        reg.sessions[i].id != reg.sessions[j].id,
{
    if i < j {
        assert(reg.sessions[i].token != reg.sessions[j].token);
    } else {
        assert(reg.sessions[j].token != reg.sessions[i].token);
    }
}

/// Issuing a session leaves a registry valid, and the new session is the
/// only one with its token.
pub proof fn lemma_issue_keeps_wf(reg: RegistryView, owner: Seq<char>, token: Seq<char>)
    requires
        reg.wf(),
        reg.can_issue(token),
    ensures
        reg.issued(owner, token).wf(),
        reg.issued(owner, token).at(reg.sessions.len() as int, token),
{
    let after = reg.issued(owner, token);
    assert forall|i: int, j: int| 0 <= i < j < after.sessions.len() implies (
    #[trigger] after.sessions[i]).token != (#[trigger] after.sessions[j]).token by {
        if j == reg.sessions.len() {
            assert(!reg.at(i, token));
        }
    }
}

/// Revocation is terminal: once a session is revoked, by its id or with
/// all the sessions of its owner, no session has its token, so that the
/// token resolves to nothing.
pub proof fn lemma_revocation_is_terminal(reg: RegistryView, i: int, id: Option<i32>)
    requires
        reg.wf(),
        0 <= i < reg.sessions.len(),
        id is None || id == Some(reg.sessions[i].id),
    ensures
        !reg.revoked(reg.sessions[i].owner_email, id).holds(reg.sessions[i].token),
        reg.revoked(reg.sessions[i].owner_email, id).wf(),
{
    let gone = reg.sessions[i];
    let keep = survives(gone.owner_email, id);
    let left = reg.sessions.filter(keep);
    lemma_filter_keeps_wf(reg, keep);
    assert forall|k: int| 0 <= k < left.len() implies (#[trigger] left[k]).token != gone.token by {
        let j = lemma_filter_members(reg.sessions, keep, k);
        if j != i {
            lemma_tokens_are_unique(reg, i, j);
        }
    }
}

/// A revocation by id spares every other session: the tokens of the
/// sessions with another id are held as before.
pub proof fn lemma_revocation_spares_others(reg: RegistryView, owner: Seq<char>, id: i32, j: int)
    requires
        0 <= j < reg.sessions.len(),
        reg.sessions[j].id != id,
    ensures
        reg.revoked(owner, Some(id)).holds(reg.sessions[j].token),
        reg.revoked(owner, Some(id)).sessions.contains(reg.sessions[j]),
{
    let keep = survives(owner, Some(id));
    reg.sessions.lemma_filter_contains(keep, j);
    let left = reg.sessions.filter(keep);
    let k = choose|k: int| 0 <= k < left.len() && left[k] == reg.sessions[j];
    assert(reg.revoked(owner, Some(id)).at(k, reg.sessions[j].token));
}

/// Revoking what is not there changes nothing: where no session is one
/// that the revocation takes, the registry stays as it is.
pub proof fn lemma_revocation_of_nothing(reg: RegistryView, owner: Seq<char>, id: Option<i32>)
    requires
        forall|i: int|
            0 <= i < reg.sessions.len() ==> !(#[trigger] reg.sessions[i]).revoked_by(owner, id),
    ensures
        reg.revoked(owner, id) == reg,
{
    lemma_filter_all(reg.sessions, survives(owner, id));
}

/// Revocation is idempotent: revoking again what was revoked changes
/// nothing.
pub proof fn lemma_revocation_is_idempotent(reg: RegistryView, owner: Seq<char>, id: Option<i32>)
    ensures
        reg.revoked(owner, id).revoked(owner, id) == reg.revoked(owner, id),
{
    let keep = survives(owner, id);
    let left = reg.sessions.filter(keep);
    assert forall|k: int| 0 <= k < left.len() implies keep(#[trigger] left[k]) by {
        lemma_filter_members(reg.sessions, keep, k);
    }
    lemma_filter_all(left, keep);
}

/// Touch monotonicity: the use of a session stamps it with the clock's
/// reading, which is no earlier than the time of any use before.
pub proof fn lemma_touch_is_monotonic(reg: RegistryView, i: int)
    requires
        reg.wf(),
        0 <= i < reg.sessions.len(),
    ensures
        reg.touched(i).sessions[i].last_used_at == Some(reg.now),
        reg.sessions[i].last_used_at matches Some(before) ==> before <= reg.now,
        reg.touched(i).wf(),
{
}

/// The sessions of an owner are listed in the order of their creation: the
/// later of two has the greater id and no earlier time of creation, and
/// both are the owner's.
pub proof fn lemma_list_is_ordered(reg: RegistryView, owner: Seq<char>, i: int, j: int)
    requires
        reg.wf(),
        0 <= i < j < reg.of(owner).len(),
    ensures
        reg.of(owner)[i].created_at <= reg.of(owner)[j].created_at,
        reg.of(owner)[i].id < reg.of(owner)[j].id,
        reg.of(owner)[i].owner_email == owner,
        reg.of(owner)[j].owner_email == owner,
{
    lemma_filter_keeps_wf(reg, belongs_to(owner));
    lemma_filter_members(reg.sessions, belongs_to(owner), i);
    lemma_filter_members(reg.sessions, belongs_to(owner), j);
}

/// One step of a filter: what the first `i + 1` items give, from what the
/// first `i` give.
pub proof fn lemma_filter_step<A>(s: Seq<A>, keep: spec_fn(A) -> bool, i: int)
    requires
        0 <= i < s.len(),
    ensures
        s.take(i + 1).filter(keep) == if keep(s[i]) {
            s.take(i).filter(keep).push(s[i])
        } else {
            s.take(i).filter(keep)
        },
{
    reveal(Seq::filter);
    assert(s.take(i + 1).drop_last() =~= s.take(i));
}

/// A filter that every item passes lets the whole sequence through.
pub proof fn lemma_filter_all<A>(s: Seq<A>, keep: spec_fn(A) -> bool)
    requires
        forall|i: int| 0 <= i < s.len() ==> keep(#[trigger] s[i]),
    ensures
        s.filter(keep) == s,
    decreases s.len(),
{
    reveal(Seq::filter);
    if s.len() > 0 {
        assert forall|i: int| 0 <= i < s.drop_last().len() implies keep(
            #[trigger] s.drop_last()[i],
        ) by {
            assert(s.drop_last()[i] == s[i]);
        }
        lemma_filter_all(s.drop_last(), keep);
        assert(s.drop_last().push(s.last()) =~= s);
    } else {
        assert(s.filter(keep) =~= s);
    }
}

/// Every item that a filter lets through passes the test and comes from the
/// sequence that was filtered: the result is a position at which it stands
/// there.
pub proof fn lemma_filter_members<A>(s: Seq<A>, keep: spec_fn(A) -> bool, k: int) -> (i: int)
    requires
        0 <= k < s.filter(keep).len(),
    ensures
        keep(s.filter(keep)[k]),
        0 <= i < s.len(),
        s[i] == s.filter(keep)[k],
    decreases s.len(),
{
    reveal(Seq::filter);
    if k < s.drop_last().filter(keep).len() {
        lemma_filter_members(s.drop_last(), keep, k)
    } else {
        s.len() - 1
    }
}

/// Taking sessions away leaves a registry as valid as it was.
pub proof fn lemma_filter_keeps_wf(reg: RegistryView, keep: spec_fn(SessionView) -> bool)
    requires
        reg.wf(),
    ensures
        (RegistryView { sessions: reg.sessions.filter(keep), ..reg }).wf(),
    decreases reg.sessions.len(),
{
    reveal(Seq::filter);
    let s = reg.sessions;
    let f = s.filter(keep);
    if s.len() > 0 {
        lemma_filter_keeps_wf(RegistryView { sessions: s.drop_last(), ..reg }, keep);
        let rest = s.drop_last().filter(keep);
        if keep(s.last()) {
            assert forall|k: int| 0 <= k < rest.len() implies {
                &&& (#[trigger] f[k]).id < s.last().id
                &&& f[k].token != s.last().token
                &&& f[k].created_at <= s.last().created_at
            } by {
                let i = lemma_filter_members(s.drop_last(), keep, k);
                assert(s[i] == f[k]);
                assert(s[s.len() - 1] == s.last());
            }
            assert(f[rest.len() as int] == s[s.len() - 1]);
        }
    }
}

} // verus!
