//! The session registry: the process-wide keyed store mapping code to
//! session, sole owner of every live session and sole authority for
//! insertion and removal.
//!
//! Sessions live in an arena of slots that are never reused: a
//! [`SessionRef`] is a non-owning reference (an index into the arena) that
//! must be resolved before use and fails cleanly once the slot has been
//! destroyed. The registry's abstract state is a sequence of optional
//! session views; a destroyed slot is `None` forever after.

use vstd::prelude::*;

use crate::code::{gen_code, valid_code};

verus! {

/// Stable identity of one transport connection.
pub type ConnId = u64;

/// How many colliding candidate codes `create` tolerates before giving up.
pub const MAX_CODE_ATTEMPTS: usize = 64;

/// One pairing slot: metadata supplied at creation, the sender connection,
/// and the at-most-once receiver connection.
pub struct Session {
    /// The short code under which the registry holds this session.
    pub code: String,
    /// Descriptive name of the announced payload; immutable after creation.
    pub file_name: String,
    /// Media type of the announced payload; immutable after creation.
    pub file_mime: String,
    /// Size in bytes of the announced payload; immutable after creation.
    pub file_size: u64,
    /// The connection that created the session; immutable.
    pub sender: ConnId,
    /// The attached receiver connection: absent at creation, set at most
    /// once, never cleared except by destruction of the whole session.
    pub receiver: Option<ConnId>,
}

/// Abstract value of a [`Session`].
pub ghost struct SessionView {
    pub code: Seq<char>,
    pub file_name: Seq<char>,
    pub file_mime: Seq<char>,
    pub file_size: u64,
    pub sender: ConnId,
    pub receiver: Option<ConnId>,
}

impl View for Session {
    type V = SessionView;

    open spec fn view(&self) -> SessionView {
        SessionView {
            code: self.code@,
            file_name: self.file_name@,
            file_mime: self.file_mime@,
            file_size: self.file_size,
            sender: self.sender,
            receiver: self.receiver,
        }
    }
}

/// Abstract state of a registry: one entry per slot ever created, `None`
/// once the slot has been destroyed.
pub type RegView = Seq<Option<SessionView>>;

/// Whether slot `i` of `rv` holds a live session.
pub open spec fn live_at(rv: RegView, i: int) -> bool {
    0 <= i < rv.len() && rv[i] is Some
}

/// The session in live slot `i`.
pub open spec fn sess_at(rv: RegView, i: int) -> SessionView {
    rv[i]->0
}

/// Whether some live session of `rv` is keyed by `code`.
pub open spec fn code_live(rv: RegView, code: Seq<char>) -> bool {
    exists|i: int| live_at(rv, i) && sess_at(rv, i).code == code
}

/// No two live sessions share a code.
pub open spec fn codes_unique(rv: RegView) -> bool {
    forall|i: int, j: int|
        live_at(rv, i) && live_at(rv, j) && i != j ==> sess_at(rv, i).code != sess_at(rv, j).code
}

/// Every live session is keyed by a well-shaped code.
pub open spec fn codes_valid(rv: RegView) -> bool {
    forall|i: int| live_at(rv, i) ==> valid_code(sess_at(rv, i).code)
}

/// The session that `create` installs.
pub open spec fn created_session(
    code: Seq<char>,
    file_name: Seq<char>,
    file_mime: Seq<char>,
    file_size: u64,
    sender: ConnId,
) -> SessionView {
    SessionView { code, file_name, file_mime, file_size, sender, receiver: None }
}

/// `s` with its receiver slot claimed by `conn`.
pub open spec fn with_receiver(s: SessionView, conn: ConnId) -> SessionView {
    SessionView {
        code: s.code,
        file_name: s.file_name,
        file_mime: s.file_mime,
        file_size: s.file_size,
        sender: s.sender,
        receiver: Some(conn),
    }
}

/// Effect of a successful `create`: a fresh slot is appended holding a new
/// session in state Created, under a well-shaped code no live session
/// already bears.
pub open spec fn create_ok(
    pre: RegView,
    post: RegView,
    i: int,
    code: Seq<char>,
    file_name: Seq<char>,
    file_mime: Seq<char>,
    file_size: u64,
    sender: ConnId,
) -> bool {
    &&& i == pre.len()
    &&& post == pre.push(Some(created_session(code, file_name, file_mime, file_size, sender)))
    &&& valid_code(code)
    &&& !code_live(pre, code)
}

/// Effect of `claim`: the sole race-sensitive step. On a live slot with no
/// receiver it atomically installs `conn` as the receiver and reports the
/// session's sender; otherwise it changes nothing and reports why.
pub open spec fn claim_step(
    pre: RegView,
    post: RegView,
    i: int,
    conn: ConnId,
    r: Result<ConnId, ClaimError>,
) -> bool {
    if !live_at(pre, i) {
        r == Err::<ConnId, ClaimError>(ClaimError::Destroyed) && post == pre
    } else if sess_at(pre, i).receiver is Some {
        r == Err::<ConnId, ClaimError>(ClaimError::NotAvailable) && post == pre
    } else {
        &&& r == Ok::<ConnId, ClaimError>(sess_at(pre, i).sender)
        &&& post == pre.update(i, Some(with_receiver(sess_at(pre, i), conn)))
    }
}

/// Effect of `destroy`: slot `i` is dead afterwards, nothing else changes,
/// and a second destruction of the same slot is a no-op.
pub open spec fn destroyed_at(pre: RegView, post: RegView, i: int) -> bool {
    if live_at(pre, i) {
        post == pre.update(i, None::<SessionView>)
    } else {
        post == pre
    }
}

/// Lifecycle state of a pairing slot.
pub ghost enum Lifecycle {
    /// Live, receiver absent.
    Created,
    /// Live, receiver present.
    Paired,
    /// Removed from the registry; terminal.
    Destroyed,
}

/// The lifecycle state of slot `i` in `rv`.
pub open spec fn lifecycle_at(rv: RegView, i: int) -> Lifecycle {
    if !live_at(rv, i) {
        Lifecycle::Destroyed
    } else if sess_at(rv, i).receiver is Some {
        Lifecycle::Paired
    } else {
        Lifecycle::Created
    }
}

/// A successful claim is the transition from Created to Paired: it fires
/// only on a slot in state Created, moves exactly that slot to Paired,
/// and a refused claim moves nothing. Paired can never revert to
/// Created, since no step clears a receiver short of destruction.
pub proof fn lemma_claim_lifecycle(
    pre: RegView,
    post: RegView,
    i: int,
    conn: ConnId,
    r: Result<ConnId, ClaimError>,
)
    requires
        claim_step(pre, post, i, conn, r),
    ensures
        r is Ok ==> lifecycle_at(pre, i) is Created && lifecycle_at(post, i) is Paired,
        r is Err ==> post == pre,
        forall|k: int|
            0 <= k < pre.len() && k != i ==> lifecycle_at(post, k) == lifecycle_at(pre, k),
{
}

/// Destruction moves its slot to Destroyed and no other slot anywhere.
pub proof fn lemma_destroy_lifecycle(pre: RegView, post: RegView, i: int)
    requires
        destroyed_at(pre, post, i),
    ensures
        lifecycle_at(post, i) is Destroyed,
        forall|k: int|
            0 <= k < pre.len() && k != i ==> lifecycle_at(post, k) == lifecycle_at(pre, k),
{
}

/// Destroyed is terminal: no registry step — a claim, a destruction, or
/// an append-only creation — revives a dead slot.
pub proof fn lemma_destroyed_is_terminal(pre: RegView, post: RegView, k: int)
    requires
        0 <= k < pre.len(),
        !live_at(pre, k),
        (exists|i: int, conn: ConnId, r: Result<ConnId, ClaimError>|
            claim_step(pre, post, i, conn, r)) || (exists|i: int| destroyed_at(pre, post, i)) || (
        post.len() >= pre.len() && (forall|j: int| 0 <= j < pre.len() ==> post[j] == pre[j])),
    ensures
        !live_at(post, k),
{
    if exists|i: int, conn: ConnId, r: Result<ConnId, ClaimError>| claim_step(pre, post, i, conn, r) {
        let (i, conn, r) = choose|i: int, conn: ConnId, r: Result<ConnId, ClaimError>|
            claim_step(pre, post, i, conn, r);
        assert(post[k] == pre[k]);
    } else if exists|i: int| destroyed_at(pre, post, i) {
        let i = choose|i: int| destroyed_at(pre, post, i);
        if i == k {
        } else {
            assert(post[k] == pre[k]);
        }
    } else {
        assert(post[k] == pre[k]);
    }
}

/// Validity is preserved by any step that touches one slot without
/// changing its code: killing the slot or claiming its receiver.
proof fn lemma_wf_preserved_by_slot_step(pre: RegView, post: RegView, i: int)
    requires
        codes_unique(pre),
        codes_valid(pre),
        post.len() == pre.len(),
        forall|j: int| 0 <= j < pre.len() && j != i ==> post[j] == pre[j],
        live_at(post, i) ==> live_at(pre, i) && sess_at(post, i).code == sess_at(pre, i).code,
    ensures
        codes_unique(post),
        codes_valid(post),
{
    assert forall|a: int, b: int|
        live_at(post, a) && live_at(post, b) && a != b implies sess_at(post, a).code != sess_at(
        post,
        b,
    ).code by {
        assert(live_at(pre, a) && sess_at(post, a).code == sess_at(pre, a).code);
        assert(live_at(pre, b) && sess_at(post, b).code == sess_at(pre, b).code);
    }
    assert forall|a: int| live_at(post, a) implies valid_code(sess_at(post, a).code) by {
        assert(live_at(pre, a) && sess_at(post, a).code == sess_at(pre, a).code);
    }
}

/// Why a receiver claim was refused.
#[derive(Clone, Copy, PartialEq, Eq, Structural, Debug)]
pub enum ClaimError {
    /// The referenced session no longer resolves.
    Destroyed,
    /// Another connection already holds the receiver slot.
    NotAvailable,
}

/// A non-owning reference to a session: an index into the registry's
/// arena. Resolving it fails once the slot has been destroyed.
#[derive(Clone, Copy, PartialEq, Eq, Structural, Debug)]
pub struct SessionRef {
    /// Position of the referenced slot in the arena.
    pub idx: usize,
}

/// What `find` reports about a session: its creation metadata, and whether
/// the receiver slot is still free.
#[derive(Debug, PartialEq, Eq)]
pub struct SessionInfo {
    /// Descriptive name of the announced payload.
    pub file_name: String,
    /// Media type of the announced payload.
    pub file_mime: String,
    /// Size in bytes of the announced payload.
    pub file_size: u64,
    /// True exactly when the session has no receiver attached yet.
    pub available: bool,
}

/// The keyed store of sessions. It owns every live session; everything
/// else holds [`SessionRef`]s.
pub struct Registry {
    slots: Vec<Option<Session>>,
}

impl View for Registry {
    type V = RegView;

    closed spec fn view(&self) -> RegView {
        self.slots@.map_values(
            |s: Option<Session>|
                match s {
                    Some(x) => Some(x@),
                    None => None,
                },
        )
    }
}

impl Registry {
    /// Validity of a registry: live codes are pairwise distinct and
    /// well-shaped. Established at construction, preserved by every
    /// operation.
    pub open spec fn wf(&self) -> bool {
        codes_unique(self@) && codes_valid(self@)
    }

    /// An empty registry: no sessions, no slots.
    pub fn new() -> (r: Registry)
        ensures
            r@.len() == 0,
            r.wf(),
    {
        let r = Registry { slots: Vec::new() };
        proof {
            assert(r@.len() == 0);
        }
        r
    }

    /// Exact lookup by code. Reports a reference to the unique live
    /// session keyed by `code`, or nothing when no live session bears it.
    pub fn find(&self, code: &String) -> (r: Option<SessionRef>)
        ensures
            match r {
                Some(sref) => live_at(self@, sref.idx as int) && sess_at(
                    self@,
                    sref.idx as int,
                ).code == code@,
                None => !code_live(self@, code@),
            },
    {
        let n = self.slots.len();
        let mut i: usize = 0;
        while i < n
            invariant
                n == self.slots.len(),
                i <= n,
                forall|j: int|
                    0 <= j < i ==> !(live_at(self@, j) && sess_at(self@, j).code == code@),
            decreases n - i,
        {
            match &self.slots[i] {
                Some(sess) => {
                    if sess.code == *code {
                        return Some(SessionRef { idx: i });
                    }
                },
                None => {},
            }
            i = i + 1;
        }
        None
    }

    /// A candidate code no live session bears yet. Draws codes from the
    /// random source, rejecting any already present, until a free one
    /// appears; a collision is expected on roughly one draw in
    /// 36^CODE_LEN per live session, so the retry bound is never reached
    /// in practice. `None` only when the random source fails or the bound
    /// is exhausted.
    fn fresh_code(&self) -> (r: Option<String>)
        ensures
            r matches Some(code) ==> valid_code(code@) && !code_live(self@, code@),
    {
        let mut attempts: usize = 0;
        while attempts < MAX_CODE_ATTEMPTS
            decreases MAX_CODE_ATTEMPTS - attempts,
        {
            let code = match gen_code() {
                Some(c) => c,
                None => {
                    return None;
                },
            };
            match self.find(&code) {
                None => {
                    return Some(code);
                },
                Some(_) => {},
            }
            attempts = attempts + 1;
        }
        None
    }

    /// Create a session: generate a fresh code, construct the session in
    /// state Created (receiver absent), and install it under the code.
    /// Generation and insertion form one critical section, so no two
    /// concurrent creations can claim the same code. Returns the code and
    /// a non-owning reference; `None` only when no code could be drawn
    /// (the random source failed, or every candidate collided within the
    /// retry bound), in which case nothing changes.
    pub fn create(
        &mut self,
        file_name: String,
        file_mime: String,
        file_size: u64,
        sender: ConnId,
    ) -> (r: Option<(SessionRef, String)>)
        requires
            old(self).wf(),
        ensures
            final(self).wf(),
            match r {
                Some((sref, code)) => create_ok(
                    old(self)@,
                    final(self)@,
                    sref.idx as int,
                    code@,
                    file_name@,
                    file_mime@,
                    file_size,
                    sender,
                ),
                None => final(self)@ == old(self)@,
            },
    {
        let code = match self.fresh_code() {
            Some(c) => c,
            None => {
                return None;
            },
        };
        let idx = self.slots.len();
        let sess = Session {
            code: code.clone(),
            file_name,
            file_mime,
            file_size,
            sender,
            receiver: None,
        };
        self.slots.push(Some(sess));
        proof {
            let pre = old(self)@;
            let post = self@;
            let n = pre.len();
            assert(post =~= pre.push(
                Some(created_session(code@, file_name@, file_mime@, file_size, sender)),
            ));
            assert forall|i: int, j: int|
                live_at(post, i) && live_at(post, j) && i != j implies sess_at(post, i).code
                != sess_at(post, j).code by {
                if i < n && j < n {
                    assert(live_at(pre, i) && live_at(pre, j));
                } else if i == n {
                    assert(live_at(pre, j) && sess_at(pre, j) == sess_at(post, j));
                    assert(sess_at(post, i).code == code@);
                    assert(!(live_at(pre, j) && sess_at(pre, j).code == code@));
                } else {
                    assert(live_at(pre, i) && sess_at(pre, i) == sess_at(post, i));
                    assert(sess_at(post, j).code == code@);
                    assert(!(live_at(pre, i) && sess_at(pre, i).code == code@));
                }
            }
            assert forall|i: int| live_at(post, i) implies valid_code(sess_at(post, i).code) by {
                if i < n {
                    assert(live_at(pre, i) && sess_at(pre, i) == sess_at(post, i));
                } else {
                    assert(sess_at(post, i).code == code@);
                }
            }
        }
        Some((SessionRef { idx }, code))
    }

    /// Whether `sref` still resolves to a live session.
    pub fn is_live(&self, sref: SessionRef) -> (b: bool)
        ensures
            b == live_at(self@, sref.idx as int),
    {
        sref.idx < self.slots.len() && self.slots[sref.idx].is_some()
    }

    /// Resolve `sref` and report the session's metadata together with
    /// whether its receiver slot is still free; fails once the session has
    /// been destroyed.
    pub fn describe(&self, sref: SessionRef) -> (r: Option<SessionInfo>)
        ensures
            r is Some <==> live_at(self@, sref.idx as int),
            r matches Some(info) ==> {
                let s = sess_at(self@, sref.idx as int);
                &&& info.file_name@ == s.file_name
                &&& info.file_mime@ == s.file_mime
                &&& info.file_size == s.file_size
                &&& info.available == (s.receiver is None)
            },
    {
        if sref.idx >= self.slots.len() {
            return None;
        }
        match &self.slots[sref.idx] {
            Some(sess) => Some(
                SessionInfo {
                    file_name: sess.file_name.clone(),
                    file_mime: sess.file_mime.clone(),
                    file_size: sess.file_size,
                    available: sess.receiver.is_none(),
                },
            ),
            None => None,
        }
    }

    /// Resolve `sref` and report the session's sender connection; fails
    /// once the session has been destroyed.
    pub fn sender_of(&self, sref: SessionRef) -> (r: Option<ConnId>)
        ensures
            r is Some <==> live_at(self@, sref.idx as int),
            r matches Some(c) ==> c == sess_at(self@, sref.idx as int).sender,
    {
        if sref.idx >= self.slots.len() {
            return None;
        }
        match &self.slots[sref.idx] {
            Some(sess) => Some(sess.sender),
            None => None,
        }
    }

    /// Resolve `sref` and report the session's receiver slot (which may
    /// itself be empty); fails once the session has been destroyed.
    pub fn receiver_of(&self, sref: SessionRef) -> (r: Option<Option<ConnId>>)
        ensures
            r is Some <==> live_at(self@, sref.idx as int),
            r matches Some(recv) ==> recv == sess_at(self@, sref.idx as int).receiver,
    {
        if sref.idx >= self.slots.len() {
            return None;
        }
        match &self.slots[sref.idx] {
            Some(sess) => Some(sess.receiver),
            None => None,
        }
    }

    /// Atomically claim the receiver slot of the session `sref` refers to
    /// for `conn`: check that the session is live and has no receiver and
    /// install `conn`, as one indivisible step. On success reports the
    /// session's sender connection.
    pub fn claim(&mut self, sref: SessionRef, conn: ConnId) -> (r: Result<ConnId, ClaimError>)
        requires
            old(self).wf(),
        ensures
            final(self).wf(),
            claim_step(old(self)@, final(self)@, sref.idx as int, conn, r),
    {
        if sref.idx >= self.slots.len() {
            return Err(ClaimError::Destroyed);
        }
        let r: Result<ConnId, ClaimError>;
        let slot = &mut self.slots[sref.idx];
        match slot {
            None => {
                r = Err(ClaimError::Destroyed);
            },
            Some(sess) => {
                if sess.receiver.is_some() {
                    r = Err(ClaimError::NotAvailable);
                } else {
                    let sender = sess.sender;
                    sess.receiver = Some(conn);
                    r = Ok(sender);
                }
            },
        }
        proof {
            let pre = old(self)@;
            let post = self@;
            let i = sref.idx as int;
            if live_at(pre, i) && sess_at(pre, i).receiver is None {
                assert(post =~= pre.update(i, Some(with_receiver(sess_at(pre, i), conn))));
            } else {
                assert(post =~= pre);
            }
            lemma_wf_preserved_by_slot_step(pre, post, i);
        }
        r
    }

    /// Destroy the session `sref` refers to: its exclusive destruction
    /// path, terminal and idempotent. The slot is dead afterwards and
    /// every later resolution of a reference to it fails.
    pub fn destroy(&mut self, sref: SessionRef)
        requires
            old(self).wf(),
        ensures
            final(self).wf(),
            destroyed_at(old(self)@, final(self)@, sref.idx as int),
            !live_at(final(self)@, sref.idx as int),
    {
        if sref.idx >= self.slots.len() {
            return;
        }
        let slot = &mut self.slots[sref.idx];
        *slot = None;
        proof {
            let pre = old(self)@;
            let post = self@;
            let i = sref.idx as int;
            if live_at(pre, i) {
                assert(post =~= pre.update(i, None::<SessionView>));
            } else {
                assert(post =~= pre);
            }
            lemma_wf_preserved_by_slot_step(pre, post, i);
        }
    }

    /// Idempotent removal by code: destroys the unique live session keyed
    /// by `code`, if there is one.
    pub fn remove(&mut self, code: &String)
        requires
            old(self).wf(),
        ensures
            final(self).wf(),
            !code_live(final(self)@, code@),
            final(self)@.len() == old(self)@.len(),
            forall|i: int|
                live_at(final(self)@, i) <==> live_at(old(self)@, i) && sess_at(old(self)@, i).code
                    != code@,
            forall|i: int|
                live_at(final(self)@, i) ==> sess_at(final(self)@, i) == sess_at(old(self)@, i),
    {
        match self.find(code) {
            Some(sref) => {
                self.destroy(sref);
                proof {
                    assert forall|i: int|
                        live_at(self@, i) implies live_at(old(self)@, i) && sess_at(old(self)@, i).code
                        != code@ by {
                        assert(i != sref.idx as int);
                    }
                }
            },
            None => {},
        }
    }

    /// Uniqueness of codes: among the live sessions of a valid registry,
    /// no two distinct slots bear the same code.
    pub proof fn lemma_code_uniqueness(reg: Registry, i: int, j: int)
        requires
            reg.wf(),
            live_at(reg@, i),
            live_at(reg@, j),
            i != j,
        ensures
            sess_at(reg@, i).code != sess_at(reg@, j).code,
    {
    }
}

/// At-most-one receiver: on a session with a free receiver slot, of two
/// consecutive claim attempts exactly the first succeeds, the second is
/// refused as not available, and the receiver recorded afterwards is the
/// first claimant's connection.
pub proof fn lemma_at_most_one_receiver(
    r0: RegView,
    r1: RegView,
    r2: RegView,
    i: int,
    c1: ConnId,
    c2: ConnId,
    res1: Result<ConnId, ClaimError>,
    res2: Result<ConnId, ClaimError>,
)
    requires
        live_at(r0, i),
        sess_at(r0, i).receiver is None,
        claim_step(r0, r1, i, c1, res1),
        claim_step(r1, r2, i, c2, res2),
    ensures
        res1 is Ok,
        res2 == Err::<ConnId, ClaimError>(ClaimError::NotAvailable),
        live_at(r2, i) && sess_at(r2, i).receiver == Some(c1),
{
    assert(live_at(r1, i));
    assert(sess_at(r1, i) == with_receiver(sess_at(r0, i), c1));
}

/// Destruction finality: destroying a live session frees its slot and
/// retires its code, so a later `find` by the old code reports nothing
/// (by `find`'s contract) and a later resolution of any reference to the
/// slot fails, making every `forward` through it report destruction (by
/// the forward contracts).
pub proof fn lemma_destruction_finality(pre: RegView, post: RegView, i: int)
    requires
        codes_unique(pre),
        live_at(pre, i),
        destroyed_at(pre, post, i),
    ensures
        !live_at(post, i),
        !code_live(post, sess_at(pre, i).code),
{
    assert forall|j: int| !(live_at(post, j) && sess_at(post, j).code == sess_at(pre, i).code) by {
        if live_at(post, j) {
            assert(j != i);
            assert(live_at(pre, j) && sess_at(pre, j) == sess_at(post, j));
        }
    }
}

} // verus!
