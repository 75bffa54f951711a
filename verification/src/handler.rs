//! Per-connection handler logic for the two roles.
//!
//! A [`SenderHandler`] serves one sender connection: it creates a session
//! (at most once), relays outgoing payloads to the attached receiver, and
//! destroys the session when its connection goes away. A
//! [`ReceiverHandler`] serves one receiver connection: it locates a session
//! by code, claims the receiver slot exactly once, relays payloads to the
//! sender, and destroys the session on disconnect only if it had claimed
//! it.
//!
//! Handlers return what is to be delivered — a [`Delivery`] names the peer
//! connection and carries the payload verbatim — and the transport around
//! the library performs the sends.

use vstd::prelude::*;

use crate::registry::{
    code_live, create_ok, destroyed_at, live_at, sess_at, with_receiver, ClaimError, ConnId,
    RegView, Registry, SessionInfo, SessionRef,
};

verus! {

/// Why a sender operation failed, as reported to the sender connection.
#[derive(Clone, Copy, PartialEq, Eq, Structural, Debug)]
pub enum SenderError {
    /// `new`: this connection already created a session.
    Existed,
    /// `forward`: no session was ever created on this connection.
    NotExists,
    /// `forward`: the session no longer resolves.
    Destroyed,
    /// `forward`: no receiver has attached to the session yet.
    NoReceiver,
    /// `new`: the random code source failed; fatal in practice.
    SourceExhausted,
}

impl SenderError {
    /// The machine-stable reason string carried by the error event.
    pub fn reason(&self) -> (r: &'static str)
        ensures
            match self {
                SenderError::Existed => r@ == "existed"@,
                SenderError::NotExists => r@ == "not exists"@,
                SenderError::Destroyed => r@ == "destroyed"@,
                SenderError::NoReceiver => r@ == "no receiver"@,
                SenderError::SourceExhausted => r@ == "source exhausted"@,
            },
    {
        match self {
            SenderError::Existed => "existed",
            SenderError::NotExists => "not exists",
            SenderError::Destroyed => "destroyed",
            SenderError::NoReceiver => "no receiver",
            SenderError::SourceExhausted => "source exhausted",
        }
    }
}

/// Why a receiver operation failed, as reported to the receiver
/// connection.
#[derive(Clone, Copy, PartialEq, Eq, Structural, Debug)]
pub enum ReceiverError {
    /// `find`, `connect`: this connection already claimed a session.
    Active,
    /// `find`: no live session bears the code.
    NotFound,
    /// `connect`, `forward`: the session no longer resolves.
    Destroyed,
    /// `connect`: no session was ever found on this connection.
    NoCandidate,
    /// `connect`: another connection already holds the receiver slot.
    NotAvailable,
    /// `forward`: this connection never claimed a session.
    NotActive,
    /// `forward`: no candidate session is held.
    NotExists,
}

impl ReceiverError {
    /// The machine-stable reason string carried by the error event.
    pub fn reason(&self) -> (r: &'static str)
        ensures
            match self {
                ReceiverError::Active => r@ == "active"@,
                ReceiverError::NotFound => r@ == "not found"@,
                ReceiverError::Destroyed => r@ == "destroyed"@,
                ReceiverError::NoCandidate => r@ == "no candidate"@,
                ReceiverError::NotAvailable => r@ == "not available"@,
                ReceiverError::NotActive => r@ == "not active"@,
                ReceiverError::NotExists => r@ == "not exists"@,
            },
    {
        match self {
            ReceiverError::Active => "active",
            ReceiverError::NotFound => "not found",
            ReceiverError::Destroyed => "destroyed",
            ReceiverError::NoCandidate => "no candidate",
            ReceiverError::NotAvailable => "not available",
            ReceiverError::NotActive => "not active",
            ReceiverError::NotExists => "not exists",
        }
    }
}

/// A relay instruction: hand `payload` to connection `to`, verbatim.
pub struct Delivery<P> {
    /// The peer connection the payload is owed to.
    pub to: ConnId,
    /// The payload, untouched.
    pub payload: P,
}

/// State of one sender connection: its identity and the local slot that
/// holds, at most once, a non-owning reference to the session it created.
pub struct SenderHandler {
    /// The sender connection's identity.
    pub conn: ConnId,
    /// Reference to the session this connection created, if any.
    pub session: Option<SessionRef>,
}

/// Effect of a sender `create` call on the handler and the registry.
pub open spec fn sender_create_step(
    pre: SenderHandler,
    post: SenderHandler,
    rpre: RegView,
    rpost: RegView,
    file_name: Seq<char>,
    file_mime: Seq<char>,
    file_size: u64,
    r: Result<String, SenderError>,
) -> bool {
    match r {
        Ok(code) => {
            &&& pre.session is None
            &&& post.conn == pre.conn
            &&& post.session matches Some(sref) && sref.idx == rpre.len() && create_ok(
                rpre,
                rpost,
                sref.idx as int,
                code@,
                file_name,
                file_mime,
                file_size,
                pre.conn,
            )
        },
        Err(SenderError::Existed) => pre.session is Some && post == pre && rpost == rpre,
        Err(SenderError::SourceExhausted) => pre.session is None && post == pre && rpost == rpre,
        Err(_) => false,
    }
}

impl SenderHandler {
    /// A handler for a fresh sender connection: no session created yet.
    pub fn new(conn: ConnId) -> (h: SenderHandler)
        ensures
            h.conn == conn,
            h.session is None,
    {
        SenderHandler { conn, session: None }
    }

    /// Create this connection's session. Refused with `Existed` when the
    /// local slot already holds one (the idempotent creation guard);
    /// otherwise the registry creates a session under a fresh code, the
    /// reference is stored locally, and the code is returned for the
    /// caller to show out of band.
    pub fn create(
        &mut self,
        reg: &mut Registry,
        file_name: String,
        file_mime: String,
        file_size: u64,
    ) -> (r: Result<String, SenderError>)
        requires
            old(reg).wf(),
        ensures
            final(reg).wf(),
            sender_create_step(
                *old(self),
                *final(self),
                old(reg)@,
                final(reg)@,
                file_name@,
                file_mime@,
                file_size,
                r,
            ),
    {
        if self.session.is_some() {
            return Err(SenderError::Existed);
        }
        match reg.create(file_name, file_mime, file_size, self.conn) {
            Some((sref, code)) => {
                self.session = Some(sref);
                Ok(code)
            },
            None => Err(SenderError::SourceExhausted),
        }
    }

    /// Relay `payload` to the attached receiver. Fails when no session
    /// was created, when the session no longer resolves, or — never
    /// silently — when no receiver has attached; otherwise the payload is
    /// owed verbatim to the receiver connection.
    pub fn forward<P>(&self, reg: &Registry, payload: P) -> (r: Result<Delivery<P>, SenderError>)
        ensures
            self.session is None ==> r == Err::<Delivery<P>, SenderError>(SenderError::NotExists),
            self.session is Some && !live_at(reg@, self.session->0.idx as int) ==> r == Err::<
                Delivery<P>,
                SenderError,
            >(SenderError::Destroyed),
            self.session is Some && live_at(reg@, self.session->0.idx as int) && sess_at(
                reg@,
                self.session->0.idx as int,
            ).receiver is None ==> r == Err::<Delivery<P>, SenderError>(SenderError::NoReceiver),
            self.session is Some && live_at(reg@, self.session->0.idx as int) && sess_at(
                reg@,
                self.session->0.idx as int,
            ).receiver is Some ==> (r matches Ok(d) && d.to == sess_at(
                reg@,
                self.session->0.idx as int,
            ).receiver->0 && d.payload == payload),
    {
        let sref = match self.session {
            None => {
                return Err(SenderError::NotExists);
            },
            Some(sref) => sref,
        };
        match reg.receiver_of(sref) {
            None => Err(SenderError::Destroyed),
            Some(None) => Err(SenderError::NoReceiver),
            Some(Some(peer)) => Ok(Delivery { to: peer, payload }),
        }
    }

    /// Clean up when the sender connection goes away: if this connection's
    /// session still resolves it is destroyed, and the attached receiver,
    /// if any, is owed a destruction notice. Idempotent.
    pub fn disconnect(&self, reg: &mut Registry) -> (r: Option<ConnId>)
        requires
            old(reg).wf(),
        ensures
            final(reg).wf(),
            match self.session {
                None => r is None && final(reg)@ == old(reg)@,
                Some(sref) => destroyed_at(old(reg)@, final(reg)@, sref.idx as int) && r == (
                if live_at(old(reg)@, sref.idx as int) {
                    sess_at(old(reg)@, sref.idx as int).receiver
                } else {
                    None
                }),
            },
    {
        let sref = match self.session {
            None => {
                return None;
            },
            Some(sref) => sref,
        };
        match reg.receiver_of(sref) {
            None => None,
            Some(recv) => {
                reg.destroy(sref);
                recv
            },
        }
    }
}

/// State of one receiver connection: its identity, the local slot that
/// holds the candidate session reference produced by `find` (possibly
/// stale, unconfirmed until `connect`), and the `active` flag that is set
/// exactly once, atomically with claiming the receiver slot, and never
/// cleared.
pub struct ReceiverHandler {
    /// The receiver connection's identity.
    pub conn: ConnId,
    /// Candidate session reference stored by `find`.
    pub candidate: Option<SessionRef>,
    /// Whether this connection has claimed a receiver slot.
    pub active: bool,
}

/// Effect of a receiver `connect` call on the handler and the registry.
pub open spec fn receiver_connect_step(
    pre: ReceiverHandler,
    post: ReceiverHandler,
    rpre: RegView,
    rpost: RegView,
    r: Result<ConnId, ReceiverError>,
) -> bool {
    if pre.active {
        r == Err::<ConnId, ReceiverError>(ReceiverError::Active) && post == pre && rpost == rpre
    } else if pre.candidate is None {
        r == Err::<ConnId, ReceiverError>(ReceiverError::NoCandidate) && post == pre && rpost
            == rpre
    } else {
        let i = pre.candidate->0.idx as int;
        if !live_at(rpre, i) {
            r == Err::<ConnId, ReceiverError>(ReceiverError::Destroyed) && post == pre && rpost
                == rpre
        } else if sess_at(rpre, i).receiver is Some {
            r == Err::<ConnId, ReceiverError>(ReceiverError::NotAvailable) && post == pre && rpost
                == rpre
        } else {
            &&& r == Ok::<ConnId, ReceiverError>(sess_at(rpre, i).sender)
            &&& post.conn == pre.conn
            &&& post.candidate == pre.candidate
            &&& post.active
            &&& rpost == rpre.update(i, Some(with_receiver(sess_at(rpre, i), pre.conn)))
        }
    }
}

impl ReceiverHandler {
    /// Validity of a receiver handler: the `active` flag is only ever set
    /// while a candidate is held.
    pub open spec fn wf(&self) -> bool {
        self.active ==> self.candidate is Some
    }

    /// A handler for a fresh receiver connection: no candidate, not
    /// active.
    pub fn new(conn: ConnId) -> (h: ReceiverHandler)
        ensures
            h.conn == conn,
            h.candidate is None,
            !h.active,
            h.wf(),
    {
        ReceiverHandler { conn, candidate: None, active: false }
    }

    /// Locate a session by code. Refused with `Active` once this
    /// connection has claimed a slot — a receiver pairs at most once. On
    /// success the candidate reference is stored locally, overwriting any
    /// prior candidate, and the session's metadata is reported together
    /// with whether its receiver slot is still free. The session itself
    /// is not changed: finding does not claim.
    pub fn find(&mut self, reg: &Registry, code: &String) -> (r: Result<SessionInfo, ReceiverError>)
        requires
            old(self).wf(),
        ensures
            final(self).wf(),
            final(self).conn == old(self).conn,
            final(self).active == old(self).active,
            old(self).active ==> r == Err::<SessionInfo, ReceiverError>(ReceiverError::Active)
                && *final(self) == *old(self),
            !old(self).active && !code_live(reg@, code@) ==> r == Err::<SessionInfo, ReceiverError>(
                ReceiverError::NotFound,
            ) && *final(self) == *old(self),
            !old(self).active && code_live(reg@, code@) ==> (final(self).candidate matches Some(
                sref,
            ) && live_at(reg@, sref.idx as int) && sess_at(reg@, sref.idx as int).code == code@ && (
            r matches Ok(info) && {
                let s = sess_at(reg@, sref.idx as int);
                &&& info.file_name@ == s.file_name
                &&& info.file_mime@ == s.file_mime
                &&& info.file_size == s.file_size
                &&& info.available == (s.receiver is None)
            })),
    {
        if self.active {
            return Err(ReceiverError::Active);
        }
        let sref = match reg.find(code) {
            None => {
                return Err(ReceiverError::NotFound);
            },
            Some(sref) => sref,
        };
        self.candidate = Some(sref);
        match reg.describe(sref) {
            Some(info) => Ok(info),
            None => Err(ReceiverError::Destroyed),
        }
    }

    /// Claim the candidate session: check that it still resolves and has
    /// no receiver, attach this connection as its receiver, and set the
    /// local `active` flag — one indivisible step, so of several
    /// connections racing for the same session exactly one wins. On
    /// success reports the session's sender connection; both parties are
    /// then owed a `connected` notice.
    pub fn connect(&mut self, reg: &mut Registry) -> (r: Result<ConnId, ReceiverError>)
        requires
            old(self).wf(),
            old(reg).wf(),
        ensures
            final(self).wf(),
            final(reg).wf(),
            receiver_connect_step(*old(self), *final(self), old(reg)@, final(reg)@, r),
    {
        if self.active {
            return Err(ReceiverError::Active);
        }
        let sref = match self.candidate {
            None => {
                return Err(ReceiverError::NoCandidate);
            },
            Some(sref) => sref,
        };
        match reg.claim(sref, self.conn) {
            Err(ClaimError::Destroyed) => Err(ReceiverError::Destroyed),
            Err(ClaimError::NotAvailable) => Err(ReceiverError::NotAvailable),
            Ok(sender) => {
                self.active = true;
                Ok(sender)
            },
        }
    }

    /// Relay `payload` to the session's sender. Fails when this
    /// connection never claimed a session or when the session no longer
    /// resolves (the sender may have disconnected since the claim);
    /// otherwise the payload is owed verbatim to the sender connection.
    pub fn forward<P>(&self, reg: &Registry, payload: P) -> (r: Result<Delivery<P>, ReceiverError>)
        requires
            self.wf(),
        ensures
            !self.active ==> r == Err::<Delivery<P>, ReceiverError>(ReceiverError::NotActive),
            self.active && !live_at(reg@, self.candidate->0.idx as int) ==> r == Err::<
                Delivery<P>,
                ReceiverError,
            >(ReceiverError::Destroyed),
            self.active && live_at(reg@, self.candidate->0.idx as int) ==> (r matches Ok(d) && d.to
                == sess_at(reg@, self.candidate->0.idx as int).sender && d.payload == payload),
    {
        if !self.active {
            return Err(ReceiverError::NotActive);
        }
        let sref = match self.candidate {
            None => {
                return Err(ReceiverError::NotExists);
            },
            Some(sref) => sref,
        };
        match reg.sender_of(sref) {
            None => Err(ReceiverError::Destroyed),
            Some(sender) => Ok(Delivery { to: sender, payload }),
        }
    }

    /// Clean up when the receiver connection goes away: only a connection
    /// that claimed a session destroys it, and the sender is then owed a
    /// destruction notice. A receiver that merely found a session leaves
    /// it available for others.
    pub fn disconnect(&self, reg: &mut Registry) -> (r: Option<ConnId>)
        requires
            self.wf(),
            old(reg).wf(),
        ensures
            final(reg).wf(),
            !self.active ==> r is None && final(reg)@ == old(reg)@,
            self.active ==> {
                let i = self.candidate->0.idx as int;
                &&& destroyed_at(old(reg)@, final(reg)@, i)
                &&& r == (if live_at(old(reg)@, i) {
                    Some(sess_at(old(reg)@, i).sender)
                } else {
                    None::<ConnId>
                })
            },
    {
        if !self.active {
            return None;
        }
        let sref = match self.candidate {
            None => {
                return None;
            },
            Some(sref) => sref,
        };
        match reg.sender_of(sref) {
            None => None,
            Some(sender) => {
                reg.destroy(sref);
                Some(sender)
            },
        }
    }
}

/// Idempotent creation guard: a sender connection whose first `create`
/// succeeded gets `Existed` from a second `create`, and the second call
/// changes nothing — over both calls exactly one session was created.
pub proof fn lemma_idempotent_creation_guard(
    h0: SenderHandler,
    h1: SenderHandler,
    h2: SenderHandler,
    r0: RegView,
    r1: RegView,
    r2: RegView,
    name1: Seq<char>,
    mime1: Seq<char>,
    size1: u64,
    name2: Seq<char>,
    mime2: Seq<char>,
    size2: u64,
    res1: Result<String, SenderError>,
    res2: Result<String, SenderError>,
)
    requires
        h0.session is None,
        res1 is Ok,
        sender_create_step(h0, h1, r0, r1, name1, mime1, size1, res1),
        sender_create_step(h1, h2, r1, r2, name2, mime2, size2, res2),
    ensures
        res2 == Err::<String, SenderError>(SenderError::Existed),
        h2 == h1,
        r2 == r1,
        r1.len() == r0.len() + 1,
{
}

/// Single winner: two receiver connections that both found the same
/// session — live, receiver slot free — and then `connect` one after the
/// other: the first claim succeeds, the second is refused as not
/// available, and the session's receiver is the first claimant's
/// connection.
pub proof fn lemma_single_winner(
    h1pre: ReceiverHandler,
    h1post: ReceiverHandler,
    h2pre: ReceiverHandler,
    h2post: ReceiverHandler,
    r0: RegView,
    r1: RegView,
    r2: RegView,
    i: int,
    res1: Result<ConnId, ReceiverError>,
    res2: Result<ConnId, ReceiverError>,
)
    requires
        !h1pre.active,
        !h2pre.active,
        h1pre.candidate matches Some(sref1) && sref1.idx == i,
        h2pre.candidate matches Some(sref2) && sref2.idx == i,
        live_at(r0, i),
        sess_at(r0, i).receiver is None,
        receiver_connect_step(h1pre, h1post, r0, r1, res1),
        receiver_connect_step(h2pre, h2post, r1, r2, res2),
    ensures
        res1 is Ok,
        res2 == Err::<ConnId, ReceiverError>(ReceiverError::NotAvailable),
        live_at(r2, i) && sess_at(r2, i).receiver == Some(h1pre.conn),
        h1post.active,
        !h2post.active,
{
    assert(live_at(r1, i));
    assert(sess_at(r1, i) == with_receiver(sess_at(r0, i), h1pre.conn));
}

} // verus!
