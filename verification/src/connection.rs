//! Connection management: get-or-create semantics over a single lazily
//! established session to a node endpoint. The manager only decides; the
//! caller performs the actual dial and reports its result back, so the
//! decision logic stays free of any transport concern.
//!
//! A failed dial leaves the manager uninitialized, so a later call may retry;
//! once a dial has succeeded, every later connect reuses the live session and
//! no second session is ever created.

use vstd::prelude::*;

use crate::errors::Failure;

verus! {

/// What a connect call must do next: reuse the live session, or dial the
/// endpoint because none exists yet.
#[derive(Clone, Copy, Debug, PartialEq, Eq, Structural)]
pub enum ConnectAction {
    UseExisting,
    Dial,
}

/// Owns the one live session (by its endpoint URL); `None` means
/// uninitialized.
pub struct ConnectionManager {
    session: Option<String>,
}

/// One whole connect operation at the specification level, over the manager's
/// abstract state (the live session's URL, if any): a live session is reused
/// as it is; otherwise the dial's outcome decides. The pair returned is the
/// state afterwards and whether the operation succeeded.
pub open spec fn spec_connect(
    state: Option<Seq<char>>,
    url: Seq<char>,
    dial_ok: bool,
) -> (Option<Seq<char>>, bool) {
    match state {
        Some(live) => (Some(live), true),
        None => if dial_ok {
            (Some(url), true)
        } else {
            (None, false)
        },
    }
}

impl ConnectionManager {
    /// The endpoint URL of the live session, if one exists.
    pub closed spec fn spec_url(&self) -> Option<Seq<char>> {
        match self.session {
            Some(ref u) => Some(u@),
            None => None,
        }
    }

    pub open spec fn is_connected(&self) -> bool {
        self.spec_url() is Some
    }

    /// A fresh manager holds no session.
    pub fn new() -> (r: Self)
        ensures
            !r.is_connected(),
    {
        ConnectionManager { session: None }
    }

    /// The first step of a connect: reuse the live session if there is one,
    /// else ask the caller to dial.
    pub fn plan_connect(&self) -> (r: ConnectAction)
        ensures
            r == (if self.is_connected() {
                ConnectAction::UseExisting
            } else {
                ConnectAction::Dial
            }),
    {
        match &self.session {
            Some(_) => ConnectAction::UseExisting,
            None => ConnectAction::Dial,
        }
    }

    /// The second step, after the caller dialed: a successful dial installs
    /// the session; a failed one is a connection failure and leaves the
    /// manager uninitialized, so a later call may retry.
    pub fn complete_dial(&mut self, url: String, dial_ok: bool) -> (r: Result<(), Failure>)
        requires
            !old(self).is_connected(),
        ensures
            (final(self).spec_url(), r is Ok) == spec_connect(old(self).spec_url(), url@, dial_ok),
            r is Err ==> r == Err::<(), Failure>(Failure::Connection),
    {
        if dial_ok {
            self.session = Some(url);
            Ok(())
        } else {
            Err(Failure::Connection)
        }
    }

    /// The live endpoint URL, if any.
    pub fn current_url(&self) -> (r: Option<&String>)
        ensures
            (match r {
                Some(u) => self.spec_url() == Some(u@),
                None => self.spec_url() is None,
            }),
    {
        self.session.as_ref()
    }

    /// Explicit re-initialization: drops the session, so the next connect
    /// dials anew.
    pub fn reset(&mut self)
        ensures
            !final(self).is_connected(),
    {
        self.session = None;
    }
}

/// Idempotence of connection initialization: once a connect with some URL has
/// succeeded, a second connect with the same URL succeeds without creating a
/// second session — the state it leaves, including the endpoint, is exactly
/// the state the first connect left, whatever a second dial would have done.
pub proof fn lemma_connect_idempotent(
    state: Option<Seq<char>>,
    url: Seq<char>,
    ok1: bool,
    ok2: bool,
)
    requires
        spec_connect(state, url, ok1).1,
    ensures
        spec_connect(spec_connect(state, url, ok1).0, url, ok2) == (
            spec_connect(state, url, ok1).0,
            true,
        ),
{
}

} // verus!
