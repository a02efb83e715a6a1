//! Per-connection protocol state machine: one client connection with at most
//! one application channel, translating protocol callbacks into channel
//! operations and their outcomes into acknowledgments.

use vstd::prelude::*;

use crate::bridge::{BridgeError, ChannelBridge};
use crate::events::{AppEvent, EventKind};

verus! {

/// The answer owed to an authentication request.  The trust policy here is a
/// placeholder: every method is accepted.
#[derive(Clone, Copy, Debug, PartialEq, Eq, Structural)]
pub enum AuthDecision {
    Accept,
    Reject,
}

/// Why a connection-level request was refused.
#[derive(Clone, Copy, Debug, PartialEq, Eq, Structural)]
pub enum SessionError {
    /// A second channel-open on the same connection: a protocol-sequence
    /// violation that ends the connection, since the single-channel rule is
    /// foundational.
    DuplicateChannel,
    /// A channel request arrived before any channel was opened; answered
    /// with a failure acknowledgment, the connection stays alive.
    NoChannel,
    /// The channel refused the operation; answered with a failure
    /// acknowledgment, the connection stays alive.
    Channel(BridgeError),
}

/// The protocol-facing lifecycle of one connection.
#[derive(Clone, Copy, Debug, PartialEq, Eq, Structural)]
pub enum SessionState {
    Unauthenticated,
    Authenticated,
    ChannelRequested,
    PtyReady,
}

/// How one channel-open request changes the connection's channel slot: only
/// an empty slot is filled; an occupied one is left exactly as it is.
pub open spec fn open_step(channel: Option<u32>, id: u32) -> Option<u32> {
    match channel {
        None => Some(id),
        Some(existing) => Some(existing),
    }
}

/// The channel slot after a whole sequence of open requests, in order.
pub open spec fn channel_after_opens(channel: Option<u32>, ids: Seq<u32>) -> Option<u32>
    decreases ids.len(),
{
    if ids.len() == 0 {
        channel
    } else {
        channel_after_opens(open_step(channel, ids[0]), ids.drop_first())
    }
}

/// For any sequence of channel-open requests on one connection, only the
/// first takes effect: after any non-empty prefix the channel slot holds the
/// first requested identity, so every later request finds it occupied, fails,
/// and does not replace it.
pub proof fn lemma_single_channel(ids: Seq<u32>, i: int)
    requires
        0 < i <= ids.len(),
    ensures
        channel_after_opens(None, ids.take(i)) == Some(ids[0]),
    decreases i,
{
    let prefix = ids.take(i);
    if i == 1 {
        assert(prefix.len() == 1);
        assert(prefix[0] == ids[0]);
        assert(prefix.drop_first().len() == 0);
        assert(channel_after_opens(open_step(None, prefix[0]), prefix.drop_first()) == Some(
            ids[0],
        ));
    } else {
        lemma_single_channel(ids, i - 1);
        lemma_after_opens_snoc(None, prefix);
        assert(prefix.drop_last() =~= ids.take(i - 1));
        assert(prefix.last() == ids[i - 1]);
    }
}

/// `channel_after_opens` over a non-empty sequence equals one `open_step` on
/// the result for the sequence without its last element.
proof fn lemma_after_opens_snoc(channel: Option<u32>, ids: Seq<u32>)
    requires
        ids.len() > 0,
    ensures
        channel_after_opens(channel, ids) == open_step(
            channel_after_opens(channel, ids.drop_last()),
            ids.last(),
        ),
    decreases ids.len(),
{
    if ids.len() == 1 {
        assert(ids.drop_last().len() == 0);
        assert(ids.drop_first().len() == 0);
    } else {
        lemma_after_opens_snoc(open_step(channel, ids[0]), ids.drop_first());
        assert(ids.drop_first().drop_last() =~= ids.drop_last().drop_first());
        assert(ids.drop_first().last() == ids.last());
    }
}

/// One client connection with at most one application channel.  Protocol
/// callbacks are forwarded to the channel's methods; their outcome is turned
/// into the acknowledgment the protocol requires.
pub struct AppClient {
    authenticated: bool,
    app_channel: Option<ChannelBridge>,
}

impl AppClient {
    /// Whether some authentication request was accepted.
    pub closed spec fn authenticated(&self) -> bool {
        self.authenticated
    }

    /// The connection's channel slot.
    pub closed spec fn channel(&self) -> Option<ChannelBridge> {
        self.app_channel
    }

    /// The identity in the channel slot, if any.
    pub open spec fn channel_id_slot(&self) -> Option<u32> {
        match self.channel() {
            None => None,
            Some(b) => Some(b.id()),
        }
    }

    /// The lifecycle state this connection is in.
    pub open spec fn state(&self) -> SessionState {
        if !self.authenticated() {
            SessionState::Unauthenticated
        } else if self.channel() is None {
            SessionState::Authenticated
        } else if !self.channel()->Some_0.pty_created() {
            SessionState::ChannelRequested
        } else {
            SessionState::PtyReady
        }
    }

    /// The sole constructor: unauthenticated, no channel yet.
    pub fn new() -> (c: AppClient)
        ensures
            !c.authenticated(),
            c.channel() is None,
            c.state() == SessionState::Unauthenticated,
    {
        AppClient { authenticated: false, app_channel: None }
    }

    /// Authentication without credentials: accepted (placeholder policy).
    pub fn auth_none(&mut self, user: &str) -> (d: AuthDecision)
        ensures
            d == AuthDecision::Accept,
            final(self).authenticated(),
            final(self).channel() == old(self).channel(),
    {
        let _ = user;
        self.authenticated = true;
        AuthDecision::Accept
    }

    /// Password authentication: accepted whatever the password (placeholder
    /// policy).
    pub fn auth_password(&mut self, user: &str, password: &str) -> (d: AuthDecision)
        ensures
            d == AuthDecision::Accept,
            final(self).authenticated(),
            final(self).channel() == old(self).channel(),
    {
        let _ = user;
        let _ = password;
        self.authenticated = true;
        AuthDecision::Accept
    }

    /// Public-key authentication: accepted whatever the key (placeholder
    /// policy).  The key itself stays with the transport layer.
    pub fn auth_publickey(&mut self, user: &str) -> (d: AuthDecision)
        ensures
            d == AuthDecision::Accept,
            final(self).authenticated(),
            final(self).channel() == old(self).channel(),
    {
        let _ = user;
        self.authenticated = true;
        AuthDecision::Accept
    }

    /// A request to open the session channel.  Only the first succeeds: a
    /// second one is a protocol-sequence violation, refused without touching
    /// the existing channel, and the connection is to be closed.
    pub fn channel_open_session(&mut self, channel_id: u32) -> (r: Result<bool, SessionError>)
        ensures
            final(self).authenticated() == old(self).authenticated(),
            final(self).channel_id_slot() == open_step(old(self).channel_id_slot(), channel_id),
            if old(self).channel() is None {
                r == Ok::<bool, SessionError>(true)
                    && (final(self).channel() matches Some(b) && b.id() == channel_id
                    && !b.pty_created() && b.sent_events() == Seq::<EventKind>::empty())
            } else {
                r matches Err(e) && e == SessionError::DuplicateChannel
                    && final(self).channel() == old(self).channel()
            },
    {
        if self.app_channel.is_some() {
            return Err(SessionError::DuplicateChannel);
        }
        self.app_channel = Some(ChannelBridge::new(channel_id));
        Ok(true)
    }

    /// Data arriving on the channel: forwarded to the channel's `stdin`.  The
    /// outcome is answered with a success or failure acknowledgment; data
    /// before channel-open or PTY creation is refused, never buffered.
    pub fn data(&mut self, data: &[u8]) -> (r: Result<(), SessionError>)
        ensures
            final(self).authenticated() == old(self).authenticated(),
            final(self).channel_id_slot() == old(self).channel_id_slot(),
            match old(self).channel() {
                None => r matches Err(e) && e == SessionError::NoChannel
                    && final(self).channel() == old(self).channel(),
                Some(b) => {
                    if b.pty_created() {
                        r is Ok && (final(self).channel() matches Some(nb)
                            && nb.pty_created() && nb.dims() == b.dims()
                            && nb.sent_events() == b.sent_events().push(
                            EventKind::Input { data: data@ },
                        ))
                    } else {
                        r matches Err(e) && e == SessionError::Channel(
                            BridgeError::PtyNotCreated,
                        ) && (final(self).channel() matches Some(nb)
                            && !nb.pty_created()
                            && nb.sent_events() == b.sent_events())
                    }
                },
            },
    {
        match &mut self.app_channel {
            Some(bridge) => match bridge.stdin(data) {
                Ok(()) => Ok(()),
                Err(e) => Err(SessionError::Channel(e)),
            },
            None => Err(SessionError::NoChannel),
        }
    }

    /// A PTY request with the negotiated geometry.  On success the channel's
    /// render loop is to be spawned on the returned event-queue receiver,
    /// which already holds the initial `Resize` and `Render` events.
    pub fn pty_request(&mut self, cols: u16, rows: u16) -> (r: Result<
        tokio::sync::mpsc::UnboundedReceiver<AppEvent>,
        SessionError,
    >)
        ensures
            final(self).authenticated() == old(self).authenticated(),
            final(self).channel_id_slot() == old(self).channel_id_slot(),
            match old(self).channel() {
                None => r matches Err(e) && e == SessionError::NoChannel
                    && final(self).channel() == old(self).channel(),
                Some(b) => {
                    if b.pty_created() {
                        r matches Err(e) && e == SessionError::Channel(
                            BridgeError::PtyAlreadyCreated,
                        ) && (final(self).channel() matches Some(nb)
                            && nb.pty_created() && nb.dims() == b.dims()
                            && nb.sent_events() == b.sent_events())
                    } else if cols == 0 || rows == 0 {
                        r matches Err(e) && e == SessionError::Channel(
                            BridgeError::ZeroDimensions,
                        ) && (final(self).channel() matches Some(nb)
                            && !nb.pty_created()
                            && nb.sent_events() == b.sent_events())
                    } else {
                        r is Ok && (final(self).channel() matches Some(nb)
                            && nb.pty_created() && nb.dims() == (cols, rows)
                            && nb.sent_events() == b.sent_events() + seq![
                            EventKind::Resize { cols, rows },
                            EventKind::Render,
                        ])
                    }
                },
            },
    {
        match &mut self.app_channel {
            Some(bridge) => match bridge.create_pty(cols, rows) {
                Ok(receiver) => Ok(receiver),
                Err(e) => Err(SessionError::Channel(e)),
            },
            None => Err(SessionError::NoChannel),
        }
    }

    /// A window-change request: the remote terminal reports new geometry.
    pub fn window_change_request(&mut self, cols: u16, rows: u16) -> (r: Result<(), SessionError>)
        ensures
            final(self).authenticated() == old(self).authenticated(),
            final(self).channel_id_slot() == old(self).channel_id_slot(),
            match old(self).channel() {
                None => r matches Err(e) && e == SessionError::NoChannel
                    && final(self).channel() == old(self).channel(),
                Some(b) => {
                    if !b.pty_created() {
                        r matches Err(e) && e == SessionError::Channel(
                            BridgeError::PtyNotCreated,
                        ) && (final(self).channel() matches Some(nb)
                            && !nb.pty_created()
                            && nb.sent_events() == b.sent_events())
                    } else if cols == 0 || rows == 0 {
                        r matches Err(e) && e == SessionError::Channel(
                            BridgeError::ZeroDimensions,
                        ) && (final(self).channel() matches Some(nb)
                            && nb.dims() == b.dims()
                            && nb.sent_events() == b.sent_events())
                    } else {
                        r is Ok && (final(self).channel() matches Some(nb)
                            && nb.pty_created() && nb.dims() == (cols, rows)
                            && nb.sent_events() == b.sent_events().push(
                            EventKind::Resize { cols, rows },
                        ))
                    }
                },
            },
    {
        match &mut self.app_channel {
            Some(bridge) => match bridge.resize(cols, rows) {
                Ok(()) => Ok(()),
                Err(e) => Err(SessionError::Channel(e)),
            },
            None => Err(SessionError::NoChannel),
        }
    }
}

} // verus!
