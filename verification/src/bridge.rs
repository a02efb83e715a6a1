//! Per-channel state: geometry and PTY lifecycle, bridging protocol events to
//! the render loop through the event queue.

use vstd::prelude::*;

use crate::events::{AppEvent, EventKind};
use crate::queue::{event_queue, send_event};
use crate::viewport::{lemma_viewport_after_snoc, viewport_after, Viewport};

verus! {

/// Why a channel operation was refused.  Every refusal is surfaced to the
/// remote peer as a failure acknowledgment; none of them ends the connection.
#[derive(Clone, Copy, Debug, PartialEq, Eq, Structural)]
pub enum BridgeError {
    /// The operation needs an established PTY, and none was created yet.
    PtyNotCreated,
    /// A second PTY was requested on the same channel.
    PtyAlreadyCreated,
    /// A requested geometry had a zero dimension; dimensions are always
    /// positive.
    ZeroDimensions,
}

/// State of one application channel: its identity, whether a PTY was
/// established, the current geometry, and the producer side of the event
/// queue feeding the channel's render loop.  The ghost history `sent` records
/// every event this bridge has enqueued, in order.
pub struct ChannelBridge {
    channel_id: u32,
    sender: Option<tokio::sync::mpsc::UnboundedSender<AppEvent>>,
    cols: u16,
    rows: u16,
    sent: Ghost<Seq<EventKind>>,
}

impl ChannelBridge {
    /// The channel identity this bridge was created for.
    pub closed spec fn id(&self) -> u32 {
        self.channel_id
    }

    /// Whether the PTY was established (and with it the render loop's queue).
    pub closed spec fn pty_created(&self) -> bool {
        self.sender is Some
    }

    /// The current geometry as (columns, rows); meaningful once the PTY
    /// exists.
    pub closed spec fn dims(&self) -> (u16, u16) {
        (self.cols, self.rows)
    }

    /// Every event this bridge has enqueued toward its render loop, oldest
    /// first.
    pub closed spec fn sent_events(&self) -> Seq<EventKind> {
        self.sent@
    }

    /// Once the PTY exists, the geometry is positive in both dimensions.
    /// The recorded geometry always agrees with the enqueued history: a
    /// render loop that consumes every event sent so far ends at exactly
    /// this geometry.
    #[verifier::type_invariant]
    spec fn wf(&self) -> bool {
        &&& self.pty_created() ==> self.dims().0 > 0 && self.dims().1 > 0
        &&& viewport_after(Viewport::spec_at_origin(0, 0), self.sent@) == Viewport::spec_at_origin(
            self.dims().0,
            self.dims().1,
        )
    }

    /// The current geometry.  Once the PTY exists it is positive in both
    /// dimensions — a zero-sized viewport can never be negotiated or kept —
    /// and it stays synchronized with the render loop: consuming every event
    /// enqueued so far leaves the loop's viewport at exactly this geometry.
    pub fn dimensions(&self) -> (d: (u16, u16))
        ensures
            d == self.dims(),
            self.pty_created() ==> d.0 > 0 && d.1 > 0,
            self.pty_created() ==> viewport_after(Viewport::spec_at_origin(0, 0),
                self.sent_events()) == Viewport::spec_at_origin(d.0, d.1),
    {
        proof {
            use_type_invariant(self);
        }
        (self.cols, self.rows)
    }

    /// The sole constructor, and the only valid initial state: no PTY, no
    /// geometry, nothing enqueued.
    pub fn new(channel_id: u32) -> (b: ChannelBridge)
        ensures
            b.id() == channel_id,
            !b.pty_created(),
            b.sent_events() == Seq::<EventKind>::empty(),
    {
        ChannelBridge {
            channel_id,
            sender: None,
            cols: 0,
            rows: 0,
            sent: Ghost(Seq::empty()),
        }
    }

    /// Forward raw input bytes toward the hosted application, as an `Input`
    /// event on the queue.  Before the PTY exists the data is refused — not
    /// buffered — so protocol misuse is signaled instead of hidden.
    pub fn stdin(&mut self, data: &[u8]) -> (r: Result<(), BridgeError>)
        ensures
            final(self).id() == old(self).id(),
            final(self).pty_created() == old(self).pty_created(),
            final(self).dims() == old(self).dims(),
            if old(self).pty_created() {
                r is Ok && final(self).sent_events() == old(self).sent_events().push(
                    EventKind::Input { data: data@ },
                )
            } else {
                r matches Err(e) && e == BridgeError::PtyNotCreated
                    && final(self).sent_events() == old(self).sent_events()
            },
    {
        proof {
            use_type_invariant(&*self);
        }
        match &self.sender {
            Some(sender) => {
                send_event(sender, AppEvent::Input(vstd::slice::slice_to_vec(data)));
                proof {
                    lemma_viewport_after_snoc(
                        Viewport::spec_at_origin(0, 0),
                        self.sent@,
                        EventKind::Input { data: data@ },
                    );
                }
                self.sent = Ghost(self.sent@.push(EventKind::Input { data: data@ }));
                Ok(())
            },
            None => Err(BridgeError::PtyNotCreated),
        }
    }

    /// Establish the PTY with the negotiated geometry: at most once per
    /// channel.  On success the event queue is created and an initial
    /// `Resize` followed by a `Render` is enqueued, so the first frame
    /// reflects the negotiated size rather than a default.  The returned
    /// receiver is the consumer side for the channel's render loop.
    pub fn create_pty(&mut self, cols: u16, rows: u16) -> (r: Result<
        tokio::sync::mpsc::UnboundedReceiver<AppEvent>,
        BridgeError,
    >)
        ensures
            final(self).id() == old(self).id(),
            if old(self).pty_created() {
                r matches Err(e) && e == BridgeError::PtyAlreadyCreated
                    && final(self).pty_created() && final(self).dims() == old(self).dims()
                    && final(self).sent_events() == old(self).sent_events()
            } else if cols == 0 || rows == 0 {
                r matches Err(e) && e == BridgeError::ZeroDimensions
                    && !final(self).pty_created()
                    && final(self).sent_events() == old(self).sent_events()
            } else {
                r is Ok && final(self).pty_created() && final(self).dims() == (cols, rows)
                    && final(self).sent_events() == old(self).sent_events() + seq![
                    EventKind::Resize { cols, rows },
                    EventKind::Render,
                ]
            },
    {
        proof {
            use_type_invariant(&*self);
        }
        if self.sender.is_some() {
            return Err(BridgeError::PtyAlreadyCreated);
        }
        if cols == 0 || rows == 0 {
            return Err(BridgeError::ZeroDimensions);
        }
        let (sender, receiver) = event_queue();
        send_event(&sender, AppEvent::Resize(cols, rows));
        send_event(&sender, AppEvent::Render);
        proof {
            let origin = Viewport::spec_at_origin(0, 0);
            lemma_viewport_after_snoc(origin, self.sent@, EventKind::Resize { cols, rows });
            lemma_viewport_after_snoc(
                origin,
                self.sent@.push(EventKind::Resize { cols, rows }),
                EventKind::Render,
            );
            assert(self.sent@ + seq![EventKind::Resize { cols, rows }, EventKind::Render]
                =~= self.sent@.push(EventKind::Resize { cols, rows }).push(EventKind::Render));
        }
        *self = ChannelBridge {
            channel_id: self.channel_id,
            sender: Some(sender),
            cols,
            rows,
            sent: Ghost(self.sent@ + seq![EventKind::Resize { cols, rows }, EventKind::Render]),
        };
        Ok(receiver)
    }

    /// Forward an authoritative geometry change from the remote terminal.
    /// Refused before the PTY exists; otherwise the new geometry is recorded
    /// and a `Resize` event is enqueued without blocking.
    pub fn resize(&mut self, cols: u16, rows: u16) -> (r: Result<(), BridgeError>)
        ensures
            final(self).id() == old(self).id(),
            final(self).pty_created() == old(self).pty_created(),
            if !old(self).pty_created() {
                r matches Err(e) && e == BridgeError::PtyNotCreated
                    && final(self).sent_events() == old(self).sent_events()
                    && final(self).dims() == old(self).dims()
            } else if cols == 0 || rows == 0 {
                r matches Err(e) && e == BridgeError::ZeroDimensions
                    && final(self).sent_events() == old(self).sent_events()
                    && final(self).dims() == old(self).dims()
            } else {
                r is Ok && final(self).dims() == (cols, rows)
                    && final(self).sent_events() == old(self).sent_events().push(
                    EventKind::Resize { cols, rows },
                )
            },
    {
        proof {
            use_type_invariant(&*self);
        }
        if self.sender.is_none() {
            return Err(BridgeError::PtyNotCreated);
        }
        if cols == 0 || rows == 0 {
            return Err(BridgeError::ZeroDimensions);
        }
        let mut taken: Option<tokio::sync::mpsc::UnboundedSender<AppEvent>> = None;
        std::mem::swap(&mut self.sender, &mut taken);
        match taken {
            Some(sender) => {
                send_event(&sender, AppEvent::Resize(cols, rows));
                proof {
                    lemma_viewport_after_snoc(
                        Viewport::spec_at_origin(0, 0),
                        self.sent@,
                        EventKind::Resize { cols, rows },
                    );
                }
                *self = ChannelBridge {
                    channel_id: self.channel_id,
                    sender: Some(sender),
                    cols,
                    rows,
                    sent: Ghost(self.sent@.push(EventKind::Resize { cols, rows })),
                };
                Ok(())
            },
            None => Err(BridgeError::PtyNotCreated),
        }
    }

    /// The channel identity, for callers outside this module.
    pub fn channel_id(&self) -> (id: u32)
        ensures
            id == self.id(),
    {
        self.channel_id
    }
}

} // verus!
