//! Typed events carried by a channel's event queue.

use vstd::prelude::*;

verus! {

/// One message on a channel's event queue, sent from the protocol side to the
/// render loop.  `Render` asks for a redraw with the current state; `Resize`
/// carries authoritative geometry reported by the remote terminal.  `Input`
/// and `Shutdown` are reserved variants: the render loop does not interpret
/// them yet and reports them as unsupported instead of aborting.
#[derive(Debug)]
pub enum AppEvent {
    Render,
    Resize(u16, u16),
    Input(Vec<u8>),
    Shutdown,
}

/// Mathematical image of an `AppEvent`, with payload bytes as a sequence.
pub enum EventKind {
    Render,
    Resize { cols: u16, rows: u16 },
    Input { data: Seq<u8> },
    Shutdown,
}

impl View for AppEvent {
    type V = EventKind;

    open spec fn view(&self) -> EventKind {
        match self {
            AppEvent::Render => EventKind::Render,
            AppEvent::Resize(cols, rows) => EventKind::Resize { cols: *cols, rows: *rows },
            AppEvent::Input(data) => EventKind::Input { data: data@ },
            AppEvent::Shutdown => EventKind::Shutdown,
        }
    }
}

} // verus!
