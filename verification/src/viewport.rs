//! The rectangular viewport bounding what is rendered, and how it evolves as
//! events are consumed.

use vstd::prelude::*;

use crate::events::EventKind;

verus! {

/// The rectangle bounding what is rendered on one channel's terminal.  A
/// channel's viewport is anchored at the origin and spans `width` columns by
/// `height` rows.
#[derive(Clone, Copy, Debug, PartialEq, Eq, Structural)]
pub struct Viewport {
    pub x: u16,
    pub y: u16,
    pub width: u16,
    pub height: u16,
}

impl Viewport {
    /// Anchored at the top-left corner of the terminal.
    pub open spec fn origin_anchored(&self) -> bool {
        self.x == 0 && self.y == 0
    }

    /// Both dimensions positive.  Only such a viewport is ever rendered.
    pub open spec fn sized(&self) -> bool {
        self.width > 0 && self.height > 0
    }

    /// The origin-anchored viewport of the given dimensions.
    pub open spec fn spec_at_origin(width: u16, height: u16) -> Viewport {
        Viewport { x: 0, y: 0, width, height }
    }
}

/// How one event changes the viewport: a resize with positive dimensions
/// overwrites it with exactly the received geometry; every other event leaves
/// it unchanged.
pub open spec fn viewport_step(v: Viewport, e: EventKind) -> Viewport {
    match e {
        EventKind::Resize { cols, rows } => if cols > 0 && rows > 0 {
            Viewport::spec_at_origin(cols, rows)
        } else {
            v
        },
        _ => v,
    }
}

/// The viewport after consuming a whole sequence of events in arrival order.
pub open spec fn viewport_after(v: Viewport, events: Seq<EventKind>) -> Viewport
    decreases events.len(),
{
    if events.len() == 0 {
        v
    } else {
        viewport_after(viewport_step(v, events[0]), events.drop_first())
    }
}

/// Consuming one more event at the end of a sequence is one more step on the
/// viewport the sequence led to.
pub proof fn lemma_viewport_after_snoc(v: Viewport, events: Seq<EventKind>, e: EventKind)
    ensures
        viewport_after(v, events.push(e)) == viewport_step(viewport_after(v, events), e),
    decreases events.len(),
{
    if events.len() == 0 {
        assert(events.push(e).drop_first() =~= Seq::<EventKind>::empty());
        assert(events.push(e)[0] == e);
        assert(viewport_after(viewport_step(v, e), Seq::<EventKind>::empty()) == viewport_step(
            v,
            e,
        ));
        assert(viewport_after(v, events) == v);
    } else {
        assert(events.push(e).drop_first() =~= events.drop_first().push(e));
        assert(events.push(e)[0] == events[0]);
        lemma_viewport_after_snoc(viewport_step(v, events[0]), events.drop_first(), e);
    }
}

/// After any event sequence that ends in a resize with positive dimensions,
/// the viewport equals exactly that last resize's geometry — never an
/// accumulation of earlier values, whatever events came before.
pub proof fn lemma_last_resize_wins(v: Viewport, events: Seq<EventKind>, cols: u16, rows: u16)
    requires
        events.len() > 0,
        events.last() == (EventKind::Resize { cols, rows }),
        cols > 0,
        rows > 0,
    ensures
        viewport_after(v, events) == Viewport::spec_at_origin(cols, rows),
    decreases events.len(),
{
    let rest = events.drop_first();
    if events.len() == 1 {
        assert(events[0] == events.last());
        assert(rest.len() == 0);
        assert(viewport_after(viewport_step(v, events[0]), rest) == viewport_step(v, events[0]));
    } else {
        assert(rest.last() == events.last());
        lemma_last_resize_wins(viewport_step(v, events[0]), rest, cols, rows);
    }
}

} // verus!
