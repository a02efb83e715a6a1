//! The render loop: sole consumer of a channel's event queue and sole
//! producer of the channel's outbound byte stream.

use vstd::prelude::*;

use crate::events::{AppEvent, EventKind};
use crate::viewport::{viewport_step, Viewport};

verus! {

/// The terminal control bytes of one complete frame at the given viewport
/// dimensions.  Rendering is deterministic: the bytes depend on the
/// dimensions alone, so two renders at equal dimensions are byte-identical.
pub uninterp spec fn frame_bytes(width: u16, height: u16) -> Seq<u8>;

/// Relies on ratatui: `Terminal::with_options` with a `Viewport::Fixed` area
/// never reads the process's own terminal, and `Terminal::draw` over a
/// `CrosstermBackend` bound to an in-memory byte buffer emits terminal
/// control bytes that are a function of the fixed viewport alone (the
/// rendered widget tree is constant).  Neither call can fail on an in-memory
/// buffer, whose writes always succeed.
#[verifier::external_body]
fn draw_frame(width: u16, height: u16) -> (r: Vec<u8>)
    requires
        width > 0,
        height > 0,
    ensures
        r@ == frame_bytes(width, height),
{
    let mut buf: Vec<u8> = Vec::new();
    let area = ratatui::layout::Rect::new(0, 0, width, height);
    let options = ratatui::TerminalOptions { viewport: ratatui::Viewport::Fixed(area) };
    let backend = ratatui::backend::CrosstermBackend::new(&mut buf);
    let mut terminal = ratatui::Terminal::with_options(backend, options).unwrap();
    let paragraph = ratatui::widgets::Paragraph::new("hello world")
        .block(ratatui::widgets::Block::bordered());
    terminal
        .draw(|frame| frame.render_widget(&paragraph, frame.area()))
        .unwrap();
    drop(terminal);
    buf
}

/// Why the render loop refused to act on an event.
#[derive(Clone, Copy, Debug, PartialEq, Eq, Structural)]
pub enum RenderError {
    /// A redraw was asked for while the viewport is still zero-sized: a
    /// zero-sized viewport is never rendered.
    EmptyViewport,
    /// A resize carried a zero dimension; the viewport keeps its old value.
    ZeroResize,
    /// A reserved event variant with no defined semantics yet.  It degrades
    /// the one affected channel instead of aborting the process.
    UnsupportedEvent,
}

/// State of one channel's render loop: the authoritative viewport.  It is
/// mutated only by consuming events through [`RenderLoop::step`], never
/// externally, and every frame it emits is the full serialization of the
/// current state — no incremental diffing against earlier frames.
pub struct RenderLoop {
    viewport: Viewport,
}

impl RenderLoop {
    /// The viewport the loop currently holds.
    pub closed spec fn viewport(&self) -> Viewport {
        self.viewport
    }

    /// The viewport stays anchored at the origin.
    #[verifier::type_invariant]
    spec fn wf(&self) -> bool {
        self.viewport().origin_anchored()
    }

    /// A fresh render loop: zero-sized viewport, so nothing is rendered until
    /// the first resize reports the negotiated geometry.
    pub fn new() -> (r: RenderLoop)
        ensures
            r.viewport() == Viewport::spec_at_origin(0, 0),
    {
        RenderLoop { viewport: Viewport { x: 0, y: 0, width: 0, height: 0 } }
    }

    /// The current viewport, for callers outside the loop's own module.  It
    /// is always anchored at the origin, whatever events were consumed.
    pub fn current_viewport(&self) -> (v: Viewport)
        ensures
            v == self.viewport(),
            v.origin_anchored(),
    {
        proof {
            use_type_invariant(self);
        }
        self.viewport
    }

    /// Consume one event.  On `Render`, the current state is serialized in
    /// full at the current viewport.  On `Resize` with positive dimensions,
    /// the viewport is overwritten to exactly the received geometry and a
    /// frame at the new size is produced immediately, so no stale frame at
    /// the old size is left visible.  The returned bytes are the channel's
    /// entire outbound stream for this event: the caller writes them to the
    /// byte sink and nothing else ever writes to it.
    pub fn step(&mut self, event: &AppEvent) -> (r: Result<Vec<u8>, RenderError>)
        ensures
            final(self).viewport() == viewport_step(old(self).viewport(), event@),
            match event@ {
                EventKind::Render => {
                    if old(self).viewport().sized() {
                        r matches Ok(f) && f@ == frame_bytes(
                            old(self).viewport().width,
                            old(self).viewport().height,
                        )
                    } else {
                        r == Err::<Vec<u8>, RenderError>(RenderError::EmptyViewport)
                    }
                },
                EventKind::Resize { cols, rows } => {
                    if cols > 0 && rows > 0 {
                        r matches Ok(f) && f@ == frame_bytes(cols, rows)
                    } else {
                        r == Err::<Vec<u8>, RenderError>(RenderError::ZeroResize)
                    }
                },
                _ => r == Err::<Vec<u8>, RenderError>(RenderError::UnsupportedEvent),
            },
    {
        proof {
            use_type_invariant(&*self);
        }
        match event {
            AppEvent::Render => {
                if self.viewport.width > 0 && self.viewport.height > 0 {
                    Ok(draw_frame(self.viewport.width, self.viewport.height))
                } else {
                    Err(RenderError::EmptyViewport)
                }
            },
            AppEvent::Resize(cols, rows) => {
                if *cols > 0 && *rows > 0 {
                    self.viewport = Viewport { x: 0, y: 0, width: *cols, height: *rows };
                    Ok(draw_frame(*cols, *rows))
                } else {
                    Err(RenderError::ZeroResize)
                }
            },
            AppEvent::Input(_) => Err(RenderError::UnsupportedEvent),
            AppEvent::Shutdown => Err(RenderError::UnsupportedEvent),
        }
    }
}

/// Rendering is deterministic: two frames produced at equal viewport
/// dimensions (with the same constant content) are byte-identical.
pub proof fn lemma_render_deterministic(a: Viewport, b: Viewport)
    requires
        a.width == b.width,
        a.height == b.height,
    ensures
        frame_bytes(a.width, a.height) == frame_bytes(b.width, b.height),
{
}

} // verus!
