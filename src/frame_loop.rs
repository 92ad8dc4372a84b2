//! The application loop's decisions: from the loop's state and one event, or
//! one frame attempt, to the next state and what the host must do.
use vstd::prelude::*;
use crate::context::{ContextView, Frame, RenderContext, RenderError};
use crate::event::{Event, Key, SurfaceSize, WindowEvent};

verus! {

/// What the host does next on behalf of the loop.
#[derive(Clone, Debug, PartialEq, Eq)]
pub enum Command {
    /// Nothing to do for this event.
    Idle,
    /// Leave the loop; no frame follows.
    Exit,
    /// Reconfigure the surface to this size.
    Configure(SurfaceSize),
    /// Ask the window for a redraw.
    RequestRedraw,
    /// Update, acquire the surface's next target, and report the outcome
    /// through `SapfireRenderer::finish_frame`.
    Render,
    /// Execute this frame and present it.
    Submit(Frame),
    /// Log this description; the frame is dropped.
    Report(String),
}

/// The loop's state: its context and whether it has ended.
pub struct LoopView {
    pub context: ContextView,
    pub terminated: bool,
}

impl LoopView {
    pub open spec fn wf(self) -> bool {
        self.context.wf()
    }

    pub open spec fn ended(self) -> LoopView {
        LoopView { terminated: true, ..self }
    }

    pub open spec fn with_context(self, context: ContextView) -> LoopView {
        LoopView { context, ..self }
    }

    /// The next state and command for one platform event. Nothing happens
    /// once the loop has ended, nor for events of another window.
    pub open spec fn on_event(self, e: Event) -> (LoopView, Command) {
        if self.terminated {
            (self, Command::Idle)
        } else {
            match e {
                Event::Window { window, event } => {
                    if window != self.context.window {
                        (self, Command::Idle)
                    } else if event.is_exit_request() {
                        (self.ended(), Command::Exit)
                    } else {
                        match event.resize_target() {
                            Some(s) => if s.is_drawable() {
                                (self.with_context(self.context.resized(s)), Command::Configure(s))
                            } else {
                                (self, Command::Idle)
                            },
                            None => (self, Command::Idle),
                        }
                    }
                },
                Event::RedrawRequested(window) => if window == self.context.window {
                    (self, Command::Render)
                } else {
                    (self, Command::Idle)
                },
                Event::EventsDrained => (self, Command::RequestRedraw),
                Event::Other => (self, Command::Idle),
            }
        }
    }

    /// The next state and command once a frame's surface target was
    /// requested: submit on success, reconfigure at the current size when the
    /// surface was lost, end on out-of-memory, report anything else.
    pub open spec fn on_frame(self, acquired: Result<(), RenderError>) -> (LoopView, Command) {
        if self.terminated {
            (self, Command::Idle)
        } else {
            match self.context.render_outcome(acquired) {
                Ok(f) => (self, Command::Submit(f)),
                Err(RenderError::SurfaceLost) => (
                    self.with_context(self.context.resized(self.context.size)),
                    Command::Configure(self.context.size),
                ),
                Err(RenderError::OutOfMemory) => (self.ended(), Command::Exit),
                Err(RenderError::Other(d)) => (self, Command::Report(d)),
            }
        }
    }
}

/// The application loop around one render context.
pub struct SapfireRenderer {
    rendering_context: RenderContext,
    terminated: bool,
}

impl View for SapfireRenderer {
    type V = LoopView;

    closed spec fn view(&self) -> LoopView {
        LoopView { context: self.rendering_context@, terminated: self.terminated }
    }
}

impl SapfireRenderer {
    pub fn new(rendering_context: RenderContext) -> (r: SapfireRenderer)
        ensures
            r@ == (LoopView { context: rendering_context@, terminated: false }),
    {
        SapfireRenderer { rendering_context, terminated: false }
    }

    pub fn context(&self) -> (r: &RenderContext)
        ensures
            r@ == self@.context,
    {
        &self.rendering_context
    }

    /// Whether the loop has ended; once set it stays set.
    pub fn is_terminated(&self) -> (r: bool)
        ensures
            r == self@.terminated,
    {
        self.terminated
    }

    /// Handles one platform event.
    pub fn handle_event(&mut self, event: Event) -> (c: Command)
        ensures
            (final(self)@, c) == old(self)@.on_event(event),
    {
        if self.terminated {
            return Command::Idle;
        }
        match event {
            Event::Window { window, event } => {
                if window != self.rendering_context.window() {
                    return Command::Idle;
                }
                self.handle_window_event(event)
            },
            Event::RedrawRequested(window) => {
                if window == self.rendering_context.window() {
                    Command::Render
                } else {
                    Command::Idle
                }
            },
            Event::EventsDrained => Command::RequestRedraw,
            Event::Other => Command::Idle,
        }
    }

    fn handle_window_event(&mut self, event: WindowEvent) -> (c: Command)
        requires
            !old(self)@.terminated,
        ensures
            (final(self)@, c) == old(self)@.on_event(
                Event::Window { window: old(self)@.context.window, event },
            ),
    {
        if event.requests_exit() {
            self.terminated = true;
            return Command::Exit;
        }
        match event.new_size() {
            Some(s) => {
                if s.drawable() {
                    self.rendering_context.resize(s);
                    Command::Configure(s)
                } else {
                    Command::Idle
                }
            },
            None => {
                // Offered to the context first; what it leaves unhandled has
                // no default action.
                let _handled = self.rendering_context.input(&event);
                Command::Idle
            },
        }
    }

    /// Runs one frame once the host has requested the surface's next target;
    /// `acquired` is how that went.
    pub fn finish_frame(&mut self, acquired: Result<(), RenderError>) -> (c: Command)
        ensures
            (final(self)@, c) == old(self)@.on_frame(acquired),
    {
        if self.terminated {
            return Command::Idle;
        }
        self.rendering_context.update();
        match self.rendering_context.render(acquired) {
            Ok(f) => Command::Submit(f),
            Err(RenderError::SurfaceLost) => {
                let size = self.rendering_context.size();
                self.rendering_context.resize(size);
                Command::Configure(size)
            },
            Err(RenderError::OutOfMemory) => {
                self.terminated = true;
                Command::Exit
            },
            Err(RenderError::Other(d)) => Command::Report(d),
        }
    }
}

/// A resize or scale change to a size with a zero dimension leaves the loop
/// and its surface as they are, and asks the host for nothing.
pub proof fn lemma_degenerate_resize_ignored(v: LoopView, s: SurfaceSize)
    requires
        !s.is_drawable(),
    ensures
        v.context.resized(s) == v.context,
        v.on_event(Event::Window { window: v.context.window, event: WindowEvent::Resized(s) }) == (
        v, Command::Idle),
        v.on_event(
            Event::Window { window: v.context.window, event: WindowEvent::ScaleFactorChanged(s) },
        ) == (v, Command::Idle),
{
}

/// A loop that has not ended submits the whole triangle, once, as soon as a
/// frame's surface target is acquired, before any resize.
pub proof fn lemma_first_frame_draws(c: ContextView)
    requires
        c.wf(),
    ensures
        (LoopView { context: c, terminated: false }).on_frame(Ok(())) == (
        LoopView { context: c, terminated: false }, Command::Submit(c.frame())),
        c.frame().first_vertex == 0,
        c.frame().vertex_count == 3,
        c.frame().program == c.program,
        c.frame().vertex_buffer == c.vertex_buffer,
{
}

/// A lost surface is answered by reconfiguring it at the current size, which
/// leaves the context as it was; the loop goes on, the next redraw asks for a
/// frame, and that frame is submitted once its target is acquired.
pub proof fn lemma_surface_lost_recovers(v: LoopView)
    requires
        v.wf(),
        !v.terminated,
    ensures
        ({
            let (v1, c1) = v.on_frame(Err(RenderError::SurfaceLost));
            &&& c1 == Command::Configure(v.context.size)
            &&& v.context.resized(v.context.size) == v.context
            &&& v1 == v
            &&& v1.on_event(Event::RedrawRequested(v.context.window)) == (v1, Command::Render)
            &&& v1.on_frame(Ok(())) == (v1, Command::Submit(v.context.frame()))
        }),
{
}

/// Once the loop has ended, no event and no frame outcome changes its state
/// or asks the host for anything: in particular nothing is rendered again.
pub proof fn lemma_ended_loop_is_inert(v: LoopView, e: Event, acquired: Result<(), RenderError>)
    requires
        v.terminated,
    ensures
        v.on_event(e) == (v, Command::Idle),
        v.on_frame(acquired) == (v, Command::Idle),
{
}

/// Out-of-memory while rendering ends the loop in that same step, and no
/// later event or frame renders anything.
pub proof fn lemma_out_of_memory_ends_loop(
    v: LoopView,
    e: Event,
    acquired: Result<(), RenderError>,
)
    requires
        !v.terminated,
    ensures
        ({
            let (v1, c1) = v.on_frame(Err(RenderError::OutOfMemory));
            &&& v1.terminated
            &&& c1 == Command::Exit
            &&& v1.on_event(e) == (v1, Command::Idle)
            &&& v1.on_frame(acquired) == (v1, Command::Idle)
        }),
{
    lemma_ended_loop_is_inert(v.ended(), e, acquired);
}

/// A press of the quit key on the loop's window ends the loop; a release
/// leaves it running.
pub proof fn lemma_quit_key(v: LoopView, pressed: bool)
    requires
        !v.terminated,
    ensures
        ({
            let (v1, c1) = v.on_event(
                Event::Window {
                    window: v.context.window,
                    event: WindowEvent::KeyInput { key: Key::Escape, pressed },
                },
            );
            &&& v1.terminated == pressed
            &&& pressed ==> c1 == Command::Exit
            &&& !pressed ==> (v1, c1) == (v, Command::Idle)
        }),
{
}

} // verus!
