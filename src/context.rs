//! The render context: one window, one vertex buffer, one shader program.
use vstd::prelude::*;
use crate::event::{SurfaceSize, WindowEvent};
use crate::shader::{CompileError, ShaderProgram};

verus! {

/// The backend a context was created for, picked once at startup.
#[derive(Clone, Copy, Debug, PartialEq, Eq, Structural)]
pub enum RenderingAPI {
    OpenGL,
    WGPU,
}

/// Why a render context could not be created.
#[derive(Clone, Debug, PartialEq, Eq)]
pub enum InitError {
    /// No surface could be had for the window, or it has no drawable area.
    SurfaceUnavailable,
    /// No adapter compatible with the surface.
    NoAdapter,
    /// The device request failed; the backend's message is kept.
    Device(String),
    /// Uploading the triangle gave no buffer.
    NoVertexBuffer,
    /// The shader program could not be built.
    Shader(CompileError),
}

/// Why a frame could not be rendered.
#[derive(Clone, Debug, PartialEq, Eq)]
pub enum RenderError {
    /// The surface must be reconfigured at the current size.
    SurfaceLost,
    /// Fatal: the loop must end.
    OutOfMemory,
    /// Any other failure: the frame is dropped and the loop goes on.
    Other(String),
}

/// Number of vertices in the fixed triangle.
pub const TRIANGLE_VERTICES: u32 = 3;

/// The work of one frame: bind `program`, bind `vertex_buffer`, draw
/// `vertex_count` vertices from `first_vertex` as triangles, then present.
#[derive(Clone, Copy, Debug, PartialEq, Eq, Structural)]
pub struct Frame {
    pub program: u32,
    pub vertex_buffer: u32,
    pub first_vertex: u32,
    pub vertex_count: u32,
}

/// What a context holds, seen as plain values.
pub struct ContextView {
    pub api: RenderingAPI,
    pub window: u64,
    pub size: SurfaceSize,
    pub vertex_buffer: u32,
    pub program: u32,
}

impl ContextView {
    /// A ready context: a drawable surface and an uploaded buffer.
    pub open spec fn wf(self) -> bool {
        self.size.is_drawable() && self.vertex_buffer != 0
    }

    /// The context after a resize to `s`: zero dimensions leave it as it is.
    pub open spec fn resized(self, s: SurfaceSize) -> ContextView {
        if s.is_drawable() {
            ContextView { size: s, ..self }
        } else {
            self
        }
    }

    /// The single draw of the whole triangle.
    pub open spec fn frame(self) -> Frame {
        Frame {
            program: self.program,
            vertex_buffer: self.vertex_buffer,
            first_vertex: 0,
            vertex_count: TRIANGLE_VERTICES,
        }
    }

    /// One frame, given how acquiring the surface's next target went.
    pub open spec fn render_outcome(self, acquired: Result<(), RenderError>) -> Result<
        Frame,
        RenderError,
    > {
        match acquired {
            Ok(_) => Ok(self.frame()),
            Err(e) => Err(e),
        }
    }
}

/// The context that `RenderContext::create` yields for what the device
/// produced, or the first failure among it.
pub open spec fn creation_outcome(
    api: RenderingAPI,
    window: u64,
    size: SurfaceSize,
    vertex_buffer: u32,
    program: Result<u32, CompileError>,
) -> Result<ContextView, InitError> {
    if !size.is_drawable() {
        Err(InitError::SurfaceUnavailable)
    } else if vertex_buffer == 0 {
        Err(InitError::NoVertexBuffer)
    } else {
        match program {
            Err(c) => Err(InitError::Shader(c)),
            Ok(p) => Ok(ContextView { api, window, size, vertex_buffer, program: p }),
        }
    }
}

/// A context is created whole or not at all: one comes back only when a
/// drawable surface, the buffer and the program were all had; it is then
/// ready and holds exactly those. Otherwise the failure is typed.
pub proof fn lemma_creation_is_whole(
    api: RenderingAPI,
    window: u64,
    size: SurfaceSize,
    vertex_buffer: u32,
    program: Result<u32, CompileError>,
)
    ensures
        match creation_outcome(api, window, size, vertex_buffer, program) {
            Ok(v) => {
                &&& v.wf()
                &&& program == Ok::<u32, CompileError>(v.program)
                &&& v == (ContextView { api, window, size, vertex_buffer, program: v.program })
            },
            Err(_) => !size.is_drawable() || vertex_buffer == 0 || program is Err,
        },
{
}

/// The handle of a built program, or why it failed.
pub open spec fn program_of(shader: Result<ShaderProgram, CompileError>) -> Result<
    u32,
    CompileError,
> {
    match shader {
        Ok(p) => Ok(p@),
        Err(c) => Err(c),
    }
}

/// A context in the ready state. It exists only whole: window, surface,
/// buffer and program together.
pub struct RenderContext {
    api: RenderingAPI,
    window: u64,
    size: SurfaceSize,
    vertex_buffer: u32,
    shader: ShaderProgram,
}

impl View for RenderContext {
    type V = ContextView;

    closed spec fn view(&self) -> ContextView {
        ContextView {
            api: self.api,
            window: self.window,
            size: self.size,
            vertex_buffer: self.vertex_buffer,
            program: self.shader@,
        }
    }
}

impl RenderContext {
    #[verifier::type_invariant]
    spec fn ready(self) -> bool {
        self.size.is_drawable() && self.vertex_buffer != 0
    }

    /// Assembles a context from what the device produced for `window`, once
    /// it was acquired: the surface's size, the uploaded triangle's buffer and
    /// the shader program.
    pub fn create(
        api: RenderingAPI,
        window: u64,
        size: SurfaceSize,
        vertex_buffer: u32,
        shader: Result<ShaderProgram, CompileError>,
    ) -> (r: Result<RenderContext, InitError>)
        ensures
            match r {
                Ok(c) => creation_outcome(api, window, size, vertex_buffer, program_of(shader))
                    == Ok::<ContextView, InitError>(c@) && c@.wf(),
                Err(e) => creation_outcome(api, window, size, vertex_buffer, program_of(shader))
                    == Err::<ContextView, InitError>(e),
            },
    {
        if !size.drawable() {
            return Err(InitError::SurfaceUnavailable);
        }
        if vertex_buffer == 0 {
            return Err(InitError::NoVertexBuffer);
        }
        match shader {
            Err(c) => Err(InitError::Shader(c)),
            Ok(shader) => Ok(RenderContext { api, window, size, vertex_buffer, shader }),
        }
    }

    pub fn api(&self) -> (r: RenderingAPI)
        ensures
            r == self@.api,
    {
        self.api
    }

    pub fn window(&self) -> (r: u64)
        ensures
            r == self@.window,
    {
        self.window
    }

    pub fn size(&self) -> (r: SurfaceSize)
        ensures
            r == self@.size,
            r.is_drawable(),
    {
        proof {
            use_type_invariant(self);
        }
        self.size
    }

    pub fn vertex_buffer(&self) -> (r: u32)
        ensures
            r == self@.vertex_buffer,
            r != 0,
    {
        proof {
            use_type_invariant(self);
        }
        self.vertex_buffer
    }

    pub fn shader(&self) -> (r: &ShaderProgram)
        ensures
            r@ == self@.program,
    {
        &self.shader
    }

    /// Reconfigures the surface to `new_size`; a zero dimension changes nothing.
    pub fn resize(&mut self, new_size: SurfaceSize)
        ensures
            final(self)@ == old(self)@.resized(new_size),
    {
        proof {
            use_type_invariant(&*self);
        }
        if new_size.drawable() {
            self.size = new_size;
        }
    }

    /// First chance at an input event. Nothing is consumed here, so the
    /// caller always applies its own handling.
    pub fn input(&self, event: &WindowEvent) -> (handled: bool)
        ensures
            !handled,
    {
        false
    }

    /// Advances per-frame state, of which there is none.
    pub fn update(&mut self)
        ensures
            final(self)@ == old(self)@,
    {
    }

    /// One frame, once the surface's next target was requested: the single
    /// triangle draw when that succeeded, else the failure as reported.
    pub fn render(&self, acquired: Result<(), RenderError>) -> (r: Result<Frame, RenderError>)
        ensures
            r == self@.render_outcome(acquired),
    {
        match acquired {
            Err(e) => Err(e),
            Ok(()) => Ok(
                Frame {
                    program: self.shader.handle(),
                    vertex_buffer: self.vertex_buffer,
                    first_vertex: 0,
                    vertex_count: TRIANGLE_VERTICES,
                },
            ),
        }
    }
}

} // verus!
