//! A minimal render front-end: the decisions of a single-window frame loop,
//! over a render context that owns one shader program and one vertex buffer.
//! The host performs the window and GPU work the loop's commands ask for.
pub mod context;
pub mod event;
pub mod frame_loop;
pub mod opengl;
pub mod shader;

pub use context::{Frame, InitError, RenderContext, RenderError, RenderingAPI, TRIANGLE_VERTICES};
pub use event::{Event, Key, SurfaceSize, WindowEvent};
pub use frame_loop::{Command, SapfireRenderer};
pub use opengl::OpenGLRenderContext;
pub use shader::{CompileError, ShaderBuild, ShaderProgram, ShaderStage};
