//! The OpenGL backend's program slot.
use vstd::prelude::*;
use crate::shader::{build_outcome, CompileError, ShaderBuild, ShaderProgram};

verus! {

/// Holds the program the OpenGL backend draws with.
pub struct OpenGLRenderContext {
    pub shader: ShaderProgram,
}

impl OpenGLRenderContext {
    pub fn new(shader: ShaderProgram) -> (r: OpenGLRenderContext)
        ensures
            r.shader@ == shader@,
    {
        OpenGLRenderContext { shader }
    }

    /// Replaces the program with the one the backend built from a vertex and
    /// a fragment source; on failure the current program stays.
    pub fn add_shader(&mut self, build: ShaderBuild) -> (r: Result<(), CompileError>)
        ensures
            match r {
                Ok(_) => build_outcome(build) == Ok::<u32, CompileError>(final(self).shader@),
                Err(e) => build_outcome(build) == Err::<u32, CompileError>(e)
                    && final(self).shader@ == old(self).shader@,
            },
    {
        match ShaderProgram::create(build) {
            Ok(p) => {
                self.shader = p;
                Ok(())
            },
            Err(e) => Err(e),
        }
    }
}

} // verus!
