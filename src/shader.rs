//! A linked vertex+fragment program, built from what the backend reported.
use vstd::prelude::*;

verus! {

#[derive(Clone, Copy, Debug, PartialEq, Eq, Structural)]
pub enum ShaderStage {
    Vertex,
    Fragment,
}

/// Why a shader program could not be built.
#[derive(Clone, Debug, PartialEq, Eq)]
pub enum CompileError {
    /// A stage failed to compile; the backend's log is kept.
    Stage { stage: ShaderStage, log: String },
    /// Linking the two stages failed.
    Link { log: String },
    /// The backend linked the program but handed back no handle.
    NoProgram,
}

/// What the backend reported while compiling and linking a program:
/// each stage's compile status, then the link result with its handle.
pub struct ShaderBuild {
    pub vertex: Result<(), String>,
    pub fragment: Result<(), String>,
    pub program: Result<u32, String>,
}

/// The handle a build ends in, or the first failure in stage order.
pub open spec fn build_outcome(b: ShaderBuild) -> Result<u32, CompileError> {
    match b.vertex {
        Err(log) => Err(CompileError::Stage { stage: ShaderStage::Vertex, log }),
        Ok(_) => match b.fragment {
            Err(log) => Err(CompileError::Stage { stage: ShaderStage::Fragment, log }),
            Ok(_) => match b.program {
                Err(log) => Err(CompileError::Link { log }),
                Ok(h) => if h == 0 {
                    Err(CompileError::NoProgram)
                } else {
                    Ok(h)
                },
            },
        },
    }
}

/// A compiled and linked program; its handle is never zero.
#[derive(Debug)]
pub struct ShaderProgram {
    program: u32,
}

impl View for ShaderProgram {
    type V = u32;

    closed spec fn view(&self) -> u32 {
        self.program
    }
}

impl ShaderProgram {
    #[verifier::type_invariant]
    spec fn valid(self) -> bool {
        self.program != 0
    }

    /// Builds a program from the backend's report: succeeds exactly when both
    /// stages compiled and linking gave a non-zero handle.
    pub fn create(build: ShaderBuild) -> (r: Result<ShaderProgram, CompileError>)
        ensures
            match r {
                Ok(p) => build_outcome(build) == Ok::<u32, CompileError>(p@),
                Err(e) => build_outcome(build) == Err::<u32, CompileError>(e),
            },
    {
        let ShaderBuild { vertex, fragment, program } = build;
        match vertex {
            Err(log) => {
                return Err(CompileError::Stage { stage: ShaderStage::Vertex, log });
            },
            Ok(()) => {},
        }
        match fragment {
            Err(log) => {
                return Err(CompileError::Stage { stage: ShaderStage::Fragment, log });
            },
            Ok(()) => {},
        }
        match program {
            Err(log) => Err(CompileError::Link { log }),
            Ok(h) => if h == 0 {
                Err(CompileError::NoProgram)
            } else {
                Ok(ShaderProgram { program: h })
            },
        }
    }

    /// The backend handle to bind before drawing.
    pub fn handle(&self) -> (h: u32)
        ensures
            h == self@,
            h != 0,
    {
        proof {
            use_type_invariant(self);
        }
        self.program
    }
}

} // verus!
