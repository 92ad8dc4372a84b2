use sapfire_renderer::{CompileError, OpenGLRenderContext, ShaderBuild, ShaderProgram, ShaderStage};

fn program(handle: u32) -> ShaderProgram {
    ShaderProgram::create(ShaderBuild { vertex: Ok(()), fragment: Ok(()), program: Ok(handle) })
        .unwrap()
}

#[test]
fn add_shader_replaces_program() {
    let mut c = OpenGLRenderContext::new(program(1));
    assert_eq!(c.shader.handle(), 1);
    let r = c.add_shader(ShaderBuild { vertex: Ok(()), fragment: Ok(()), program: Ok(4) });
    assert_eq!(r, Ok(()));
    assert_eq!(c.shader.handle(), 4);
}

#[test]
fn add_shader_keeps_program_on_failure() {
    let mut c = OpenGLRenderContext::new(program(1));
    let r = c.add_shader(ShaderBuild {
        vertex: Ok(()),
        fragment: Err("0:1: syntax error".to_string()),
        program: Ok(4),
    });
    assert_eq!(
        r,
        Err(CompileError::Stage {
            stage: ShaderStage::Fragment,
            log: "0:1: syntax error".to_string()
        })
    );
    assert_eq!(c.shader.handle(), 1);
    let r = c.add_shader(ShaderBuild { vertex: Ok(()), fragment: Ok(()), program: Ok(0) });
    assert_eq!(r, Err(CompileError::NoProgram));
    assert_eq!(c.shader.handle(), 1);
}
