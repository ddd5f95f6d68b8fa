use vstd::prelude::*;
use web_sys::{WebGlRenderingContext, WebGlShader};

use crate::error::{affirmed, is_affirmed, log_or, log_or_else, GlError};
use crate::host::{compile, new_shader, set_shader_source, shader_flag, shader_log};

verus! {

/// The kind of a vertex shader.
pub const VERTEX_SHADER: u32 = 0x8B31;

/// The kind of a fragment shader.
pub const FRAGMENT_SHADER: u32 = 0x8B30;

/// The shader parameter that says whether the last compile succeeded.
pub const COMPILE_STATUS: u32 = 0x8B81;

pub open spec fn shader_creation_message() -> Seq<char> {
    "Unable to create shader object"@
}

pub open spec fn unknown_compile_message() -> Seq<char> {
    "Unknown error creating shader"@
}

/// What a compile came to, from the driver's compile status and its log.
pub open spec fn compile_verdict_spec(status: Option<bool>, log: Option<String>) -> Result<(), Seq<char>> {
    if affirmed(status) {
        Ok(())
    } else {
        Err(log_or(log, unknown_compile_message()))
    }
}

/// Decides a compile from the status the driver reported and its info log:
/// success exactly when the status is `true`; otherwise a compile error that
/// carries the log as given, or a fixed text when there is none.
pub fn compile_verdict(status: Option<bool>, log: Option<String>) -> (r: Result<(), GlError>)
    ensures
        r is Ok <==> affirmed(status),
        match r {
            Ok(()) => true,
            Err(GlError::Compile(m)) => compile_verdict_spec(status, log) == Err::<(), Seq<char>>(m@),
            Err(_) => false,
        },
{
    if is_affirmed(status) {
        Ok(())
    } else {
        proof { reveal_strlit("Unknown error creating shader"); }
        Err(GlError::Compile(log_or_else(log, "Unknown error creating shader")))
    }
}

/// Creates a shader of the given kind, hands it the source and compiles it.
/// Fails with a creation error when the context gives no shader object, and
/// with a compile error when the driver rejects the source.
pub fn create_shader(
    gl: &WebGlRenderingContext,
    shader_type: u32,
    source: &str,
) -> (r: Result<WebGlShader, GlError>)
    ensures
        match r {
            Ok(_) => true,
            Err(GlError::Creation(m)) => m@ == shader_creation_message(),
            Err(GlError::Compile(_)) => true,
            Err(_) => false,
        },
{
    let shader = match new_shader(gl, shader_type) {
        Some(s) => s,
        None => {
            proof { reveal_strlit("Unable to create shader object"); }
            return Err(GlError::Creation("Unable to create shader object".to_owned()));
        },
    };
    set_shader_source(gl, &shader, source);
    compile(gl, &shader);
    let status = shader_flag(gl, &shader, COMPILE_STATUS);
    let log = if is_affirmed(status) {
        None
    } else {
        shader_log(gl, &shader)
    };
    match compile_verdict(status, log) {
        Ok(()) => Ok(shader),
        Err(e) => Err(e),
    }
}

} // verus!
