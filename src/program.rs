use vstd::prelude::*;
use web_sys::{WebGlProgram, WebGlRenderingContext};

use crate::error::{affirmed, is_affirmed, log_or, log_or_else, GlError};
use crate::host::{activate, attach, link, new_program, program_flag, program_log};
use crate::shader::{create_shader, shader_creation_message, FRAGMENT_SHADER, VERTEX_SHADER};

verus! {

/// The program parameter that says whether the last link succeeded.
pub const LINK_STATUS: u32 = 0x8B82;

/// A pass-through vertex shader: the 3-component attribute `coordinates`
/// is the clip-space position, with w = 1.0.
pub const VERTEX_SHADER_SOURCE: &'static str = "
        attribute vec3 coordinates;
        void main(void) {
            gl_Position = vec4(coordinates, 1.0);
        }
        ";

/// A fragment shader that paints every fragment with the uniform `fragColor`.
pub const FRAGMENT_SHADER_SOURCE: &'static str = "
        precision mediump float;
        uniform vec4 fragColor;
        void main(void) {
            gl_FragColor = fragColor;
        }
        ";

pub open spec fn program_creation_message() -> Seq<char> {
    "Unable to create program object"@
}

pub open spec fn unknown_link_message() -> Seq<char> {
    "Unknown error linking program"@
}

/// The texts of a failure to obtain a shader or program object.
pub open spec fn program_failure(m: Seq<char>) -> bool {
    m == shader_creation_message() || m == program_creation_message()
}

/// What a link came to, from the driver's link status and its log.
pub open spec fn link_verdict_spec(status: Option<bool>, log: Option<String>) -> Result<(), Seq<char>> {
    if affirmed(status) {
        Ok(())
    } else {
        Err(log_or(log, unknown_link_message()))
    }
}

/// Decides a link from the status the driver reported and its info log:
/// success exactly when the status is `true`; otherwise a link error that
/// carries the log as given, or a fixed text when there is none.
pub fn link_verdict(status: Option<bool>, log: Option<String>) -> (r: Result<(), GlError>)
    ensures
        r is Ok <==> affirmed(status),
        match r {
            Ok(()) => true,
            Err(GlError::Link(m)) => link_verdict_spec(status, log) == Err::<(), Seq<char>>(m@),
            Err(_) => false,
        },
{
    if is_affirmed(status) {
        Ok(())
    } else {
        proof { reveal_strlit("Unknown error linking program"); }
        Err(GlError::Link(log_or_else(log, "Unknown error linking program")))
    }
}

/// Compiles the vertex and fragment shaders above, links them into a new
/// program and, when the link succeeds, makes it the context's current
/// program. A failed compile is passed on as it came; a context that gives
/// no program object is a creation error; a failed link is a link error.
pub fn setup_shaders(gl: &WebGlRenderingContext) -> (r: Result<WebGlProgram, GlError>)
    ensures
        match r {
            Ok(_) => true,
            Err(GlError::Creation(m)) => program_failure(m@),
            Err(GlError::Compile(_)) => true,
            Err(GlError::Link(_)) => true,
            Err(_) => false,
        },
{
    let vertex_shader = match create_shader(gl, VERTEX_SHADER, VERTEX_SHADER_SOURCE) {
        Ok(s) => s,
        Err(e) => return Err(e),
    };
    let fragment_shader = match create_shader(gl, FRAGMENT_SHADER, FRAGMENT_SHADER_SOURCE) {
        Ok(s) => s,
        Err(e) => return Err(e),
    };
    let program = match new_program(gl) {
        Some(p) => p,
        None => {
            proof { reveal_strlit("Unable to create program object"); }
            return Err(GlError::Creation("Unable to create program object".to_owned()));
        },
    };
    attach(gl, &program, &vertex_shader);
    attach(gl, &program, &fragment_shader);
    link(gl, &program);
    let status = program_flag(gl, &program, LINK_STATUS);
    let log = if is_affirmed(status) {
        None
    } else {
        program_log(gl, &program)
    };
    match link_verdict(status, log) {
        Ok(()) => {
            activate(gl, &program);
            Ok(program)
        },
        Err(e) => Err(e),
    }
}

} // verus!
