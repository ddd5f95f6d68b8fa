use vstd::prelude::*;
use web_sys::WebGlRenderingContext;

use crate::error::GlError;
use crate::host::{
    canvas_context, canvas_height, canvas_width, draw, element_as_canvas, element_by_id,
    global_window, object_as_webgl, set_uniform4, set_viewport, uniform_location,
    window_document,
};
use crate::program::{program_failure, setup_shaders};
use crate::vertices::{buffer_creation_message, setup_vertices, COORDINATES};

verus! {

/// Bit pattern of the 32-bit float 0.0.
pub const ZERO_BITS: u32 = 0x0000_0000;

/// Bit pattern of the 32-bit float 1.0.
pub const ONE_BITS: u32 = 0x3F80_0000;

/// Bit pattern of the 32-bit float -1.0.
pub const MINUS_ONE_BITS: u32 = 0xBF80_0000;

/// The primitive mode that reads vertices three at a time as triangles.
pub const TRIANGLES: u32 = 4;

/// The uniform that the fragment shader takes its color from.
pub const FRAG_COLOR: &'static str = "fragColor";

/// The context kind asked of the canvas.
pub const CONTEXT_KIND: &'static str = "webgl";

/// The triangle: top (0, 1, 0), bottom left (-1, -1, 0), bottom right (1, -1, 0).
pub open spec fn triangle_spec() -> Seq<u32> {
    seq![
        ZERO_BITS, ONE_BITS, ZERO_BITS,
        MINUS_ONE_BITS, MINUS_ONE_BITS, ZERO_BITS,
        ONE_BITS, MINUS_ONE_BITS, ZERO_BITS,
    ]
}

/// Opaque red, (1, 0, 0, 1).
pub open spec fn opaque_red() -> Seq<u32> {
    seq![ONE_BITS, ZERO_BITS, ZERO_BITS, ONE_BITS]
}

/// The color the triangle is drawn in: the one chosen, else opaque red.
pub open spec fn color_spec(selected: Option<Vec<u32>>) -> Seq<u32> {
    match selected {
        Some(c) => c@,
        None => opaque_red(),
    }
}

pub open spec fn no_window_message() -> Seq<char> {
    "No global window exists"@
}

pub open spec fn no_document_message() -> Seq<char> {
    "The window has no document"@
}

pub open spec fn no_context_message() -> Seq<char> {
    "The canvas gives no WebGL context"@
}

pub open spec fn canvas_too_large_message() -> Seq<char> {
    "The canvas is too large for a viewport"@
}

/// The texts of a failure to obtain a context from the canvas.
pub open spec fn context_failure(m: Seq<char>) -> bool {
    m == no_window_message() || m == no_document_message() || m == no_context_message() || m
        == canvas_too_large_message()
}

/// The nine coordinates of the triangle, as float bit patterns.
pub fn triangle_vertices() -> (r: Vec<u32>)
    ensures
        r@ == triangle_spec(),
{
    let r: Vec<u32> = vec![
        ZERO_BITS, ONE_BITS, ZERO_BITS,
        MINUS_ONE_BITS, MINUS_ONE_BITS, ZERO_BITS,
        ONE_BITS, MINUS_ONE_BITS, ZERO_BITS,
    ];
    assert(r@ =~= triangle_spec());
    r
}

/// The chosen color, or opaque red when none is chosen.
pub fn resolve_color(selected: Option<Vec<u32>>) -> (r: Vec<u32>)
    ensures
        r@ == color_spec(selected),
{
    match selected {
        Some(c) => c,
        None => {
            let r: Vec<u32> = vec![ONE_BITS, ZERO_BITS, ZERO_BITS, ONE_BITS];
            assert(r@ =~= opaque_red());
            r
        },
    }
}

/// One draw over a run of vertices.
#[derive(Clone, Copy, Debug, PartialEq, Eq, Structural)]
pub struct DrawCall {
    pub mode: u32,
    pub first: i32,
    pub count: i32,
}

/// The draw of triangles over every vertex of a buffer of `n_values`
/// coordinates, three to a vertex, from the first vertex on.
pub fn triangle_draw_call(n_values: usize) -> (r: DrawCall)
    requires
        n_values / 3 <= i32::MAX,
    ensures
        r.mode == TRIANGLES,
        r.first == 0,
        r.count == n_values / 3,
{
    DrawCall { mode: TRIANGLES, first: 0, count: (n_values / 3) as i32 }
}

/// The viewport for a canvas of the given size: the whole canvas, when both
/// sides fit the viewport's signed range.
pub fn viewport_extent(width: u32, height: u32) -> (r: Option<(i32, i32)>)
    ensures
        r == (if width <= i32::MAX && height <= i32::MAX {
            Some((width as i32, height as i32))
        } else {
            None::<(i32, i32)>
        }),
{
    if width <= i32::MAX as u32 && height <= i32::MAX as u32 {
        Some((width as i32, height as i32))
    } else {
        None
    }
}

/// Finds the canvas with the given id, takes its WebGL context, and sets the
/// viewport to the whole canvas.
pub fn init_webgl_context(canvas_id: &str) -> (r: Result<WebGlRenderingContext, GlError>)
    ensures
        match r {
            Ok(_) => true,
            Err(GlError::Creation(m)) => context_failure(m@),
            Err(GlError::CanvasNotFound(id)) => id@ == canvas_id@,
            Err(GlError::Host(_)) => true,
            Err(_) => false,
        },
{
    proof {
        reveal_strlit("No global window exists");
        reveal_strlit("The window has no document");
        reveal_strlit("The canvas gives no WebGL context");
        reveal_strlit("The canvas is too large for a viewport");
    }
    let window = match global_window() {
        Some(w) => w,
        None => return Err(GlError::Creation("No global window exists".to_owned())),
    };
    let document = match window_document(&window) {
        Some(d) => d,
        None => return Err(GlError::Creation("The window has no document".to_owned())),
    };
    let element = match element_by_id(&document, canvas_id) {
        Some(e) => e,
        None => return Err(GlError::CanvasNotFound(canvas_id.to_owned())),
    };
    let canvas = match element_as_canvas(element) {
        Some(c) => c,
        None => return Err(GlError::CanvasNotFound(canvas_id.to_owned())),
    };
    let object = match canvas_context(&canvas, CONTEXT_KIND) {
        Ok(Some(o)) => o,
        Ok(None) => return Err(GlError::Creation("The canvas gives no WebGL context".to_owned())),
        Err(thrown) => return Err(GlError::Host(thrown)),
    };
    let gl = match object_as_webgl(object) {
        Some(gl) => gl,
        None => return Err(GlError::Creation("The canvas gives no WebGL context".to_owned())),
    };
    match viewport_extent(canvas_width(&canvas), canvas_height(&canvas)) {
        Some((width, height)) => set_viewport(&gl, 0, 0, width, height),
        None => return Err(GlError::Creation("The canvas is too large for a viewport".to_owned())),
    }
    Ok(gl)
}

/// Draws the triangle on the canvas with the given id, in the chosen color
/// (float bit patterns, r, g, b, a) or opaque red, and returns the context.
pub fn draw_triangle(
    canvas_id: &str,
    selected_color: Option<Vec<u32>>,
) -> (r: Result<WebGlRenderingContext, GlError>)
    ensures
        match r {
            Ok(_) => true,
            Err(GlError::Creation(m)) => context_failure(m@) || program_failure(m@) || m@
                == buffer_creation_message(),
            Err(GlError::CanvasNotFound(id)) => id@ == canvas_id@,
            Err(GlError::Host(_)) => true,
            Err(GlError::Compile(_)) => true,
            Err(GlError::Link(_)) => true,
            Err(GlError::AttributeNotFound(name)) => name@ == COORDINATES@,
            Err(GlError::UniformNotFound(name)) => name@ == FRAG_COLOR@,
        },
{
    let gl = match init_webgl_context(canvas_id) {
        Ok(gl) => gl,
        Err(e) => return Err(e),
    };
    let program = match setup_shaders(&gl) {
        Ok(p) => p,
        Err(e) => return Err(e),
    };
    let vertices = triangle_vertices();
    match setup_vertices(&gl, vertices.as_slice(), &program) {
        Ok(()) => {},
        Err(e) => return Err(e),
    }
    let color = resolve_color(selected_color);
    let location = match uniform_location(&gl, &program, FRAG_COLOR) {
        Some(l) => l,
        None => return Err(GlError::UniformNotFound(FRAG_COLOR.to_owned())),
    };
    set_uniform4(&gl, &location, color.as_slice());
    let call = triangle_draw_call(vertices.len());
    draw(&gl, call.mode, call.first, call.count);
    Ok(gl)
}

} // verus!
