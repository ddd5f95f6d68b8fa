//! The boundary with the browser: the outside types that the library carries,
//! and one wrapper for each web-sys, js-sys or wasm-bindgen call it makes.
//! Every answer here comes from the host (the DOM or the graphics driver), so
//! no wrapper promises anything of what it returns; the verified callers state
//! what holds whatever came back.
use vstd::prelude::*;
use wasm_bindgen::JsCast;
use wasm_bindgen::JsValue;
use web_sys::{
    Document, Element, HtmlCanvasElement, WebGlBuffer, WebGlProgram, WebGlRenderingContext,
    WebGlShader, WebGlUniformLocation, Window,
};

verus! {

#[verifier::external_type_specification]
#[verifier::external_body]
pub struct ExJsValue(wasm_bindgen::JsValue);

#[verifier::external_type_specification]
#[verifier::external_body]
#[verifier::reject_recursive_types(T)]
pub struct ExObject<T>(js_sys::Object<T>);

#[verifier::external_type_specification]
#[verifier::external_body]
pub struct ExWindow(web_sys::Window);

#[verifier::external_type_specification]
#[verifier::external_body]
pub struct ExDocument(web_sys::Document);

#[verifier::external_type_specification]
#[verifier::external_body]
pub struct ExElement(web_sys::Element);

#[verifier::external_type_specification]
#[verifier::external_body]
pub struct ExHtmlCanvasElement(web_sys::HtmlCanvasElement);

#[verifier::external_type_specification]
#[verifier::external_body]
pub struct ExWebGlRenderingContext(web_sys::WebGlRenderingContext);

#[verifier::external_type_specification]
#[verifier::external_body]
pub struct ExWebGlShader(web_sys::WebGlShader);

#[verifier::external_type_specification]
#[verifier::external_body]
pub struct ExWebGlProgram(web_sys::WebGlProgram);

#[verifier::external_type_specification]
#[verifier::external_body]
pub struct ExWebGlBuffer(web_sys::WebGlBuffer);

#[verifier::external_type_specification]
#[verifier::external_body]
pub struct ExWebGlUniformLocation(web_sys::WebGlUniformLocation);

/// Relies on web_sys::window: the global `Window`, if the page has one.
#[verifier::external_body]
pub(crate) fn global_window() -> (r: Option<Window>) {
    web_sys::window()
}

/// Relies on web_sys::Window::document: the window's document, if any.
#[verifier::external_body]
pub(crate) fn window_document(w: &Window) -> (r: Option<Document>) {
    w.document()
}

/// Relies on web_sys::Document::get_element_by_id: the element with that id, if any.
#[verifier::external_body]
pub(crate) fn element_by_id(d: &Document, id: &str) -> (r: Option<Element>) {
    d.get_element_by_id(id)
}

/// Relies on wasm_bindgen::JsCast::dyn_into: the element as a canvas, if it is one.
#[verifier::external_body]
pub(crate) fn element_as_canvas(e: Element) -> (r: Option<HtmlCanvasElement>) {
    e.dyn_into::<HtmlCanvasElement>().ok()
}

/// Relies on web_sys::HtmlCanvasElement::get_context: the drawing context of
/// the given kind; `Err` carries what the host threw.
#[verifier::external_body]
pub(crate) fn canvas_context(
    c: &HtmlCanvasElement,
    kind: &str,
) -> (r: Result<Option<js_sys::Object>, JsValue>) {
    c.get_context(kind)
}

/// Relies on wasm_bindgen::JsCast::dyn_into: the object as a WebGL context, if it is one.
#[verifier::external_body]
pub(crate) fn object_as_webgl(o: js_sys::Object) -> (r: Option<WebGlRenderingContext>) {
    o.dyn_into::<WebGlRenderingContext>().ok()
}

/// Relies on web_sys::HtmlCanvasElement::width.
#[verifier::external_body]
pub(crate) fn canvas_width(c: &HtmlCanvasElement) -> (r: u32) {
    c.width()
}

/// Relies on web_sys::HtmlCanvasElement::height.
#[verifier::external_body]
pub(crate) fn canvas_height(c: &HtmlCanvasElement) -> (r: u32) {
    c.height()
}

/// Relies on web_sys::WebGlRenderingContext::viewport.
#[verifier::external_body]
pub(crate) fn set_viewport(gl: &WebGlRenderingContext, x: i32, y: i32, width: i32, height: i32) {
    gl.viewport(x, y, width, height)
}

/// Relies on web_sys::WebGlRenderingContext::create_shader: a new empty
/// shader object of the given kind, or `None` if the context gives none.
#[verifier::external_body]
pub(crate) fn new_shader(gl: &WebGlRenderingContext, shader_type: u32) -> (r: Option<WebGlShader>) {
    gl.create_shader(shader_type)
}

/// Relies on web_sys::WebGlRenderingContext::shader_source.
#[verifier::external_body]
pub(crate) fn set_shader_source(gl: &WebGlRenderingContext, shader: &WebGlShader, source: &str) {
    gl.shader_source(shader, source)
}

/// Relies on web_sys::WebGlRenderingContext::compile_shader.
#[verifier::external_body]
pub(crate) fn compile(gl: &WebGlRenderingContext, shader: &WebGlShader) {
    gl.compile_shader(shader)
}

/// Relies on web_sys::WebGlRenderingContext::get_shader_parameter, read with
/// wasm_bindgen::JsValue::as_bool: `None` when the answer is not a boolean.
#[verifier::external_body]
pub(crate) fn shader_flag(
    gl: &WebGlRenderingContext,
    shader: &WebGlShader,
    pname: u32,
) -> (r: Option<bool>) {
    gl.get_shader_parameter(shader, pname).as_bool()
}

/// Relies on web_sys::WebGlRenderingContext::get_shader_info_log.
#[verifier::external_body]
pub(crate) fn shader_log(gl: &WebGlRenderingContext, shader: &WebGlShader) -> (r: Option<String>) {
    gl.get_shader_info_log(shader)
}

/// Relies on web_sys::WebGlRenderingContext::create_program.
#[verifier::external_body]
pub(crate) fn new_program(gl: &WebGlRenderingContext) -> (r: Option<WebGlProgram>) {
    gl.create_program()
}

/// Relies on web_sys::WebGlRenderingContext::attach_shader.
#[verifier::external_body]
pub(crate) fn attach(gl: &WebGlRenderingContext, program: &WebGlProgram, shader: &WebGlShader) {
    gl.attach_shader(program, shader)
}

/// Relies on web_sys::WebGlRenderingContext::link_program.
#[verifier::external_body]
pub(crate) fn link(gl: &WebGlRenderingContext, program: &WebGlProgram) {
    gl.link_program(program)
}

/// Relies on web_sys::WebGlRenderingContext::get_program_parameter, read with
/// wasm_bindgen::JsValue::as_bool: `None` when the answer is not a boolean.
#[verifier::external_body]
pub(crate) fn program_flag(
    gl: &WebGlRenderingContext,
    program: &WebGlProgram,
    pname: u32,
) -> (r: Option<bool>) {
    gl.get_program_parameter(program, pname).as_bool()
}

/// Relies on web_sys::WebGlRenderingContext::get_program_info_log.
#[verifier::external_body]
pub(crate) fn program_log(
    gl: &WebGlRenderingContext,
    program: &WebGlProgram,
) -> (r: Option<String>) {
    gl.get_program_info_log(program)
}

/// Relies on web_sys::WebGlRenderingContext::use_program: makes the program current.
#[verifier::external_body]
pub(crate) fn activate(gl: &WebGlRenderingContext, program: &WebGlProgram) {
    gl.use_program(Some(program))
}

/// Relies on web_sys::WebGlRenderingContext::create_buffer.
#[verifier::external_body]
pub(crate) fn new_buffer(gl: &WebGlRenderingContext) -> (r: Option<WebGlBuffer>) {
    gl.create_buffer()
}

/// Relies on web_sys::WebGlRenderingContext::bind_buffer.
#[verifier::external_body]
pub(crate) fn bind(gl: &WebGlRenderingContext, target: u32, buffer: &WebGlBuffer) {
    gl.bind_buffer(target, Some(buffer))
}

/// Relies on web_sys::WebGlRenderingContext::buffer_data_with_u8_array: fills
/// the buffer bound at `target` with these bytes.
#[verifier::external_body]
pub(crate) fn upload(gl: &WebGlRenderingContext, target: u32, data: &[u8], usage: u32) {
    gl.buffer_data_with_u8_array(target, data, usage)
}

/// Relies on web_sys::WebGlRenderingContext::get_attrib_location.
#[verifier::external_body]
pub(crate) fn attrib_location(
    gl: &WebGlRenderingContext,
    program: &WebGlProgram,
    name: &str,
) -> (r: i32) {
    gl.get_attrib_location(program, name)
}

/// Relies on web_sys::WebGlRenderingContext::vertex_attrib_pointer_with_i32.
#[verifier::external_body]
pub(crate) fn attrib_pointer(
    gl: &WebGlRenderingContext,
    index: u32,
    size: i32,
    data_type: u32,
    normalized: bool,
    stride: i32,
    offset: i32,
) {
    gl.vertex_attrib_pointer_with_i32(index, size, data_type, normalized, stride, offset)
}

/// Relies on web_sys::WebGlRenderingContext::enable_vertex_attrib_array.
#[verifier::external_body]
pub(crate) fn enable_attrib(gl: &WebGlRenderingContext, index: u32) {
    gl.enable_vertex_attrib_array(index)
}

/// Relies on web_sys::WebGlRenderingContext::get_uniform_location.
#[verifier::external_body]
pub(crate) fn uniform_location(
    gl: &WebGlRenderingContext,
    program: &WebGlProgram,
    name: &str,
) -> (r: Option<WebGlUniformLocation>) {
    gl.get_uniform_location(program, name)
}

/// Relies on web_sys::WebGlRenderingContext::uniform4fv_with_f32_sequence.
/// Each word is the bit pattern of one 32-bit float: js_sys's
/// `Uint32Array::new_from_slice` copies the words and `Float32Array::new`
/// reads the same memory as floats.
#[verifier::external_body]
pub(crate) fn set_uniform4(gl: &WebGlRenderingContext, location: &WebGlUniformLocation, bits: &[u32]) {
    let words = js_sys::Uint32Array::new_from_slice(bits);
    let values = js_sys::Float32Array::new(&words.buffer());
    gl.uniform4fv_with_f32_sequence(Some(location), &values)
}

/// Relies on web_sys::WebGlRenderingContext::draw_arrays.
#[verifier::external_body]
pub(crate) fn draw(gl: &WebGlRenderingContext, mode: u32, first: i32, count: i32) {
    gl.draw_arrays(mode, first, count)
}

} // verus!
