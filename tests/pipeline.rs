use web_sys::WebGlRenderingContext;

use webgl_triangle::error::{is_affirmed, log_or_else};
use webgl_triangle::program::{
    link_verdict, FRAGMENT_SHADER_SOURCE, LINK_STATUS, VERTEX_SHADER_SOURCE,
};
use webgl_triangle::shader::{compile_verdict, COMPILE_STATUS, FRAGMENT_SHADER, VERTEX_SHADER};
use webgl_triangle::triangle::{
    resolve_color, triangle_draw_call, triangle_vertices, viewport_extent, DrawCall,
    CONTEXT_KIND, FRAG_COLOR, MINUS_ONE_BITS, ONE_BITS, TRIANGLES, ZERO_BITS,
};
use webgl_triangle::vertices::{
    attrib_index, coordinates_layout, words_to_le_bytes, AttribLayout, ARRAY_BUFFER, COORDINATES,
    FLOAT, STATIC_DRAW,
};
use webgl_triangle::GlError;

fn bits(values: &[f32]) -> Vec<u32> {
    values.iter().map(|v| v.to_bits()).collect()
}

#[test]
fn gl_constants_match_web_sys() {
    assert_eq!(VERTEX_SHADER, WebGlRenderingContext::VERTEX_SHADER);
    assert_eq!(FRAGMENT_SHADER, WebGlRenderingContext::FRAGMENT_SHADER);
    assert_eq!(COMPILE_STATUS, WebGlRenderingContext::COMPILE_STATUS);
    assert_eq!(LINK_STATUS, WebGlRenderingContext::LINK_STATUS);
    assert_eq!(ARRAY_BUFFER, WebGlRenderingContext::ARRAY_BUFFER);
    assert_eq!(STATIC_DRAW, WebGlRenderingContext::STATIC_DRAW);
    assert_eq!(FLOAT, WebGlRenderingContext::FLOAT);
    assert_eq!(TRIANGLES, WebGlRenderingContext::TRIANGLES);
}

#[test]
fn float_bit_constants() {
    assert_eq!(f32::from_bits(ZERO_BITS), 0.0);
    assert_eq!(f32::from_bits(ONE_BITS), 1.0);
    assert_eq!(f32::from_bits(MINUS_ONE_BITS), -1.0);
}

#[test]
fn compile_status_true_succeeds() {
    assert!(compile_verdict(Some(true), None).is_ok());
    assert!(compile_verdict(Some(true), Some("warning".to_string())).is_ok());
}

#[test]
fn compile_failure_carries_log() {
    let log = "ERROR: 0:3: 'gl_Position' : syntax error".to_string();
    match compile_verdict(Some(false), Some(log.clone())) {
        Err(GlError::Compile(m)) => {
            assert_eq!(m, log);
            assert!(!m.is_empty());
        }
        other => panic!("unexpected {:?}", other),
    }
}

#[test]
fn compile_failure_without_log_uses_fallback() {
    match compile_verdict(Some(false), None) {
        Err(GlError::Compile(m)) => assert_eq!(m, "Unknown error creating shader"),
        other => panic!("unexpected {:?}", other),
    }
    match compile_verdict(None, None) {
        Err(GlError::Compile(m)) => assert_eq!(m, "Unknown error creating shader"),
        other => panic!("unexpected {:?}", other),
    }
}

#[test]
fn link_status_true_succeeds() {
    assert!(link_verdict(Some(true), None).is_ok());
}

#[test]
fn link_failure_carries_log() {
    let log = "Varyings with the same name but different type".to_string();
    match link_verdict(Some(false), Some(log.clone())) {
        Err(GlError::Link(m)) => assert_eq!(m, log),
        other => panic!("unexpected {:?}", other),
    }
    match link_verdict(None, None) {
        Err(GlError::Link(m)) => assert_eq!(m, "Unknown error linking program"),
        other => panic!("unexpected {:?}", other),
    }
}

#[test]
fn non_boolean_answer_is_no() {
    assert!(is_affirmed(Some(true)));
    assert!(!is_affirmed(Some(false)));
    assert!(!is_affirmed(None));
}

#[test]
fn log_fallback() {
    assert_eq!(log_or_else(Some("x".to_string()), "y"), "x");
    assert_eq!(log_or_else(Some(String::new()), "y"), "");
    assert_eq!(log_or_else(None, "y"), "y");
}

#[test]
fn triangle_vertices_are_the_fixed_triangle() {
    let expected = bits(&[0.0, 1.0, 0.0, -1.0, -1.0, 0.0, 1.0, -1.0, 0.0]);
    assert_eq!(triangle_vertices(), expected);
}

#[test]
fn uploaded_bytes_equal_the_floats_byte_for_byte() {
    let floats = [0.0f32, 1.0, 0.0, -1.0, -1.0, 0.0, 1.0, -1.0, 0.0];
    let expected: Vec<u8> = floats.iter().flat_map(|v| v.to_le_bytes()).collect();
    let bytes = words_to_le_bytes(&triangle_vertices());
    assert_eq!(bytes.len(), 36);
    assert_eq!(bytes, expected);
}

#[test]
fn le_bytes_of_words() {
    assert_eq!(words_to_le_bytes(&[]), Vec::<u8>::new());
    assert_eq!(words_to_le_bytes(&[0x0403_0201, 0xBF80_0000]), vec![1, 2, 3, 4, 0, 0, 0x80, 0xBF]);
}

#[test]
fn attribute_index_from_location() {
    assert_eq!(attrib_index(-1), None);
    assert_eq!(attrib_index(i32::MIN), None);
    assert_eq!(attrib_index(0), Some(0));
    assert_eq!(attrib_index(7), Some(7));
}

#[test]
fn coordinates_read_as_packed_float_triples() {
    assert_eq!(
        coordinates_layout(),
        AttribLayout {
            size: 3,
            data_type: WebGlRenderingContext::FLOAT,
            normalized: false,
            stride: 0,
            offset: 0,
        }
    );
}

#[test]
fn triangle_draw_is_three_vertices_from_zero() {
    let call = triangle_draw_call(triangle_vertices().len());
    assert_eq!(
        call,
        DrawCall { mode: WebGlRenderingContext::TRIANGLES, first: 0, count: 3 }
    );
    assert_eq!(triangle_draw_call(0).count, 0);
    assert_eq!(triangle_draw_call(10).count, 3);
}

#[test]
fn default_color_is_opaque_red() {
    assert_eq!(resolve_color(None), bits(&[1.0, 0.0, 0.0, 1.0]));
}

#[test]
fn chosen_color_is_kept() {
    let green = bits(&[0.0, 1.0, 0.0, 1.0]);
    assert_eq!(resolve_color(Some(green.clone())), green);
}

#[test]
fn viewport_covers_the_canvas() {
    assert_eq!(viewport_extent(300, 150), Some((300, 150)));
    assert_eq!(viewport_extent(0, 0), Some((0, 0)));
    assert_eq!(viewport_extent(i32::MAX as u32, 1), Some((i32::MAX, 1)));
    assert_eq!(viewport_extent(i32::MAX as u32 + 1, 1), None);
    assert_eq!(viewport_extent(1, u32::MAX), None);
}

#[test]
fn shader_sources_name_the_attribute_and_uniform() {
    assert!(VERTEX_SHADER_SOURCE.contains("attribute vec3 coordinates;"));
    assert!(VERTEX_SHADER_SOURCE.contains("vec4(coordinates, 1.0)"));
    assert!(FRAGMENT_SHADER_SOURCE.contains("uniform vec4 fragColor;"));
    assert_eq!(COORDINATES, "coordinates");
    assert_eq!(FRAG_COLOR, "fragColor");
    assert_eq!(CONTEXT_KIND, "webgl");
}
