use vstd::prelude::*;
use web_sys::{WebGlProgram, WebGlRenderingContext};

use crate::error::GlError;
use crate::host::{attrib_location, attrib_pointer, bind, enable_attrib, new_buffer, upload};

verus! {

/// The four bytes of a 32-bit word, least significant first.
pub open spec fn le_word(w: u32) -> Seq<u8> {
    seq![
        (w & 0xff) as u8,
        ((w >> 8u32) & 0xff) as u8,
        ((w >> 16u32) & 0xff) as u8,
        ((w >> 24u32) & 0xff) as u8,
    ]
}

/// The byte image of a sequence of words, each word little-endian, in order.
pub open spec fn le_bytes(words: Seq<u32>) -> Seq<u8>
    decreases words.len(),
{
    if words.len() == 0 {
        Seq::<u8>::empty()
    } else {
        le_bytes(words.drop_last()) + le_word(words.last())
    }
}

/// Four bytes for every word.
pub proof fn lemma_le_bytes_len(words: Seq<u32>)
    ensures
        le_bytes(words).len() == 4 * words.len(),
    decreases words.len(),
{
    if words.len() > 0 {
        lemma_le_bytes_len(words.drop_last());
    }
}

proof fn lemma_le_word_injective(x: u32, y: u32)
    requires
        le_word(x) == le_word(y),
    ensures
        x == y,
{
    assert(le_word(x)[0] == le_word(y)[0] && le_word(x)[1] == le_word(y)[1]);
    assert(le_word(x)[2] == le_word(y)[2] && le_word(x)[3] == le_word(y)[3]);
    assert(x == y) by (bit_vector)
        requires
            (x & 0xff) as u8 == (y & 0xff) as u8,
            ((x >> 8u32) & 0xff) as u8 == ((y >> 8u32) & 0xff) as u8,
            ((x >> 16u32) & 0xff) as u8 == ((y >> 16u32) & 0xff) as u8,
            ((x >> 24u32) & 0xff) as u8 == ((y >> 24u32) & 0xff) as u8,
    ;
}

/// The byte image holds each word's four bytes, least significant first, at
/// four times the word's index: byte for byte, the words as they were given.
pub proof fn lemma_le_bytes_layout(words: Seq<u32>, i: int, k: int)
    requires
        0 <= i < words.len(),
        0 <= k < 4,
    ensures
        le_bytes(words).len() == 4 * words.len(),
        le_bytes(words)[4 * i + k] == le_word(words[i])[k],
    decreases words.len(),
{
    lemma_le_bytes_len(words);
    lemma_le_bytes_len(words.drop_last());
    if i < words.len() - 1 {
        lemma_le_bytes_layout(words.drop_last(), i, k);
    }
}

/// Uploading words as their little-endian byte image loses nothing: two
/// sequences of words with the same byte image are the same sequence.
pub proof fn lemma_le_bytes_injective(a: Seq<u32>, b: Seq<u32>)
    requires
        le_bytes(a) == le_bytes(b),
    ensures
        a == b,
    decreases a.len(),
{
    lemma_le_bytes_len(a);
    lemma_le_bytes_len(b);
    if a.len() > 0 {
        let (pa, pb) = (le_bytes(a.drop_last()), le_bytes(b.drop_last()));
        lemma_le_bytes_len(a.drop_last());
        lemma_le_bytes_len(b.drop_last());
        assert(le_bytes(a) == pa + le_word(a.last()));
        assert(le_bytes(b) == pb + le_word(b.last()));
        assert(pa =~= le_bytes(a).take(pa.len() as int));
        assert(pb =~= le_bytes(b).take(pb.len() as int));
        assert(le_word(a.last()) =~= le_bytes(a).skip(pa.len() as int));
        assert(le_word(b.last()) =~= le_bytes(b).skip(pb.len() as int));
        lemma_le_bytes_injective(a.drop_last(), b.drop_last());
        lemma_le_word_injective(a.last(), b.last());
        assert(a =~= a.drop_last().push(a.last()));
        assert(b =~= b.drop_last().push(b.last()));
    } else {
        assert(a =~= b);
    }
}

/// Encodes words as bytes, little-endian, in the order given.
pub fn words_to_le_bytes(words: &[u32]) -> (r: Vec<u8>)
    requires
        words@.len() <= usize::MAX / 4,
    ensures
        r@ == le_bytes(words@),
{
    let mut out: Vec<u8> = Vec::with_capacity(words.len() * 4);
    let mut i: usize = 0;
    while i < words.len()
        invariant
            i <= words@.len(),
            out@ == le_bytes(words@.take(i as int)),
        decreases words@.len() - i,
    {
        let w: u32 = words[i];
        out.push((w & 0xff) as u8);
        out.push(((w >> 8u32) & 0xff) as u8);
        out.push(((w >> 16u32) & 0xff) as u8);
        out.push(((w >> 24u32) & 0xff) as u8);
        proof {
            assert(words@.take(i as int + 1).drop_last() =~= words@.take(i as int));
        }
        i = i + 1;
    }
    assert(words@.take(words@.len() as int) =~= words@);
    out
}

/// The buffer binding point for vertex attributes.
pub const ARRAY_BUFFER: u32 = 0x8892;

/// The usage hint for data that is written once and drawn many times.
pub const STATIC_DRAW: u32 = 0x88E4;

/// The component type of 32-bit floats.
pub const FLOAT: u32 = 0x1406;

/// The vertex attribute that the vertex shader reads positions from.
pub const COORDINATES: &'static str = "coordinates";

pub open spec fn buffer_creation_message() -> Seq<char> {
    "Unable to create buffer object"@
}

/// How an attribute reads its values out of the bound array buffer.
#[derive(Clone, Copy, Debug, PartialEq, Eq, Structural)]
pub struct AttribLayout {
    /// Components per vertex.
    pub size: i32,
    /// Type of each component.
    pub data_type: u32,
    /// Whether integer components are scaled into [0, 1] or [-1, 1].
    pub normalized: bool,
    /// Bytes from one vertex to the next; 0 for tightly packed.
    pub stride: i32,
    /// Byte offset of the first vertex in the buffer.
    pub offset: i32,
}

/// Tightly packed (x, y, z) triples of 32-bit floats from the buffer's start.
pub fn coordinates_layout() -> (r: AttribLayout)
    ensures
        r.size == 3,
        r.data_type == FLOAT,
        !r.normalized,
        r.stride == 0,
        r.offset == 0,
{
    AttribLayout { size: 3, data_type: FLOAT, normalized: false, stride: 0, offset: 0 }
}

/// The attribute index for a location the driver reported: a location of
/// -1 (or any negative one) means the program has no such attribute.
pub fn attrib_index(location: i32) -> (r: Option<u32>)
    ensures
        r == (if location >= 0 {
            Some(location as u32)
        } else {
            None::<u32>
        }),
{
    if location >= 0 {
        Some(location as u32)
    } else {
        None
    }
}

/// Uploads the vertices, each word the bit pattern of one 32-bit float, into
/// a new array buffer as their little-endian byte image, and feeds the
/// program's `coordinates` attribute from it as (x, y, z) triples. Fails with
/// a creation error when the context gives no buffer, and when the program
/// has no `coordinates` attribute.
pub fn setup_vertices(
    gl: &WebGlRenderingContext,
    vertices: &[u32],
    shader_program: &WebGlProgram,
) -> (r: Result<(), GlError>)
    requires
        vertices@.len() <= usize::MAX / 4,
    ensures
        match r {
            Ok(()) => true,
            Err(GlError::Creation(m)) => m@ == buffer_creation_message(),
            Err(GlError::AttributeNotFound(name)) => name@ == COORDINATES@,
            Err(_) => false,
        },
{
    let bytes = words_to_le_bytes(vertices);
    let buffer = match new_buffer(gl) {
        Some(b) => b,
        None => {
            proof { reveal_strlit("Unable to create buffer object"); }
            return Err(GlError::Creation("Unable to create buffer object".to_owned()));
        },
    };
    bind(gl, ARRAY_BUFFER, &buffer);
    upload(gl, ARRAY_BUFFER, bytes.as_slice(), STATIC_DRAW);
    let index = match attrib_index(attrib_location(gl, shader_program, COORDINATES)) {
        Some(i) => i,
        None => return Err(GlError::AttributeNotFound(COORDINATES.to_owned())),
    };
    let layout = coordinates_layout();
    attrib_pointer(
        gl,
        index,
        layout.size,
        layout.data_type,
        layout.normalized,
        layout.stride,
        layout.offset,
    );
    enable_attrib(gl, index);
    Ok(())
}

} // verus!
