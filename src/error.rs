use vstd::prelude::*;
use wasm_bindgen::JsValue;

verus! {

/// Why building or drawing the triangle stopped.
#[derive(Debug)]
pub enum GlError {
    /// The host could not give an object: a window, document, context,
    /// shader, program or buffer. Carries a description.
    Creation(String),
    /// No element with the given id is a canvas.
    CanvasNotFound(String),
    /// The driver rejected a shader's source. Carries its log.
    Compile(String),
    /// The driver could not link the program. Carries its log.
    Link(String),
    /// The program has no active attribute of the given name.
    AttributeNotFound(String),
    /// The program has no active uniform of the given name.
    UniformNotFound(String),
    /// The host threw while creating the context.
    Host(JsValue),
}

/// The driver's log when it gave one, else the fallback text.
pub open spec fn log_or(log: Option<String>, fallback: Seq<char>) -> Seq<char> {
    match log {
        Some(l) => l@,
        None => fallback,
    }
}

/// Whether a host's yes/no answer is a plain yes; anything else counts as no.
pub open spec fn affirmed(flag: Option<bool>) -> bool {
    flag == Some(true)
}

pub fn is_affirmed(flag: Option<bool>) -> (r: bool)
    ensures
        r == affirmed(flag),
{
    match flag {
        Some(b) => b,
        None => false,
    }
}

/// The log, or the fallback text when there is none.
pub fn log_or_else(log: Option<String>, fallback: &str) -> (r: String)
    ensures
        r@ == log_or(log, fallback@),
{
    match log {
        Some(l) => l,
        None => fallback.to_owned(),
    }
}

} // verus!
