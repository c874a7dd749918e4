//! The fixed descriptions the element publishes to its host: metadata,
//! pad templates, and the registration record.

use vstd::prelude::*;

verus! {

/// The element's descriptive metadata.
#[derive(Debug)]
pub struct ElementMetadata {
    pub long_name: String,
    pub classification: String,
    pub description: String,
    pub author: String,
}

/// The metadata record the element publishes.
pub fn metadata() -> (r: ElementMetadata)
    ensures
        r.long_name@ == "CustomSource Bin"@,
        r.classification@ == "Generic"@,
        r.description@ == "Custom source"@,
        r.author@ == "Rodrigo Santos <rsantos@sequence.film>"@,
{
    ElementMetadata {
        long_name: String::from_str("CustomSource Bin"),
        classification: String::from_str("Generic"),
        description: String::from_str("Custom source"),
        author: String::from_str("Rodrigo Santos <rsantos@sequence.film>"),
    }
}

/// The direction of a pad template.
#[derive(Clone, Copy, PartialEq, Eq, Structural, Debug)]
pub enum PadDirection {
    Src,
    Sink,
}

/// When a pad of a template exists on the element.
#[derive(Clone, Copy, PartialEq, Eq, Structural, Debug)]
pub enum PadPresence {
    Always,
    Sometimes,
    Request,
}

/// A pad template; the payload type is unconstrained, so the template
/// carries only name, direction, and presence.
#[derive(Debug)]
pub struct PadTemplate {
    pub name: String,
    pub direction: PadDirection,
    pub presence: PadPresence,
}

/// The element's pad templates: exactly one, the always-present source
/// pad named `src`.
pub fn pad_templates() -> (r: Vec<PadTemplate>)
    ensures
        r@.len() == 1,
        r@[0].name@ == "src"@,
        r@[0].direction is Src,
        r@[0].presence is Always,
{
    let mut v: Vec<PadTemplate> = Vec::new();
    v.push(
        PadTemplate {
            name: String::from_str("src"),
            direction: PadDirection::Src,
            presence: PadPresence::Always,
        },
    );
    v
}

/// The registration record the host applies when installing the
/// element type.
#[derive(Debug)]
pub struct Registration {
    pub element_name: String,
    pub rank: u32,
}

/// Build the registration record: the element claims the fixed name
/// `customsource` at a rank one above the given base, so a host's
/// URI-dispatch logic prefers it to the element it wraps.
pub fn register(base_rank: u32) -> (r: Registration)
    requires
        base_rank < u32::MAX,
    ensures
        r.element_name@ == "customsource"@,
        r.rank == base_rank + 1,
{
    Registration { element_name: String::from_str("customsource"), rank: base_rank + 1 }
}

} // verus!
