use vstd::prelude::*;

verus! {

/// The primitive kinds that a leaf of the type tree may have.
#[derive(PartialEq, Eq, Structural, Clone, Copy, Debug)]
pub enum PrimKind {
    Bool,
    U32,
    Str,
}

/// One node of the specification's type tree.
pub enum SpecType {
    Bool { doc: Option<String> },
    U32 { doc: Option<String> },
    Str { doc: Option<String> },
    Tuple { doc: Option<String>, content: Vec<TupleEntry> },
    Struct { doc: Option<String>, content: Vec<FieldEntry> },
    /// A kind of node that the generator does not know; it generates nothing.
    Other,
}

/// A slot of a tuple: its declared ordering key and its type.
pub struct TupleEntry {
    pub index: u32,
    pub content: SpecType,
}

/// A field of a struct: its name, its declared ordering key and its type.
pub struct FieldEntry {
    pub name: String,
    pub index: u32,
    pub content: SpecType,
}

/// A top-level named type of the document.
pub struct NamedType {
    pub name: String,
    pub ty: SpecType,
}

/// The specification document: its top-level types, in iteration order.
pub struct SpecDoc {
    pub types: Vec<NamedType>,
}

/// The documentation text of a node: empty where there is none.
pub open spec fn doc_text(doc: Option<String>) -> Seq<char> {
    match doc {
        Some(s) => s@,
        None => Seq::empty(),
    }
}

/// The primitive kind of a leaf node, if it is one.
pub open spec fn prim_of(ty: SpecType) -> Option<PrimKind> {
    match ty {
        SpecType::Bool { .. } => Some(PrimKind::Bool),
        SpecType::U32 { .. } => Some(PrimKind::U32),
        SpecType::Str { .. } => Some(PrimKind::Str),
        _ => None,
    }
}

/// The documentation of any node.
pub open spec fn doc_of(ty: SpecType) -> Seq<char> {
    match ty {
        SpecType::Bool { doc } => doc_text(doc),
        SpecType::U32 { doc } => doc_text(doc),
        SpecType::Str { doc } => doc_text(doc),
        SpecType::Tuple { doc, .. } => doc_text(doc),
        SpecType::Struct { doc, .. } => doc_text(doc),
        SpecType::Other => Seq::empty(),
    }
}

/// The ordering keys of a tuple's slots, in storage order.
pub open spec fn tuple_keys(content: Seq<TupleEntry>) -> Seq<u32> {
    content.map_values(|e: TupleEntry| e.index)
}

/// The ordering keys of a struct's fields, in storage order.
pub open spec fn field_keys(content: Seq<FieldEntry>) -> Seq<u32> {
    content.map_values(|e: FieldEntry| e.index)
}

} // verus!
