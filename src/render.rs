use vstd::prelude::*;
use crate::decl::{gen_unit, GenUnit, Member, TypeDecl, TypeRef};
use crate::model::{NamedType, PrimKind, SpecDoc};
use crate::naming::pascal_of;
use crate::util::{doc_attr_text, named_field_text, type_def_text};

verus! {

/// The source text of a string literal for one documentation text, as
/// `proc_macro2` wrote it.
pub struct DocLiteral {
    pub doc: String,
    pub literal: String,
}

/// The literal that a table gives for a documentation text: that of its first
/// entry for the text, or the empty literal where it has none.
pub open spec fn lit(lits: Seq<DocLiteral>, doc: Seq<char>) -> Seq<char>
    decreases lits.len(),
{
    if lits.len() == 0 {
        "\"\""@
    } else if lits[0].doc@ == doc {
        lits[0].literal@
    } else {
        lit(lits.drop_first(), doc)
    }
}

/// The source text of a primitive kind.
pub open spec fn prim_text(p: PrimKind) -> Seq<char> {
    match p {
        PrimKind::Bool => "bool"@,
        PrimKind::U32 => "u32"@,
        PrimKind::Str => "String"@,
    }
}

/// The source text of a type reference.
pub open spec fn ref_text(r: TypeRef) -> Seq<char> {
    match r {
        TypeRef::Prim(p) => prim_text(p),
        TypeRef::Nested { module, name } => module + "::"@ + name,
    }
}

/// A tuple slot: its documentation as a block comment, then its type.
pub open spec fn slot_text(lits: Seq<DocLiteral>, m: Member) -> Seq<char> {
    "/* "@ + lit(lits, m.doc) + " */ "@ + ref_text(m.ty) + ", "@
}

pub open spec fn slots_text(lits: Seq<DocLiteral>, ms: Seq<Member>, k: int) -> Seq<char>
    decreases k,
{
    if k <= 0 { Seq::empty() } else { slots_text(lits, ms, k - 1) + slot_text(lits, ms[k - 1]) }
}

/// A struct field declaration.
pub open spec fn field_text(lits: Seq<DocLiteral>, m: Member) -> Seq<char> {
    named_field_text(lit(lits, m.doc), Seq::empty(), m.ident, ref_text(m.ty)) + ",\n"@
}

pub open spec fn fields_text(lits: Seq<DocLiteral>, ms: Seq<Member>, k: int) -> Seq<char>
    decreases k,
{
    if k <= 0 { Seq::empty() } else { fields_text(lits, ms, k - 1) + field_text(lits, ms[k - 1]) }
}

/// The type of a field in the serialized tuple.
pub open spec fn ser_type_text(lits: Seq<DocLiteral>, m: Member) -> Seq<char> {
    "&"@ + ref_text(m.ty) + ", "@
}

pub open spec fn ser_types_text(lits: Seq<DocLiteral>, ms: Seq<Member>, k: int) -> Seq<char>
    decreases k,
{
    if k <= 0 { Seq::empty() } else { ser_types_text(lits, ms, k - 1) + ser_type_text(lits, ms[k - 1]) }
}

/// The value of a field in the serialized tuple.
pub open spec fn ser_value_text(lits: Seq<DocLiteral>, m: Member) -> Seq<char> {
    "&self."@ + m.ident + ", "@
}

pub open spec fn ser_values_text(lits: Seq<DocLiteral>, ms: Seq<Member>, k: int) -> Seq<char>
    decreases k,
{
    if k <= 0 { Seq::empty() } else { ser_values_text(lits, ms, k - 1) + ser_value_text(lits, ms[k - 1]) }
}

/// A struct declaration and its serializer, which writes the fields as a tuple
/// in the order of the declaration.
pub open spec fn struct_text(lits: Seq<DocLiteral>, name: Seq<char>, doc: Seq<char>, fs: Seq<Member>) -> Seq<char> {
    doc_attr_text(lit(lits, doc)) + "#[derive(Debug, Clone, PartialEq)]\npub struct "@ + name + " {\n"@
        + fields_text(lits, fs, fs.len() as int) + "}\n\nimpl ::serde::Serialize for "@ + name
        + " {\n    fn serialize<S>(&self, serializer: S) -> Result<S::Ok, S::Error>\n    where\n        S: ::serde::Serializer,\n    {\n        let r: ("@
        + ser_types_text(lits, fs, fs.len() as int) + ") = ("@ + ser_values_text(lits, fs, fs.len() as int)
        + ");\n        r.serialize(serializer)\n    }\n}\n"@
}

/// The source text of a declaration.
pub open spec fn decl_text(lits: Seq<DocLiteral>, d: TypeDecl) -> Seq<char> {
    match d {
        TypeDecl::Alias { name, doc, prim } => type_def_text(lit(lits, doc), "pub"@, name, prim_text(prim)),
        TypeDecl::TupleDecl { name, doc, slots } =>
            type_def_text(lit(lits, doc), "pub"@, name, "("@ + slots_text(lits, slots, slots.len() as int) + ")"@),
        TypeDecl::StructDecl { name, doc, fields } => struct_text(lits, name, doc, fields),
        TypeDecl::Empty => Seq::empty(),
    }
}

/// The source text of a unit: its namespace, if any, then its declaration.
pub open spec fn render_unit(lits: Seq<DocLiteral>, u: GenUnit) -> Seq<char>
    decreases u, 0int,
{
    match u.namespace {
        Some(ns) => "pub mod "@ + ns.name + " {\n"@ + units_text(lits, ns.units, ns.units.len() as int) + "}\n"@
            + decl_text(lits, u.decl),
        None => decl_text(lits, u.decl),
    }
}

/// The source text of the first `k` units.
pub open spec fn units_text(lits: Seq<DocLiteral>, us: Seq<GenUnit>, k: int) -> Seq<char>
    decreases us, k,
{
    if k <= 0 || k > us.len() {
        Seq::empty()
    } else {
        units_text(lits, us, k - 1) + render_unit(lits, us[k - 1])
    }
}

/// What the first `k` top-level types of a document generate.
pub open spec fn types_text(lits: Seq<DocLiteral>, ts: Seq<NamedType>, k: int) -> Seq<char>
    decreases k,
{
    if k <= 0 {
        Seq::empty()
    } else {
        types_text(lits, ts, k - 1) + render_unit(lits, gen_unit(pascal_of(ts[k - 1].name@), ts[k - 1].ty))
    }
}

/// What a document generates, with the doc literals of `lits`.
pub open spec fn doc_text_of(lits: Seq<DocLiteral>, doc: SpecDoc) -> Seq<char> {
    types_text(lits, doc.types@, doc.types@.len() as int)
}

/// The text of the first `k` units depends on those units alone.
pub proof fn lemma_units_text_prefix(lits: Seq<DocLiteral>, a: Seq<GenUnit>, b: Seq<GenUnit>, k: int)
    requires
        0 <= k <= a.len(),
        k <= b.len(),
        forall|i: int| 0 <= i < k ==> a[i] == b[i],
    ensures
        units_text(lits, a, k) == units_text(lits, b, k),
    decreases k,
{
    if k > 0 {
        lemma_units_text_prefix(lits, a, b, k - 1);
    }
}

} // verus!
