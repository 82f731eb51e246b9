use vstd::prelude::*;
use crate::decl::{field_children, field_member, field_order, gen_unit, is_composite, tuple_children, GenUnit, Namespace, TypeDecl};
use crate::model::{doc_of, prim_of, FieldEntry, PrimKind, SpecDoc, SpecType, TupleEntry};
use crate::naming::{pascal_of, snake_of};
use crate::order::lemma_index_order_sorted;
use crate::render::{decl_text, DocLiteral, doc_text_of, prim_text, render_unit};

verus! {

/// Generation is a function of the document's types and the doc literals
/// alone: two documents with the same types generate the same text.
pub proof fn lemma_generate_deterministic(lits: Seq<DocLiteral>, a: SpecDoc, b: SpecDoc)
    requires
        a.types@ == b.types@,
    ensures
        doc_text_of(lits, a) == doc_text_of(lits, b),
{
}

/// A primitive node generates an alias of its own kind, with the node's
/// documentation and no namespace; the kinds are written `bool`, `u32` and
/// `String`.
pub proof fn lemma_primitive_alias(name: Seq<char>, ty: SpecType)
    requires
        prim_of(ty) is Some,
    ensures
        gen_unit(name, ty) == (GenUnit {
            decl: TypeDecl::Alias { name, doc: doc_of(ty), prim: prim_of(ty)->0 },
            namespace: None,
        }),
        ty is Bool ==> prim_text(prim_of(ty)->0) == "bool"@,
        ty is U32 ==> prim_text(prim_of(ty)->0) == "u32"@,
        ty is Str ==> prim_text(prim_of(ty)->0) == "String"@,
{
}

proof fn lemma_no_tuple_children(name: Seq<char>, content: Vec<TupleEntry>, k: int)
    requires
        forall|i: int| 0 <= i < content.len() ==> prim_of(#[trigger] content@[i].content) is Some,
    ensures
        tuple_children(name, content, k).len() == 0,
    decreases k,
{
    if k > 0 {
        lemma_no_tuple_children(name, content, k - 1);
    }
}

proof fn lemma_no_field_children(content: Vec<FieldEntry>, k: int)
    requires
        forall|i: int| 0 <= i < content.len() ==> prim_of(#[trigger] content@[i].content) is Some,
    ensures
        field_children(content, k).len() == 0,
    decreases k,
{
    if k > 0 {
        lemma_no_field_children(content, k - 1);
    }
}

/// A tuple whose slots are all primitive generates its declaration alone,
/// with no namespace.
pub proof fn lemma_primitive_tuple_inline(lits: Seq<DocLiteral>, name: Seq<char>, doc: Option<String>, content: Vec<TupleEntry>)
    requires
        forall|i: int| 0 <= i < content.len() ==> prim_of(#[trigger] content@[i].content) is Some,
    ensures
        gen_unit(name, SpecType::Tuple { doc, content }).namespace is None,
        render_unit(lits, gen_unit(name, SpecType::Tuple { doc, content }))
            == decl_text(lits, gen_unit(name, SpecType::Tuple { doc, content }).decl),
{
    lemma_no_tuple_children(name, content, content.len() as int);
}

/// A struct whose fields are all primitive generates its declaration alone,
/// with no namespace.
pub proof fn lemma_primitive_struct_inline(lits: Seq<DocLiteral>, name: Seq<char>, doc: Option<String>, content: Vec<FieldEntry>)
    requires
        forall|i: int| 0 <= i < content.len() ==> prim_of(#[trigger] content@[i].content) is Some,
    ensures
        gen_unit(name, SpecType::Struct { doc, content }).namespace is None,
        render_unit(lits, gen_unit(name, SpecType::Struct { doc, content }))
            == decl_text(lits, gen_unit(name, SpecType::Struct { doc, content }).decl),
{
    lemma_no_field_children(content, content.len() as int);
}

/// The fields of a struct in sorted order.
pub open spec fn sorted_fields(content: Seq<FieldEntry>) -> Seq<FieldEntry> {
    Seq::new(content.len(), |k: int| content[field_order(content)[k]])
}

/// The composite fields of a struct, in sorted order.
pub open spec fn composite_fields(content: Seq<FieldEntry>) -> Seq<FieldEntry> {
    sorted_fields(content).filter(|e: FieldEntry| is_composite(e.content))
}

/// The child that a composite field generates: named by the field's name in
/// pascal case.
pub open spec fn field_child(e: FieldEntry) -> GenUnit {
    gen_unit(pascal_of(e.name@), e.content)
}

proof fn lemma_field_children_filter(content: Vec<FieldEntry>, k: int)
    requires
        0 <= k <= content.len(),
    ensures
        field_children(content, k)
            == sorted_fields(content@).take(k).filter(|e: FieldEntry| is_composite(e.content)).map_values(
            |e: FieldEntry| field_child(e),
        ),
    decreases k,
{
    lemma_index_order_sorted(crate::model::field_keys(content@), content.len() as nat);
    let sf = sorted_fields(content@);
    let pred = |e: FieldEntry| is_composite(e.content);
    let f = |e: FieldEntry| field_child(e);
    if k == 0 {
        assert(sf.take(0) =~= Seq::<FieldEntry>::empty());
        assert(sf.take(0).filter(pred) =~= Seq::<FieldEntry>::empty());
        assert(sf.take(0).filter(pred).map_values(f) =~= Seq::<GenUnit>::empty());
    } else {
        lemma_field_children_filter(content, k - 1);
        let t = sf.take(k);
        assert(t.drop_last() =~= sf.take(k - 1));
        reveal_with_fuel(Seq::filter, 1);
        let i = field_order(content@)[k - 1];
        assert(t.last() == content@[i]);
        assert(field_children(content, k) =~= t.filter(pred).map_values(f));
    }
}

/// A struct with at least one composite field generates exactly one namespace,
/// named by the struct's name in snake case, holding one child for each
/// composite field, in sorted order.
pub proof fn lemma_struct_namespace(name: Seq<char>, doc: Option<String>, content: Vec<FieldEntry>)
    requires
        exists|i: int| 0 <= i < content.len() && is_composite(#[trigger] content@[i].content),
    ensures
        gen_unit(name, SpecType::Struct { doc, content }).namespace == Some(
            Namespace {
                name: snake_of(name),
                units: composite_fields(content@).map_values(|e: FieldEntry| field_child(e)),
            },
        ),
        composite_fields(content@).len() >= 1,
{
    let n = content.len() as int;
    lemma_index_order_sorted(crate::model::field_keys(content@), n as nat);
    lemma_field_children_filter(content, n);
    let sf = sorted_fields(content@);
    assert(sf.take(n) =~= sf);
    let i = choose|i: int| 0 <= i < content.len() && is_composite(#[trigger] content@[i].content);
    let order = field_order(content@);
    assert(order.contains(i));
    let k = choose|k: int| 0 <= k < order.len() && order[k] == i;
    assert(sf[k] == content@[i]);
    let pred = |e: FieldEntry| is_composite(e.content);
    assert(sf.filter(pred).contains(sf[k])) by {
        sf.lemma_filter_contains(pred, k);
    }
}

/// A struct's fields are declared, and serialized, in ascending order of
/// their keys: the member list and the serializer's tuple are one sequence.
pub proof fn lemma_struct_fields_sorted(name: Seq<char>, doc: Option<String>, content: Vec<FieldEntry>)
    ensures
        gen_unit(name, SpecType::Struct { doc, content }).decl == (TypeDecl::StructDecl {
            name,
            doc: crate::model::doc_text(doc),
            fields: sorted_fields(content@).map_values(|e: FieldEntry| field_member(snake_of(name), e)),
        }),
        sorted_fields(content@).len() == content.len(),
        forall|a: int, b: int| 0 <= a < b < content.len() ==>
            (#[trigger] sorted_fields(content@)[a]).index <= (#[trigger] sorted_fields(content@)[b]).index,
{
    let keys = crate::model::field_keys(content@);
    lemma_index_order_sorted(keys, content.len() as nat);
    let sf = sorted_fields(content@);
    let order = field_order(content@);
    assert forall|a: int, b: int| 0 <= a < b < content.len() implies
        (#[trigger] sf[a]).index <= (#[trigger] sf[b]).index by {
        assert(keys[order[a]] <= keys[order[b]]);
    }
    assert(crate::decl::field_members(name, content@)
        =~= sf.map_values(|e: FieldEntry| field_member(snake_of(name), e)));
}

} // verus!
