use vstd::prelude::*;
use crate::decl::{
    field_children, field_member, field_members, field_order, gen_unit, is_composite, tuple_child_name,
    tuple_children, tuple_member, tuple_members, tuple_order, type_ref,
};
use crate::model::{doc_of, doc_text, field_keys, prim_of, tuple_keys, FieldEntry, PrimKind, SpecDoc, SpecType, TupleEntry};
use crate::naming::{pascal_case, pascal_of, push_decimal, snake_case, snake_of, string_literal};
use crate::order::{index_order_exec, lemma_index_order_sorted};
use crate::render::{
    lit, DocLiteral, doc_text_of, fields_text, lemma_units_text_prefix, prim_text, ref_text, render_unit, ser_types_text,
    ser_values_text, slots_text, types_text, units_text,
};
use crate::util::{type_def_text, QDoc, QId, QNamedField, QType, QTypeDef, QVis};

verus! {

/// The primitive kind of a node, or `None` for a tuple, a struct or an unknown node.
pub fn check_gen_primitive(ty: &SpecType) -> (r: Option<PrimKind>)
    ensures
        r == prim_of(*ty),
{
    match ty {
        SpecType::Bool { .. } => Some(PrimKind::Bool),
        SpecType::U32 { .. } => Some(PrimKind::U32),
        SpecType::Str { .. } => Some(PrimKind::Str),
        _ => None,
    }
}

fn prim_str(p: PrimKind) -> (r: &'static str)
    ensures
        r@ == prim_text(p),
{
    match p {
        PrimKind::Bool => "bool",
        PrimKind::U32 => "u32",
        PrimKind::Str => "String",
    }
}

fn opt_doc(doc: &Option<String>) -> (r: &str)
    ensures
        r@ == doc_text(*doc),
{
    proof {
        reveal_strlit("");
    }
    match doc {
        Some(s) => s.as_str(),
        None => "",
    }
}

fn node_doc(ty: &SpecType) -> (r: &str)
    ensures
        r@ == doc_of(*ty),
{
    proof {
        reveal_strlit("");
    }
    match ty {
        SpecType::Bool { doc } => opt_doc(doc),
        SpecType::U32 { doc } => opt_doc(doc),
        SpecType::Str { doc } => opt_doc(doc),
        SpecType::Tuple { doc, .. } => opt_doc(doc),
        SpecType::Struct { doc, .. } => opt_doc(doc),
        SpecType::Other => "",
    }
}

/// The source text of the type of a member whose child would be `module::child`.
fn ref_string(module: &str, child: &str, ty: &SpecType) -> (r: String)
    ensures
        r@ == ref_text(type_ref(module@, child@, *ty)),
{
    let mut r = String::new();
    match check_gen_primitive(ty) {
        Some(p) => {
            r.append(prim_str(p));
        },
        None => {
            r.append(module);
            r.append("::");
            r.append(child);
        },
    }
    r
}

fn pub_vis() -> (r: QVis)
    ensures
        r.0@ == "pub"@,
{
    QVis(String::from_str("pub"))
}

/// Appends `pub mod module { children }` to `out`.
fn push_namespace(out: &mut String, module: &str, children: &str)
    ensures
        final(out)@ == old(out)@ + "pub mod "@ + module@ + " {\n"@ + children@ + "}\n"@,
{
    out.append("pub mod ");
    out.append(module);
    out.append(" {\n");
    out.append(children);
    out.append("}\n");
}

fn tuple_key_vec(content: &Vec<TupleEntry>) -> (r: Vec<u32>)
    ensures
        r@ == tuple_keys(content@),
{
    let mut r: Vec<u32> = Vec::new();
    let mut i: usize = 0;
    while i < content.len()
        invariant
            i <= content@.len(),
            r@ == tuple_keys(content@).take(i as int),
        decreases content@.len() - i,
    {
        r.push(content[i].index);
        i = i + 1;
        assert(r@ =~= tuple_keys(content@).take(i as int));
    }
    assert(r@ =~= tuple_keys(content@));
    r
}

fn field_key_vec(content: &Vec<FieldEntry>) -> (r: Vec<u32>)
    ensures
        r@ == field_keys(content@),
{
    let mut r: Vec<u32> = Vec::new();
    let mut i: usize = 0;
    while i < content.len()
        invariant
            i <= content@.len(),
            r@ == field_keys(content@).take(i as int),
        decreases content@.len() - i,
    {
        r.push(content[i].index);
        i = i + 1;
        assert(r@ =~= field_keys(content@).take(i as int));
    }
    assert(r@ =~= field_keys(content@));
    r
}

/// The alias `name` of a primitive kind.
fn gen_alias(name: &str, doc: &Option<String>, p: PrimKind, lits: &Vec<DocLiteral>) -> (r: String)
    ensures
        r@ == type_def_text(lit(lits@, doc_text(*doc)), "pub"@, name@, prim_text(p)),
{
    let def = QTypeDef {
        doc: QDoc(find_literal(lits, opt_doc(doc))),
        vis: pub_vis(),
        name: QId(String::from_str(name)),
        ty: QType(String::from_str(prim_str(p))),
    };
    let mut out = String::new();
    def.to_tokens(&mut out);
    out
}

/// The struct `name`, its serializer, and its namespace of composite fields.
fn gen_struct(name: &str, doc: &Option<String>, content: &Vec<FieldEntry>, lits: &Vec<DocLiteral>) -> (r: String)
    ensures
        r@ == render_unit(lits@, gen_unit(name@, SpecType::Struct { doc: *doc, content: *content })),
    decreases *content, 1int,
{
    let ghost members = field_members(name@, content@);
    let ghost sorted = field_order(content@);
    let module = snake_case(name);
    let keys = field_key_vec(content);
    let order = index_order_exec(&keys);
    proof {
        lemma_index_order_sorted(keys@, keys@.len() as nat);
    }
    let mut mod_text = String::new();
    let mut fields = String::new();
    let mut ser_types = String::new();
    let mut ser_values = String::new();
    let mut n_children: usize = 0;
    let mut k: usize = 0;
    while k < order.len()
        invariant
            order@.len() == content@.len(),
            sorted.len() == content@.len(),
            members.len() == content@.len(),
            module@ == snake_of(name@),
            sorted == field_order(content@),
            members == field_members(name@, content@),
            forall|j: int| 0 <= j < order@.len() ==> order@[j] as int == #[trigger] sorted[j],
            forall|j: int| 0 <= j < order@.len() ==> 0 <= #[trigger] sorted[j] < content@.len(),
            k <= order@.len(),
            n_children <= k,
            n_children == field_children(*content, k as int).len(),
            mod_text@ == units_text(lits@, field_children(*content, k as int), n_children as int),
            fields@ == fields_text(lits@, members, k as int),
            ser_types@ == ser_types_text(lits@, members, k as int),
            ser_values@ == ser_values_text(lits@, members, k as int),
        decreases order@.len() - k,
    {
        let i = order[k];
        let e = &content[i];
        let lit = find_literal(lits, node_doc(&e.content));
        let ident = snake_case(e.name.as_str());
        let child = pascal_case(e.name.as_str());
        let ghost prev = field_children(*content, k as int);
        assert(members[k as int] == field_member(snake_of(name@), content@[i as int]));
        if matches!(&e.content, SpecType::Tuple { .. } | SpecType::Struct { .. }) {
            proof {
                assert(decreases_to!(*content => content[i as int]));
            }
            let sub = gen_one_type(child.as_str(), &e.content, lits);
            mod_text.append(sub.as_str());
            proof {
                let next = field_children(*content, k + 1);
                assert(next == prev.push(gen_unit(pascal_of(e.name@), e.content)));
                lemma_units_text_prefix(lits@, prev, next, n_children as int);
            }
            n_children = n_children + 1;
        }
        let ty_text = ref_string(module.as_str(), child.as_str(), &e.content);
        ser_types.append("&");
        ser_types.append(ty_text.as_str());
        ser_types.append(", ");
        ser_values.append("&self.");
        ser_values.append(ident.as_str());
        ser_values.append(", ");
        let fld = QNamedField {
            doc: QDoc(lit),
            vis: QVis(String::new()),
            name: QId(ident),
            ty: QType(ty_text),
        };
        fld.to_tokens(&mut fields);
        fields.append(",\n");
        k = k + 1;
    }
    let mut out = String::new();
    if n_children > 0 {
        push_namespace(&mut out, module.as_str(), mod_text.as_str());
    }
    out.append("#[doc = ");
    out.append(find_literal(lits, opt_doc(doc)).as_str());
    out.append("]\n");
    out.append("#[derive(Debug, Clone, PartialEq)]\npub struct ");
    out.append(name);
    out.append(" {\n");
    out.append(fields.as_str());
    out.append("}\n\nimpl ::serde::Serialize for ");
    out.append(name);
    out.append(" {\n    fn serialize<S>(&self, serializer: S) -> Result<S::Ok, S::Error>\n    where\n        S: ::serde::Serializer,\n    {\n        let r: (");
    out.append(ser_types.as_str());
    out.append(") = (");
    out.append(ser_values.as_str());
    out.append(");\n        r.serialize(serializer)\n    }\n}\n");
    out
}

/// The declaration for the tuple `name`, with its namespace of composite slots.
fn gen_tuple(name: &str, doc: &Option<String>, content: &Vec<TupleEntry>, lits: &Vec<DocLiteral>) -> (r: String)
    ensures
        r@ == render_unit(lits@, gen_unit(name@, SpecType::Tuple { doc: *doc, content: *content })),
    decreases *content, 1int,
{
    let ghost ty = SpecType::Tuple { doc: *doc, content: *content };
    let ghost members = tuple_members(name@, content@);
    let ghost sorted = tuple_order(content@);
    let module = snake_case(name);
    let keys = tuple_key_vec(content);
    let order = index_order_exec(&keys);
    proof {
        lemma_index_order_sorted(keys@, keys@.len() as nat);
    }
    let mut mod_text = String::new();
    let mut slots = String::new();
    let mut n_children: usize = 0;
    let mut k: usize = 0;
    while k < order.len()
        invariant
            order@.len() == content@.len(),
            sorted.len() == content@.len(),
            members.len() == content@.len(),
            module@ == snake_of(name@),
            sorted == tuple_order(content@),
            members == tuple_members(name@, content@),
            forall|j: int| 0 <= j < order@.len() ==> order@[j] as int == #[trigger] sorted[j],
            forall|j: int| 0 <= j < order@.len() ==> 0 <= #[trigger] sorted[j] < content@.len(),
            k <= order@.len(),
            n_children <= k,
            n_children == tuple_children(name@, *content, k as int).len(),
            mod_text@ == units_text(lits@, tuple_children(name@, *content, k as int), n_children as int),
            slots@ == slots_text(lits@, members, k as int),
        decreases order@.len() - k,
    {
        let i = order[k];
        let e = &content[i];
        let lit = find_literal(lits, node_doc(&e.content));
        let mut child = String::from_str(name);
        push_decimal(&mut child, e.index);
        let ghost prev = tuple_children(name@, *content, k as int);
        assert(members[k as int] == tuple_member(name@, snake_of(name@), content@[i as int]));
        if matches!(&e.content, SpecType::Tuple { .. } | SpecType::Struct { .. }) {
            proof {
                assert(decreases_to!(*content => content[i as int]));
            }
            let sub = gen_one_type(child.as_str(), &e.content, lits);
            mod_text.append(sub.as_str());
            proof {
                let next = tuple_children(name@, *content, k + 1);
                assert(next == prev.push(gen_unit(tuple_child_name(name@, e.index), e.content)));
                lemma_units_text_prefix(lits@, prev, next, n_children as int);
            }
            n_children = n_children + 1;
        }
        let ty_text = ref_string(module.as_str(), child.as_str(), &e.content);
        slots.append("/* ");
        slots.append(lit.as_str());
        slots.append(" */ ");
        slots.append(ty_text.as_str());
        slots.append(", ");
        k = k + 1;
    }
    let mut out = String::new();
    if n_children > 0 {
        push_namespace(&mut out, module.as_str(), mod_text.as_str());
    }
    let mut ty_text = String::from_str("(");
    ty_text.append(slots.as_str());
    ty_text.append(")");
    let def = QTypeDef {
        doc: QDoc(find_literal(lits, opt_doc(doc))),
        vis: pub_vis(),
        name: QId(String::from_str(name)),
        ty: QType(ty_text),
    };
    def.to_tokens(&mut out);
    out
}

/// What the named type `name` with the type tree `ty` generates, as source
/// text, with the doc literals of `lits`.
pub fn gen_one_type(name: &str, ty: &SpecType, lits: &Vec<DocLiteral>) -> (r: String)
    ensures
        r@ == render_unit(lits@, gen_unit(name@, *ty)),
    decreases *ty, 2int,
{
    match ty {
        SpecType::Bool { doc } => gen_alias(name, doc, PrimKind::Bool, lits),
        SpecType::U32 { doc } => gen_alias(name, doc, PrimKind::U32, lits),
        SpecType::Str { doc } => gen_alias(name, doc, PrimKind::Str, lits),
        SpecType::Tuple { doc, content } => gen_tuple(name, doc, content, lits),
        SpecType::Struct { doc, content } => gen_struct(name, doc, content, lits),
        SpecType::Other => String::new(),
    }
}

/// The declarations of every top-level type of `doc`, in the document's
/// order, with the doc literals of `lits`: each type is named by the pascal
/// case of its key.
pub fn render_types(doc: &SpecDoc, lits: &Vec<DocLiteral>) -> (r: String)
    ensures
        r@ == doc_text_of(lits@, *doc),
{
    let mut out = String::new();
    let mut i: usize = 0;
    while i < doc.types.len()
        invariant
            i <= doc.types@.len(),
            out@ == types_text(lits@, doc.types@, i as int),
        decreases doc.types@.len() - i,
    {
        let t = &doc.types[i];
        let name = pascal_case(t.name.as_str());
        let part = gen_one_type(name.as_str(), &t.ty, lits);
        out.append(part.as_str());
        i = i + 1;
    }
    out
}

/// The literal that `lits` gives for `doc`.
pub fn find_literal(lits: &Vec<DocLiteral>, doc: &str) -> (r: String)
    ensures
        r@ == lit(lits@, doc@),
{
    let key = String::from_str(doc);
    assert(lits@.skip(0) =~= lits@);
    let mut i: usize = 0;
    while i < lits.len()
        invariant
            i <= lits@.len(),
            key@ == doc@,
            lit(lits@, doc@) == lit(lits@.skip(i as int), doc@),
        decreases lits@.len() - i,
    {
        assert(lits@.skip(i as int).drop_first() =~= lits@.skip(i + 1));
        if lits[i].doc == key {
            return lits[i].literal.clone();
        }
        i = i + 1;
    }
    String::from_str("\"\"")
}

/// Appends the documentation texts of every node below the slots `content`.
fn collect_tuple_docs(content: &Vec<TupleEntry>, out: &mut Vec<String>)
    decreases *content, 1int,
{
    let mut i: usize = 0;
    while i < content.len()
        invariant
            i <= content@.len(),
        decreases content@.len() - i,
    {
        proof {
            assert(decreases_to!(*content => content[i as int]));
        }
        collect_docs(&content[i].content, out);
        i = i + 1;
    }
}

/// Appends the documentation texts of every node below the fields `content`.
fn collect_field_docs(content: &Vec<FieldEntry>, out: &mut Vec<String>)
    decreases *content, 1int,
{
    let mut i: usize = 0;
    while i < content.len()
        invariant
            i <= content@.len(),
        decreases content@.len() - i,
    {
        proof {
            assert(decreases_to!(*content => content[i as int]));
        }
        collect_docs(&content[i].content, out);
        i = i + 1;
    }
}

/// Appends the documentation texts of `ty` and of every node below it.
fn collect_docs(ty: &SpecType, out: &mut Vec<String>)
    decreases *ty, 2int,
{
    out.push(String::from_str(node_doc(ty)));
    match ty {
        SpecType::Tuple { content, .. } => collect_tuple_docs(content, out),
        SpecType::Struct { content, .. } => collect_field_docs(content, out),
        _ => {},
    }
}

/// Generates the declarations of every top-level type of `doc`. The doc
/// literals are written by `proc_macro2`, and the text is what `render_types`
/// gives for the literals that came back.
pub fn generate_types(doc: &SpecDoc) -> (r: String)
    ensures
        exists|lits: Seq<DocLiteral>| r@ == doc_text_of(lits, *doc),
{
    let mut docs: Vec<String> = Vec::new();
    let mut i: usize = 0;
    while i < doc.types.len()
        invariant
            i <= doc.types@.len(),
        decreases doc.types@.len() - i,
    {
        collect_docs(&doc.types[i].ty, &mut docs);
        i = i + 1;
    }
    let mut lits: Vec<DocLiteral> = Vec::new();
    let mut j: usize = 0;
    while j < docs.len()
        invariant
            j <= docs@.len(),
        decreases docs@.len() - j,
    {
        let literal = string_literal(docs[j].as_str());
        lits.push(DocLiteral { doc: docs[j].clone(), literal });
        j = j + 1;
    }
    let r = render_types(doc, &lits);
    assert(r@ == doc_text_of(lits@, *doc));
    r
}

/// The text that formatting hands back: the formatter's output where it
/// produced one, else the source unchanged.
pub fn format_outcome(source: String, formatted: Option<String>) -> (r: String)
    ensures
        formatted is None ==> r@ == source@,
        formatted is Some ==> r@ == formatted->0@,
{
    match formatted {
        Some(f) => f,
        None => source,
    }
}

} // verus!
