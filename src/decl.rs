use vstd::prelude::*;
use crate::model::{doc_of, doc_text, field_keys, prim_of, tuple_keys, FieldEntry, PrimKind, SpecType, TupleEntry};
use crate::naming::{decimal, pascal_of, snake_of};
use crate::order::index_order;

verus! {

/// How a member of a generated declaration names its type.
pub enum TypeRef {
    /// A primitive kind, written in place.
    Prim(PrimKind),
    /// A declaration inside the parent's namespace: `module::name`.
    Nested { module: Seq<char>, name: Seq<char> },
}

/// A tuple slot (with an empty identifier) or a struct field of a declaration.
pub struct Member {
    pub ident: Seq<char>,
    pub doc: Seq<char>,
    pub ty: TypeRef,
}

/// A generated declaration.
pub enum TypeDecl {
    Alias { name: Seq<char>, doc: Seq<char>, prim: PrimKind },
    TupleDecl { name: Seq<char>, doc: Seq<char>, slots: Seq<Member> },
    StructDecl { name: Seq<char>, doc: Seq<char>, fields: Seq<Member> },
    /// What an unknown kind of node generates: nothing.
    Empty,
}

/// A namespace holding the generated children of one composite type.
pub struct Namespace {
    pub name: Seq<char>,
    pub units: Seq<GenUnit>,
}

/// What one named type generates: its declaration and, where it has composite
/// children, the namespace that holds them.
pub struct GenUnit {
    pub decl: TypeDecl,
    pub namespace: Option<Namespace>,
}

/// The namespace for a list of children: none where the list is empty.
pub open spec fn namespace_of(module: Seq<char>, units: Seq<GenUnit>) -> Option<Namespace> {
    if units.len() == 0 {
        None
    } else {
        Some(Namespace { name: module, units })
    }
}

/// A node that generates a child declaration of its own.
pub open spec fn is_composite(ty: SpecType) -> bool {
    ty is Tuple || ty is Struct
}

/// The type reference for a member whose child declaration would be `child`.
pub open spec fn type_ref(module: Seq<char>, child: Seq<char>, ty: SpecType) -> TypeRef {
    match prim_of(ty) {
        Some(p) => TypeRef::Prim(p),
        None => TypeRef::Nested { module, name: child },
    }
}

/// The name of the child declaration of a tuple slot: the parent's name
/// followed by the slot's key in decimal.
pub open spec fn tuple_child_name(name: Seq<char>, index: u32) -> Seq<char> {
    name + decimal(index as nat)
}

/// The stably sorted order of a tuple's slots.
pub open spec fn tuple_order(content: Seq<TupleEntry>) -> Seq<int> {
    index_order(tuple_keys(content), content.len())
}

/// The stably sorted order of a struct's fields.
pub open spec fn field_order(content: Seq<FieldEntry>) -> Seq<int> {
    index_order(field_keys(content), content.len())
}

pub open spec fn tuple_member(name: Seq<char>, module: Seq<char>, e: TupleEntry) -> Member {
    Member {
        ident: Seq::empty(),
        doc: doc_of(e.content),
        ty: type_ref(module, tuple_child_name(name, e.index), e.content),
    }
}

pub open spec fn field_member(module: Seq<char>, e: FieldEntry) -> Member {
    Member {
        ident: snake_of(e.name@),
        doc: doc_of(e.content),
        ty: type_ref(module, pascal_of(e.name@), e.content),
    }
}

/// The slots of a tuple declaration, in sorted order.
pub open spec fn tuple_members(name: Seq<char>, content: Seq<TupleEntry>) -> Seq<Member> {
    let order = tuple_order(content);
    Seq::new(order.len(), |k: int| tuple_member(name, snake_of(name), content[order[k]]))
}

/// The fields of a struct declaration, in sorted order.
pub open spec fn field_members(name: Seq<char>, content: Seq<FieldEntry>) -> Seq<Member> {
    let order = field_order(content);
    Seq::new(order.len(), |k: int| field_member(snake_of(name), content[order[k]]))
}

/// The children generated for the first `k` slots of a tuple in sorted order:
/// one for each slot whose type is composite.
pub open spec fn tuple_children(name: Seq<char>, content: Vec<TupleEntry>, k: int) -> Seq<GenUnit>
    decreases content, k,
{
    if k <= 0 {
        Seq::empty()
    } else {
        let prev = tuple_children(name, content, k - 1);
        let i = tuple_order(content@)[k - 1];
        if 0 <= i < content.len() && is_composite(content[i].content) {
            prev.push(gen_unit(tuple_child_name(name, content[i].index), content[i].content))
        } else {
            prev
        }
    }
}

/// The children generated for the first `k` fields of a struct in sorted order:
/// one for each field whose type is composite.
pub open spec fn field_children(content: Vec<FieldEntry>, k: int) -> Seq<GenUnit>
    decreases content, k,
{
    if k <= 0 {
        Seq::empty()
    } else {
        let prev = field_children(content, k - 1);
        let i = field_order(content@)[k - 1];
        if 0 <= i < content.len() && is_composite(content[i].content) {
            prev.push(gen_unit(pascal_of(content[i].name@), content[i].content))
        } else {
            prev
        }
    }
}

/// What the named type `name` with the type tree `ty` generates.
pub open spec fn gen_unit(name: Seq<char>, ty: SpecType) -> GenUnit
    decreases ty, 0int,
{
    match ty {
        SpecType::Bool { doc } => GenUnit {
            decl: TypeDecl::Alias { name, doc: doc_text(doc), prim: PrimKind::Bool },
            namespace: None,
        },
        SpecType::U32 { doc } => GenUnit {
            decl: TypeDecl::Alias { name, doc: doc_text(doc), prim: PrimKind::U32 },
            namespace: None,
        },
        SpecType::Str { doc } => GenUnit {
            decl: TypeDecl::Alias { name, doc: doc_text(doc), prim: PrimKind::Str },
            namespace: None,
        },
        SpecType::Tuple { doc, content } => GenUnit {
            decl: TypeDecl::TupleDecl { name, doc: doc_text(doc), slots: tuple_members(name, content@) },
            namespace: namespace_of(snake_of(name), tuple_children(name, content, content.len() as int)),
        },
        SpecType::Struct { doc, content } => GenUnit {
            decl: TypeDecl::StructDecl { name, doc: doc_text(doc), fields: field_members(name, content@) },
            namespace: namespace_of(snake_of(name), field_children(content, content.len() as int)),
        },
        SpecType::Other => GenUnit { decl: TypeDecl::Empty, namespace: None },
    }
}

} // verus!
