use inversion_api_codegen::{
    find_literal, gen_one_type, render_types, DocLiteral, format_outcome, generate_types, index_order_exec, push_decimal, FieldEntry, NamedType, SpecDoc, SpecType,
    TupleEntry,
};

fn doc(s: &str) -> Option<String> {
    Some(s.to_string())
}

fn slot(index: u32, content: SpecType) -> TupleEntry {
    TupleEntry { index, content }
}

fn field(name: &str, index: u32, content: SpecType) -> FieldEntry {
    FieldEntry { name: name.to_string(), index, content }
}

fn single(name: &str, ty: SpecType) -> SpecDoc {
    SpecDoc { types: vec![NamedType { name: name.to_string(), ty }] }
}

fn sample_doc() -> SpecDoc {
    let call_one = SpecType::Tuple {
        doc: doc("a tuple type"),
        content: vec![
            slot(0, SpecType::Bool { doc: doc("first tuple item") }),
            slot(1, SpecType::U32 { doc: doc("second") }),
        ],
    };
    let sub = SpecType::Struct {
        doc: doc("a sub struct"),
        content: vec![
            field("yay", 0, SpecType::Bool { doc: doc("yay") }),
            field("age", 1, SpecType::U32 { doc: doc("age") }),
        ],
    };
    let call_two = SpecType::Struct {
        doc: doc("a struct type"),
        content: vec![
            field("yay", 0, SpecType::Bool { doc: doc("yay") }),
            field("age", 1, SpecType::U32 { doc: doc("age") }),
            field("sub", 2, sub),
        ],
    };
    SpecDoc {
        types: vec![
            NamedType { name: "error".to_string(), ty: SpecType::Str { doc: doc("error type") } },
            NamedType { name: "callOne".to_string(), ty: call_one },
            NamedType { name: "callTwo".to_string(), ty: call_two },
        ],
    }
}

const SAMPLE_OUTPUT: &str = r#"#[doc = "error type"]
pub type Error = String;
#[doc = "a tuple type"]
pub type CallOne = (/* "first tuple item" */ bool, /* "second" */ u32, );
pub mod call_two {
#[doc = "a sub struct"]
#[derive(Debug, Clone, PartialEq)]
pub struct Sub {
    #[doc = "yay"]
    yay: bool,
    #[doc = "age"]
    age: u32,
}

impl ::serde::Serialize for Sub {
    fn serialize<S>(&self, serializer: S) -> Result<S::Ok, S::Error>
    where
        S: ::serde::Serializer,
    {
        let r: (&bool, &u32, ) = (&self.yay, &self.age, );
        r.serialize(serializer)
    }
}
}
#[doc = "a struct type"]
#[derive(Debug, Clone, PartialEq)]
pub struct CallTwo {
    #[doc = "yay"]
    yay: bool,
    #[doc = "age"]
    age: u32,
    #[doc = "a sub struct"]
    sub: call_two::Sub,
}

impl ::serde::Serialize for CallTwo {
    fn serialize<S>(&self, serializer: S) -> Result<S::Ok, S::Error>
    where
        S: ::serde::Serializer,
    {
        let r: (&bool, &u32, &call_two::Sub, ) = (&self.yay, &self.age, &self.sub, );
        r.serialize(serializer)
    }
}
"#;

#[test]
fn test() {
    let out = generate_types(&sample_doc());
    println!("{}", out);
    assert_eq!(out, SAMPLE_OUTPUT);
}

#[test]
fn generation_is_deterministic() {
    let a = generate_types(&sample_doc());
    let b = generate_types(&sample_doc());
    assert_eq!(a, b);
}

#[test]
fn struct_fields_follow_index_order() {
    let ty = SpecType::Struct {
        doc: None,
        content: vec![field("a", 1, SpecType::U32 { doc: None }), field("b", 0, SpecType::Bool { doc: None })],
    };
    let out = generate_types(&single("pair", ty));
    let b = out.find("    b: bool,").unwrap();
    let a = out.find("    a: u32,").unwrap();
    assert!(b < a);
    assert!(out.contains("let r: (&bool, &u32, ) = (&self.b, &self.a, );"));
}

#[test]
fn equal_indices_keep_storage_order() {
    let ty = SpecType::Tuple {
        doc: None,
        content: vec![
            slot(5, SpecType::U32 { doc: None }),
            slot(2, SpecType::Str { doc: None }),
            slot(5, SpecType::Bool { doc: None }),
        ],
    };
    let out = generate_types(&single("t", ty));
    assert!(out.contains(r#"pub type T = (/* "" */ String, /* "" */ u32, /* "" */ bool, );"#));
}

#[test]
fn primitive_members_have_no_namespace() {
    let tuple = SpecType::Tuple {
        doc: None,
        content: vec![slot(0, SpecType::Bool { doc: None }), slot(1, SpecType::Str { doc: None })],
    };
    let strukt = SpecType::Struct { doc: None, content: vec![field("x", 0, SpecType::U32 { doc: None })] };
    assert!(!generate_types(&single("flat", tuple)).contains("pub mod"));
    assert!(!generate_types(&single("flatStruct", strukt)).contains("pub mod"));
}

#[test]
fn nested_struct_has_one_namespace() {
    let inner = |d: &str| SpecType::Struct { doc: doc(d), content: vec![field("v", 0, SpecType::U32 { doc: None })] };
    let ty = SpecType::Struct {
        doc: None,
        content: vec![
            field("first", 0, inner("one")),
            field("flag", 1, SpecType::Bool { doc: None }),
            field("second", 2, inner("two")),
        ],
    };
    let out = generate_types(&single("outerThing", ty));
    assert_eq!(out.matches("pub mod ").count(), 1);
    assert!(out.starts_with("pub mod outer_thing {\n"));
    assert_eq!(out.matches("pub struct First {").count(), 1);
    assert_eq!(out.matches("pub struct Second {").count(), 1);
    assert!(out.contains("    first: outer_thing::First,\n"));
    assert!(out.contains("    second: outer_thing::Second,\n"));
    assert!(out.find("pub struct First").unwrap() < out.find("pub struct Second").unwrap());
}

#[test]
fn nested_tuple_slot_is_named_by_index() {
    let inner = SpecType::Tuple { doc: None, content: vec![slot(0, SpecType::Bool { doc: None })] };
    let ty = SpecType::Tuple { doc: None, content: vec![slot(12, inner), slot(3, SpecType::U32 { doc: None })] };
    let out = generate_types(&single("callOne", ty));
    assert!(out.starts_with("pub mod call_one {\n"));
    assert!(out.contains("pub type CallOne12 = (/* \"\" */ bool, );"));
    assert!(out.contains("pub type CallOne = (/* \"\" */ u32, /* \"\" */ call_one::CallOne12, );"));
}

#[test]
fn primitives_map_to_their_own_types() {
    assert_eq!(
        generate_types(&single("flag", SpecType::Bool { doc: doc("b") })),
        "#[doc = \"b\"]\npub type Flag = bool;\n"
    );
    assert_eq!(generate_types(&single("count", SpecType::U32 { doc: None })), "#[doc = \"\"]\npub type Count = u32;\n");
    assert_eq!(generate_types(&single("label", SpecType::Str { doc: None })), "#[doc = \"\"]\npub type Label = String;\n");
}

#[test]
fn documentation_is_escaped() {
    let out = generate_types(&single("quoted", SpecType::Bool { doc: doc("say \"hi\"") }));
    assert_eq!(out, "#[doc = \"say \\\"hi\\\"\"]\npub type Quoted = bool;\n");
}

#[test]
fn field_names_are_cased() {
    let inner = SpecType::Struct { doc: None, content: vec![] };
    let ty = SpecType::Struct { doc: None, content: vec![field("someField", 0, inner)] };
    let out = generate_types(&single("my_type", ty));
    assert!(out.contains("pub mod my_type {\n"));
    assert!(out.contains("pub struct SomeField {\n}"));
    assert!(out.contains("    some_field: my_type::SomeField,\n"));
    assert!(out.contains("pub struct MyType {"));
}

#[test]
fn unknown_nodes_generate_nothing() {
    assert_eq!(generate_types(&single("gone", SpecType::Other)), "");
    let ty = SpecType::Struct { doc: None, content: vec![field("odd", 0, SpecType::Other)] };
    let out = generate_types(&single("holder", ty));
    assert!(!out.contains("pub mod"));
    assert!(out.contains("    odd: holder::Odd,\n"));
}

#[test]
fn empty_document_generates_nothing() {
    assert_eq!(generate_types(&SpecDoc { types: vec![] }), "");
}

#[test]
fn formatter_failure_keeps_source() {
    let src = "pub type A = bool;".to_string();
    assert_eq!(format_outcome(src.clone(), None), src);
    assert_eq!(format_outcome(src, Some("pub type A = bool;\n".to_string())), "pub type A = bool;\n");
}

#[test]
fn index_order_is_stable_ascending() {
    assert_eq!(index_order_exec(&vec![3, 1, 2, 1]), vec![1, 3, 2, 0]);
    assert_eq!(index_order_exec(&vec![]), Vec::<usize>::new());
}

#[test]
fn decimal_forms() {
    let mut s = "x".to_string();
    push_decimal(&mut s, 0);
    push_decimal(&mut s, 10);
    push_decimal(&mut s, 4294967295);
    assert_eq!(s, "x0104294967295");
}

fn entry(doc: &str, literal: &str) -> DocLiteral {
    DocLiteral { doc: doc.to_string(), literal: literal.to_string() }
}

#[test]
fn literals_come_from_the_table() {
    let lits = vec![entry("b", "\"first\""), entry("b", "\"second\""), entry("", "\"none\"")];
    assert_eq!(find_literal(&lits, "b"), "\"first\"");
    assert_eq!(find_literal(&lits, ""), "\"none\"");
    assert_eq!(find_literal(&lits, "missing"), "\"\"");
    let out = render_types(&single("flag", SpecType::Bool { doc: doc("b") }), &lits);
    assert_eq!(out, "#[doc = \"first\"]\npub type Flag = bool;\n");
}

#[test]
fn one_type_with_given_literals() {
    let ty = SpecType::Tuple { doc: None, content: vec![slot(0, SpecType::U32 { doc: doc("n") })] };
    let out = gen_one_type("Pair", &ty, &vec![entry("n", "\"N\""), entry("", "\"E\"")]);
    assert_eq!(out, "#[doc = \"E\"]\npub type Pair = (/* \"N\" */ u32, );\n");
}
