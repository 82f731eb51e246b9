use inversion_api_codegen::{QDoc, QId, QNamedField, QNamedStruct, QType, QTypeDef, QVis};

fn s(t: &str) -> String {
    t.to_string()
}

#[test]
fn type_def_renders() {
    let def = QTypeDef { doc: QDoc(s("\"d\"")), vis: QVis(s("pub")), name: QId(s("A")), ty: QType(s("u32")) };
    let mut out = String::new();
    def.to_tokens(&mut out);
    assert_eq!(out, "#[doc = \"d\"]\npub type A = u32;\n");
}

#[test]
fn named_struct_renders() {
    let f = |n: &str, vis: &str| QNamedField { doc: QDoc(s("\"\"")), vis: QVis(s(vis)), name: QId(s(n)), ty: QType(s("bool")) };
    let st = QNamedStruct { doc: QDoc(s("\"x\"")), vis: QVis(s("")), name: QId(s("S")), flds: vec![f("a", "pub"), f("b", "")] };
    let mut out = s("// ");
    st.to_tokens(&mut out);
    assert_eq!(
        out,
        "// #[doc = \"x\"]\nstruct S {\n    #[doc = \"\"]\n    pub a: bool,\n    #[doc = \"\"]\n    b: bool\n}\n"
    );
}

#[test]
fn pieces_append() {
    let mut out = String::new();
    QVis(s("pub")).to_tokens(&mut out);
    QId(s(" x")).to_tokens(&mut out);
    QType(s(": u8")).to_tokens(&mut out);
    QDoc(s(";")).to_tokens(&mut out);
    assert_eq!(out, "pub x: u8;");
}

#[test]
fn named_struct_without_fields_renders() {
    let st = QNamedStruct { doc: QDoc(s("\"\"")), vis: QVis(s("pub")), name: QId(s("E")), flds: vec![] };
    let mut out = String::new();
    st.to_tokens(&mut out);
    assert_eq!(out, "#[doc = \"\"]\npub struct E {}\n");
}

#[test]
fn named_struct_with_one_field_renders() {
    let fld = QNamedField { doc: QDoc(s("\"f\"")), vis: QVis(s("")), name: QId(s("a")), ty: QType(s("u8")) };
    let st = QNamedStruct { doc: QDoc(s("\"\"")), vis: QVis(s("")), name: QId(s("One")), flds: vec![fld] };
    let mut out = String::new();
    st.to_tokens(&mut out);
    assert_eq!(out, "#[doc = \"\"]\nstruct One {\n    #[doc = \"f\"]\n    a: u8\n}\n");
}
