use vstd::prelude::*;

verus! {

/// An identifier, as source text.
pub struct QId(pub String);

/// A type, as source text.
pub struct QType(pub String);

/// A visibility (`pub`, or empty for private), as source text.
pub struct QVis(pub String);

/// A documentation string, as the source text of its literal.
pub struct QDoc(pub String);

/// A type alias: `#[doc = DOC] VIS type NAME = TY;`.
pub struct QTypeDef {
    pub doc: QDoc,
    pub vis: QVis,
    pub name: QId,
    pub ty: QType,
}

/// A field of a struct with named fields: `#[doc = DOC] VIS NAME: TY`.
pub struct QNamedField {
    pub doc: QDoc,
    pub vis: QVis,
    pub name: QId,
    pub ty: QType,
}

/// A struct with named fields.
pub struct QNamedStruct {
    pub doc: QDoc,
    pub vis: QVis,
    pub name: QId,
    pub flds: Vec<QNamedField>,
}

/// A visibility followed by a space, or nothing where it is empty.
pub open spec fn vis_prefix(vis: Seq<char>) -> Seq<char> {
    if vis.len() == 0 {
        Seq::empty()
    } else {
        vis + " "@
    }
}

/// The documentation attribute for a doc literal, on a line of its own.
pub open spec fn doc_attr_text(doc: Seq<char>) -> Seq<char> {
    "#[doc = "@ + doc + "]\n"@
}

pub open spec fn type_def_text(doc: Seq<char>, vis: Seq<char>, name: Seq<char>, ty: Seq<char>) -> Seq<char> {
    doc_attr_text(doc) + vis_prefix(vis) + "type "@ + name + " = "@ + ty + ";\n"@
}

pub open spec fn named_field_text(doc: Seq<char>, vis: Seq<char>, name: Seq<char>, ty: Seq<char>) -> Seq<char> {
    "    "@ + doc_attr_text(doc) + "    "@ + vis_prefix(vis) + name + ": "@ + ty
}

/// The first `k` fields, separated by a comma and a line break.
pub open spec fn named_fields_text(flds: Seq<QNamedField>, k: int) -> Seq<char>
    decreases k,
{
    if k <= 0 {
        Seq::empty()
    } else if k == 1 {
        flds[0].text()
    } else {
        named_fields_text(flds, k - 1) + ",\n"@ + flds[k - 1].text()
    }
}

/// The body of a struct with the given fields: empty where there are none,
/// else the fields on lines of their own.
pub open spec fn struct_body_text(flds: Seq<QNamedField>) -> Seq<char> {
    if flds.len() == 0 {
        Seq::empty()
    } else {
        "\n"@ + named_fields_text(flds, flds.len() as int) + "\n"@
    }
}

fn push_vis(tokens: &mut String, vis: &QVis)
    ensures
        final(tokens)@ == old(tokens)@ + vis_prefix(vis.0@),
{
    if !vis.0.as_str().is_empty() {
        tokens.append(vis.0.as_str());
        tokens.append(" ");
    }
}

fn push_doc_attr(tokens: &mut String, doc: &QDoc)
    ensures
        final(tokens)@ == old(tokens)@ + doc_attr_text(doc.0@),
{
    tokens.append("#[doc = ");
    tokens.append(doc.0.as_str());
    tokens.append("]\n");
}

impl QId {
    /// Appends the identifier to `tokens`.
    pub fn to_tokens(&self, tokens: &mut String)
        ensures
            final(tokens)@ == old(tokens)@ + self.0@,
    {
        tokens.append(self.0.as_str());
    }
}

impl QType {
    /// Appends the type to `tokens`.
    pub fn to_tokens(&self, tokens: &mut String)
        ensures
            final(tokens)@ == old(tokens)@ + self.0@,
    {
        tokens.append(self.0.as_str());
    }
}

impl QVis {
    /// Appends the visibility to `tokens`.
    pub fn to_tokens(&self, tokens: &mut String)
        ensures
            final(tokens)@ == old(tokens)@ + self.0@,
    {
        tokens.append(self.0.as_str());
    }
}

impl QDoc {
    /// Appends the doc literal to `tokens`.
    pub fn to_tokens(&self, tokens: &mut String)
        ensures
            final(tokens)@ == old(tokens)@ + self.0@,
    {
        tokens.append(self.0.as_str());
    }
}

impl QTypeDef {
    pub open spec fn text(&self) -> Seq<char> {
        type_def_text(self.doc.0@, self.vis.0@, self.name.0@, self.ty.0@)
    }

    /// Appends the type alias to `tokens`.
    pub fn to_tokens(&self, tokens: &mut String)
        ensures
            final(tokens)@ == old(tokens)@ + self.text(),
    {
        let ghost start = tokens@;
        push_doc_attr(tokens, &self.doc);
        push_vis(tokens, &self.vis);
        tokens.append("type ");
        self.name.to_tokens(tokens);
        tokens.append(" = ");
        self.ty.to_tokens(tokens);
        tokens.append(";\n");
        assert(tokens@ =~= start + self.text());
    }
}

impl QNamedField {
    pub open spec fn text(&self) -> Seq<char> {
        named_field_text(self.doc.0@, self.vis.0@, self.name.0@, self.ty.0@)
    }

    /// Appends the field to `tokens`.
    pub fn to_tokens(&self, tokens: &mut String)
        ensures
            final(tokens)@ == old(tokens)@ + self.text(),
    {
        let ghost start = tokens@;
        tokens.append("    ");
        push_doc_attr(tokens, &self.doc);
        tokens.append("    ");
        push_vis(tokens, &self.vis);
        self.name.to_tokens(tokens);
        tokens.append(": ");
        self.ty.to_tokens(tokens);
        assert(tokens@ =~= start + self.text());
    }
}

impl QNamedStruct {
    pub open spec fn text(&self) -> Seq<char> {
        doc_attr_text(self.doc.0@) + vis_prefix(self.vis.0@) + "struct "@ + self.name.0@ + " {"@
            + struct_body_text(self.flds@) + "}\n"@
    }

    /// Appends the struct to `tokens`.
    pub fn to_tokens(&self, tokens: &mut String)
        ensures
            final(tokens)@ == old(tokens)@ + self.text(),
    {
        let ghost start = tokens@;
        push_doc_attr(tokens, &self.doc);
        push_vis(tokens, &self.vis);
        tokens.append("struct ");
        self.name.to_tokens(tokens);
        tokens.append(" {");
        let n = self.flds.len();
        if n > 0 {
            tokens.append("\n");
        }
        let ghost head = tokens@;
        let mut i: usize = 0;
        while i < n
            invariant
                n == self.flds@.len(),
                i <= n,
                tokens@ == head + named_fields_text(self.flds@, i as int),
            decreases n - i,
        {
            if i > 0 {
                tokens.append(",\n");
            }
            self.flds[i].to_tokens(tokens);
            i = i + 1;
            assert(tokens@ =~= head + named_fields_text(self.flds@, i as int));
        }
        if n > 0 {
            tokens.append("\n");
        }
        tokens.append("}\n");
        assert(tokens@ =~= start + self.text());
    }
}

} // verus!
