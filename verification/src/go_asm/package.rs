//! Declarations and the package root of the brace-delimited grammar.

use vstd::prelude::*;
use vstd::string::*;
use crate::go_asm::exprs::Expr;
use crate::go_asm::stmts::Block;
use crate::go_asm::types::{param_strings, param_texts, results_string, results_text, Type};
use crate::text::{join, join_strings, lemma_wrap_each_push, lemma_wrap_each_split, views,
    wrap_each, wrap_each_strings};

verus! {

/// A top-level construct; the field is its text, which may span several lines.
#[derive(Clone)]
pub struct Decl(pub String);

impl View for Decl {
    type V = Seq<char>;

    open spec fn view(&self) -> Seq<char> {
        self.0@
    }
}

/// The texts of the declarations in `v`, in order.
pub open spec fn decl_texts(v: Seq<Decl>) -> Seq<Seq<char>> {
    Seq::new(v.len(), |i: int| v[i]@)
}

/// The text of each declaration in `v`, in order.
fn decl_strings(v: &Vec<Decl>) -> (res: Vec<String>)
    ensures
        views(res@) == decl_texts(v@),
{
    let mut parts: Vec<String> = Vec::new();
    let mut i: usize = 0;
    while i < v.len()
        invariant
            i <= v.len(),
            parts.len() == i,
            forall|j: int| 0 <= j < i ==> (#[trigger] parts@[j])@ == v@[j]@,
        decreases v.len() - i,
    {
        parts.push(v[i].0.clone());
        i += 1;
    }
    proof {
        assert(views(parts@) =~= decl_texts(v@));
    }
    parts
}

impl Decl {
    /// A declaration written out by the caller.
    pub fn raw(raw: &str) -> (res: Self)
        ensures
            res@ == raw@,
    {
        Decl(String::from_str(raw))
    }

    /// An import of the library `lib`.
    pub fn import(lib: &str) -> (res: Self)
        ensures
            res@ == "import \""@ + lib@ + "\""@,
    {
        let mut s = String::from_str("import \"");
        s.append(lib);
        s.append("\"");
        Decl(s)
    }

    /// A variable with its first value.
    pub fn variable(name: &str, val: Expr) -> (res: Self)
        ensures
            res@ == "var "@ + name@ + " = "@ + val@,
    {
        let mut s = String::from_str("var ");
        s.append(name);
        s.append(" = ");
        s.append(val.0.as_str());
        Decl(s)
    }

    /// A variable declared with its type and no value.
    pub fn uninit_var(name: &str, ty: Type) -> (res: Self)
        ensures
            res@ == "var "@ + name@ + " "@ + ty@,
    {
        let mut s = String::from_str("var ");
        s.append(name);
        s.append(" ");
        s.append(ty.0.as_str());
        Decl(s)
    }

    /// A constant.
    pub fn const_(name: &str, val: Expr) -> (res: Self)
        ensures
            res@ == "const "@ + name@ + " = "@ + val@,
    {
        let mut s = String::from_str("const ");
        s.append(name);
        s.append(" = ");
        s.append(val.0.as_str());
        Decl(s)
    }

    /// A named type, such as `type TypeName struct{}`.
    pub fn type_(name: &str, ty: Type) -> (res: Self)
        ensures
            res@ == "type "@ + name@ + " "@ + ty@,
    {
        let mut s = String::from_str("type ");
        s.append(name);
        s.append(" ");
        s.append(ty.0.as_str());
        Decl(s)
    }

    /// A free function, such as `func Function(arg1 int) int { ... }`: the
    /// arguments in the order given, and the result types, bare where there is
    /// one and in parentheses where there are more.
    pub fn func(name: &str, args: Vec<(&str, Type)>, rets: Vec<Type>, body: Block) -> (res: Self)
        ensures
            res@ == "func "@ + name@ + "("@ + join(param_texts(args@), ", "@) + ")"@
                + results_text(rets@) + " "@ + body.text(),
    {
        let args_text = join_strings(&param_strings(&args), ", ");
        let rets_text = results_string(&rets);
        let body_text = body.render();
        let mut s = String::from_str("func ");
        s.append(name);
        s.append("(");
        s.append(args_text.as_str());
        s.append(")");
        s.append(rets_text.as_str());
        s.append(" ");
        s.append(body_text.as_str());
        Decl(s)
    }

    /// A method bound to a receiver, such as
    /// `func (r Receiver) Function(arg1 int) int { ... }`.
    pub fn method(name: &str, receiver: (&str, Type), args: Vec<(&str, Type)>, rets: Vec<Type>, body: Block) -> (res: Self)
        ensures
            res@ == "func ("@ + receiver.0@ + " "@ + receiver.1@ + ") "@ + name@ + "("@
                + join(param_texts(args@), ", "@) + ")"@
                + results_text(rets@) + " "@ + body.text(),
    {
        let recv_name = String::from_str(receiver.0);
        let recv_type = receiver.1.0;
        let args_text = join_strings(&param_strings(&args), ", ");
        let rets_text = results_string(&rets);
        let body_text = body.render();
        let mut s = String::from_str("func (");
        s.append(recv_name.as_str());
        s.append(" ");
        s.append(recv_type.as_str());
        s.append(") ");
        s.append(name);
        s.append("(");
        s.append(args_text.as_str());
        s.append(")");
        s.append(rets_text.as_str());
        s.append(" ");
        s.append(body_text.as_str());
        Decl(s)
    }

    /// The text of this declaration.
    pub fn render(&self) -> (res: String)
        ensures
            res@ == self@,
    {
        self.0.clone()
    }
}

/// The root of one source file: the package's name and its declarations in
/// the order in which they were added.
#[derive(Clone)]
pub struct Package {
    pub name: String,
    pub decls: Vec<Decl>,
}

impl Package {
    /// What the package renders to: the header line, then each declaration in
    /// order, each followed by one line break.
    pub open spec fn text(&self) -> Seq<char> {
        "package "@ + self.name@ + "\n"@ + wrap_each(decl_texts(self.decls@), ""@, "\n"@)
    }

    /// A package of the given name without declarations.
    pub fn new(name: &str) -> (res: Self)
        ensures
            res.name@ == name@,
            res.decls@ == Seq::<Decl>::empty(),
    {
        Package { name: String::from_str(name), decls: Vec::new() }
    }

    /// Adds `decl` behind the declarations that are there.
    pub fn push(&mut self, decl: Decl)
        ensures
            final(self).name == old(self).name,
            final(self).decls@ == old(self).decls@.push(decl),
    {
        self.decls.push(decl);
    }

    /// The text of the whole package.
    pub fn render(&self) -> (res: String)
        ensures
            res@ == self.text(),
    {
        let mut s = String::from_str("package ");
        s.append(self.name.as_str());
        s.append("\n");
        s.append(wrap_each_strings(&decl_strings(&self.decls), "", "\n").as_str());
        s
    }
}

/// The text of a package depends on nothing but its name and the texts of its
/// declarations: two packages that agree in these render alike, and so does
/// one package rendered twice.
pub proof fn lemma_text_by_content(a: Package, b: Package)
    requires
        a.name@ == b.name@,
        decl_texts(a.decls@) == decl_texts(b.decls@),
    ensures
        a.text() == b.text(),
{
}

/// A declaration that is pushed is rendered last: the text of the package
/// before the push, then the declaration on a line group of its own.
pub proof fn lemma_push_renders_last(before: Package, after: Package, decl: Decl)
    requires
        after.name@ == before.name@,
        after.decls@ == before.decls@.push(decl),
    ensures
        after.text() == before.text() + decl@ + "\n"@,
{
    reveal_strlit("");
    assert(decl_texts(after.decls@) =~= decl_texts(before.decls@).push(decl@));
    lemma_wrap_each_push(decl_texts(before.decls@), decl@, ""@, "\n"@);
    assert(after.text() =~= before.text() + decl@ + "\n"@);
}

/// Declarations are rendered in insertion order: each one stands behind the
/// header and the declarations pushed before it, and in front of those pushed
/// after it, followed by exactly one line break.
pub proof fn lemma_decls_render_in_order(p: Package, i: int)
    requires
        0 <= i < p.decls@.len(),
    ensures
        p.text() == "package "@ + p.name@ + "\n"@ + wrap_each(
            decl_texts(p.decls@.take(i)),
            ""@,
            "\n"@,
        ) + p.decls@[i]@ + "\n"@ + wrap_each(decl_texts(p.decls@.skip(i + 1)), ""@, "\n"@),
{
    reveal_strlit("");
    lemma_wrap_each_split(decl_texts(p.decls@), ""@, "\n"@, i);
    assert(decl_texts(p.decls@).take(i) =~= decl_texts(p.decls@.take(i)));
    assert(decl_texts(p.decls@).skip(i + 1) =~= decl_texts(p.decls@.skip(i + 1)));
    assert(p.text() =~= "package "@ + p.name@ + "\n"@ + wrap_each(
        decl_texts(p.decls@.take(i)),
        ""@,
        "\n"@,
    ) + p.decls@[i]@ + "\n"@ + wrap_each(decl_texts(p.decls@.skip(i + 1)), ""@, "\n"@));
}

} // verus!
