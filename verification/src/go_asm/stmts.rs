//! Statement nodes and blocks of the brace-delimited grammar.

use vstd::prelude::*;
use vstd::string::*;
use crate::go_asm::exprs::{expr_strings, expr_texts, Expr};
use crate::go_asm::types::Type;
use crate::text::{join, join_strings, lemma_wrap_each_split, name_strings, name_texts,
    prefix_unless_empty, prefixed_unless_empty, views, wrap_each, wrap_each_strings};

verus! {

/// The indentation of one nesting level.
pub const INDENT: &'static str = "    ";

/// One lexical scope; the field holds its statements in program order, each
/// indented by one level and ended by a line break.
#[derive(Clone)]
pub struct Block(pub String);

impl View for Block {
    type V = Seq<char>;

    open spec fn view(&self) -> Seq<char> {
        self.0@
    }
}

impl Default for Block {
    fn default() -> (res: Self)
        ensures
            res@ == Seq::<char>::empty(),
    {
        Block(String::new())
    }
}

impl Block {
    /// What the block renders to: its lines between braces.
    pub open spec fn text(&self) -> Seq<char> {
        "{\n"@ + self@ + "}"@
    }

    /// A block without statements.
    pub fn new() -> (res: Self)
        ensures
            res@ == Seq::<char>::empty(),
    {
        Block(String::new())
    }

    /// This block with `stmt` as its new last line, indented by one level.
    pub fn push(self, stmt: Stmt) -> (res: Self)
        ensures
            res@ == self@ + INDENT@ + stmt@ + "\n"@,
    {
        let mut s = self.0;
        s.append(INDENT);
        s.append(stmt.0.as_str());
        s.append("\n");
        Block(s)
    }

    /// Adds `stmt` in place as the new last line, indented by one level.
    pub fn pushs(&mut self, stmt: Stmt)
        ensures
            final(self)@ == old(self)@ + INDENT@ + stmt@ + "\n"@,
    {
        self.0.append(INDENT);
        self.0.append(stmt.0.as_str());
        self.0.append("\n");
    }

    /// The text of this block, braces included.
    pub fn render(&self) -> (res: String)
        ensures
            res@ == self.text(),
    {
        let mut s = String::from_str("{\n");
        s.append(self.0.as_str());
        s.append("}");
        s
    }
}

/// An effect-producing fragment; the field is its text, without a separator
/// at its end.
#[derive(Clone)]
pub struct Stmt(pub String);

impl View for Stmt {
    type V = Seq<char>;

    open spec fn view(&self) -> Seq<char> {
        self.0@
    }
}

/// The texts of the statements in `v`, in order.
pub open spec fn stmt_texts(v: Seq<Stmt>) -> Seq<Seq<char>> {
    Seq::new(v.len(), |i: int| v[i]@)
}

/// The text of each statement in `v`, in order.
fn stmt_strings(v: &Vec<Stmt>) -> (res: Vec<String>)
    ensures
        views(res@) == stmt_texts(v@),
{
    let mut parts: Vec<String> = Vec::new();
    let mut i: usize = 0;
    while i < v.len()
        invariant
            i <= v.len(),
            parts.len() == i,
            forall|j: int| 0 <= j < i ==> (#[trigger] parts@[j])@ == v@[j]@,
        decreases v.len() - i,
    {
        parts.push(v[i].0.clone());
        i += 1;
    }
    proof {
        assert(views(parts@) =~= stmt_texts(v@));
    }
    parts
}

/// One branch of an if chain behind its keyword: the condition, a space, the
/// block.
pub open spec fn branch_text(item: (Expr, Block)) -> Seq<char> {
    item.0@ + " "@ + item.1.text()
}

/// The text of each branch in `v`, in order.
pub open spec fn branch_texts(v: Seq<(Expr, Block)>) -> Seq<Seq<char>> {
    Seq::new(v.len(), |i: int| branch_text(v[i]))
}

/// The text of each branch in `v`, in order.
fn branch_strings(v: &Vec<(Expr, Block)>) -> (res: Vec<String>)
    ensures
        views(res@) == branch_texts(v@),
{
    let mut parts: Vec<String> = Vec::new();
    let mut i: usize = 0;
    while i < v.len()
        invariant
            i <= v.len(),
            parts.len() == i,
            forall|j: int| 0 <= j < i ==> (#[trigger] parts@[j])@ == branch_text(v@[j]),
        decreases v.len() - i,
    {
        let mut p = String::from_str(v[i].0.0.as_str());
        p.append(" ");
        p.append(v[i].1.render().as_str());
        parts.push(p);
        i += 1;
    }
    proof {
        assert(views(parts@) =~= branch_texts(v@));
    }
    parts
}

/// The trailing else of an if chain: nothing where the block has no
/// statements.
pub open spec fn else_text(else_: Block) -> Seq<char> {
    if else_@.len() == 0 {
        Seq::empty()
    } else {
        " else "@ + else_.text()
    }
}

/// One case of a switch behind its keyword: the value, a colon, and the lines
/// of its block.
pub open spec fn case_text(item: (Expr, Block)) -> Seq<char> {
    item.0@ + ":\n"@ + item.1@
}

/// The text of each case in `v`, in order.
pub open spec fn case_texts(v: Seq<(Expr, Block)>) -> Seq<Seq<char>> {
    Seq::new(v.len(), |i: int| case_text(v[i]))
}

/// The text of each case in `v`, in order.
fn case_strings(v: &Vec<(Expr, Block)>) -> (res: Vec<String>)
    ensures
        views(res@) == case_texts(v@),
{
    let mut parts: Vec<String> = Vec::new();
    let mut i: usize = 0;
    while i < v.len()
        invariant
            i <= v.len(),
            parts.len() == i,
            forall|j: int| 0 <= j < i ==> (#[trigger] parts@[j])@ == case_text(v@[j]),
        decreases v.len() - i,
    {
        let mut p = String::from_str(v[i].0.0.as_str());
        p.append(":\n");
        p.append(v[i].1.0.as_str());
        parts.push(p);
        i += 1;
    }
    proof {
        assert(views(parts@) =~= case_texts(v@));
    }
    parts
}

/// The shapes a for loop may have: all three clauses, the first alone, the
/// condition alone, or none.
pub open spec fn for_shape_allowed(has_init: bool, has_cond: bool, has_post: bool) -> bool {
    ||| (has_init && has_cond && has_post)
    ||| (has_init && !has_cond && !has_post)
    ||| (!has_init && has_cond && !has_post)
    ||| (!has_init && !has_cond && !has_post)
}

/// The text of a for loop of an allowed shape.
pub open spec fn for_text(
    init: Option<Stmt>,
    cond: Option<Expr>,
    post: Option<Stmt>,
    body: Block,
) -> Seq<char> {
    match (init, cond, post) {
        (Some(i), Some(c), Some(p)) => "for "@ + i@ + "; "@ + c@ + "; "@ + p@ + " "@ + body.text(),
        (Some(i), None, None) => "for "@ + i@ + " "@ + body.text(),
        (None, Some(c), None) => "for "@ + c@ + " "@ + body.text(),
        _ => "for "@ + body.text(),
    }
}

impl Stmt {
    /// A statement written out by the caller.
    pub fn raw(raw: &str) -> (res: Self)
        ensures
            res@ == raw@,
    {
        Stmt(String::from_str(raw))
    }

    /// `break`
    pub fn brk() -> (res: Self)
        ensures
            res@ == "break"@,
    {
        Stmt(String::from_str("break"))
    }

    /// `continue`
    pub fn cont() -> (res: Self)
        ensures
            res@ == "continue"@,
    {
        Stmt(String::from_str("continue"))
    }

    /// `fallthrough`
    pub fn fall() -> (res: Self)
        ensures
            res@ == "fallthrough"@,
    {
        Stmt(String::from_str("fallthrough"))
    }

    /// A deferred call.
    pub fn defer(call: Expr) -> (res: Self)
        ensures
            res@ == "defer "@ + call@,
    {
        let mut s = String::from_str("defer ");
        s.append(call.0.as_str());
        Stmt(s)
    }

    /// A return of `vals`, in the order given.
    pub fn ret(vals: Vec<Expr>) -> (res: Self)
        ensures
            res@ == "return "@ + join(expr_texts(vals@), ", "@),
    {
        let vals_text = join_strings(&expr_strings(&vals), ", ");
        let mut s = String::from_str("return ");
        s.append(vals_text.as_str());
        Stmt(s)
    }

    /// A short variable declaration.
    pub fn variable(name: &str, val: Expr) -> (res: Self)
        ensures
            res@ == name@ + " := "@ + val@,
    {
        let mut s = String::from_str(name);
        s.append(" := ");
        s.append(val.0.as_str());
        Stmt(s)
    }

    /// A variable declared with its type and no value.
    pub fn uninit_var(name: &str, ty: Type) -> (res: Self)
        ensures
            res@ == "var "@ + name@ + " "@ + ty@,
    {
        let mut s = String::from_str("var ");
        s.append(name);
        s.append(" ");
        s.append(ty.0.as_str());
        Stmt(s)
    }

    /// A short declaration of several variables at once.
    pub fn variables(names: Vec<&str>, vals: Vec<Expr>) -> (res: Self)
        ensures
            res@ == join(name_texts(names@), ", "@) + " := "@ + join(expr_texts(vals@), ", "@),
    {
        let names_text = join_strings(&name_strings(&names), ", ");
        let vals_text = join_strings(&expr_strings(&vals), ", ");
        let mut s = String::from_str(names_text.as_str());
        s.append(" := ");
        s.append(vals_text.as_str());
        Stmt(s)
    }

    /// A constant declaration.
    pub fn const_(name: &str, val: Expr) -> (res: Self)
        ensures
            res@ == "const "@ + name@ + " = "@ + val@,
    {
        let mut s = String::from_str("const ");
        s.append(name);
        s.append(" = ");
        s.append(val.0.as_str());
        Stmt(s)
    }

    /// A bare block of `stmts`, each on a line of its own and indented by one
    /// level, in the order given.
    pub fn block(stmts: Vec<Stmt>) -> (res: Self)
        ensures
            res@ == "{\n"@ + wrap_each(stmt_texts(stmts@), INDENT@, "\n"@) + "}"@,
    {
        let lines = wrap_each_strings(&stmt_strings(&stmts), INDENT, "\n");
        let mut s = String::from_str("{\n");
        s.append(lines.as_str());
        s.append("}");
        Stmt(s)
    }

    /// An if chain: the first case after `if`, each further one after
    /// `else if`, in the order given, and the else block last unless it is
    /// empty. There has to be a first case.
    pub fn if_(cases: Vec<(Expr, Block)>, else_: Block) -> (res: Self)
        requires
            cases@.len() > 0,
        ensures
            res@ == "if "@ + join(branch_texts(cases@), " else if "@) + else_text(else_),
    {
        let mut s = String::from_str("if ");
        s.append(join_strings(&branch_strings(&cases), " else if ").as_str());
        let ghost chain = s@;
        if !else_.0.as_str().is_empty() {
            s.append(" else ");
            s.append(else_.render().as_str());
        }
        proof {
            assert(s@ =~= chain + else_text(else_));
        }
        Stmt(s)
    }

    /// A switch on `val`: the cases in the order given, none left out and none
    /// moved, and the default last unless it is empty.
    pub fn switch(val: Expr, cases: Vec<(Expr, Block)>, default: Block) -> (res: Self)
        ensures
            res@ == "switch "@ + val@ + " {"@ + wrap_each(case_texts(cases@), "case "@, ""@)
                + prefixed_unless_empty("default:\n"@, default@) + "}"@,
    {
        let cases_text = wrap_each_strings(&case_strings(&cases), "case ", "");
        let default_text = prefix_unless_empty("default:\n", default.0);
        let mut s = String::from_str("switch ");
        s.append(val.0.as_str());
        s.append(" {");
        s.append(cases_text.as_str());
        s.append(default_text.as_str());
        s.append("}");
        Stmt(s)
    }

    /// Whether a for loop may have the clauses that the three flags stand for.
    pub fn for_shape_ok(has_init: bool, has_cond: bool, has_post: bool) -> (res: bool)
        ensures
            res == for_shape_allowed(has_init, has_cond, has_post),
    {
        if has_post {
            has_init && has_cond
        } else {
            !(has_init && has_cond)
        }
    }

    /// A for loop, such as `for i := 0; i <= 10; i++ { sum += i }`. Of the
    /// three clauses all, the first alone, the condition alone or none may be
    /// there; no other combination makes a loop.
    pub fn for_(init: Option<Stmt>, cond: Option<Expr>, post: Option<Stmt>, body: Block) -> (res:
        Self)
        requires
            for_shape_allowed(init is Some, cond is Some, post is Some),
        ensures
            res@ == for_text(init, cond, post, body),
    {
        let mut s = String::from_str("for ");
        match (init, cond, post) {
            (Some(i), Some(c), Some(p)) => {
                s.append(i.0.as_str());
                s.append("; ");
                s.append(c.0.as_str());
                s.append("; ");
                s.append(p.0.as_str());
                s.append(" ");
            },
            (Some(i), None, None) => {
                s.append(i.0.as_str());
                s.append(" ");
            },
            (None, Some(c), None) => {
                s.append(c.0.as_str());
                s.append(" ");
            },
            _ => {},
        }
        s.append(body.render().as_str());
        Stmt(s)
    }

    /// The text of this statement.
    pub fn render(&self) -> (res: String)
        ensures
            res@ == self@,
    {
        self.0.clone()
    }
}

impl core::convert::From<Expr> for Stmt {
    /// The expression as a statement of its own.
    fn from(v: Expr) -> (res: Stmt)
        ensures
            res@ == v@,
    {
        Stmt(v.0)
    }
}

impl vstd::std_specs::convert::FromSpecImpl<Expr> for Stmt {
    open spec fn obeys_from_spec() -> bool {
        false
    }

    open spec fn from_spec(v: Expr) -> Stmt {
        arbitrary()
    }
}

/// In a bare block every statement stands behind exactly one unit of
/// indentation, four spaces, with the lines of the statements before it in
/// front and a line break behind it; a block without statements has nothing
/// between its braces.
pub proof fn lemma_block_indents_each_statement(stmts: Seq<Stmt>, i: int)
    requires
        0 <= i < stmts.len(),
    ensures
        INDENT@ == seq![' ', ' ', ' ', ' '],
        wrap_each(stmt_texts(stmts), INDENT@, "\n"@) == wrap_each(
            stmt_texts(stmts.take(i)),
            INDENT@,
            "\n"@,
        ) + INDENT@ + stmts[i]@ + "\n"@ + wrap_each(stmt_texts(stmts.skip(i + 1)), INDENT@, "\n"@),
        wrap_each(stmt_texts(Seq::<Stmt>::empty()), INDENT@, "\n"@) == Seq::<char>::empty(),
{
    reveal_strlit("    ");
    assert(INDENT@ =~= seq![' ', ' ', ' ', ' ']);
    lemma_wrap_each_split(stmt_texts(stmts), INDENT@, "\n"@, i);
    assert(stmt_texts(stmts).take(i) =~= stmt_texts(stmts.take(i)));
    assert(stmt_texts(stmts).skip(i + 1) =~= stmt_texts(stmts.skip(i + 1)));
}

/// Pushing a statement adds one line at the end of the block: one unit of
/// indentation, the statement and a line break, behind the lines that were
/// there, which stay as they were.
pub proof fn lemma_push_adds_one_indented_line(before: Block, after: Block, stmt: Stmt)
    requires
        after@ == before@ + INDENT@ + stmt@ + "\n"@,
    ensures
        ({
            let n = before@.len() as int;
            let m = stmt@.len() as int;
            &&& after@.len() == n + 4 + m + 1
            &&& after@.subrange(0, n) == before@
            &&& after@.subrange(n, n + 4) == seq![' ', ' ', ' ', ' ']
            &&& after@.subrange(n + 4, n + 4 + m) == stmt@
            &&& after@[n + 4 + m] == '\n'
        }),
{
    reveal_strlit("    ");
    reveal_strlit("\n");
    let n = before@.len() as int;
    let m = stmt@.len() as int;
    assert(after@.subrange(0, n) =~= before@);
    assert(after@.subrange(n, n + 4) =~= seq![' ', ' ', ' ', ' ']);
    assert(after@.subrange(n + 4, n + 4 + m) =~= stmt@);
}

} // verus!
