//! Statement nodes and blocks of the indentation-delimited grammar.

use vstd::prelude::*;
use vstd::string::*;
use crate::py_asm::exprs::Expr;
use crate::py_asm::types::Type;
use crate::text::{join, join_strings, prefix_unless_empty, prefixed_unless_empty, views,
    wrap_each, wrap_each_strings};

verus! {

/// The indentation of one nesting level.
pub const INDENT: &'static str = "    ";

/// One lexical scope; the field holds its statements in program order, each
/// indented by one level and ended by a line break. It renders as these lines
/// alone.
#[derive(Clone)]
pub struct Block(pub String);

impl View for Block {
    type V = Seq<char>;

    open spec fn view(&self) -> Seq<char> {
        self.0@
    }
}

impl Default for Block {
    fn default() -> (res: Self)
        ensures
            res@ == Seq::<char>::empty(),
    {
        Block(String::new())
    }
}

impl Block {
    /// A block without statements.
    pub fn new() -> (res: Self)
        ensures
            res@ == Seq::<char>::empty(),
    {
        Block(String::new())
    }

    /// This block with `stmt` as its new last line, indented by one level.
    pub fn push(self, stmt: Stmt) -> (res: Self)
        ensures
            res@ == self@ + INDENT@ + stmt@ + "\n"@,
    {
        let mut s = self.0;
        s.append(INDENT);
        s.append(stmt.0.as_str());
        s.append("\n");
        Block(s)
    }

    /// Adds `stmt` in place as the new last line, indented by one level.
    pub fn pushs(&mut self, stmt: Stmt)
        ensures
            final(self)@ == old(self)@ + INDENT@ + stmt@ + "\n"@,
    {
        self.0.append(INDENT);
        self.0.append(stmt.0.as_str());
        self.0.append("\n");
    }

    /// The text of this block.
    pub fn render(&self) -> (res: String)
        ensures
            res@ == self@,
    {
        self.0.clone()
    }
}

/// An effect-producing fragment; the field is its text.
#[derive(Clone)]
pub struct Stmt(pub String);

impl View for Stmt {
    type V = Seq<char>;

    open spec fn view(&self) -> Seq<char> {
        self.0@
    }
}

/// One branch of an if chain behind its keyword: the condition, a colon, and
/// the lines of its block.
pub open spec fn branch_text(item: (Expr, Block)) -> Seq<char> {
    item.0@ + ":\n"@ + item.1@
}

/// The text of each branch in `v`, in order.
pub open spec fn branch_texts(v: Seq<(Expr, Block)>) -> Seq<Seq<char>> {
    Seq::new(v.len(), |i: int| branch_text(v[i]))
}

/// The text of each branch in `v`, in order.
fn branch_strings(v: &Vec<(Expr, Block)>) -> (res: Vec<String>)
    ensures
        views(res@) == branch_texts(v@),
{
    let mut parts: Vec<String> = Vec::new();
    let mut i: usize = 0;
    while i < v.len()
        invariant
            i <= v.len(),
            parts.len() == i,
            forall|j: int| 0 <= j < i ==> (#[trigger] parts@[j])@ == branch_text(v@[j]),
        decreases v.len() - i,
    {
        let mut p = String::from_str(v[i].0.0.as_str());
        p.append(":\n");
        p.append(v[i].1.0.as_str());
        parts.push(p);
        i += 1;
    }
    proof {
        assert(views(parts@) =~= branch_texts(v@));
    }
    parts
}

/// One except clause behind its keyword: the exception type, the binding
/// `as name` unless the name is empty, a colon, and the lines of its block.
pub open spec fn except_text(item: (Type, &str, Block)) -> Seq<char> {
    item.0@ + prefixed_unless_empty(" as "@, item.1@) + ":\n"@ + item.2@
}

/// The text of each except clause in `v`, in order.
pub open spec fn except_texts(v: Seq<(Type, &str, Block)>) -> Seq<Seq<char>> {
    Seq::new(v.len(), |i: int| except_text(v[i]))
}

/// The text of each except clause in `v`, in order.
fn except_strings(v: &Vec<(Type, &str, Block)>) -> (res: Vec<String>)
    ensures
        views(res@) == except_texts(v@),
{
    let mut parts: Vec<String> = Vec::new();
    let mut i: usize = 0;
    while i < v.len()
        invariant
            i <= v.len(),
            parts.len() == i,
            forall|j: int| 0 <= j < i ==> (#[trigger] parts@[j])@ == except_text(v@[j]),
        decreases v.len() - i,
    {
        let mut p = String::from_str(v[i].0.0.as_str());
        p.append(prefix_unless_empty(" as ", String::from_str(v[i].1)).as_str());
        p.append(":\n");
        p.append(v[i].2.0.as_str());
        parts.push(p);
        i += 1;
    }
    proof {
        assert(views(parts@) =~= except_texts(v@));
    }
    parts
}

/// The text of a with statement: the bound name is left out where it is
/// empty, and the else clause where its block is.
pub open spec fn with_text(expr: Expr, var: &str, body: Block, else_: Block) -> Seq<char> {
    "with "@ + expr@ + prefixed_unless_empty(" as "@, var@) + ":\n"@ + body@
        + prefixed_unless_empty("else:\n"@, else_@)
}

/// The loop variables and the iterables of a for-each head, each list joined
/// with `, `. A separator is written only once the variables before it are
/// not all empty.
pub open spec fn for_heads(v: Seq<(&str, Expr)>) -> (Seq<char>, Seq<char>)
    decreases v.len(),
{
    if v.len() == 0 {
        (Seq::empty(), Seq::empty())
    } else {
        let before = for_heads(v.drop_last());
        if before.0.len() == 0 {
            (before.0 + v.last().0@, before.1 + v.last().1@)
        } else {
            (before.0 + ", "@ + v.last().0@, before.1 + ", "@ + v.last().1@)
        }
    }
}

/// The text of a for-each loop; the else clause is left out where its block is
/// empty.
pub open spec fn for_text(var_iters: Seq<(&str, Expr)>, body: Block, else_: Block) -> Seq<char> {
    "for "@ + for_heads(var_iters).0 + " in "@ + for_heads(var_iters).1 + ":\n"@ + body@
        + prefixed_unless_empty("else:\n"@, else_@)
}

impl Stmt {
    /// A statement written out by the caller.
    pub fn raw(raw: &str) -> (res: Self)
        ensures
            res@ == raw@,
    {
        Stmt(String::from_str(raw))
    }

    /// `pass`
    pub fn pass() -> (res: Self)
        ensures
            res@ == "pass"@,
    {
        Stmt(String::from_str("pass"))
    }

    /// `break`
    pub fn brk() -> (res: Self)
        ensures
            res@ == "break"@,
    {
        Stmt(String::from_str("break"))
    }

    /// `continue`
    pub fn cont() -> (res: Self)
        ensures
            res@ == "continue"@,
    {
        Stmt(String::from_str("continue"))
    }

    /// A deletion of `expr`.
    pub fn del(expr: Expr) -> (res: Self)
        ensures
            res@ == "del "@ + expr@,
    {
        let mut s = String::from_str("del ");
        s.append(expr.0.as_str());
        Stmt(s)
    }

    /// A return of `val`.
    pub fn ret(val: Expr) -> (res: Self)
        ensures
            res@ == "return "@ + val@,
    {
        let mut s = String::from_str("return ");
        s.append(val.0.as_str());
        Stmt(s)
    }

    /// An assertion of `cond`, with the message behind `, ` where there is one.
    pub fn assert_(cond: Expr, info: Option<Expr>) -> (res: Self)
        ensures
            res@ == "assert "@ + cond@ + (match info {
                Some(i) => ", "@ + i@,
                None => Seq::empty(),
            }),
    {
        let mut s = String::from_str("assert ");
        s.append(cond.0.as_str());
        let ghost head = s@;
        match info {
            Some(i) => {
                s.append(", ");
                s.append(i.0.as_str());
                proof {
                    assert(s@ =~= head + (", "@ + i@));
                }
            },
            None => {
                proof {
                    assert(s@ =~= head + Seq::<char>::empty());
                }
            },
        }
        Stmt(s)
    }

    /// A raise of `err`.
    pub fn raise(err: Expr) -> (res: Self)
        ensures
            res@ == "raise "@ + err@,
    {
        let mut s = String::from_str("raise ");
        s.append(err.0.as_str());
        Stmt(s)
    }

    /// A yield of `expr`, or of nothing: the keyword and a space come either
    /// way.
    pub fn yield_(expr: Option<Expr>) -> (res: Self)
        ensures
            res@ == "yield "@ + (match expr {
                Some(e) => e@,
                None => Seq::empty(),
            }),
    {
        let mut s = String::from_str("yield ");
        match expr {
            Some(e) => {
                s.append(e.0.as_str());
            },
            None => {
                proof {
                    assert(s@ =~= s@ + Seq::<char>::empty());
                }
            },
        }
        Stmt(s)
    }

    /// A try statement: the body, the except clauses in the order given, and the
    /// else and finally clauses, each left out where its block is empty.
    pub fn try_(body: Block, excepts: Vec<(Type, &str, Block)>, else_: Block, finally: Block) -> (res: Self)
        ensures
            res@ == "try:\n"@ + body@ + wrap_each(except_texts(excepts@), "except "@, ""@)
                + prefixed_unless_empty("else:\n"@, else_@)
                + prefixed_unless_empty("finally:\n"@, finally@),
    {
        let excepts_text = wrap_each_strings(&except_strings(&excepts), "except ", "");
        let else_text = prefix_unless_empty("else:\n", else_.0);
        let finally_text = prefix_unless_empty("finally:\n", finally.0);
        let mut s = String::from_str("try:\n");
        s.append(body.0.as_str());
        s.append(excepts_text.as_str());
        s.append(else_text.as_str());
        s.append(finally_text.as_str());
        Stmt(s)
    }

    /// A with statement over `expr`, bound to `var` unless `var` is empty.
    pub fn with(expr: Expr, var: &str, body: Block, else_: Block) -> (res: Self)
        ensures
            res@ == with_text(expr, var, body, else_),
    {
        let mut s = String::from_str("with ");
        s.append(expr.0.as_str());
        s.append(prefix_unless_empty(" as ", String::from_str(var)).as_str());
        s.append(":\n");
        s.append(body.0.as_str());
        s.append(prefix_unless_empty("else:\n", else_.0).as_str());
        Stmt(s)
    }

    /// The with statement of the same arguments behind `async`.
    pub fn async_with(expr: Expr, var: &str, body: Block, else_: Block) -> (res: Self)
        ensures
            res@ == "async "@ + with_text(expr, var, body, else_),
    {
        let mut s = String::from_str("async ");
        s.append(Stmt::with(expr, var, body, else_).0.as_str());
        Stmt(s)
    }

    /// An if chain: the first case after `if`, each further one after `elif`, in
    /// the order given, and the else clause last unless its block is empty. There
    /// has to be a first case.
    pub fn if_(cases: Vec<(Expr, Block)>, else_: Block) -> (res: Self)
        requires
            cases@.len() > 0,
        ensures
            res@ == "if "@ + join(branch_texts(cases@), "elif "@)
                + prefixed_unless_empty("else:\n"@, else_@),
    {
        let chain = join_strings(&branch_strings(&cases), "elif ");
        let else_text = prefix_unless_empty("else:\n", else_.0);
        let mut s = String::from_str("if ");
        s.append(chain.as_str());
        s.append(else_text.as_str());
        Stmt(s)
    }

    /// A while loop; the else clause is left out where its block is empty.
    pub fn while_(cond: Expr, body: Block, else_: Block) -> (res: Self)
        ensures
            res@ == "while "@ + cond@ + ":\n"@ + body@ + prefixed_unless_empty("else:\n"@, else_@),
    {
        let else_text = prefix_unless_empty("else:\n", else_.0);
        let mut s = String::from_str("while ");
        s.append(cond.0.as_str());
        s.append(":\n");
        s.append(body.0.as_str());
        s.append(else_text.as_str());
        Stmt(s)
    }

    /// A for-each loop over the pairs of variable and iterable in `var_iters`,
    /// in the order given.
    pub fn for_(var_iters: Vec<(&str, Expr)>, body: Block, else_: Block) -> (res: Self)
        ensures
            res@ == for_text(var_iters@, body, else_),
    {
        let mut vars = String::new();
        let mut iters = String::new();
        let mut i: usize = 0;
        while i < var_iters.len()
            invariant
                i <= var_iters.len(),
                (vars@, iters@) == for_heads(var_iters@.take(i as int)),
            decreases var_iters.len() - i,
        {
            proof {
                let next = var_iters@.take(i + 1);
                assert(next.drop_last() =~= var_iters@.take(i as int));
                assert(next.last() == var_iters@[i as int]);
            }
            if !vars.as_str().is_empty() {
                vars.append(", ");
                iters.append(", ");
            }
            vars.append(var_iters[i].0);
            iters.append(var_iters[i].1.0.as_str());
            i += 1;
        }
        proof {
            assert(var_iters@.take(var_iters.len() as int) =~= var_iters@);
        }
        let mut s = String::from_str("for ");
        s.append(vars.as_str());
        s.append(" in ");
        s.append(iters.as_str());
        s.append(":\n");
        s.append(body.0.as_str());
        s.append(prefix_unless_empty("else:\n", else_.0).as_str());
        Stmt(s)
    }

    /// The for-each loop of the same arguments behind `async`.
    pub fn async_for(var_iters: Vec<(&str, Expr)>, body: Block, else_: Block) -> (res: Self)
        ensures
            res@ == "async "@ + for_text(var_iters@, body, else_),
    {
        let mut s = String::from_str("async ");
        s.append(Stmt::for_(var_iters, body, else_).0.as_str());
        Stmt(s)
    }

    /// The text of this statement.
    pub fn render(&self) -> (res: String)
        ensures
            res@ == self@,
    {
        self.0.clone()
    }
}

impl core::convert::From<Expr> for Stmt {
    /// The expression as a statement of its own.
    fn from(v: Expr) -> (res: Stmt)
        ensures
            res@ == v@,
    {
        Stmt(v.0)
    }
}

impl vstd::std_specs::convert::FromSpecImpl<Expr> for Stmt {
    open spec fn obeys_from_spec() -> bool {
        false
    }

    open spec fn from_spec(v: Expr) -> Stmt {
        arbitrary()
    }
}

/// Pushing a statement adds one line at the end of the block: one unit of
/// indentation, the statement and a line break, behind the lines that were
/// there, which stay as they were.
pub proof fn lemma_push_adds_one_indented_line(before: Block, after: Block, stmt: Stmt)
    requires
        after@ == before@ + INDENT@ + stmt@ + "\n"@,
    ensures
        ({
            let n = before@.len() as int;
            let m = stmt@.len() as int;
            &&& after@.len() == n + 4 + m + 1
            &&& after@.subrange(0, n) == before@
            &&& after@.subrange(n, n + 4) == seq![' ', ' ', ' ', ' ']
            &&& after@.subrange(n + 4, n + 4 + m) == stmt@
            &&& after@[n + 4 + m] == '\n'
        }),
{
    reveal_strlit("    ");
    reveal_strlit("\n");
    let n = before@.len() as int;
    let m = stmt@.len() as int;
    assert(after@.subrange(0, n) =~= before@);
    assert(after@.subrange(n, n + 4) =~= seq![' ', ' ', ' ', ' ']);
    assert(after@.subrange(n + 4, n + 4 + m) =~= stmt@);
}

} // verus!
