//! Declarations and the file root of the indentation-delimited grammar.

use vstd::prelude::*;
use vstd::string::*;
use crate::py_asm::exprs::Expr;
use crate::py_asm::stmts::{Block, Stmt};
use crate::py_asm::types::Type;
use crate::text::{join, join_strings, name_strings, name_texts, prefix_unless_empty,
    prefixed_unless_empty};

verus! {

/// The parameters of a function definition; the field is what stands between
/// the parentheses.
#[derive(Clone)]
pub struct DefArgs(pub String);

impl View for DefArgs {
    type V = Seq<char>;

    open spec fn view(&self) -> Seq<char> {
        self.0@
    }
}

impl Default for DefArgs {
    fn default() -> (res: Self)
        ensures
            res@ == Seq::<char>::empty(),
    {
        DefArgs(String::new())
    }
}

/// What a parameter list holds after `item` is pushed: `item` alone where the
/// list was empty, else the list, `, ` and `item`.
pub open spec fn pushed_arg(list: Seq<char>, item: Seq<char>) -> Seq<char> {
    if list.len() == 0 {
        item
    } else {
        list + ", "@ + item
    }
}

/// One parameter: the name, and `=` with the default where there is one.
pub open spec fn arg_text(name: Seq<char>, default: Option<Expr>) -> Seq<char> {
    match default {
        Some(d) => name + "="@ + d@,
        None => name,
    }
}

impl DefArgs {
    /// What the list renders to: its content between parentheses.
    pub open spec fn text(&self) -> Seq<char> {
        "("@ + self@ + ")"@
    }

    /// A list without parameters.
    pub fn new() -> (res: Self)
        ensures
            res@ == Seq::<char>::empty(),
    {
        DefArgs(String::new())
    }

    fn pushed(self, item: String) -> (res: Self)
        ensures
            res@ == pushed_arg(self@, item@),
    {
        if self.0.as_str().is_empty() {
            DefArgs(item)
        } else {
            let mut s = self.0;
            s.append(", ");
            s.append(item.as_str());
            DefArgs(s)
        }
    }

    /// Pushes the parameter `name`, with its default where one is given, behind
    /// the parameters that are there.
    pub fn push_arg(self, name: &str, default: Option<Expr>) -> (res: Self)
        ensures
            res@ == pushed_arg(self@, arg_text(name@, default)),
    {
        let mut item = String::from_str(name);
        match default {
            Some(d) => {
                item.append("=");
                item.append(d.0.as_str());
            },
            None => {},
        }
        self.pushed(item)
    }

    /// Pushes the parameter `*name`, which takes the positional arguments left
    /// over.
    pub fn push_vararg(self, name: &str) -> (res: Self)
        ensures
            res@ == pushed_arg(self@, "*"@ + name@),
    {
        let mut item = String::from_str("*");
        item.append(name);
        self.pushed(item)
    }

    /// Pushes the parameter `**name`, which takes the keyword arguments left
    /// over.
    pub fn push_kwarg(self, name: &str) -> (res: Self)
        ensures
            res@ == pushed_arg(self@, "**"@ + name@),
    {
        let mut item = String::from_str("**");
        item.append(name);
        self.pushed(item)
    }

    /// The text of this list, parentheses included.
    pub fn render(&self) -> (res: String)
        ensures
            res@ == self.text(),
    {
        let mut s = String::from_str("(");
        s.append(self.0.as_str());
        s.append(")");
        s
    }
}

/// The text of a function definition: the return annotation is left out where
/// the type is the omitted one.
pub open spec fn func_text(name: &str, args: DefArgs, ret: Type, body: Block) -> Seq<char> {
    "def "@ + name@ + args.text() + prefixed_unless_empty(" -> "@, ret@) + ":\n"@ + body@
}

/// The text of a class definition: the parentheses are left out where the
/// joined base classes are empty.
pub open spec fn class_text(name: &str, inherit: Seq<&str>, body: Block) -> Seq<char> {
    let bases = join(name_texts(inherit), ", "@);
    if bases.len() == 0 {
        "class "@ + name@ + ":\n"@ + body@
    } else {
        "class "@ + name@ + "("@ + bases + "):\n"@ + body@
    }
}

impl Stmt {
    /// A decorator line, such as `@dataclasses.dataclass`.
    pub fn dec(expr: Expr) -> (res: Self)
        ensures
            res@ == "@"@ + expr@,
    {
        let mut s = String::from_str("@");
        s.append(expr.0.as_str());
        Stmt(s)
    }

    /// An import of `module`.
    pub fn import(module: &str) -> (res: Self)
        ensures
            res@ == "import "@ + module@,
    {
        let mut s = String::from_str("import ");
        s.append(module);
        Stmt(s)
    }

    /// An import of `item` from `module`.
    pub fn from_import(module: &str, item: &str) -> (res: Self)
        ensures
            res@ == "from "@ + module@ + " import "@ + item@,
    {
        let mut s = String::from_str("from ");
        s.append(module);
        s.append(" import ");
        s.append(item);
        Stmt(s)
    }

    /// An assignment of `val` to `name`.
    pub fn assign(name: &str, val: Expr) -> (res: Self)
        ensures
            res@ == name@ + " = "@ + val@,
    {
        let mut s = String::from_str(name);
        s.append(" = ");
        s.append(val.0.as_str());
        Stmt(s)
    }

    /// A global declaration of `var`.
    pub fn global(var: &str) -> (res: Self)
        ensures
            res@ == "global "@ + var@,
    {
        let mut s = String::from_str("global ");
        s.append(var);
        Stmt(s)
    }

    /// A nonlocal declaration of `var`.
    pub fn nonlocal(var: &str) -> (res: Self)
        ensures
            res@ == "nonlocal "@ + var@,
    {
        let mut s = String::from_str("nonlocal ");
        s.append(var);
        Stmt(s)
    }

    /// A function definition.
    pub fn func(name: &str, args: DefArgs, ret: Type, body: Block) -> (res: Self)
        ensures
            res@ == func_text(name, args, ret, body),
    {
        let mut s = String::from_str("def ");
        s.append(name);
        s.append(args.render().as_str());
        s.append(prefix_unless_empty(" -> ", ret.0).as_str());
        s.append(":\n");
        s.append(body.0.as_str());
        Stmt(s)
    }

    /// The function definition of the same arguments behind `async`.
    pub fn async_func(name: &str, args: DefArgs, ret: Type, body: Block) -> (res: Self)
        ensures
            res@ == "async "@ + func_text(name, args, ret, body),
    {
        let mut s = String::from_str("async ");
        s.append(Stmt::func(name, args, ret, body).0.as_str());
        Stmt(s)
    }

    /// A class definition with the base classes `inherit`, in the order given.
    pub fn class(name: &str, inherit: Vec<&str>, body: Block) -> (res: Self)
        ensures
            res@ == class_text(name, inherit@, body),
    {
        let bases = join_strings(&name_strings(&inherit), ", ");
        let mut s = String::from_str("class ");
        s.append(name);
        if bases.as_str().is_empty() {
            s.append(":\n");
        } else {
            s.append("(");
            s.append(bases.as_str());
            s.append("):\n");
        }
        s.append(body.0.as_str());
        Stmt(s)
    }
}

/// The root of one source file; the field holds its statements in the order
/// in which they were added, each ended by one line break.
#[derive(Clone)]
pub struct File(pub String);

impl View for File {
    type V = Seq<char>;

    open spec fn view(&self) -> Seq<char> {
        self.0@
    }
}

impl Default for File {
    fn default() -> (res: Self)
        ensures
            res@ == Seq::<char>::empty(),
    {
        File(String::new())
    }
}

impl File {
    /// A file without statements.
    pub fn new() -> (res: Self)
        ensures
            res@ == Seq::<char>::empty(),
    {
        File(String::new())
    }

    /// This file with `stmt` behind what it holds, not indented.
    pub fn push(self, stmt: Stmt) -> (res: Self)
        ensures
            res@ == self@ + stmt@ + "\n"@,
    {
        let mut s = self.0;
        s.append(stmt.0.as_str());
        s.append("\n");
        File(s)
    }

    /// Adds `stmt` in place behind what the file holds, not indented.
    pub fn pushs(&mut self, stmt: Stmt)
        ensures
            final(self)@ == old(self)@ + stmt@ + "\n"@,
    {
        self.0.append(stmt.0.as_str());
        self.0.append("\n");
    }

    /// The text of the whole file.
    pub fn render(&self) -> (res: String)
        ensures
            res@ == self@,
    {
        self.0.clone()
    }
}

} // verus!
