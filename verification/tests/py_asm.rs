use code_asm::py_asm::{Block, DefArgs, Expr, File, Stmt, Type};

fn e(s: &str) -> Expr {
    Expr::raw(s)
}

fn one_line(s: &str) -> Block {
    Block::new().push(Stmt::raw(s))
}

#[test]
fn mod_helloworld() {
    let main_body = Block::new()
        .push(Expr::raw("print").call(vec!["Hello World".into()], Vec::<(&str, _)>::new()).into());
    let file = File::new()
        .push(Stmt::func("main", DefArgs::new(), Type::unknow(), main_body))
        .push(Stmt::if_(
            vec![(
                Expr::raw("__name__").binop("==", "__main__".into()),
                Block::new().push(Expr::raw("main").call(vec![], Vec::<(&str, _)>::new()).into()),
            )],
            Block::new(),
        ));
    println!("{}", file.render());
    assert_eq!(
        file.render(),
        "def main():\n    print(\"Hello World\")\n\nif (__name__ == \"__main__\"):\n    main()\n\n"
    );
}

#[test]
fn py_render_twice_gives_the_same_text() {
    let file = File::new().push(Stmt::pass()).push(Stmt::brk());
    assert_eq!(file.render(), file.render());
    assert_eq!(file.render(), "pass\nbreak\n");
}

#[test]
fn py_binop_groups_every_node() {
    let inner = e("b").binop("*", e("c"));
    assert_eq!(e("a").binop("+", inner).render(), "(a + (b * c))");
    let sum = e("a").binop("+", e("b"));
    assert_eq!(sum.binop("*", e("c")).render(), "((a + b) * c)");
    assert_eq!(e("a").binop("and", e("b")).render(), "(a and b)");
}

#[test]
fn py_operators_group_like_binop() {
    assert_eq!((e("a") + e("b")).render(), "(a + b)");
    assert_eq!((e("a") - e("b")).render(), "(a - b)");
    assert_eq!((e("a") * e("b")).render(), "(a * b)");
    assert_eq!((e("a") / e("b")).render(), "(a / b)");
    assert_eq!((e("a") % e("b")).render(), "(a % b)");
    assert_eq!((e("a") & e("b")).render(), "(a & b)");
    assert_eq!((e("a") | e("b")).render(), "(a | b)");
    assert_eq!((e("a") ^ e("b")).render(), "(a ^ b)");
    assert_eq!((e("a") << e("b")).render(), "(a << b)");
    assert_eq!((e("a") >> e("b")).render(), "(a >> b)");
    assert_eq!((-e("a")).render(), "-a");
    assert_eq!((!e("a")).render(), "not a");
}

#[test]
fn py_string_literal_escapes_only_quotes() {
    assert_eq!(Expr::str("", "he said \"hi\"").render(), "\"he said \\\"hi\\\"\"");
    assert_eq!(Expr::str("f", "{x}\n\\").render(), "f\"{x}\n\\\"");
    assert_eq!(Expr::str("b", "").render(), "b\"\"");
}

#[test]
fn py_conversions_into_expr() {
    let from_str: Expr = "x\"y".into();
    assert_eq!(from_str.render(), "\"x\\\"y\"");
    let from_string: Expr = String::from("abc").into();
    assert_eq!(from_string.render(), "\"abc\"");
    assert_eq!(Expr::from(true).render(), "True");
    assert_eq!(Expr::from(false).render(), "False");
    assert_eq!(Expr::from(-5i32).render(), "-5");
    assert_eq!(Expr::from(1234567890123i64).render(), "1234567890123");
    assert_eq!(Expr::from(-1i128).render(), "-1");
    assert_eq!(Expr::from(7u32).render(), "7");
    assert_eq!(Expr::from(100u64).render(), "100");
    assert_eq!(Expr::from(9u128).render(), "9");
    assert_eq!(Expr::from(Type::int_()).render(), "int");
    let s: Stmt = e("f()").into();
    assert_eq!(s.render(), "f()");
}

#[test]
fn py_displays() {
    assert_eq!(Expr::ellipsis().render(), "...");
    assert_eq!(Expr::list(vec![]).render(), "[]");
    assert_eq!(Expr::list(vec![e("a"), e("b")]).render(), "[a, b]");
    assert_eq!(Expr::tuple(vec![e("a"), e("b")]).render(), "(a, b)");
    assert_eq!(Expr::tuple(vec![e("a")]).render(), "(a)");
    assert_eq!(Expr::set(vec![e("b"), e("a")]).render(), "{b, a}");
    assert_eq!(Expr::dict(vec![(e("k"), e("v")), (e("a"), e("b"))]).render(), "{k: v, a: b}");
    assert_eq!(Expr::dict(vec![]).render(), "{}");
    assert_eq!(Expr::lambda(vec!["x", "y"], one_line("x + y")).render(), "lambda x, y:\n    x + y\n");
}

#[test]
fn py_comprehensions_keep_clause_order() {
    let gens = || vec![("x", e("xs")), ("y", e("ys"))];
    let conds = || vec![e("x"), e("y")];
    assert_eq!(
        e("x").listcomp(gens(), conds()).render(),
        "[x for x in xs for y in ys if x if y]"
    );
    assert_eq!(e("x").listcomp(vec![("x", e("xs"))], vec![]).render(), "[x for x in xs]");
    assert_eq!(
        e("k").dictcomp(e("v"), gens(), conds()).render(),
        "{k: v for x in xs for y in ys if x if y}"
    );
    assert_eq!(e("x").setcomp(gens(), vec![]).render(), "{x for x in xs for y in ys}");
    assert_eq!(e("x").generator(gens(), vec![e("c")]).render(), "(x for x in xs for y in ys if c)");
}

#[test]
fn py_access_and_calls() {
    assert_eq!(e("a").attr("b").render(), "a.b");
    assert_eq!(e("a").index(e("0")).render(), "a[0]");
    assert_eq!(Expr::await_(e("f()")).render(), "await f()");
    assert_eq!(e("f").call(vec![], Vec::<(&str, Expr)>::new()).render(), "f()");
    assert_eq!(
        e("f").call(vec![e("a"), e("b")], vec![("k", e("1")), ("j", e("2"))]).render(),
        "f(a, b, k=1, j=2)"
    );
    assert_eq!(e("f").call(vec![], vec![("k", e("1"))]).render(), "f(k=1)");
}

#[test]
fn py_types() {
    assert_eq!(Type::raw("T").render(), "T");
    assert_eq!(Type::generic_raw("Callable", vec![Type::int_(), Type::str()]).render(), "Callable[int, str]");
    assert_eq!(Type::unknow().render(), "");
    assert_eq!(Type::int_().render(), "int");
    assert_eq!(Type::bool().render(), "bool");
    assert_eq!(Type::float().render(), "float");
    assert_eq!(Type::str().render(), "str");
    assert_eq!(Type::bytes().render(), "bytes");
    assert_eq!(Type::complex().render(), "complex");
    assert_eq!(Type::tuple(vec![Type::int_(), Type::str()]).render(), "tuple[int, str]");
    assert_eq!(Type::int_().var_tuple().render(), "tuple[int, ...]");
    assert_eq!(Type::int_().list().render(), "list[int]");
    assert_eq!(Type::int_().set().render(), "set[int]");
    assert_eq!(Type::str().dict(Type::int_()).render(), "dict[str, int]");
    assert_eq!(Type::int_().bind("x").render(), "x: int");
}

#[test]
fn py_block_indents_each_statement_once() {
    assert_eq!(Block::new().render(), "");
    assert_eq!(Block::default().render(), "");
    let b = Block::new().push(Stmt::raw("a")).push(Stmt::raw("b"));
    assert_eq!(b.render(), "    a\n    b\n");
    let mut m = Block::new();
    m.pushs(Stmt::raw("a"));
    m.pushs(Stmt::raw("b"));
    assert_eq!(m.render(), "    a\n    b\n");
}

#[test]
fn py_simple_statements() {
    assert_eq!(Stmt::raw("x += 1").render(), "x += 1");
    assert_eq!(Stmt::pass().render(), "pass");
    assert_eq!(Stmt::brk().render(), "break");
    assert_eq!(Stmt::cont().render(), "continue");
    assert_eq!(Stmt::del(e("x")).render(), "del x");
    assert_eq!(Stmt::ret(e("x")).render(), "return x");
    assert_eq!(Stmt::assert_(e("c"), None).render(), "assert c");
    assert_eq!(Stmt::assert_(e("c"), Some(e("m"))).render(), "assert c, m");
    assert_eq!(Stmt::raise(e("E()")).render(), "raise E()");
    assert_eq!(Stmt::yield_(None).render(), "yield ");
    assert_eq!(Stmt::yield_(Some(e("x"))).render(), "yield x");
    assert_eq!(Stmt::dec(e("cache")).render(), "@cache");
    assert_eq!(Stmt::import("os").render(), "import os");
    assert_eq!(Stmt::from_import("os", "path").render(), "from os import path");
    assert_eq!(Stmt::assign("x", e("1")).render(), "x = 1");
    assert_eq!(Stmt::global("g").render(), "global g");
    assert_eq!(Stmt::nonlocal("n").render(), "nonlocal n");
}

#[test]
fn py_if_chain() {
    let s = Stmt::if_(vec![(e("c1"), one_line("b1")), (e("c2"), one_line("b2"))], one_line("e"));
    assert_eq!(s.render(), "if c1:\n    b1\nelif c2:\n    b2\nelse:\n    e\n");
    let s = Stmt::if_(vec![(e("c1"), one_line("b1"))], Block::new());
    assert_eq!(s.render(), "if c1:\n    b1\n");
}

#[test]
fn py_loops_leave_out_an_empty_else() {
    assert_eq!(Stmt::while_(e("c"), one_line("b"), Block::new()).render(), "while c:\n    b\n");
    assert_eq!(
        Stmt::while_(e("c"), one_line("b"), one_line("e")).render(),
        "while c:\n    b\nelse:\n    e\n"
    );
    assert_eq!(
        Stmt::for_(vec![("x", e("xs"))], one_line("b"), Block::new()).render(),
        "for x in xs:\n    b\n"
    );
    assert_eq!(
        Stmt::for_(vec![("x", e("xs")), ("y", e("ys"))], one_line("b"), one_line("e")).render(),
        "for x, y in xs, ys:\n    b\nelse:\n    e\n"
    );
    assert_eq!(
        Stmt::for_(vec![("", e("p")), ("y", e("q")), ("z", e("r"))], Block::new(), Block::new())
            .render(),
        "for y, z in pq, r:\n"
    );
    assert_eq!(
        Stmt::async_for(vec![("x", e("xs"))], one_line("b"), Block::new()).render(),
        "async for x in xs:\n    b\n"
    );
}

#[test]
fn py_try_renders_clauses_in_order() {
    let s = Stmt::try_(
        one_line("a"),
        vec![
            (Type::raw("KeyError"), "", one_line("b")),
            (Type::raw("OSError"), "err", one_line("c")),
        ],
        one_line("d"),
        one_line("f"),
    );
    assert_eq!(
        s.render(),
        "try:\n    a\nexcept KeyError:\n    b\nexcept OSError as err:\n    c\nelse:\n    d\nfinally:\n    f\n"
    );
    let s = Stmt::try_(one_line("a"), Vec::<(Type, &str, Block)>::new(), Block::new(), one_line("f"));
    assert_eq!(s.render(), "try:\n    a\nfinally:\n    f\n");
}

#[test]
fn py_with_and_its_async_form() {
    assert_eq!(
        Stmt::with(e("open(p)"), "f", one_line("b"), Block::new()).render(),
        "with open(p) as f:\n    b\n"
    );
    assert_eq!(
        Stmt::with(e("lock"), "", one_line("b"), one_line("e")).render(),
        "with lock:\n    b\nelse:\n    e\n"
    );
    assert_eq!(
        Stmt::async_with(e("open(p)"), "f", one_line("b"), Block::new()).render(),
        "async with open(p) as f:\n    b\n"
    );
}

#[test]
fn py_definitions() {
    assert_eq!(DefArgs::new().render(), "()");
    assert_eq!(DefArgs::default().render(), "()");
    assert_eq!(DefArgs::new().push_arg("x", None).render(), "(x)");
    assert_eq!(DefArgs::new().push_arg("x", Some(e("1"))).render(), "(x=1)");
    assert_eq!(DefArgs::new().push_vararg("args").render(), "(*args)");
    assert_eq!(DefArgs::new().push_kwarg("kw").render(), "(**kw)");
    assert_eq!(DefArgs::new().push_arg("x", None).push_arg("y", Some(e("2"))).render(), "(x, y=2)");
    assert_eq!(DefArgs::new().push_arg("x", None).push_vararg("a").render(), "(x, *a)");
    assert_eq!(
        DefArgs::new().push_arg("x", None).push_vararg("a").push_kwarg("k").render(),
        "(x, *a, **k)"
    );
    let f = Stmt::func("f", DefArgs::new().push_arg("x", None), Type::int_(), one_line("return x"));
    assert_eq!(f.render(), "def f(x) -> int:\n    return x\n");
    let f = Stmt::func("f", DefArgs::new(), Type::unknow(), one_line("pass"));
    assert_eq!(f.render(), "def f():\n    pass\n");
    let f = Stmt::async_func("f", DefArgs::new(), Type::unknow(), one_line("pass"));
    assert_eq!(f.render(), "async def f():\n    pass\n");
    assert_eq!(Stmt::class("A", vec![], one_line("pass")).render(), "class A:\n    pass\n");
    assert_eq!(
        Stmt::class("A", vec!["B", "C"], one_line("pass")).render(),
        "class A(B, C):\n    pass\n"
    );
}

#[test]
fn py_file_keeps_insertion_order() {
    let file = File::new().push(Stmt::raw("D1")).push(Stmt::raw("D2")).push(Stmt::raw("D3"));
    assert_eq!(file.render(), "D1\nD2\nD3\n");
    let mut m = File::default();
    m.pushs(Stmt::raw("D1"));
    m.pushs(Stmt::raw("D2"));
    assert_eq!(m.render(), "D1\nD2\n");
    assert_eq!(File::new().render(), "");
}
