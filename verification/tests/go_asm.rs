use code_asm::go_asm::{Block, Decl, Expr, IfaceFn, Package, Stmt, Type};

fn e(s: &str) -> Expr {
    Expr::raw(s)
}

fn one_line(s: &str) -> Block {
    Block::new().push(Stmt::raw(s))
}

#[test]
fn helloworld() {
    let main_body = Block::new()
        .push(Expr::raw("fmt").attr("PrintLn").call(vec!["Hello World".into()]).into());
    let mut pkg = Package::new("main");
    pkg.push(Decl::import("fmt"));
    pkg.push(Decl::func("main", vec![], vec![], main_body));
    println!("{}", pkg.render());
    assert_eq!(
        pkg.render(),
        "package main\nimport \"fmt\"\nfunc main() {\n    fmt.PrintLn(\"Hello World\")\n}\n"
    );
}

#[test]
fn go_render_twice_gives_the_same_text() {
    let mut pkg = Package::new("main");
    pkg.push(Decl::import("fmt"));
    let first = pkg.render();
    let second = pkg.render();
    assert_eq!(first, second);
    assert_eq!(first, "package main\nimport \"fmt\"\n");
}

#[test]
fn go_binop_groups_every_node() {
    let inner = e("b").binop("*", e("c"));
    assert_eq!(e("a").binop("+", inner).render(), "(a + (b * c))");
    let sum = e("a").binop("+", e("b"));
    assert_eq!(sum.binop("*", e("c")).render(), "((a + b) * c)");
    assert_eq!(e("a").binop("&&", e("b")).render(), "(a && b)");
}

#[test]
fn go_operators_group_like_binop() {
    assert_eq!((e("a") + e("b")).render(), "(a + b)");
    assert_eq!((e("a") - e("b")).render(), "(a - b)");
    assert_eq!((e("a") * e("b")).render(), "(a * b)");
    assert_eq!((e("a") / e("b")).render(), "(a / b)");
    assert_eq!((e("a") % e("b")).render(), "(a % b)");
    assert_eq!((e("a") & e("b")).render(), "(a & b)");
    assert_eq!((e("a") | e("b")).render(), "(a | b)");
    assert_eq!((e("a") ^ e("b")).render(), "(a ^ b)");
    assert_eq!((e("a") << e("b")).render(), "(a << b)");
    assert_eq!((e("a") >> e("b")).render(), "(a >> b)");
    assert_eq!(((e("a") + e("b")) * e("c")).render(), "((a + b) * c)");
    assert_eq!((-e("a")).render(), "-a");
    assert_eq!((!e("a")).render(), "!a");
}

#[test]
fn go_string_literal_escapes_only_quotes() {
    assert_eq!(Expr::str("he said \"hi\"").render(), "\"he said \\\"hi\\\"\"");
    assert_eq!(Expr::str("a\\b\nc").render(), "\"a\\b\nc\"");
    assert_eq!(Expr::str("").render(), "\"\"");
    assert_eq!(Expr::str("h\u{e9}\"\u{4e16}").render(), "\"h\u{e9}\\\"\u{4e16}\"");
}

#[test]
fn go_conversions_into_expr() {
    let from_str: Expr = "x\"y".into();
    assert_eq!(from_str.render(), "\"x\\\"y\"");
    let from_string: Expr = String::from("abc").into();
    assert_eq!(from_string.render(), "\"abc\"");
    assert_eq!(Expr::from(0i32).render(), "0");
    assert_eq!(Expr::from(-17i32).render(), "-17");
    assert_eq!(Expr::from(i32::MIN).render(), "-2147483648");
    assert_eq!(Expr::from(i64::MIN).render(), "-9223372036854775808");
    assert_eq!(Expr::from(i64::MAX).render(), "9223372036854775807");
    assert_eq!(Expr::from(i128::MIN).render(), i128::MIN.to_string());
    assert_eq!(Expr::from(i128::MAX).render(), i128::MAX.to_string());
    assert_eq!(Expr::from(10u32).render(), "10");
    assert_eq!(Expr::from(u64::MAX).render(), "18446744073709551615");
    assert_eq!(Expr::from(u128::MAX).render(), u128::MAX.to_string());
    assert_eq!(Expr::from(true).render(), "true");
    assert_eq!(Expr::from(false).render(), "false");
    assert_eq!(Expr::from(Type::int_(8)).render(), "int8");
    let s: Stmt = e("f()").into();
    assert_eq!(s.render(), "f()");
}

#[test]
fn go_simple_expressions() {
    assert_eq!(e("x").render(), "x");
    assert_eq!(e("x").attr("y").render(), "x.y");
    assert_eq!(e("x").type_as(Type::int_(32)).render(), "x.(int32)");
    assert_eq!(e("x").type_sw().render(), "x.(type)");
    assert_eq!(e("xs").range().render(), "range xs");
    assert_eq!(e("xs").index(e("i")).render(), "xs[i]");
    assert_eq!(e("f").call(vec![]).render(), "f()");
    assert_eq!(e("f").call(vec![e("a")]).render(), "f(a)");
    assert_eq!(e("f").call(vec![e("a"), e("b"), e("c")]).render(), "f(a, b, c)");
}

#[test]
fn go_composite_literals_keep_order() {
    let keyed = Expr::complit(Type::raw("A"), vec![("b", e("2")), ("a", e("1"))]);
    assert_eq!(keyed.render(), "A{b: 2, a: 1}");
    assert_eq!(Expr::complit(Type::raw("A"), vec![]).render(), "A{}");
    let unkeyed = Expr::ord_complit(Type::raw("A"), vec![e("2"), e("1"), e("2")]);
    assert_eq!(unkeyed.render(), "A{2, 1, 2}");
}

#[test]
fn go_closure_with_and_without_results() {
    let c = Expr::closure(vec![], vec![], Block::new());
    assert_eq!(c.render(), "func() {\n}");
    let c = Expr::closure(
        vec![Type::int_(8), Type::string()],
        vec![Type::bool(), Type::any()],
        one_line("return true, nil"),
    );
    assert_eq!(c.render(), "func(int8, string) (bool, any) {\n    return true, nil\n}");
    let c = Expr::closure(vec![Type::int_(8)], vec![Type::bool()], Block::new());
    assert_eq!(c.render(), "func(int8) bool {\n}");
}

#[test]
fn go_types() {
    assert_eq!(Type::raw("T").render(), "T");
    assert_eq!(Type::any().render(), "any");
    assert_eq!(Type::bool().render(), "bool");
    assert_eq!(Type::string().render(), "string");
    assert_eq!(Type::int_(0).render(), "int0");
    assert_eq!(Type::int_(64).render(), "int64");
    assert_eq!(Type::int_(255).render(), "int255");
    assert_eq!(Type::uint(8).render(), "uint8");
    assert_eq!(Type::string().map(Type::int_(32)).render(), "map[string]int32");
    assert_eq!(Type::bool().chan().render(), "chan bool");
    assert_eq!(Type::raw("T").ptr().render(), "*T");
    assert_eq!(Type::bool().fn_ptr(vec![Type::any(), Type::string()]).render(), "func(any, string) bool");
    assert_eq!(Type::bool().fn_ptr(vec![]).render(), "func() bool");
    assert_eq!(Type::raw("T").array(0).render(), "[0]T");
    assert_eq!(Type::raw("T").array(u32::MAX).render(), "[4294967295]T");
    assert_eq!(Type::raw("T").slice().render(), "[]T");
    assert_eq!(Type::raw("T").bind("x").render(), "x T");
}

#[test]
fn go_aggregates_have_a_canonical_empty_form() {
    assert_eq!(Type::struct_(vec![], vec![]).render(), "struct{}");
    assert_eq!(Type::interface(vec![], vec![]).render(), "interface{}");
    let s = Type::struct_(vec!["Base", "Other"], vec![("x", Type::int_(32)), ("y", Type::string())]);
    assert_eq!(s.render(), "struct {\nBase\nOther\nx int32\ny string\n}");
    assert_eq!(Type::struct_(vec!["Base"], vec![]).render(), "struct {\nBase\n}");
    let m = IfaceFn::new("Get", vec![("k", Type::string())], vec![Type::int_(8), Type::bool()]);
    assert_eq!(m.render(), "Get(k string)  (int8, bool)");
    let one = IfaceFn::new("Len", vec![], vec![Type::int_(64)]);
    assert_eq!(one.render(), "Len()  int64");
    let none = IfaceFn::new("Close", vec![], vec![]);
    assert_eq!(none.render(), "Close() ");
    let i = Type::interface(vec!["io.Reader"], vec![m, none]);
    assert_eq!(i.render(), "interface {\nio.Reader\nGet(k string)  (int8, bool)\nClose() \n}");
}

#[test]
fn go_block_indents_each_statement_once() {
    assert_eq!(Block::new().render(), "{\n}");
    assert_eq!(Block::default().render(), "{\n}");
    let b = Block::new().push(Stmt::raw("a")).push(Stmt::raw("b"));
    assert_eq!(b.render(), "{\n    a\n    b\n}");
    let mut m = Block::new();
    m.pushs(Stmt::raw("a"));
    m.pushs(Stmt::raw("b"));
    assert_eq!(m.render(), "{\n    a\n    b\n}");
    assert_eq!(Stmt::block(vec![]).render(), "{\n}");
    assert_eq!(Stmt::block(vec![Stmt::raw("a"), Stmt::raw("b")]).render(), "{\n    a\n    b\n}");
}

#[test]
fn go_nested_block_is_wrapped_as_text() {
    let inner = Stmt::block(vec![Stmt::raw("a")]);
    let outer = Block::new().push(inner);
    assert_eq!(outer.render(), "{\n    {\n    a\n}\n}");
}

#[test]
fn go_simple_statements() {
    assert_eq!(Stmt::raw("x++").render(), "x++");
    assert_eq!(Stmt::brk().render(), "break");
    assert_eq!(Stmt::cont().render(), "continue");
    assert_eq!(Stmt::fall().render(), "fallthrough");
    assert_eq!(Stmt::defer(e("f()")).render(), "defer f()");
    assert_eq!(Stmt::ret(vec![]).render(), "return ");
    assert_eq!(Stmt::ret(vec![e("a"), e("b")]).render(), "return a, b");
    assert_eq!(Stmt::variable("x", e("1")).render(), "x := 1");
    assert_eq!(Stmt::uninit_var("x", Type::bool()).render(), "var x bool");
    assert_eq!(Stmt::variables(vec!["a", "b"], vec![e("1"), e("2")]).render(), "a, b := 1, 2");
    assert_eq!(Stmt::const_("c", e("3")).render(), "const c = 3");
}

#[test]
fn go_if_chain() {
    let s = Stmt::if_(vec![(e("c1"), one_line("b1")), (e("c2"), one_line("b2"))], one_line("e"));
    assert_eq!(s.render(), "if c1 {\n    b1\n} else if c2 {\n    b2\n} else {\n    e\n}");
    let s = Stmt::if_(vec![(e("c1"), one_line("b1"))], Block::new());
    assert_eq!(s.render(), "if c1 {\n    b1\n}");
    let s = Stmt::if_(
        vec![(e("a"), Block::new()), (e("b"), Block::new()), (e("c"), Block::new())],
        Block::new(),
    );
    assert_eq!(s.render(), "if a {\n} else if b {\n} else if c {\n}");
}

#[test]
fn go_switch_keeps_the_order_of_cases() {
    let s = Stmt::switch(
        e("x"),
        vec![(e("2"), one_line("b")), (e("1"), one_line("a")), (e("2"), one_line("c"))],
        one_line("d"),
    );
    assert_eq!(
        s.render(),
        "switch x {case 2:\n    b\ncase 1:\n    a\ncase 2:\n    c\ndefault:\n    d\n}"
    );
    assert_eq!(Stmt::switch(e("x"), vec![], Block::new()).render(), "switch x {}");
}

#[test]
fn go_for_loop_shapes() {
    let body = one_line("sum += i");
    let s = Stmt::for_(
        Some(Stmt::raw("i := 0")),
        Some(e("i <= 10")),
        Some(Stmt::raw("i++")),
        body.clone(),
    );
    assert_eq!(s.render(), "for i := 0; i <= 10; i++ {\n    sum += i\n}");
    let s = Stmt::for_(Some(Stmt::raw("i := range xs")), None, None, body.clone());
    assert_eq!(s.render(), "for i := range xs {\n    sum += i\n}");
    let s = Stmt::for_(None, Some(e("ok")), None, body.clone());
    assert_eq!(s.render(), "for ok {\n    sum += i\n}");
    let s = Stmt::for_(None, None, None, body);
    assert_eq!(s.render(), "for {\n    sum += i\n}");
}

#[test]
fn go_for_loop_allows_four_shapes() {
    assert!(Stmt::for_shape_ok(true, true, true));
    assert!(Stmt::for_shape_ok(true, false, false));
    assert!(Stmt::for_shape_ok(false, true, false));
    assert!(Stmt::for_shape_ok(false, false, false));
    assert!(!Stmt::for_shape_ok(false, false, true));
    assert!(!Stmt::for_shape_ok(true, false, true));
    assert!(!Stmt::for_shape_ok(false, true, true));
    assert!(!Stmt::for_shape_ok(true, true, false));
}

#[test]
fn go_declarations() {
    assert_eq!(Decl::raw("// note").render(), "// note");
    assert_eq!(Decl::import("fmt").render(), "import \"fmt\"");
    assert_eq!(Decl::variable("x", e("1")).render(), "var x = 1");
    assert_eq!(Decl::uninit_var("x", Type::bool()).render(), "var x bool");
    assert_eq!(Decl::const_("c", e("3")).render(), "const c = 3");
    assert_eq!(Decl::type_("T", Type::struct_(vec![], vec![])).render(), "type T struct{}");
    let f = Decl::func(
        "Add",
        vec![("a", Type::int_(32)), ("b", Type::int_(32))],
        vec![Type::int_(32)],
        one_line("return a + b"),
    );
    assert_eq!(f.render(), "func Add(a int32, b int32) int32 {\n    return a + b\n}");
    let m = Decl::method(
        "Len",
        ("s", Type::raw("Stack").ptr()),
        vec![],
        vec![Type::int_(64), Type::bool()],
        Block::new(),
    );
    assert_eq!(m.render(), "func (s *Stack) Len() (int64, bool) {\n}");
    let none = Decl::func("main", vec![], vec![], Block::new());
    assert_eq!(none.render(), "func main() {\n}");
    let two = Decl::func("f", vec![], vec![Type::string(), Type::raw("error")], Block::new());
    assert_eq!(two.render(), "func f() (string, error) {\n}");
}

#[test]
fn go_package_keeps_insertion_order() {
    let mut pkg = Package::new("p");
    assert_eq!(pkg.render(), "package p\n");
    pkg.push(Decl::raw("D1"));
    pkg.push(Decl::raw("D2"));
    pkg.push(Decl::raw("D3"));
    assert_eq!(pkg.render(), "package p\nD1\nD2\nD3\n");
    assert_eq!(pkg.decls.len(), 3);
    assert_eq!(pkg.name, "p");
}
