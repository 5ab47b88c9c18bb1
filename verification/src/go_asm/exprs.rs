//! Expression nodes of the brace-delimited grammar.

use vstd::prelude::*;
use vstd::string::*;
use crate::go_asm::stmts::Block;
use crate::go_asm::types::{results_string, results_text, type_strings, type_texts, Type};
use crate::text::{binop_text, decimal, decimal_string, escape_quotes, escape_quotes_string, join,
    join_strings, signed_decimal, signed_decimal_string, views};

verus! {

/// A value-producing fragment; the field is its text.
#[derive(Clone)]
pub struct Expr(pub String);

impl View for Expr {
    type V = Seq<char>;

    open spec fn view(&self) -> Seq<char> {
        self.0@
    }
}

/// The texts of the expressions in `v`, in order.
pub open spec fn expr_texts(v: Seq<Expr>) -> Seq<Seq<char>> {
    Seq::new(v.len(), |i: int| v[i]@)
}

/// The text of each expression in `v`, in order.
pub(crate) fn expr_strings(v: &Vec<Expr>) -> (res: Vec<String>)
    ensures
        views(res@) == expr_texts(v@),
{
    let mut parts: Vec<String> = Vec::new();
    let mut i: usize = 0;
    while i < v.len()
        invariant
            i <= v.len(),
            parts.len() == i,
            forall|j: int| 0 <= j < i ==> (#[trigger] parts@[j])@ == v@[j]@,
        decreases v.len() - i,
    {
        parts.push(v[i].0.clone());
        i += 1;
    }
    proof {
        assert(views(parts@) =~= expr_texts(v@));
    }
    parts
}

/// One member of a keyed composite literal: the name, a colon, the value.
pub open spec fn keyed_text(item: (&str, Expr)) -> Seq<char> {
    item.0@ + ": "@ + item.1@
}

/// The text of each keyed member in `v`, in order.
pub open spec fn keyed_texts(v: Seq<(&str, Expr)>) -> Seq<Seq<char>> {
    Seq::new(v.len(), |i: int| keyed_text(v[i]))
}

/// The text of each keyed member in `v`, in order.
fn keyed_strings(v: &Vec<(&str, Expr)>) -> (res: Vec<String>)
    ensures
        views(res@) == keyed_texts(v@),
{
    let mut parts: Vec<String> = Vec::new();
    let mut i: usize = 0;
    while i < v.len()
        invariant
            i <= v.len(),
            parts.len() == i,
            forall|j: int| 0 <= j < i ==> (#[trigger] parts@[j])@ == keyed_text(v@[j]),
        decreases v.len() - i,
    {
        let mut p = String::from_str(v[i].0);
        p.append(": ");
        p.append(v[i].1.0.as_str());
        parts.push(p);
        i += 1;
    }
    proof {
        assert(views(parts@) =~= keyed_texts(v@));
    }
    parts
}

impl Expr {
    /// An expression written out by the caller.
    pub fn raw(raw: &str) -> (res: Self)
        ensures
            res@ == raw@,
    {
        Expr(String::from_str(raw))
    }

    /// A string literal: `str` between double quotes, with each double quote in it
    /// escaped by a backslash and no other character changed.
    pub fn str(str: &str) -> (res: Self)
        ensures
            res@ == "\""@ + escape_quotes(str@) + "\""@,
    {
        let inner = escape_quotes_string(str);
        let mut s = String::from_str("\"");
        s.append(inner.as_str());
        s.append("\"");
        Expr(s)
    }

    /// The member `attr` of this expression.
    pub fn attr(self, attr: &str) -> (res: Self)
        ensures
            res@ == self@ + "."@ + attr@,
    {
        let mut s = String::from_str(self.0.as_str());
        s.append(".");
        s.append(attr);
        Expr(s)
    }

    /// A type assertion, such as `x.(int)`.
    pub fn type_as(self, ty: Type) -> (res: Self)
        ensures
            res@ == self@ + ".("@ + ty@ + ")"@,
    {
        let mut s = String::from_str(self.0.as_str());
        s.append(".(");
        s.append(ty.0.as_str());
        s.append(")");
        Expr(s)
    }

    /// The head of a type switch, such as `x.(type)`.
    pub fn type_sw(self) -> (res: Self)
        ensures
            res@ == self@ + ".(type)"@,
    {
        let mut s = String::from_str(self.0.as_str());
        s.append(".(type)");
        Expr(s)
    }

    /// A range clause over this expression.
    pub fn range(self) -> (res: Self)
        ensures
            res@ == "range "@ + self@,
    {
        let mut s = String::from_str("range ");
        s.append(self.0.as_str());
        Expr(s)
    }

    /// The two operands with `op` between them, always in parentheses, whatever
    /// the operator.
    pub fn binop(self, op: &str, rhs: Expr) -> (res: Self)
        ensures
            res@ == binop_text(self@, op@, rhs@),
    {
        let mut s = String::from_str("(");
        s.append(self.0.as_str());
        s.append(" ");
        s.append(op);
        s.append(" ");
        s.append(rhs.0.as_str());
        s.append(")");
        Expr(s)
    }

    /// This expression indexed by `index`.
    pub fn index(self, index: Expr) -> (res: Self)
        ensures
            res@ == self@ + "["@ + index@ + "]"@,
    {
        let mut s = String::from_str(self.0.as_str());
        s.append("[");
        s.append(index.0.as_str());
        s.append("]");
        Expr(s)
    }

    /// A keyed composite literal, such as `A{a: 1, b: 2}`, its members in the order
    /// given.
    pub fn complit(ty: Type, vals: Vec<(&str, Expr)>) -> (res: Self)
        ensures
            res@ == ty@ + "{"@ + join(keyed_texts(vals@), ", "@) + "}"@,
    {
        let vals_text = join_strings(&keyed_strings(&vals), ", ");
        let mut s = String::from_str(ty.0.as_str());
        s.append("{");
        s.append(vals_text.as_str());
        s.append("}");
        Expr(s)
    }

    /// An unkeyed composite literal, such as `A{1, 2}`, its values in the order
    /// given.
    pub fn ord_complit(ty: Type, vals: Vec<Expr>) -> (res: Self)
        ensures
            res@ == ty@ + "{"@ + join(expr_texts(vals@), ", "@) + "}"@,
    {
        let vals_text = join_strings(&expr_strings(&vals), ", ");
        let mut s = String::from_str(ty.0.as_str());
        s.append("{");
        s.append(vals_text.as_str());
        s.append("}");
        Expr(s)
    }

    /// An anonymous function: the argument types, the result types, bare where
    /// there is one and in parentheses where there are more, and the body.
    pub fn closure(args: Vec<Type>, rets: Vec<Type>, body: Block) -> (res: Self)
        ensures
            res@ == "func("@ + join(type_texts(args@), ", "@) + ")"@
                + results_text(rets@) + " "@ + body.text(),
    {
        let args_text = join_strings(&type_strings(&args), ", ");
        let rets_text = results_string(&rets);
        let body_text = body.render();
        let mut s = String::from_str("func(");
        s.append(args_text.as_str());
        s.append(")");
        s.append(rets_text.as_str());
        s.append(" ");
        s.append(body_text.as_str());
        Expr(s)
    }

    /// A call of this expression on `args`, in the order given.
    pub fn call(self, args: Vec<Expr>) -> (res: Self)
        ensures
            res@ == self@ + "("@ + join(expr_texts(args@), ", "@) + ")"@,
    {
        let args_text = join_strings(&expr_strings(&args), ", ");
        let mut s = String::from_str(self.0.as_str());
        s.append("(");
        s.append(args_text.as_str());
        s.append(")");
        Expr(s)
    }

    /// The text of this expression.
    pub fn render(&self) -> (res: String)
        ensures
            res@ == self@,
    {
        self.0.clone()
    }
}

impl core::ops::Neg for Expr {
    type Output = Expr;

    /// The arithmetic negation of this expression.
    fn neg(self) -> (res: Expr)
        ensures
            res@ == "-"@ + self@,
    {
        let mut s = String::from_str("-");
        s.append(self.0.as_str());
        Expr(s)
    }
}

impl vstd::std_specs::ops::NegSpecImpl for Expr {
    open spec fn obeys_neg_spec() -> bool {
        false
    }

    open spec fn neg_req(self) -> bool {
        true
    }

    open spec fn neg_spec(self) -> Expr {
        self
    }
}

impl core::ops::Not for Expr {
    type Output = Expr;

    /// The logical negation of this expression.
    fn not(self) -> (res: Expr)
        ensures
            res@ == "!"@ + self@,
    {
        let mut s = String::from_str("!");
        s.append(self.0.as_str());
        Expr(s)
    }
}

impl vstd::std_specs::ops::NotSpecImpl for Expr {
    open spec fn obeys_not_spec() -> bool {
        false
    }

    open spec fn not_req(self) -> bool {
        true
    }

    open spec fn not_spec(self) -> Expr {
        self
    }
}

impl core::ops::Add for Expr {
    type Output = Expr;

    /// The sum of two expressions, in parentheses.
    fn add(self, rhs: Expr) -> (res: Expr)
        ensures
            res@ == binop_text(self@, "+"@, rhs@),
    {
        self.binop("+", rhs)
    }
}

impl vstd::std_specs::ops::AddSpecImpl for Expr {
    open spec fn obeys_add_spec() -> bool {
        false
    }

    open spec fn add_req(self, rhs: Expr) -> bool {
        true
    }

    open spec fn add_spec(self, rhs: Expr) -> Expr {
        self
    }
}

impl core::ops::Sub for Expr {
    type Output = Expr;

    /// The difference of two expressions, in parentheses.
    fn sub(self, rhs: Expr) -> (res: Expr)
        ensures
            res@ == binop_text(self@, "-"@, rhs@),
    {
        self.binop("-", rhs)
    }
}

impl vstd::std_specs::ops::SubSpecImpl for Expr {
    open spec fn obeys_sub_spec() -> bool {
        false
    }

    open spec fn sub_req(self, rhs: Expr) -> bool {
        true
    }

    open spec fn sub_spec(self, rhs: Expr) -> Expr {
        self
    }
}

impl core::ops::Mul for Expr {
    type Output = Expr;

    /// The product of two expressions, in parentheses.
    fn mul(self, rhs: Expr) -> (res: Expr)
        ensures
            res@ == binop_text(self@, "*"@, rhs@),
    {
        self.binop("*", rhs)
    }
}

impl vstd::std_specs::ops::MulSpecImpl for Expr {
    open spec fn obeys_mul_spec() -> bool {
        false
    }

    open spec fn mul_req(self, rhs: Expr) -> bool {
        true
    }

    open spec fn mul_spec(self, rhs: Expr) -> Expr {
        self
    }
}

impl core::ops::Div for Expr {
    type Output = Expr;

    /// The quotient of two expressions, in parentheses.
    fn div(self, rhs: Expr) -> (res: Expr)
        ensures
            res@ == binop_text(self@, "/"@, rhs@),
    {
        self.binop("/", rhs)
    }
}

impl vstd::std_specs::ops::DivSpecImpl for Expr {
    open spec fn obeys_div_spec() -> bool {
        false
    }

    open spec fn div_req(self, rhs: Expr) -> bool {
        true
    }

    open spec fn div_spec(self, rhs: Expr) -> Expr {
        self
    }
}

impl core::ops::Rem for Expr {
    type Output = Expr;

    /// The remainder of two expressions, in parentheses.
    fn rem(self, rhs: Expr) -> (res: Expr)
        ensures
            res@ == binop_text(self@, "%"@, rhs@),
    {
        self.binop("%", rhs)
    }
}

impl vstd::std_specs::ops::RemSpecImpl for Expr {
    open spec fn obeys_rem_spec() -> bool {
        false
    }

    open spec fn rem_req(self, rhs: Expr) -> bool {
        true
    }

    open spec fn rem_spec(self, rhs: Expr) -> Expr {
        self
    }
}

impl core::ops::BitAnd for Expr {
    type Output = Expr;

    /// The bitwise and of two expressions, in parentheses.
    fn bitand(self, rhs: Expr) -> (res: Expr)
        ensures
            res@ == binop_text(self@, "&"@, rhs@),
    {
        self.binop("&", rhs)
    }
}

impl vstd::std_specs::ops::BitAndSpecImpl for Expr {
    open spec fn obeys_bitand_spec() -> bool {
        false
    }

    open spec fn bitand_req(self, rhs: Expr) -> bool {
        true
    }

    open spec fn bitand_spec(self, rhs: Expr) -> Expr {
        self
    }
}

impl core::ops::BitOr for Expr {
    type Output = Expr;

    /// The bitwise or of two expressions, in parentheses.
    fn bitor(self, rhs: Expr) -> (res: Expr)
        ensures
            res@ == binop_text(self@, "|"@, rhs@),
    {
        self.binop("|", rhs)
    }
}

impl vstd::std_specs::ops::BitOrSpecImpl for Expr {
    open spec fn obeys_bitor_spec() -> bool {
        false
    }

    open spec fn bitor_req(self, rhs: Expr) -> bool {
        true
    }

    open spec fn bitor_spec(self, rhs: Expr) -> Expr {
        self
    }
}

impl core::ops::BitXor for Expr {
    type Output = Expr;

    /// The bitwise exclusive or of two expressions, in parentheses.
    fn bitxor(self, rhs: Expr) -> (res: Expr)
        ensures
            res@ == binop_text(self@, "^"@, rhs@),
    {
        self.binop("^", rhs)
    }
}

impl vstd::std_specs::ops::BitXorSpecImpl for Expr {
    open spec fn obeys_bitxor_spec() -> bool {
        false
    }

    open spec fn bitxor_req(self, rhs: Expr) -> bool {
        true
    }

    open spec fn bitxor_spec(self, rhs: Expr) -> Expr {
        self
    }
}

impl core::ops::Shl for Expr {
    type Output = Expr;

    /// The left shift of two expressions, in parentheses.
    fn shl(self, rhs: Expr) -> (res: Expr)
        ensures
            res@ == binop_text(self@, "<<"@, rhs@),
    {
        self.binop("<<", rhs)
    }
}

impl vstd::std_specs::ops::ShlSpecImpl for Expr {
    open spec fn obeys_shl_spec() -> bool {
        false
    }

    open spec fn shl_req(self, rhs: Expr) -> bool {
        true
    }

    open spec fn shl_spec(self, rhs: Expr) -> Expr {
        self
    }
}

impl core::ops::Shr for Expr {
    type Output = Expr;

    /// The right shift of two expressions, in parentheses.
    fn shr(self, rhs: Expr) -> (res: Expr)
        ensures
            res@ == binop_text(self@, ">>"@, rhs@),
    {
        self.binop(">>", rhs)
    }
}

impl vstd::std_specs::ops::ShrSpecImpl for Expr {
    open spec fn obeys_shr_spec() -> bool {
        false
    }

    open spec fn shr_req(self, rhs: Expr) -> bool {
        true
    }

    open spec fn shr_spec(self, rhs: Expr) -> Expr {
        self
    }
}

impl core::convert::From<String> for Expr {
    /// The string literal for `v`.
    fn from(v: String) -> (res: Expr)
        ensures
            res@ == "\""@ + escape_quotes(v@) + "\""@,
    {
        Expr::str(v.as_str())
    }
}

impl vstd::std_specs::convert::FromSpecImpl<String> for Expr {
    open spec fn obeys_from_spec() -> bool {
        false
    }

    open spec fn from_spec(v: String) -> Expr {
        arbitrary()
    }
}

impl core::convert::From<&str> for Expr {
    /// The string literal for `v`.
    fn from(v: &str) -> (res: Expr)
        ensures
            res@ == "\""@ + escape_quotes(v@) + "\""@,
    {
        Expr::str(v)
    }
}

impl vstd::std_specs::convert::FromSpecImpl<&str> for Expr {
    open spec fn obeys_from_spec() -> bool {
        false
    }

    open spec fn from_spec(v: &str) -> Expr {
        arbitrary()
    }
}

impl core::convert::From<i32> for Expr {
    /// The decimal numeral of `v`.
    fn from(v: i32) -> (res: Expr)
        ensures
            res@ == signed_decimal(v as int),
    {
        Expr(signed_decimal_string(v as i128))
    }
}

impl vstd::std_specs::convert::FromSpecImpl<i32> for Expr {
    open spec fn obeys_from_spec() -> bool {
        false
    }

    open spec fn from_spec(v: i32) -> Expr {
        arbitrary()
    }
}

impl core::convert::From<i64> for Expr {
    /// The decimal numeral of `v`.
    fn from(v: i64) -> (res: Expr)
        ensures
            res@ == signed_decimal(v as int),
    {
        Expr(signed_decimal_string(v as i128))
    }
}

impl vstd::std_specs::convert::FromSpecImpl<i64> for Expr {
    open spec fn obeys_from_spec() -> bool {
        false
    }

    open spec fn from_spec(v: i64) -> Expr {
        arbitrary()
    }
}

impl core::convert::From<i128> for Expr {
    /// The decimal numeral of `v`.
    fn from(v: i128) -> (res: Expr)
        ensures
            res@ == signed_decimal(v as int),
    {
        Expr(signed_decimal_string(v as i128))
    }
}

impl vstd::std_specs::convert::FromSpecImpl<i128> for Expr {
    open spec fn obeys_from_spec() -> bool {
        false
    }

    open spec fn from_spec(v: i128) -> Expr {
        arbitrary()
    }
}

impl core::convert::From<u32> for Expr {
    /// The decimal numeral of `v`.
    fn from(v: u32) -> (res: Expr)
        ensures
            res@ == decimal(v as nat),
    {
        Expr(decimal_string(v as u128))
    }
}

impl vstd::std_specs::convert::FromSpecImpl<u32> for Expr {
    open spec fn obeys_from_spec() -> bool {
        false
    }

    open spec fn from_spec(v: u32) -> Expr {
        arbitrary()
    }
}

impl core::convert::From<u64> for Expr {
    /// The decimal numeral of `v`.
    fn from(v: u64) -> (res: Expr)
        ensures
            res@ == decimal(v as nat),
    {
        Expr(decimal_string(v as u128))
    }
}

impl vstd::std_specs::convert::FromSpecImpl<u64> for Expr {
    open spec fn obeys_from_spec() -> bool {
        false
    }

    open spec fn from_spec(v: u64) -> Expr {
        arbitrary()
    }
}

impl core::convert::From<u128> for Expr {
    /// The decimal numeral of `v`.
    fn from(v: u128) -> (res: Expr)
        ensures
            res@ == decimal(v as nat),
    {
        Expr(decimal_string(v as u128))
    }
}

impl vstd::std_specs::convert::FromSpecImpl<u128> for Expr {
    open spec fn obeys_from_spec() -> bool {
        false
    }

    open spec fn from_spec(v: u128) -> Expr {
        arbitrary()
    }
}

impl core::convert::From<bool> for Expr {
    /// The literal `true` or `false`.
    fn from(v: bool) -> (res: Expr)
        ensures
            res@ == if v { "true"@ } else { "false"@ },
    {
        if v {
            Expr::raw("true")
        } else {
            Expr::raw("false")
        }
    }
}

impl vstd::std_specs::convert::FromSpecImpl<bool> for Expr {
    open spec fn obeys_from_spec() -> bool {
        false
    }

    open spec fn from_spec(v: bool) -> Expr {
        arbitrary()
    }
}

impl core::convert::From<Type> for Expr {
    /// The type, written where an expression stands.
    fn from(v: Type) -> (res: Expr)
        ensures
            res@ == v@,
    {
        Expr(v.0)
    }
}

impl vstd::std_specs::convert::FromSpecImpl<Type> for Expr {
    open spec fn obeys_from_spec() -> bool {
        false
    }

    open spec fn from_spec(v: Type) -> Expr {
        arbitrary()
    }
}

} // verus!
