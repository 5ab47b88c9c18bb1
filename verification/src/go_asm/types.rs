//! Type nodes of the brace-delimited grammar.

use vstd::prelude::*;
use vstd::string::*;
use crate::text::{decimal, join, join_strings, name_strings, name_texts, push_decimal, views,
    wrap_each, wrap_each_strings};

verus! {

/// The signature of one method of an interface; the field is its text.
pub struct IfaceFn(pub String);

impl View for IfaceFn {
    type V = Seq<char>;

    open spec fn view(&self) -> Seq<char> {
        self.0@
    }
}

/// A type reference or a type-defining construct; the field is its text.
#[derive(Debug, Clone)]
pub struct Type(pub String);

impl View for Type {
    type V = Seq<char>;

    open spec fn view(&self) -> Seq<char> {
        self.0@
    }
}

/// The texts of the types in `v`, in order.
pub open spec fn type_texts(v: Seq<Type>) -> Seq<Seq<char>> {
    Seq::new(v.len(), |i: int| v[i]@)
}

/// The text of each type in `v`, in order.
pub(crate) fn type_strings(v: &Vec<Type>) -> (res: Vec<String>)
    ensures
        views(res@) == type_texts(v@),
{
    let mut parts: Vec<String> = Vec::new();
    let mut i: usize = 0;
    while i < v.len()
        invariant
            i <= v.len(),
            parts.len() == i,
            forall|j: int| 0 <= j < i ==> (#[trigger] parts@[j])@ == v@[j]@,
        decreases v.len() - i,
    {
        parts.push(v[i].0.clone());
        i += 1;
    }
    proof {
        assert(views(parts@) =~= type_texts(v@));
    }
    parts
}

/// One named parameter or field: the name, a space, the type.
pub open spec fn param_text(item: (&str, Type)) -> Seq<char> {
    item.0@ + " "@ + item.1@
}

/// The text of each named parameter in `v`, in order.
pub open spec fn param_texts(v: Seq<(&str, Type)>) -> Seq<Seq<char>> {
    Seq::new(v.len(), |i: int| param_text(v[i]))
}

/// The text of each named parameter in `v`, in order.
pub(crate) fn param_strings(v: &Vec<(&str, Type)>) -> (res: Vec<String>)
    ensures
        views(res@) == param_texts(v@),
{
    let mut parts: Vec<String> = Vec::new();
    let mut i: usize = 0;
    while i < v.len()
        invariant
            i <= v.len(),
            parts.len() == i,
            forall|j: int| 0 <= j < i ==> (#[trigger] parts@[j])@ == param_text(v@[j]),
        decreases v.len() - i,
    {
        let mut p = String::from_str(v[i].0);
        p.append(" ");
        p.append(v[i].1.0.as_str());
        parts.push(p);
        i += 1;
    }
    proof {
        assert(views(parts@) =~= param_texts(v@));
    }
    parts
}

/// The result types behind a signature: nothing where there are none, a space
/// and the type where there is one, and a space and the list in parentheses
/// where there are more.
pub open spec fn results_text(rets: Seq<Type>) -> Seq<char> {
    if rets.len() == 0 {
        Seq::empty()
    } else if rets.len() == 1 {
        " "@ + rets[0]@
    } else {
        " ("@ + join(type_texts(rets), ", "@) + ")"@
    }
}

/// The result types behind a signature, as one string.
pub(crate) fn results_string(rets: &Vec<Type>) -> (res: String)
    ensures
        res@ == results_text(rets@),
{
    if rets.len() == 0 {
        String::new()
    } else if rets.len() == 1 {
        let mut s = String::from_str(" ");
        s.append(rets[0].0.as_str());
        s
    } else {
        let mut s = String::from_str(" (");
        s.append(join_strings(&type_strings(rets), ", ").as_str());
        s.append(")");
        s
    }
}

/// The texts of the method signatures in `v`, in order.
pub open spec fn iface_fn_texts(v: Seq<IfaceFn>) -> Seq<Seq<char>> {
    Seq::new(v.len(), |i: int| v[i]@)
}

/// The text of each method signature in `v`, in order.
fn iface_fn_strings(v: &Vec<IfaceFn>) -> (res: Vec<String>)
    ensures
        views(res@) == iface_fn_texts(v@),
{
    let mut parts: Vec<String> = Vec::new();
    let mut i: usize = 0;
    while i < v.len()
        invariant
            i <= v.len(),
            parts.len() == i,
            forall|j: int| 0 <= j < i ==> (#[trigger] parts@[j])@ == v@[j]@,
        decreases v.len() - i,
    {
        parts.push(v[i].0.clone());
        i += 1;
    }
    proof {
        assert(views(parts@) =~= iface_fn_texts(v@));
    }
    parts
}

/// An interface type: the canonical empty form where it has neither embedded
/// names nor methods, else one line for each embedded name and then one for
/// each method, between braces.
pub open spec fn interface_text(embeds: Seq<&str>, methods: Seq<IfaceFn>) -> Seq<char> {
    if embeds.len() == 0 && methods.len() == 0 {
        "interface{}"@
    } else {
        "interface {\n"@ + wrap_each(name_texts(embeds), ""@, "\n"@) + wrap_each(
            iface_fn_texts(methods),
            ""@,
            "\n"@,
        ) + "}"@
    }
}

/// A struct type: the canonical empty form where it has neither embedded names
/// nor fields, else one line for each embedded name and then one for each
/// field, between braces.
pub open spec fn struct_text(embeds: Seq<&str>, fields: Seq<(&str, Type)>) -> Seq<char> {
    if embeds.len() == 0 && fields.len() == 0 {
        "struct{}"@
    } else {
        "struct {\n"@ + wrap_each(name_texts(embeds), ""@, "\n"@) + wrap_each(
            param_texts(fields),
            ""@,
            "\n"@,
        ) + "}"@
    }
}

impl IfaceFn {
    /// A method signature: the name, the arguments joined with `, `, a space,
    /// and the result types.
    pub fn new(name: &str, args: Vec<(&str, Type)>, rets: Vec<Type>) -> (res: Self)
        ensures
            res@ == name@ + "("@ + join(param_texts(args@), ", "@) + ") "@
                + results_text(rets@),
    {
        let args_text = join_strings(&param_strings(&args), ", ");
        let rets_text = results_string(&rets);
        let mut s = String::from_str(name);
        s.append("(");
        s.append(args_text.as_str());
        s.append(") ");
        s.append(rets_text.as_str());
        IfaceFn(s)
    }

    /// The text of this signature.
    pub fn render(&self) -> (res: String)
        ensures
            res@ == self@,
    {
        self.0.clone()
    }
}

impl Type {
    /// A type written out by the caller.
    pub fn raw(raw: &str) -> (res: Self)
        ensures
            res@ == raw@,
    {
        Type(String::from_str(raw))
    }

    /// The type `any`.
    pub fn any() -> (res: Self)
        ensures
            res@ == "any"@,
            res@.len() > 0,
    {
        let s = String::from_str("any");
        proof {
            reveal_strlit("any");
        }
        Type(s)
    }

    /// The type `bool`.
    pub fn bool() -> (res: Self)
        ensures
            res@ == "bool"@,
            res@.len() > 0,
    {
        let s = String::from_str("bool");
        proof {
            reveal_strlit("bool");
        }
        Type(s)
    }

    /// The type `string`.
    pub fn string() -> (res: Self)
        ensures
            res@ == "string"@,
            res@.len() > 0,
    {
        let s = String::from_str("string");
        proof {
            reveal_strlit("string");
        }
        Type(s)
    }

    /// The signed integer type of the given width, such as `int32`.
    pub fn int_(bit: u8) -> (res: Self)
        ensures
            res@ == "int"@ + decimal(bit as nat),
            res@.len() > 0,
    {
        let mut s = String::from_str("int");
        push_decimal(&mut s, bit as u128);
        proof {
            reveal_strlit("int");
        }
        Type(s)
    }

    /// The unsigned integer type of the given width, such as `uint8`.
    pub fn uint(bit: u8) -> (res: Self)
        ensures
            res@ == "uint"@ + decimal(bit as nat),
            res@.len() > 0,
    {
        let mut s = String::from_str("uint");
        push_decimal(&mut s, bit as u128);
        proof {
            reveal_strlit("uint");
        }
        Type(s)
    }

    /// The map type from keys of this type to values of type `v`.
    pub fn map(self, v: Self) -> (res: Self)
        ensures
            res@ == "map["@ + self@ + "]"@ + v@,
            res@.len() > 0,
    {
        let mut s = String::from_str("map[");
        s.append(self.0.as_str());
        s.append("]");
        s.append(v.0.as_str());
        proof {
            reveal_strlit("map[");
        }
        Type(s)
    }

    /// The channel type carrying this type.
    pub fn chan(self) -> (res: Self)
        ensures
            res@ == "chan "@ + self@,
            res@.len() > 0,
    {
        let mut s = String::from_str("chan ");
        s.append(self.0.as_str());
        proof {
            reveal_strlit("chan ");
        }
        Type(s)
    }

    /// The pointer type to this type.
    pub fn ptr(self) -> (res: Self)
        ensures
            res@ == "*"@ + self@,
            res@.len() > 0,
    {
        let mut s = String::from_str("*");
        s.append(self.0.as_str());
        proof {
            reveal_strlit("*");
        }
        Type(s)
    }

    /// The type of a function that takes `args`, in order, and returns this type.
    pub fn fn_ptr(self, args: Vec<Type>) -> (res: Self)
        ensures
            res@ == "func("@ + join(type_texts(args@), ", "@) + ") "@ + self@,
            res@.len() > 0,
    {
        let args_text = join_strings(&type_strings(&args), ", ");
        let mut s = String::from_str("func(");
        s.append(args_text.as_str());
        s.append(") ");
        s.append(self.0.as_str());
        proof {
            reveal_strlit("func(");
        }
        Type(s)
    }

    /// The array type of `size` elements of this type.
    pub fn array(self, size: u32) -> (res: Self)
        ensures
            res@ == "["@ + decimal(size as nat) + "]"@ + self@,
            res@.len() > 0,
    {
        let mut s = String::from_str("[");
        push_decimal(&mut s, size as u128);
        s.append("]");
        s.append(self.0.as_str());
        proof {
            reveal_strlit("[");
        }
        Type(s)
    }

    /// The slice type of this type.
    pub fn slice(self) -> (res: Self)
        ensures
            res@ == "[]"@ + self@,
            res@.len() > 0,
    {
        let mut s = String::from_str("[]");
        s.append(self.0.as_str());
        proof {
            reveal_strlit("[]");
        }
        Type(s)
    }

    /// An interface type with the embedded names and the methods given, each
    /// on a line of its own, in order.
    pub fn interface(embeds: Vec<&str>, methods: Vec<IfaceFn>) -> (res: Self)
        ensures
            res@ == interface_text(embeds@, methods@),
            res@.len() > 0,
    {
        proof {
            reveal_strlit("interface{}");
            reveal_strlit("interface {\n");
        }
        if embeds.len() == 0 && methods.len() == 0 {
            Type(String::from_str("interface{}"))
        } else {
            let mut s = String::from_str("interface {\n");
            s.append(wrap_each_strings(&name_strings(&embeds), "", "\n").as_str());
            s.append(wrap_each_strings(&iface_fn_strings(&methods), "", "\n").as_str());
            s.append("}");
            Type(s)
        }
    }

    /// A struct type with the embedded names and the fields given, each on a
    /// line of its own, in order.
    pub fn struct_(embeds: Vec<&str>, fields: Vec<(&str, Type)>) -> (res: Self)
        ensures
            res@ == struct_text(embeds@, fields@),
            res@.len() > 0,
    {
        proof {
            reveal_strlit("struct{}");
            reveal_strlit("struct {\n");
        }
        if embeds.len() == 0 && fields.len() == 0 {
            Type(String::from_str("struct{}"))
        } else {
            let mut s = String::from_str("struct {\n");
            s.append(wrap_each_strings(&name_strings(&embeds), "", "\n").as_str());
            s.append(wrap_each_strings(&param_strings(&fields), "", "\n").as_str());
            s.append("}");
            Type(s)
        }
    }

    /// This type with a name in front of it, as in a parameter list.
    pub fn bind(self, name: &str) -> (res: Self)
        ensures
            res@ == name@ + " "@ + self@,
            res@.len() > 0,
    {
        let mut s = String::from_str(name);
        s.append(" ");
        s.append(self.0.as_str());
        proof {
            reveal_strlit(" ");
        }
        Type(s)
    }

    /// The text of this type.
    pub fn render(&self) -> (res: String)
        ensures
            res@ == self@,
    {
        self.0.clone()
    }
}

} // verus!
