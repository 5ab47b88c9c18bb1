//! Type nodes of the indentation-delimited grammar.

use vstd::prelude::*;
use vstd::string::*;
use crate::text::{join, join_strings, views};

verus! {

/// A type annotation; the field is its text, which is empty only for the
/// omitted type.
#[derive(Clone)]
pub struct Type(pub String);

impl View for Type {
    type V = Seq<char>;

    open spec fn view(&self) -> Seq<char> {
        self.0@
    }
}

/// The texts of the types in `v`, in order.
pub open spec fn type_texts(v: Seq<Type>) -> Seq<Seq<char>> {
    Seq::new(v.len(), |i: int| v[i]@)
}

/// The text of each type in `v`, in order.
fn type_strings(v: &Vec<Type>) -> (res: Vec<String>)
    ensures
        views(res@) == type_texts(v@),
{
    let mut parts: Vec<String> = Vec::new();
    let mut i: usize = 0;
    while i < v.len()
        invariant
            i <= v.len(),
            parts.len() == i,
            forall|j: int| 0 <= j < i ==> (#[trigger] parts@[j])@ == v@[j]@,
        decreases v.len() - i,
    {
        parts.push(v[i].0.clone());
        i += 1;
    }
    proof {
        assert(views(parts@) =~= type_texts(v@));
    }
    parts
}

impl Type {
    /// A type written out by the caller.
    pub fn raw(raw: &str) -> (res: Self)
        ensures
            res@ == raw@,
    {
        Type(String::from_str(raw))
    }

    /// A generic type `raw` applied to `generics`, in the order given.
    pub fn generic_raw(raw: &str, generics: Vec<Type>) -> (res: Self)
        ensures
            res@ == raw@ + "["@ + join(type_texts(generics@), ", "@) + "]"@,
            res@.len() > 0,
    {
        let generics_text = join_strings(&type_strings(&generics), ", ");
        let mut s = String::from_str(raw);
        s.append("[");
        s.append(generics_text.as_str());
        s.append("]");
        proof {
            reveal_strlit("[");
        }
        Type(s)
    }

    /// The omitted type: no text at all.
    pub fn unknow() -> (res: Self)
        ensures
            res@ == Seq::<char>::empty(),
    {
        Type(String::new())
    }

    /// The type `int`.
    pub fn int_() -> (res: Self)
        ensures
            res@ == "int"@,
            res@.len() > 0,
    {
        let s = String::from_str("int");
        proof {
            reveal_strlit("int");
        }
        Type(s)
    }

    /// The type `bool`.
    pub fn bool() -> (res: Self)
        ensures
            res@ == "bool"@,
            res@.len() > 0,
    {
        let s = String::from_str("bool");
        proof {
            reveal_strlit("bool");
        }
        Type(s)
    }

    /// The type `float`.
    pub fn float() -> (res: Self)
        ensures
            res@ == "float"@,
            res@.len() > 0,
    {
        let s = String::from_str("float");
        proof {
            reveal_strlit("float");
        }
        Type(s)
    }

    /// The type `str`.
    pub fn str() -> (res: Self)
        ensures
            res@ == "str"@,
            res@.len() > 0,
    {
        let s = String::from_str("str");
        proof {
            reveal_strlit("str");
        }
        Type(s)
    }

    /// The type `bytes`.
    pub fn bytes() -> (res: Self)
        ensures
            res@ == "bytes"@,
            res@.len() > 0,
    {
        let s = String::from_str("bytes");
        proof {
            reveal_strlit("bytes");
        }
        Type(s)
    }

    /// The type `complex`.
    pub fn complex() -> (res: Self)
        ensures
            res@ == "complex"@,
            res@.len() > 0,
    {
        let s = String::from_str("complex");
        proof {
            reveal_strlit("complex");
        }
        Type(s)
    }

    /// The tuple type of `elts`, in the order given.
    pub fn tuple(elts: Vec<Type>) -> (res: Self)
        ensures
            res@ == "tuple["@ + join(type_texts(elts@), ", "@) + "]"@,
            res@.len() > 0,
    {
        let elts_text = join_strings(&type_strings(&elts), ", ");
        let mut s = String::from_str("tuple[");
        s.append(elts_text.as_str());
        s.append("]");
        proof {
            reveal_strlit("tuple[");
        }
        Type(s)
    }

    /// The type of tuples of any length whose elements have this type.
    pub fn var_tuple(self) -> (res: Self)
        ensures
            res@ == "tuple["@ + self@ + ", ...]"@,
            res@.len() > 0,
    {
        let mut s = String::from_str("tuple[");
        s.append(self.0.as_str());
        s.append(", ...]");
        proof {
            reveal_strlit("tuple[");
        }
        Type(s)
    }

    /// The list type of this type.
    pub fn list(self) -> (res: Self)
        ensures
            res@ == "list["@ + self@ + "]"@,
            res@.len() > 0,
    {
        let mut s = String::from_str("list[");
        s.append(self.0.as_str());
        s.append("]");
        proof {
            reveal_strlit("list[");
        }
        Type(s)
    }

    /// The set type of this type.
    pub fn set(self) -> (res: Self)
        ensures
            res@ == "set["@ + self@ + "]"@,
            res@.len() > 0,
    {
        let mut s = String::from_str("set[");
        s.append(self.0.as_str());
        s.append("]");
        proof {
            reveal_strlit("set[");
        }
        Type(s)
    }

    /// The dict type from keys of this type to values of type `v`.
    pub fn dict(self, v: Self) -> (res: Self)
        ensures
            res@ == "dict["@ + self@ + ", "@ + v@ + "]"@,
            res@.len() > 0,
    {
        let mut s = String::from_str("dict[");
        s.append(self.0.as_str());
        s.append(", ");
        s.append(v.0.as_str());
        s.append("]");
        proof {
            reveal_strlit("dict[");
        }
        Type(s)
    }

    /// This type as the annotation of `name`.
    pub fn bind(self, name: &str) -> (res: Self)
        ensures
            res@ == name@ + ": "@ + self@,
            res@.len() > 0,
    {
        let mut s = String::from_str(name);
        s.append(": ");
        s.append(self.0.as_str());
        proof {
            reveal_strlit(": ");
        }
        Type(s)
    }

    /// The text of this type.
    pub fn render(&self) -> (res: String)
        ensures
            res@ == self@,
    {
        self.0.clone()
    }
}

} // verus!
