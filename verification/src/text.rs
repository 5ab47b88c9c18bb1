//! Text assembly shared by both grammars: joining with a separator, decimal
//! numerals and quote escaping.

use vstd::prelude::*;
use vstd::string::*;
use vstd::std_specs::iter::IteratorSpec;

verus! {

/// The texts in `parts`, in order, with `sep` between each two neighbours.
pub open spec fn join(parts: Seq<Seq<char>>, sep: Seq<char>) -> Seq<char>
    decreases parts.len(),
{
    if parts.len() == 0 {
        Seq::empty()
    } else if parts.len() == 1 {
        parts[0]
    } else {
        join(parts.drop_last(), sep) + sep + parts.last()
    }
}

/// Each text of `parts`, in order, with `before` in front of it and `after`
/// behind it, and nothing between one wrapped text and the next.
pub open spec fn wrap_each(parts: Seq<Seq<char>>, before: Seq<char>, after: Seq<char>) -> Seq<
    char,
>
    decreases parts.len(),
{
    if parts.len() == 0 {
        Seq::empty()
    } else {
        wrap_each(parts.drop_last(), before, after) + before + parts.last() + after
    }
}

/// `s` with `prefix` in front of it, or nothing where `s` is empty.
pub open spec fn prefixed_unless_empty(prefix: Seq<char>, s: Seq<char>) -> Seq<char> {
    if s.len() == 0 {
        s
    } else {
        prefix + s
    }
}

/// A binary composition: both operands with the operator between them, and
/// parentheses around the whole.
pub open spec fn binop_text(lhs: Seq<char>, op: Seq<char>, rhs: Seq<char>) -> Seq<char> {
    "("@ + lhs + " "@ + op + " "@ + rhs + ")"@
}

/// The views of the strings in `v`, in order.
pub open spec fn views(v: Seq<String>) -> Seq<Seq<char>> {
    Seq::new(v.len(), |i: int| v[i]@)
}

/// Joins `parts` with `sep` between neighbours.
pub fn join_strings(parts: &Vec<String>, sep: &str) -> (res: String)
    ensures
        res@ == join(views(parts@), sep@),
{
    let mut out = String::new();
    let mut i: usize = 0;
    while i < parts.len()
        invariant
            i <= parts.len(),
            out@ == join(views(parts@).take(i as int), sep@),
        decreases parts.len() - i,
    {
        proof {
            let next = views(parts@).take(i + 1);
            assert(next.drop_last() =~= views(parts@).take(i as int));
            assert(next.last() == parts@[i as int]@);
            if i == 0 {
                assert(Seq::<char>::empty() + parts@[0]@ =~= parts@[0]@);
            }
        }
        if i > 0 {
            out.append(sep);
        }
        out.append(parts[i].as_str());
        i += 1;
    }
    proof {
        assert(views(parts@).take(parts.len() as int) =~= views(parts@));
    }
    out
}

/// Wraps each of `parts` in `before` and `after` and puts the results in a row.
pub fn wrap_each_strings(parts: &Vec<String>, before: &str, after: &str) -> (res: String)
    ensures
        res@ == wrap_each(views(parts@), before@, after@),
{
    let mut out = String::new();
    let mut i: usize = 0;
    while i < parts.len()
        invariant
            i <= parts.len(),
            out@ == wrap_each(views(parts@).take(i as int), before@, after@),
        decreases parts.len() - i,
    {
        proof {
            let next = views(parts@).take(i + 1);
            assert(next.drop_last() =~= views(parts@).take(i as int));
            assert(next.last() == parts@[i as int]@);
        }
        out.append(before);
        out.append(parts[i].as_str());
        out.append(after);
        i += 1;
    }
    proof {
        assert(views(parts@).take(parts.len() as int) =~= views(parts@));
    }
    out
}

/// Puts `prefix` in front of `s` unless `s` is empty.
pub fn prefix_unless_empty(prefix: &str, s: String) -> (res: String)
    ensures
        res@ == prefixed_unless_empty(prefix@, s@),
{
    if s.as_str().is_empty() {
        s
    } else {
        let mut out = String::from_str(prefix);
        out.append(s.as_str());
        out
    }
}

/// The views of the string slices in `v`, in order.
pub open spec fn name_texts(v: Seq<&str>) -> Seq<Seq<char>> {
    Seq::new(v.len(), |i: int| v[i]@)
}

/// An owned copy of each slice in `v`, in order.
pub fn name_strings(v: &Vec<&str>) -> (res: Vec<String>)
    ensures
        views(res@) == name_texts(v@),
{
    let mut parts: Vec<String> = Vec::new();
    let mut i: usize = 0;
    while i < v.len()
        invariant
            i <= v.len(),
            parts.len() == i,
            forall|j: int| 0 <= j < i ==> (#[trigger] parts@[j])@ == v@[j]@,
        decreases v.len() - i,
    {
        parts.push(String::from_str(v[i]));
        i += 1;
    }
    proof {
        assert(views(parts@) =~= name_texts(v@));
    }
    parts
}

/// What one character of a string literal becomes: a double quote gets a
/// backslash in front of it, every other character stays as it is.
pub open spec fn escaped_char(c: char) -> Seq<char> {
    if c == '"' {
        seq!['\\', '"']
    } else {
        seq![c]
    }
}

/// `s` with each double quote escaped by a backslash and nothing else changed.
pub open spec fn escape_quotes(s: Seq<char>) -> Seq<char>
    decreases s.len(),
{
    if s.len() == 0 {
        Seq::empty()
    } else {
        escape_quotes(s.drop_last()) + escaped_char(s.last())
    }
}

/// `std::string::String::push`: the character is added at the end, and the
/// characters before it stay.
pub assume_specification[ String::push ](s: &mut String, c: char)
    ensures
        final(s)@ == old(s)@.push(c),
;

/// Escapes the double quotes of `s`.
pub fn escape_quotes_string(s: &str) -> (res: String)
    ensures
        res@ == escape_quotes(s@),
{
    broadcast use vstd::string::group_string_axioms;

    let mut out = String::new();
    let mut it = s.chars();
    let ghost mut done: Seq<char> = Seq::empty();
    assert(done + it.remaining() =~= s@);
    loop
        invariant
            done + it.remaining() == s@,
            out@ == escape_quotes(done),
            it.obeys_prophetic_iter_laws(),
            it.decrease() is Some,
        decreases it.decrease()->0,
    {
        let ghost before = it.remaining();
        match it.next() {
            None => {
                proof {
                    assert(done =~= s@);
                }
                return out;
            },
            Some(c) => {
                proof {
                    assert(done.push(c).drop_last() =~= done);
                    assert(done.push(c) + it.remaining() =~= done + before);
                    done = done.push(c);
                }
                if c == '"' {
                    out.push('\\');
                    out.push('"');
                    proof {
                        assert(out@ =~= escape_quotes(done.drop_last()) + escaped_char(c));
                    }
                } else {
                    out.push(c);
                    proof {
                        assert(out@ =~= escape_quotes(done.drop_last()) + escaped_char(c));
                    }
                }
            },
        }
    }
}

/// The decimal digit for `d`, where `d` is below ten.
pub open spec fn digit_char(d: nat) -> char {
    seq!['0', '1', '2', '3', '4', '5', '6', '7', '8', '9'][d as int]
}

/// The decimal numeral of `n`, without leading zeros.
pub open spec fn decimal(n: nat) -> Seq<char>
    decreases n,
{
    if n < 10 {
        seq![digit_char(n)]
    } else {
        decimal(n / 10).push(digit_char(n % 10))
    }
}

/// The decimal numeral of `i`, with a minus sign in front where `i` is negative.
pub open spec fn signed_decimal(i: int) -> Seq<char> {
    if i < 0 {
        seq!['-'] + decimal((-i) as nat)
    } else {
        decimal(i as nat)
    }
}

fn digit(d: u8) -> (c: char)
    requires
        d < 10,
    ensures
        c == digit_char(d as nat),
{
    if d == 0 {
        '0'
    } else if d == 1 {
        '1'
    } else if d == 2 {
        '2'
    } else if d == 3 {
        '3'
    } else if d == 4 {
        '4'
    } else if d == 5 {
        '5'
    } else if d == 6 {
        '6'
    } else if d == 7 {
        '7'
    } else if d == 8 {
        '8'
    } else {
        '9'
    }
}

/// Appends the decimal numeral of `n` to `out`.
pub fn push_decimal(out: &mut String, n: u128)
    ensures
        final(out)@ == old(out)@ + decimal(n as nat),
    decreases n,
{
    if n >= 10 {
        push_decimal(out, n / 10);
    }
    let d: u8 = (n % 10) as u8;
    out.push(digit(d));
    proof {
        assert(final(out)@ =~= old(out)@ + decimal(n as nat));
    }
}

/// The decimal numeral of `n`.
pub fn decimal_string(n: u128) -> (res: String)
    ensures
        res@ == decimal(n as nat),
{
    let mut out = String::new();
    push_decimal(&mut out, n);
    proof {
        assert(Seq::<char>::empty() + decimal(n as nat) =~= decimal(n as nat));
    }
    out
}

/// The decimal numeral of `i`, signed.
pub fn signed_decimal_string(i: i128) -> (res: String)
    ensures
        res@ == signed_decimal(i as int),
{
    if i < 0 {
        let m: u128 = ((-(i + 1)) as u128) + 1;
        let mut out = String::new();
        out.push('-');
        push_decimal(&mut out, m);
        proof {
            assert(Seq::<char>::empty().push('-') =~= seq!['-']);
        }
        out
    } else {
        decimal_string(i as u128)
    }
}

/// A binary composition is grouped whatever the operator: it opens with a
/// parenthesis and closes with one, and between them stand the left operand,
/// a space, the operator, a space and the right operand, each unchanged.
pub proof fn lemma_binop_is_grouped(lhs: Seq<char>, op: Seq<char>, rhs: Seq<char>)
    ensures
        ({
            let t = binop_text(lhs, op, rhs);
            let a = lhs.len() as int;
            let b = op.len() as int;
            let c = rhs.len() as int;
            &&& t.len() == a + b + c + 4
            &&& t[0] == '('
            &&& t.subrange(1, 1 + a) == lhs
            &&& t[1 + a] == ' '
            &&& t.subrange(2 + a, 2 + a + b) == op
            &&& t[2 + a + b] == ' '
            &&& t.subrange(3 + a + b, 3 + a + b + c) == rhs
            &&& t[3 + a + b + c] == ')'
        }),
{
    reveal_strlit("(");
    reveal_strlit(" ");
    reveal_strlit(")");
    let t = binop_text(lhs, op, rhs);
    let a = lhs.len() as int;
    let b = op.len() as int;
    let c = rhs.len() as int;
    assert(t.subrange(1, 1 + a) =~= lhs);
    assert(t.subrange(2 + a, 2 + a + b) =~= op);
    assert(t.subrange(3 + a + b, 3 + a + b + c) =~= rhs);
}

/// Joining one more part adds the separator and that part behind the others,
/// or the part alone where there were none: parts come out in the order in
/// which they went in, each unchanged.
pub proof fn lemma_join_push(parts: Seq<Seq<char>>, part: Seq<char>, sep: Seq<char>)
    ensures
        join(parts.push(part), sep) == if parts.len() == 0 {
            part
        } else {
            join(parts, sep) + sep + part
        },
{
    assert(parts.push(part).drop_last() =~= parts);
}

/// Wrapping one more part adds that part, wrapped, behind the others: parts
/// come out in the order in which they went in.
pub proof fn lemma_wrap_each_push(
    parts: Seq<Seq<char>>,
    part: Seq<char>,
    before: Seq<char>,
    after: Seq<char>,
)
    ensures
        wrap_each(parts.push(part), before, after) == wrap_each(parts, before, after) + before
            + part + after,
{
    assert(parts.push(part).drop_last() =~= parts);
}

/// Wrapping a list that is made of two lists gives the wrapped first list and
/// then the wrapped second one.
pub proof fn lemma_wrap_each_concat(
    a: Seq<Seq<char>>,
    b: Seq<Seq<char>>,
    before: Seq<char>,
    after: Seq<char>,
)
    ensures
        wrap_each(a + b, before, after) == wrap_each(a, before, after) + wrap_each(
            b,
            before,
            after,
        ),
    decreases b.len(),
{
    if b.len() == 0 {
        assert(a + b =~= a);
        assert(wrap_each(a + b, before, after) =~= wrap_each(a, before, after) + wrap_each(
            b,
            before,
            after,
        ));
    } else {
        assert((a + b).drop_last() =~= a + b.drop_last());
        lemma_wrap_each_concat(a, b.drop_last(), before, after);
        assert(wrap_each(a + b, before, after) =~= wrap_each(a, before, after) + wrap_each(
            b,
            before,
            after,
        ));
    }
}

/// Where a part stands in the wrapped text: behind the parts before it, with
/// exactly `before` in front of it and `after` behind it, and then the parts
/// after it.
pub proof fn lemma_wrap_each_split(
    parts: Seq<Seq<char>>,
    before: Seq<char>,
    after: Seq<char>,
    i: int,
)
    requires
        0 <= i < parts.len(),
    ensures
        wrap_each(parts, before, after) == wrap_each(parts.take(i), before, after) + before
            + parts[i] + after + wrap_each(parts.skip(i + 1), before, after),
{
    assert(parts =~= parts.take(i).push(parts[i]) + parts.skip(i + 1));
    lemma_wrap_each_concat(parts.take(i).push(parts[i]), parts.skip(i + 1), before, after);
    lemma_wrap_each_push(parts.take(i), parts[i], before, after);
}

/// Escaping works character by character: the escaped form of two texts in a
/// row is the escaped first text and then the escaped second one.
pub proof fn lemma_escape_quotes_concat(a: Seq<char>, b: Seq<char>)
    ensures
        escape_quotes(a + b) == escape_quotes(a) + escape_quotes(b),
    decreases b.len(),
{
    if b.len() == 0 {
        assert(a + b =~= a);
        assert(escape_quotes(a + b) =~= escape_quotes(a) + escape_quotes(b));
    } else {
        assert((a + b).drop_last() =~= a + b.drop_last());
        lemma_escape_quotes_concat(a, b.drop_last());
        assert(escape_quotes(a + b) =~= escape_quotes(a) + escape_quotes(b));
    }
}

/// A text without a double quote is its own escaped form: no other character
/// is changed, a backslash or a line break included.
pub proof fn lemma_escape_quotes_plain(s: Seq<char>)
    requires
        forall|i: int| 0 <= i < s.len() ==> s[i] != '"',
    ensures
        escape_quotes(s) == s,
    decreases s.len(),
{
    if s.len() > 0 {
        lemma_escape_quotes_plain(s.drop_last());
        assert(escape_quotes(s) =~= s);
    }
}

/// The number of double quotes in `s`.
pub open spec fn quote_count(s: Seq<char>) -> nat
    decreases s.len(),
{
    if s.len() == 0 {
        0
    } else if s.last() == '"' {
        quote_count(s.drop_last()) + 1
    } else {
        quote_count(s.drop_last())
    }
}

/// Escaping adds one character for each double quote and none besides.
pub proof fn lemma_escape_quotes_len(s: Seq<char>)
    ensures
        escape_quotes(s).len() == s.len() + quote_count(s),
    decreases s.len(),
{
    if s.len() > 0 {
        lemma_escape_quotes_len(s.drop_last());
    }
}

} // verus!
