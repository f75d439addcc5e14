//! Text building blocks: joining, grouping, numbering and identifier casing.

use inflector::cases::camelcase::to_camel_case;
use itertools::Itertools;
use vstd::prelude::*;

verus! {

/// The parts with `sep` between each two neighbours.
pub open spec fn joined(parts: Seq<Seq<char>>, sep: Seq<char>) -> Seq<char>
    decreases parts.len(),
{
    if parts.len() == 0 {
        Seq::empty()
    } else if parts.len() == 1 {
        parts[0]
    } else {
        joined(parts.drop_last(), sep) + sep + parts.last()
    }
}

/// The character sequences that a list of strings holds.
pub open spec fn views(v: Seq<String>) -> Seq<Seq<char>> {
    v.map_values(|s: String| s@)
}

/// Relies on itertools' `Itertools::join`: the first part, then `sep` and
/// the next part for each further part; empty for no parts.
#[verifier::external_body]
pub fn join_parts(parts: &Vec<String>, sep: &str) -> (r: String)
    ensures
        r@ == joined(views(parts@), sep@),
{
    parts.iter().join(sep)
}

/// What inflector's camel casing makes of a text.
pub uninterp spec fn camel_of(s: Seq<char>) -> Seq<char>;

/// Relies on inflector's `to_camel_case`, whose result depends on the text alone.
#[verifier::external_body]
pub fn camel_case(s: &str) -> (r: String)
    ensures
        r@ == camel_of(s@),
{
    to_camel_case(s)
}

/// A fragment as it stands inside a larger one: in parentheses when it holds
/// a space, which would otherwise split it into several arguments.
pub open spec fn grouped(s: Seq<char>) -> Seq<char> {
    if s.contains(' ') {
        "("@ + s + ")"@
    } else {
        s
    }
}

/// Wraps `s` in parentheses where it holds a space.
pub fn opt_parens(s: String) -> (r: String)
    ensures
        r@ == grouped(s@),
{
    let n = s.as_str().unicode_len();
    let mut i: usize = 0;
    let mut spaced = false;
    while i < n
        invariant
            n == s@.len(),
            i <= n,
            spaced == (exists|j: int| 0 <= j < i && s@[j] == ' '),
        decreases n - i,
    {
        if s.as_str().get_char(i) == ' ' {
            spaced = true;
        }
        i = i + 1;
    }
    if spaced {
        let mut r = String::from_str("(");
        r.append(s.as_str());
        r.append(")");
        r
    } else {
        s
    }
}

/// The decimal digit `d`.
pub open spec fn digit_text(d: nat) -> Seq<char> {
    if d == 0 {
        "0"@
    } else if d == 1 {
        "1"@
    } else if d == 2 {
        "2"@
    } else if d == 3 {
        "3"@
    } else if d == 4 {
        "4"@
    } else if d == 5 {
        "5"@
    } else if d == 6 {
        "6"@
    } else if d == 7 {
        "7"@
    } else if d == 8 {
        "8"@
    } else {
        "9"@
    }
}

/// `n` written in decimal, without leading zeros.
pub open spec fn decimal(n: nat) -> Seq<char>
    decreases n,
{
    if n < 10 {
        digit_text(n)
    } else {
        decimal(n / 10) + digit_text(n % 10)
    }
}

/// Writes `n` in decimal.
pub fn decimal_text(n: usize) -> (r: String)
    ensures
        r@ == decimal(n as nat),
    decreases n,
{
    let d: usize = n % 10;
    let last = if d == 0 {
        "0"
    } else if d == 1 {
        "1"
    } else if d == 2 {
        "2"
    } else if d == 3 {
        "3"
    } else if d == 4 {
        "4"
    } else if d == 5 {
        "5"
    } else if d == 6 {
        "6"
    } else if d == 7 {
        "7"
    } else if d == 8 {
        "8"
    } else {
        "9"
    };
    if n < 10 {
        String::from_str(last)
    } else {
        let mut r = decimal_text(n / 10);
        r.append(last);
        r
    }
}

/// The name of the `i`-th positional argument of a generated lambda.
pub open spec fn arg_name(i: nat) -> Seq<char> {
    "x"@ + decimal(i)
}

/// The names of the first `n` positional arguments.
pub open spec fn arg_names(n: nat) -> Seq<Seq<char>> {
    Seq::new(n, |i: int| arg_name(i as nat))
}

/// Writes the name of the `i`-th positional argument.
pub fn arg_name_text(i: usize) -> (r: String)
    ensures
        r@ == arg_name(i as nat),
{
    let mut r = String::from_str("x");
    let d = decimal_text(i);
    r.append(d.as_str());
    r
}

/// Writes the names of the first `n` positional arguments.
pub fn arg_name_list(n: usize) -> (r: Vec<String>)
    ensures
        views(r@) == arg_names(n as nat),
{
    let mut r: Vec<String> = Vec::new();
    let mut i: usize = 0;
    while i < n
        invariant
            i <= n,
            views(r@) =~= arg_names(i as nat),
        decreases n - i,
    {
        let a = arg_name_text(i);
        let ghost prev = r@;
        r.push(a);
        assert(views(r@) =~= views(prev).push(arg_name(i as nat)));
        assert(views(r@) =~= arg_names(i as nat + 1));
        i = i + 1;
    }
    r
}

} // verus!
