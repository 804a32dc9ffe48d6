//! The schema parser: turns schema text into an unvalidated syntax tree.
//!
//! The grammar, written informally:
//!
//! ```text
//! Schema   := Attribute* Visibility? Representation? 'enum' Identifier
//!             '{' Variant (',' Variant)* ','? '}'
//! Variant  := Attribute* Identifier Shape? ('=' Literal)?
//! Shape    := '(' Type ')'
//!           | '{' Identifier ':' Type (',' Identifier ':' Type)* '}'
//! ```
//!
//! An attribute is `#[` followed by free text up to the next `]`; a
//! visibility qualifier is `pub`, optionally followed by a parenthesized
//! identifier; a representation tag is `repr` followed by a parenthesized
//! identifier; a type is an identifier; a literal is an optional minus sign
//! followed by at most eighteen decimal digits.
//!
//! Every parsing function is deterministic and is specified exactly: the
//! executable parser returns `Ok` on precisely the inputs where its
//! specification-level mirror yields a result, and returns that result.

use vstd::prelude::*;
use crate::ast::{
    Attr, Field, FieldView, Lit, LitView, SchemaView, Shape, ShapeView, ValEnum, ValEnumVariant,
    VariantView,
};

verus! {

/// The token class that a syntax error expected at the offending position.
#[derive(Debug, Clone, Copy, PartialEq, Eq)]
pub enum Expected {
    /// An identifier.
    Ident,
    /// An integer literal of at most eighteen digits.
    Literal,
    /// One particular punctuation character.
    Token(char),
    /// The keyword `enum`.
    KwEnum,
    /// The end of the schema text.
    End,
}

/// A failure of the schema text to match the grammar: the position of the
/// offending character and the token class that was expected there.
#[derive(Debug, Clone, Copy, PartialEq, Eq)]
pub struct SyntaxError {
    pub pos: usize,
    pub expected: Expected,
}

/// A whitespace character of the schema syntax.
pub open spec fn is_ws_char(c: char) -> bool {
    c == ' ' || c == '\n' || c == '\t' || c == '\r'
}

/// A character that may open an identifier.
pub open spec fn is_ident_start_char(c: char) -> bool {
    ('a' as u32) <= (c as u32) && (c as u32) <= ('z' as u32) || ('A' as u32) <= (c as u32) && (c
        as u32) <= ('Z' as u32) || c == '_'
}

/// A decimal digit.
pub open spec fn is_digit_char(c: char) -> bool {
    ('0' as u32) <= (c as u32) && (c as u32) <= ('9' as u32)
}

/// A character that may continue an identifier.
pub open spec fn is_ident_char(c: char) -> bool {
    is_ident_start_char(c) || is_digit_char(c)
}

/// The first position at or after `i` holding a character that is not
/// whitespace, or the end of the text.
pub open spec fn spec_skip_ws(s: Seq<char>, i: int) -> int
    decreases s.len() - i,
{
    if 0 <= i < s.len() && is_ws_char(s[i]) {
        spec_skip_ws(s, i + 1)
    } else {
        i
    }
}

pub proof fn lemma_skip_ws_bounds(s: Seq<char>, i: int)
    requires
        0 <= i <= s.len(),
    ensures
        i <= spec_skip_ws(s, i) <= s.len(),
    decreases s.len() - i,
{
    if i < s.len() && is_ws_char(s[i]) {
        lemma_skip_ws_bounds(s, i + 1);
    }
}

/// The first position at or after `i` holding a character that cannot
/// continue an identifier, or the end of the text.
pub open spec fn spec_ident_end(s: Seq<char>, i: int) -> int
    decreases s.len() - i,
{
    if 0 <= i < s.len() && is_ident_char(s[i]) {
        spec_ident_end(s, i + 1)
    } else {
        i
    }
}

/// The first position at or after `i` holding a character that is not a
/// digit, or the end of the text.
pub open spec fn spec_digits_end(s: Seq<char>, i: int) -> int
    decreases s.len() - i,
{
    if 0 <= i < s.len() && is_digit_char(s[i]) {
        spec_digits_end(s, i + 1)
    } else {
        i
    }
}

/// The position of the first `]` at or after `i`, or the end of the text.
pub open spec fn spec_scan_rbracket(s: Seq<char>, i: int) -> int
    decreases s.len() - i,
{
    if 0 <= i < s.len() {
        if s[i] == ']' {
            i
        } else {
            spec_scan_rbracket(s, i + 1)
        }
    } else {
        s.len() as int
    }
}

fn ws_char(c: char) -> (r: bool)
    ensures
        r == is_ws_char(c),
{
    c == ' ' || c == '\n' || c == '\t' || c == '\r'
}

fn ident_start_char(c: char) -> (r: bool)
    ensures
        r == is_ident_start_char(c),
{
    let u = c as u32;
    (97 <= u && u <= 122) || (65 <= u && u <= 90) || c == '_'
}

fn digit_char(c: char) -> (r: bool)
    ensures
        r == is_digit_char(c),
{
    let u = c as u32;
    48 <= u && u <= 57
}

fn ident_char(c: char) -> (r: bool)
    ensures
        r == is_ident_char(c),
{
    ident_start_char(c) || digit_char(c)
}

/// Advances past whitespace.
pub fn skip_ws(s: &str, i: usize) -> (j: usize)
    requires
        i <= s@.len(),
    ensures
        j as int == spec_skip_ws(s@, i as int),
        i <= j <= s@.len(),
    decreases s@.len() - i,
{
    if i < s.unicode_len() && ws_char(s.get_char(i)) {
        skip_ws(s, i + 1)
    } else {
        i
    }
}

fn ident_end(s: &str, i: usize) -> (j: usize)
    requires
        i <= s@.len(),
    ensures
        j as int == spec_ident_end(s@, i as int),
        i <= j <= s@.len(),
    decreases s@.len() - i,
{
    if i < s.unicode_len() && ident_char(s.get_char(i)) {
        ident_end(s, i + 1)
    } else {
        i
    }
}

fn digits_end(s: &str, i: usize) -> (j: usize)
    requires
        i <= s@.len(),
    ensures
        j as int == spec_digits_end(s@, i as int),
        i <= j <= s@.len(),
    decreases s@.len() - i,
{
    if i < s.unicode_len() && digit_char(s.get_char(i)) {
        digits_end(s, i + 1)
    } else {
        i
    }
}

fn scan_rbracket(s: &str, i: usize) -> (j: usize)
    requires
        i <= s@.len(),
    ensures
        j as int == spec_scan_rbracket(s@, i as int),
        i <= j <= s@.len(),
        j < s@.len() ==> s@[j as int] == ']',
    decreases s@.len() - i,
{
    if i < s.unicode_len() {
        if s.get_char(i) == ']' {
            i
        } else {
            scan_rbracket(s, i + 1)
        }
    } else {
        i
    }
}

/// Character-for-character equality of two text slices.
pub fn str_eq(a: &str, b: &str) -> (r: bool)
    ensures
        r == (a@ == b@),
{
    let n = a.unicode_len();
    if n != b.unicode_len() {
        return false;
    }
    let mut k: usize = 0;
    while k < n
        invariant
            k <= n,
            n == a@.len(),
            n == b@.len(),
            forall|m: int| 0 <= m < k ==> a@[m] == b@[m],
        decreases n - k,
    {
        if s_ne(a.get_char(k), b.get_char(k)) {
            return false;
        }
        k += 1;
    }
    proof {
        assert(a@ =~= b@);
    }
    true
}

fn s_ne(x: char, y: char) -> (r: bool)
    ensures
        r == (x != y),
{
    x != y
}

/// The identifier starting at `i`, with the position just after it.
pub open spec fn spec_parse_ident(s: Seq<char>, i: int) -> Option<(Seq<char>, int)> {
    if 0 <= i < s.len() && is_ident_start_char(s[i]) {
        let j = spec_ident_end(s, i + 1);
        Some((s.subrange(i, j), j))
    } else {
        None
    }
}

/// Reads one identifier.
pub fn parse_ident(s: &str, i: usize) -> (r: Result<(String, usize), SyntaxError>)
    requires
        i <= s@.len(),
    ensures
        match r {
            Ok((name, j)) => {
                &&& spec_parse_ident(s@, i as int) == Some((name@, j as int))
                &&& i < j <= s@.len()
            },
            Err(e) => {
                &&& spec_parse_ident(s@, i as int) is None
                &&& e.pos <= s@.len()
            },
        },
{
    if i < s.unicode_len() && ident_start_char(s.get_char(i)) {
        let j = ident_end(s, i + 1);
        let name = s.substring_char(i, j).to_owned();
        Ok((name, j))
    } else {
        Err(SyntaxError { pos: i, expected: Expected::Ident })
    }
}

/// Ten to the `n`.
pub open spec fn pow10(n: nat) -> int
    decreases n,
{
    if n == 0 {
        1
    } else {
        10 * pow10((n - 1) as nat)
    }
}

/// The value of a sequence of decimal digits, most significant first.
pub open spec fn spec_digits_val(t: Seq<char>) -> int
    decreases t.len(),
{
    if t.len() == 0 {
        0
    } else {
        spec_digits_val(t.drop_last()) * 10 + ((t.last() as u32) - 48)
    }
}

/// The value of a literal's text: a minus sign negates the digits after it.
pub open spec fn spec_lit_val(t: Seq<char>) -> int {
    if t.len() > 0 && t[0] == '-' {
        -spec_digits_val(t.subrange(1, t.len() as int))
    } else {
        spec_digits_val(t)
    }
}

/// The literal starting at `i`: an optional minus sign, then one to eighteen
/// decimal digits. Its view holds the verbatim text and the numeric value.
pub open spec fn spec_parse_lit(s: Seq<char>, i: int) -> Option<(LitView, int)> {
    let d0 = if 0 <= i < s.len() && s[i] == '-' {
        i + 1
    } else {
        i
    };
    let d1 = spec_digits_end(s, d0);
    if 1 <= d1 - d0 <= 18 {
        let text = s.subrange(i, d1);
        Some((LitView { text, value: spec_lit_val(text) as i64 }, d1))
    } else {
        None
    }
}

/// Reads one integer literal.
pub fn parse_lit(s: &str, i: usize) -> (r: Result<(Lit, usize), SyntaxError>)
    requires
        i <= s@.len(),
    ensures
        match r {
            Ok((lit, j)) => {
                &&& spec_parse_lit(s@, i as int) == Some((lit@, j as int))
                &&& i < j <= s@.len()
            },
            Err(e) => {
                &&& spec_parse_lit(s@, i as int) is None
                &&& e.pos <= s@.len()
            },
        },
{
    let neg = i < s.unicode_len() && s.get_char(i) == '-';
    let d0 = if neg {
        i + 1
    } else {
        i
    };
    let d1 = digits_end(s, d0);
    if d1 - d0 < 1 || d1 - d0 > 18 {
        return Err(SyntaxError { pos: d0, expected: Expected::Literal });
    }
    let ghost digits = s@.subrange(d0 as int, d1 as int);
    let mut acc: i64 = 0;
    let mut k = d0;
    while k < d1
        invariant
            d0 <= k <= d1,
            d1 <= s@.len(),
            d1 - d0 <= 18,
            d1 as int == spec_digits_end(s@, d0 as int),
            acc == spec_digits_val(s@.subrange(d0 as int, k as int)),
            0 <= acc < pow10((k - d0) as nat),
        decreases d1 - k,
    {
        proof {
            lemma_digits_range(s@, d0 as int, d1 as int, k as int);
            lemma_pow10_cap();
            lemma_pow10_mono((k - d0) as nat, 17);
        }
        let c = s.get_char(k);
        let d: i64 = ((c as u32) - 48) as i64;
        proof {
            assert(s@.subrange(d0 as int, k + 1).drop_last() =~= s@.subrange(
                d0 as int,
                k as int,
            ));
            assert(s@.subrange(d0 as int, k + 1).last() == s@[k as int]);
        }
        acc = acc * 10 + d;
        k += 1;
    }
    let value = if neg {
        -acc
    } else {
        acc
    };
    let text = s.substring_char(i, d1).to_owned();
    proof {
        assert(s@.subrange(d0 as int, d1 as int) =~= digits);
        let t = s@.subrange(i as int, d1 as int);
        if neg {
            assert(t[0] == '-');
            assert(t.subrange(1, t.len() as int) =~= digits);
        } else {
            assert(t =~= digits);
        }
        lemma_pow10_cap();
        lemma_pow10_mono((d1 - d0) as nat, 18);
    }
    Ok((Lit { text, value }, d1))
}

proof fn lemma_pow10_mono(a: nat, b: nat)
    requires
        a <= b,
    ensures
        0 < pow10(a) <= pow10(b),
    decreases b,
{
    lemma_pow10_pos(a);
    if b > 0 && a < b {
        lemma_pow10_mono(a, (b - 1) as nat);
    }
}

proof fn lemma_pow10_pos(n: nat)
    ensures
        pow10(n) > 0,
    decreases n,
{
    if n > 0 {
        lemma_pow10_pos((n - 1) as nat);
    }
}

proof fn lemma_pow10_cap()
    ensures
        pow10(17) == 100000000000000000,
        pow10(18) == 1000000000000000000,
{
    reveal_with_fuel(pow10, 20);
}

/// The annotations starting at `i`: each is `#[`, free text without `]`,
/// then `]`. The position returned has the whitespace after the last
/// annotation already skipped.
pub open spec fn spec_parse_attrs(s: Seq<char>, i: int) -> Option<(Seq<Seq<char>>, int)>
    decreases s.len() - i,
{
    let j = spec_skip_ws(s, i);
    if i <= j && j < s.len() && s[j] == '#' {
        if j + 1 < s.len() && s[j + 1] == '[' {
            let k = spec_scan_rbracket(s, j + 2);
            if j + 2 <= k && k < s.len() {
                match spec_parse_attrs(s, k + 1) {
                    Some((rest, e)) => Some((seq![s.subrange(j + 2, k)] + rest, e)),
                    None => None,
                }
            } else {
                None
            }
        } else {
            None
        }
    } else {
        Some((Seq::empty(), j))
    }
}

/// Reads the leading annotations.
pub fn parse_attrs(s: &str, i: usize) -> (r: Result<(Vec<Attr>, usize), SyntaxError>)
    requires
        i <= s@.len(),
    ensures
        match r {
            Ok((attrs, j)) => {
                &&& spec_parse_attrs(s@, i as int) == Some((attrs.deep_view(), j as int))
                &&& i <= j <= s@.len()
            },
            Err(e) => {
                &&& spec_parse_attrs(s@, i as int) is None
                &&& e.pos <= s@.len()
            },
        },
{
    let mut acc: Vec<Attr> = Vec::new();
    let mut cur = i;
    loop
        invariant
            i <= cur <= s@.len(),
            spec_parse_attrs(s@, i as int) == match spec_parse_attrs(s@, cur as int) {
                Some((rest, e)) => Some((acc.deep_view() + rest, e)),
                None => None::<(Seq<Seq<char>>, int)>,
            },
        decreases s@.len() - cur,
    {
        let j = skip_ws(s, cur);
        if j < s.unicode_len() && s.get_char(j) == '#' {
            if !(j + 1 < s.unicode_len() && s.get_char(j + 1) == '[') {
                return Err(SyntaxError { pos: j + 1, expected: Expected::Token('[') });
            }
            let k = scan_rbracket(s, j + 2);
            if k == s.unicode_len() {
                return Err(SyntaxError { pos: k, expected: Expected::Token(']') });
            }
            let text = s.substring_char(j + 2, k).to_owned();
            let ghost old_acc = acc.deep_view();
            acc.push(Attr { text });
            proof {
                assert(acc.deep_view() =~= old_acc + seq![s@.subrange(j + 2, k as int)]);
                assert(forall|rest: Seq<Seq<char>>|
                    (old_acc + (seq![s@.subrange(j + 2, k as int)] + rest)) =~= (acc.deep_view()
                        + rest));
            }
            cur = k + 1;
        } else {
            proof {
                assert(acc.deep_view() + Seq::<Seq<char>>::empty() =~= acc.deep_view());
            }
            return Ok((acc, j));
        }
    }
}

/// One named field at `i`: an identifier, a colon, and a type identifier.
pub open spec fn spec_parse_field(s: Seq<char>, i: int) -> Option<(FieldView, int)> {
    let j = spec_skip_ws(s, i);
    match spec_parse_ident(s, j) {
        None => None,
        Some((name, p)) => {
            let q = spec_skip_ws(s, p);
            if q < s.len() && s[q] == ':' {
                let q2 = spec_skip_ws(s, q + 1);
                match spec_parse_ident(s, q2) {
                    None => None,
                    Some((ty, p2)) => Some((FieldView { name, ty }, p2)),
                }
            } else {
                None
            }
        },
    }
}

/// Reads one named field.
pub fn parse_field(s: &str, i: usize) -> (r: Result<(Field, usize), SyntaxError>)
    requires
        i <= s@.len(),
    ensures
        match r {
            Ok((f, j)) => {
                &&& spec_parse_field(s@, i as int) == Some((f@, j as int))
                &&& i < j <= s@.len()
            },
            Err(e) => {
                &&& spec_parse_field(s@, i as int) is None
                &&& e.pos <= s@.len()
            },
        },
{
    let j = skip_ws(s, i);
    let (name, p) = match parse_ident(s, j) {
        Ok(v) => v,
        Err(e) => {
            return Err(e);
        },
    };
    let q = skip_ws(s, p);
    if !(q < s.unicode_len() && s.get_char(q) == ':') {
        return Err(SyntaxError { pos: q, expected: Expected::Token(':') });
    }
    let q2 = skip_ws(s, q + 1);
    let (ty, p2) = match parse_ident(s, q2) {
        Ok(v) => v,
        Err(e) => {
            return Err(e);
        },
    };
    Ok((Field { name, ty }, p2))
}

/// The named fields after a `{`, each an identifier and a type, separated by
/// commas, a trailing comma allowed, closed by `}`. At least one field.
pub open spec fn spec_parse_fields(s: Seq<char>, i: int) -> Option<(Seq<FieldView>, int)>
    decreases s.len() - i,
{
    match spec_parse_field(s, i) {
        None => None,
        Some((f, p)) => {
            let q = spec_skip_ws(s, p);
            if q < s.len() && s[q] == ',' {
                let t = spec_skip_ws(s, q + 1);
                if t < s.len() && s[t] == '}' {
                    Some((seq![f], t + 1))
                } else if i < t && t <= s.len() {
                    match spec_parse_fields(s, t) {
                        Some((rest, e)) => Some((seq![f] + rest, e)),
                        None => None,
                    }
                } else {
                    None
                }
            } else if q < s.len() && s[q] == '}' {
                Some((seq![f], q + 1))
            } else {
                None
            }
        },
    }
}

/// Reads the named fields of a struct shape, including the closing brace.
/// Returns the first field apart, so a struct shape always carries one.
pub fn parse_fields(s: &str, i: usize) -> (r: Result<(Field, Vec<Field>, usize), SyntaxError>)
    requires
        i <= s@.len(),
    ensures
        match r {
            Ok((f0, fs, j)) => {
                &&& spec_parse_fields(s@, i as int) == Some(
                    (seq![f0@] + fs.deep_view(), j as int),
                )
                &&& i < j <= s@.len()
            },
            Err(e) => {
                &&& spec_parse_fields(s@, i as int) is None
                &&& e.pos <= s@.len()
            },
        },
{
    let (first, p0) = match parse_field(s, i) {
        Ok(v) => v,
        Err(e) => {
            return Err(e);
        },
    };
    let mut rest: Vec<Field> = Vec::new();
    let mut p = p0;
    proof {
        lemma_skip_ws_bounds(s@, p0 as int);
        let q = spec_skip_ws(s@, p0 as int);
        if q < s@.len() {
            lemma_skip_ws_bounds(s@, q + 1);
        }
    }
    loop
        invariant
            i < p <= s@.len(),
            spec_parse_field(s@, i as int) is Some,
            ({
                let done = spec_parse_fields(s@, i as int);
                let all = seq![first@] + rest.deep_view();
                let q = spec_skip_ws(s@, p as int);
                // what remains to be read decides the whole result
                if q < s@.len() && s@[q] == ',' {
                    let t = spec_skip_ws(s@, q + 1);
                    if t < s@.len() && s@[t] == '}' {
                        done == Some((all, t + 1))
                    } else {
                        done == match spec_parse_fields(s@, t) {
                            Some((more, e)) => Some((all + more, e)),
                            None => None::<(Seq<FieldView>, int)>,
                        }
                    }
                } else if q < s@.len() && s@[q] == '}' {
                    done == Some((all, q + 1))
                } else {
                    done is None
                }
            }),
        decreases s@.len() - p,
    {
        let q = skip_ws(s, p);
        if q < s.unicode_len() && s.get_char(q) == ',' {
            let t = skip_ws(s, q + 1);
            if t < s.unicode_len() && s.get_char(t) == '}' {
                return Ok((first, rest, t + 1));
            }
            let (f, p2) = match parse_field(s, t) {
                Ok(v) => v,
                Err(e) => {
                    return Err(e);
                },
            };
            let ghost old_all = seq![first@] + rest.deep_view();
            rest.push(f);
            proof {
                assert(seq![first@] + rest.deep_view() =~= old_all + seq![f@]);
                assert(forall|more: Seq<FieldView>|
                    (old_all + (seq![f@] + more)) =~= ((old_all + seq![f@]) + more));
                lemma_skip_ws_bounds(s@, p2 as int);
                let q2 = spec_skip_ws(s@, p2 as int);
                if q2 < s@.len() {
                    lemma_skip_ws_bounds(s@, q2 + 1);
                }
            }
            p = p2;
        } else if q < s.unicode_len() && s.get_char(q) == '}' {
            return Ok((first, rest, q + 1));
        } else {
            return Err(SyntaxError { pos: q, expected: Expected::Token('}') });
        }
    }
}

/// The shape at `i`: a parenthesized type, a braced field list, or nothing,
/// which leaves the variant unit-shaped at position `i` itself.
pub open spec fn spec_parse_shape(s: Seq<char>, i: int) -> Option<(ShapeView, int)> {
    if 0 <= i < s.len() && s[i] == '(' {
        let j = spec_skip_ws(s, i + 1);
        match spec_parse_ident(s, j) {
            None => None,
            Some((ty, k)) => {
                let m = spec_skip_ws(s, k);
                if m < s.len() && s[m] == ')' {
                    Some((ShapeView::Tuple { ty }, m + 1))
                } else {
                    None
                }
            },
        }
    } else if 0 <= i < s.len() && s[i] == '{' {
        match spec_parse_fields(s, i + 1) {
            None => None,
            Some((fields, p)) => Some((ShapeView::Struct { fields }, p)),
        }
    } else {
        Some((ShapeView::Unit, i))
    }
}

/// Reads one variant's shape.
pub fn parse_shape(s: &str, i: usize) -> (r: Result<(Shape, usize), SyntaxError>)
    requires
        i <= s@.len(),
    ensures
        match r {
            Ok((sh, j)) => {
                &&& spec_parse_shape(s@, i as int) == Some((sh@, j as int))
                &&& i <= j <= s@.len()
            },
            Err(e) => {
                &&& spec_parse_shape(s@, i as int) is None
                &&& e.pos <= s@.len()
            },
        },
{
    if i < s.unicode_len() && s.get_char(i) == '(' {
        let j = skip_ws(s, i + 1);
        let (ty, k) = match parse_ident(s, j) {
            Ok(v) => v,
            Err(e) => {
                return Err(e);
            },
        };
        let m = skip_ws(s, k);
        if m < s.unicode_len() && s.get_char(m) == ')' {
            Ok((Shape::Tuple { ty }, m + 1))
        } else {
            Err(SyntaxError { pos: m, expected: Expected::Token(')') })
        }
    } else if i < s.unicode_len() && s.get_char(i) == '{' {
        let (first, rest, p) = match parse_fields(s, i + 1) {
            Ok(v) => v,
            Err(e) => {
                return Err(e);
            },
        };
        Ok((Shape::Struct { first, rest }, p))
    } else {
        Ok((Shape::Unit, i))
    }
}

/// The variant starting at `i`: annotations, a name, a shape, and an
/// optional `=` literal.
pub open spec fn spec_parse_variant(s: Seq<char>, i: int) -> Option<(VariantView, int)> {
    match spec_parse_attrs(s, i) {
        None => None,
        Some((attrs, p0)) => match spec_parse_ident(s, p0) {
            None => None,
            Some((name, p1)) => {
                let p2 = spec_skip_ws(s, p1);
                match spec_parse_shape(s, p2) {
                    None => None,
                    Some((shape, p3)) => {
                        let p4 = spec_skip_ws(s, p3);
                        if p4 < s.len() && s[p4] == '=' {
                            let p5 = spec_skip_ws(s, p4 + 1);
                            match spec_parse_lit(s, p5) {
                                None => None,
                                Some((lit, p6)) => Some(
                                    (VariantView { attrs, name, shape, value: Some(lit) }, p6),
                                ),
                            }
                        } else {
                            Some((VariantView { attrs, name, shape, value: None }, p3))
                        }
                    },
                }
            },
        },
    }
}

impl ValEnumVariant {
    /// Reads one variant of the schema, starting at position `i`.
    pub fn parse(s: &str, i: usize) -> (r: Result<(ValEnumVariant, usize), SyntaxError>)
        requires
            i <= s@.len(),
        ensures
            match r {
                Ok((v, j)) => {
                    &&& spec_parse_variant(s@, i as int) == Some((v@, j as int))
                    &&& i <= j <= s@.len()
                },
                Err(e) => {
                    &&& spec_parse_variant(s@, i as int) is None
                    &&& e.pos <= s@.len()
                },
            },
    {
        let (attributes, p0) = match parse_attrs(s, i) {
            Ok(v) => v,
            Err(e) => {
                return Err(e);
            },
        };
        let (name, p1) = match parse_ident(s, p0) {
            Ok(v) => v,
            Err(e) => {
                return Err(e);
            },
        };
        let p2 = skip_ws(s, p1);
        let (fields, p3) = match parse_shape(s, p2) {
            Ok(v) => v,
            Err(e) => {
                return Err(e);
            },
        };
        let p4 = skip_ws(s, p3);
        if p4 < s.unicode_len() && s.get_char(p4) == '=' {
            let p5 = skip_ws(s, p4 + 1);
            let (lit, p6) = match parse_lit(s, p5) {
                Ok(v) => v,
                Err(e) => {
                    return Err(e);
                },
            };
            Ok((ValEnumVariant { attributes, name, fields, value: Some(lit) }, p6))
        } else {
            Ok((ValEnumVariant { attributes, name, fields, value: None }, p3))
        }
    }
}

/// The variant list after the schema's `{`: variants separated by commas, a
/// trailing comma allowed, closed by `}`. The list may be empty; whether it
/// must hold a catch-all variant is the validator's question, not the
/// grammar's.
pub open spec fn spec_parse_variants(s: Seq<char>, i: int) -> Option<(Seq<VariantView>, int)>
    decreases s.len() - i,
{
    let j = spec_skip_ws(s, i);
    if j < s.len() && s[j] == '}' {
        Some((Seq::empty(), j + 1))
    } else {
        match spec_parse_variant(s, i) {
            None => None,
            Some((v, p)) => {
                let q = spec_skip_ws(s, p);
                if q < s.len() && s[q] == ',' {
                    if i < q + 1 && q + 1 <= s.len() {
                        match spec_parse_variants(s, q + 1) {
                            Some((rest, e)) => Some((seq![v] + rest, e)),
                            None => None,
                        }
                    } else {
                        None
                    }
                } else if q < s.len() && s[q] == '}' {
                    Some((seq![v], q + 1))
                } else {
                    None
                }
            },
        }
    }
}

/// Reads the variant list, including the closing brace.
pub fn parse_variants(s: &str, i: usize) -> (r: Result<(Vec<ValEnumVariant>, usize), SyntaxError>)
    requires
        i <= s@.len(),
    ensures
        match r {
            Ok((vs, j)) => {
                &&& spec_parse_variants(s@, i as int) == Some((vs.deep_view(), j as int))
                &&& i < j <= s@.len()
            },
            Err(e) => {
                &&& spec_parse_variants(s@, i as int) is None
                &&& e.pos <= s@.len()
            },
        },
{
    let mut acc: Vec<ValEnumVariant> = Vec::new();
    let mut cur = i;
    loop
        invariant
            i <= cur <= s@.len(),
            spec_parse_variants(s@, i as int) == match spec_parse_variants(s@, cur as int) {
                Some((rest, e)) => Some((acc.deep_view() + rest, e)),
                None => None::<(Seq<VariantView>, int)>,
            },
        decreases s@.len() - cur,
    {
        let j = skip_ws(s, cur);
        if j < s.unicode_len() && s.get_char(j) == '}' {
            proof {
                assert(acc.deep_view() + Seq::<VariantView>::empty() =~= acc.deep_view());
            }
            return Ok((acc, j + 1));
        }
        let (v, p) = match ValEnumVariant::parse(s, cur) {
            Ok(v) => v,
            Err(e) => {
                return Err(e);
            },
        };
        let q = skip_ws(s, p);
        let ghost old_acc = acc.deep_view();
        if q < s.unicode_len() && s.get_char(q) == ',' {
            acc.push(v);
            proof {
                assert(acc.deep_view() =~= old_acc + seq![v@]);
                assert(forall|rest: Seq<VariantView>|
                    (old_acc + (seq![v@] + rest)) =~= (acc.deep_view() + rest));
            }
            cur = q + 1;
        } else if q < s.unicode_len() && s.get_char(q) == '}' {
            acc.push(v);
            proof {
                assert(acc.deep_view() =~= old_acc + seq![v@]);
            }
            return Ok((acc, q + 1));
        } else {
            return Err(SyntaxError { pos: q, expected: Expected::Token('}') });
        }
    }
}

/// The optional visibility qualifier at `i`, after whitespace: `pub`, with
/// an optional parenthesized identifier. Its text is kept verbatim.
pub open spec fn spec_parse_vis(s: Seq<char>, i: int) -> Option<(Option<Seq<char>>, int)> {
    let j = spec_skip_ws(s, i);
    match spec_parse_ident(s, j) {
        None => Some((None, j)),
        Some((w, p)) => if w == "pub"@ {
            let q = spec_skip_ws(s, p);
            if q < s.len() && s[q] == '(' {
                let q2 = spec_skip_ws(s, q + 1);
                match spec_parse_ident(s, q2) {
                    None => None,
                    Some((inner, q3)) => {
                        let q4 = spec_skip_ws(s, q3);
                        if q4 < s.len() && s[q4] == ')' {
                            Some((Some(s.subrange(j, q4 + 1)), q4 + 1))
                        } else {
                            None
                        }
                    },
                }
            } else {
                Some((Some(s.subrange(j, p)), p))
            }
        } else {
            Some((None, j))
        },
    }
}

/// Reads the optional visibility qualifier.
pub fn parse_vis(s: &str, i: usize) -> (r: Result<(Option<String>, usize), SyntaxError>)
    requires
        i <= s@.len(),
    ensures
        match r {
            Ok((vis, j)) => {
                &&& spec_parse_vis(s@, i as int) == Some(
                    (
                        match vis {
                            Some(v) => Some(v@),
                            None => None::<Seq<char>>,
                        },
                        j as int,
                    ),
                )
                &&& i <= j <= s@.len()
            },
            Err(e) => {
                &&& spec_parse_vis(s@, i as int) is None
                &&& e.pos <= s@.len()
            },
        },
{
    let j = skip_ws(s, i);
    let (w, p) = match parse_ident(s, j) {
        Ok(v) => v,
        Err(_) => {
            return Ok((None, j));
        },
    };
    if !str_eq(w.as_str(), "pub") {
        return Ok((None, j));
    }
    let q = skip_ws(s, p);
    if q < s.unicode_len() && s.get_char(q) == '(' {
        let q2 = skip_ws(s, q + 1);
        let (_inner, q3) = match parse_ident(s, q2) {
            Ok(v) => v,
            Err(e) => {
                return Err(e);
            },
        };
        let q4 = skip_ws(s, q3);
        if q4 < s.unicode_len() && s.get_char(q4) == ')' {
            let text = s.substring_char(j, q4 + 1).to_owned();
            Ok((Some(text), q4 + 1))
        } else {
            Err(SyntaxError { pos: q4, expected: Expected::Token(')') })
        }
    } else {
        Ok((Some(w), p))
    }
}

/// The optional representation tag at `i`, after whitespace: `repr` with a
/// parenthesized identifier, which is kept.
pub open spec fn spec_parse_layout(s: Seq<char>, i: int) -> Option<(Option<Seq<char>>, int)> {
    let j = spec_skip_ws(s, i);
    match spec_parse_ident(s, j) {
        None => Some((None, j)),
        Some((w, p)) => if w == "repr"@ {
            let q = spec_skip_ws(s, p);
            if q < s.len() && s[q] == '(' {
                let q2 = spec_skip_ws(s, q + 1);
                match spec_parse_ident(s, q2) {
                    None => None,
                    Some((inner, q3)) => {
                        let q4 = spec_skip_ws(s, q3);
                        if q4 < s.len() && s[q4] == ')' {
                            Some((Some(inner), q4 + 1))
                        } else {
                            None
                        }
                    },
                }
            } else {
                None
            }
        } else {
            Some((None, j))
        },
    }
}

/// Reads the optional representation tag.
pub fn parse_layout(s: &str, i: usize) -> (r: Result<(Option<String>, usize), SyntaxError>)
    requires
        i <= s@.len(),
    ensures
        match r {
            Ok((layout, j)) => {
                &&& spec_parse_layout(s@, i as int) == Some(
                    (
                        match layout {
                            Some(v) => Some(v@),
                            None => None::<Seq<char>>,
                        },
                        j as int,
                    ),
                )
                &&& i <= j <= s@.len()
            },
            Err(e) => {
                &&& spec_parse_layout(s@, i as int) is None
                &&& e.pos <= s@.len()
            },
        },
{
    let j = skip_ws(s, i);
    let (w, p) = match parse_ident(s, j) {
        Ok(v) => v,
        Err(_) => {
            return Ok((None, j));
        },
    };
    if !str_eq(w.as_str(), "repr") {
        return Ok((None, j));
    }
    let q = skip_ws(s, p);
    if !(q < s.unicode_len() && s.get_char(q) == '(') {
        return Err(SyntaxError { pos: q, expected: Expected::Token('(') });
    }
    let q2 = skip_ws(s, q + 1);
    let (inner, q3) = match parse_ident(s, q2) {
        Ok(v) => v,
        Err(e) => {
            return Err(e);
        },
    };
    let q4 = skip_ws(s, q3);
    if q4 < s.unicode_len() && s.get_char(q4) == ')' {
        Ok((Some(inner), q4 + 1))
    } else {
        Err(SyntaxError { pos: q4, expected: Expected::Token(')') })
    }
}

/// The whole schema starting at `i`: annotations, an optional visibility
/// qualifier, an optional representation tag, the keyword `enum`, the
/// enumeration's name, and the braced variant list.
pub open spec fn spec_parse_schema(s: Seq<char>, i: int) -> Option<(SchemaView, int)> {
    match spec_parse_attrs(s, i) {
        None => None,
        Some((attrs, p0)) => match spec_parse_vis(s, p0) {
            None => None,
            Some((vis, p1)) => match spec_parse_layout(s, p1) {
                None => None,
                Some((layout, p2)) => match spec_parse_ident(s, spec_skip_ws(s, p2)) {
                    None => None,
                    Some((kw, p3)) => if kw == "enum"@ {
                        match spec_parse_ident(s, spec_skip_ws(s, p3)) {
                            None => None,
                            Some((name, p4)) => {
                                let p5 = spec_skip_ws(s, p4);
                                if p5 < s.len() && s[p5] == '{' {
                                    match spec_parse_variants(s, p5 + 1) {
                                        None => None,
                                        Some((variants, p6)) => Some(
                                            (
                                                SchemaView {
                                                    attrs,
                                                    visibility: vis,
                                                    layout,
                                                    name,
                                                    variants,
                                                },
                                                p6,
                                            ),
                                        ),
                                    }
                                } else {
                                    None
                                }
                            },
                        }
                    } else {
                        None
                    },
                },
            },
        },
    }
}

/// The schema as the one content of the text: a parse from the start whose
/// end is followed by nothing but whitespace.
pub open spec fn spec_parse_full(s: Seq<char>) -> Option<SchemaView> {
    match spec_parse_schema(s, 0) {
        None => None,
        Some((sv, p)) => if spec_skip_ws(s, p) == s.len() {
            Some(sv)
        } else {
            None
        },
    }
}

/// Reads one schema starting at position `i`.
pub fn parse_schema(s: &str, i: usize) -> (r: Result<(ValEnum, usize), SyntaxError>)
    requires
        i <= s@.len(),
    ensures
        match r {
            Ok((sch, j)) => {
                &&& spec_parse_schema(s@, i as int) == Some((sch@, j as int))
                &&& i <= j <= s@.len()
            },
            Err(e) => {
                &&& spec_parse_schema(s@, i as int) is None
                &&& e.pos <= s@.len()
            },
        },
{
    let (attributes, p0) = match parse_attrs(s, i) {
        Ok(v) => v,
        Err(e) => {
            return Err(e);
        },
    };
    let (visibility, p1) = match parse_vis(s, p0) {
        Ok(v) => v,
        Err(e) => {
            return Err(e);
        },
    };
    let (layout, p2) = match parse_layout(s, p1) {
        Ok(v) => v,
        Err(e) => {
            return Err(e);
        },
    };
    let k0 = skip_ws(s, p2);
    let (kw, p3) = match parse_ident(s, k0) {
        Ok(v) => v,
        Err(_) => {
            return Err(SyntaxError { pos: k0, expected: Expected::KwEnum });
        },
    };
    if !str_eq(kw.as_str(), "enum") {
        return Err(SyntaxError { pos: k0, expected: Expected::KwEnum });
    }
    let k1 = skip_ws(s, p3);
    let (name, p4) = match parse_ident(s, k1) {
        Ok(v) => v,
        Err(e) => {
            return Err(e);
        },
    };
    let p5 = skip_ws(s, p4);
    if !(p5 < s.unicode_len() && s.get_char(p5) == '{') {
        return Err(SyntaxError { pos: p5, expected: Expected::Token('{') });
    }
    let (variants, p6) = match parse_variants(s, p5 + 1) {
        Ok(v) => v,
        Err(e) => {
            return Err(e);
        },
    };
    Ok((ValEnum { attributes, visibility, layout, name, variants }, p6))
}

impl ValEnum {
    /// Reads the schema that the whole text holds. Fails where the text does
    /// not match the grammar, or where anything but whitespace follows the
    /// schema.
    pub fn parse(s: &str) -> (r: Result<ValEnum, SyntaxError>)
        ensures
            match r {
                Ok(sch) => spec_parse_full(s@) == Some(sch@),
                Err(e) => {
                    &&& spec_parse_full(s@) is None
                    &&& e.pos <= s@.len()
                },
            },
    {
        let (sch, p) = match parse_schema(s, 0) {
            Ok(v) => v,
            Err(e) => {
                return Err(e);
            },
        };
        let j = skip_ws(s, p);
        if j != s.unicode_len() {
            return Err(SyntaxError { pos: j, expected: Expected::End });
        }
        Ok(sch)
    }
}

proof fn lemma_digits_range(s: Seq<char>, d0: int, d1: int, k: int)
    requires
        0 <= d0 <= k < d1 <= s.len(),
        d1 == spec_digits_end(s, d0),
    ensures
        is_digit_char(s[k]),
    decreases k - d0,
{
    if k > d0 {
        lemma_digits_range(s, d0 + 1, d1, k);
    }
}

} // verus!
