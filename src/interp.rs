//! Positional placeholders: `%N` in a text stands for the N-th supplied value.
use vstd::prelude::*;
use vstd::string::{StrSliceExecFns, StringExecFns};
use crate::text::{find_placeholders, placeholder_literals, placeholder_tokens, split_placeholders, views};

verus! {

pub open spec fn is_digit(c: char) -> bool {
    '0' <= c && c <= '9'
}

/// The number written by a run of ASCII decimal digits.
pub open spec fn digits_value(s: Seq<char>) -> int
    decreases s.len(),
{
    if s.len() == 0 {
        0
    } else {
        digits_value(s.drop_last()) * 10 + (s.last() as u32 - '0' as u32)
    }
}

/// The ordinal of a placeholder token: `%` followed by ASCII digits whose
/// value fits in a `u8`. Any other token (a digit of another script, a
/// value over 255) has none.
pub open spec fn placeholder_ordinal(tok: Seq<char>) -> Option<nat> {
    if tok.len() >= 2 && tok[0] == '%' && (forall|i: int| 1 <= i < tok.len() ==> is_digit(#[trigger] tok[i]))
        && digits_value(tok.skip(1)) <= 255 {
        Some(digits_value(tok.skip(1)) as nat)
    } else {
        None
    }
}

/// What a token is replaced with: the value it points at (counting from 1),
/// or nothing where it points at no value.
pub open spec fn token_text(tok: Seq<char>, vals: Seq<Seq<char>>) -> Seq<char> {
    match placeholder_ordinal(tok) {
        Some(n) => if 1 <= n <= vals.len() {
            vals[n - 1]
        } else {
            Seq::empty()
        },
        None => Seq::empty(),
    }
}

/// The literal pieces in order, with the replacement of the token between
/// each piece and the next. A token past the last gap is not used.
pub open spec fn interleave(lits: Seq<Seq<char>>, toks: Seq<Seq<char>>, vals: Seq<Seq<char>>) -> Seq<char>
    decreases lits.len(),
{
    if lits.len() == 0 {
        Seq::empty()
    } else {
        interleave(lits.drop_last(), toks, vals) + (if lits.len() >= 2 && lits.len() - 2 < toks.len() {
            token_text(toks[lits.len() - 2], vals)
        } else {
            Seq::empty()
        }) + lits.last()
    }
}

/// A text with every placeholder token replaced.
pub open spec fn interpolation(text: Seq<char>, vals: Seq<Seq<char>>) -> Seq<char> {
    interleave(placeholder_literals(text), placeholder_tokens(text), vals)
}

/// Reads the ordinal of a placeholder token.
pub fn parse_ordinal(tok: &str) -> (r: Option<u8>)
    ensures
        match r {
            Some(n) => placeholder_ordinal(tok@) == Some(n as nat),
            None => placeholder_ordinal(tok@) is None,
        },
{
    let n = tok.unicode_len();
    if n < 2 || tok.get_char(0) != '%' {
        return None;
    }
    let ghost d = tok@.skip(1);
    let mut v: u32 = 0;
    let mut over = false;
    let mut i: usize = 1;
    while i < n
        invariant
            n == tok@.len(),
            1 <= i <= n,
            d == tok@.skip(1),
            forall|j: int| 1 <= j < i ==> is_digit(#[trigger] tok@[j]),
            !over ==> v <= 255 && v as int == digits_value(d.take(i - 1)),
            over ==> digits_value(d.take(i - 1)) > 255,
        decreases n - i,
    {
        let c = tok.get_char(i);
        if c < '0' || c > '9' {
            return None;
        }
        assert(d.take(i as int).drop_last() =~= d.take(i - 1));
        assert(d.take(i as int).last() == c);
        if !over {
            v = v * 10 + (c as u32 - '0' as u32);
            if v > 255 {
                over = true;
            }
        }
        i = i + 1;
    }
    assert(d.take(n - 1) =~= d);
    if over {
        None
    } else {
        Some(v as u8)
    }
}

/// What a placeholder token is replaced with, given the supplied values.
pub fn placeholder_value(tok: &str, vals: &Vec<String>) -> (r: String)
    ensures
        r@ == token_text(tok@, views(vals@)),
        placeholder_ordinal(tok@) == Some(0nat) ==> r@.len() == 0,
        placeholder_ordinal(tok@) matches Some(n) && n > vals@.len() ==> r@.len() == 0,
{
    match parse_ordinal(tok) {
        Some(n) => if n >= 1 && (n as usize) <= vals.len() {
            vals[n as usize - 1].clone()
        } else {
            String::new()
        },
        None => String::new(),
    }
}

/// Joins the literal pieces of a text with the replacements of the tokens
/// that stood between them.
pub fn interpolate_parts(lits: &Vec<String>, toks: &Vec<String>, vals: &Vec<String>) -> (r: String)
    ensures
        r@ == interleave(views(lits@), views(toks@), views(vals@)),
{
    let mut out = String::new();
    let mut i: usize = 0;
    while i < lits.len()
        invariant
            i <= lits@.len(),
            out@ == interleave(views(lits@).take(i as int), views(toks@), views(vals@)),
        decreases lits@.len() - i,
    {
        assert(views(lits@).take(i + 1).drop_last() =~= views(lits@).take(i as int));
        if i >= 1 && i - 1 < toks.len() {
            let t = placeholder_value(toks[i - 1].as_str(), vals);
            out.append(t.as_str());
        }
        out.append(lits[i].as_str());
        i = i + 1;
    }
    assert(views(lits@).take(lits@.len() as int) =~= views(lits@));
    out
}

/// Replaces every `%N` in `text` with the N-th of `vals` (counting from 1),
/// or with nothing where there is no such value.
pub fn interpolate(text: &str, vals: &Vec<String>) -> (r: String)
    ensures
        r@ == interpolation(text@, views(vals@)),
{
    let lits = split_placeholders(text);
    let toks = find_placeholders(text);
    interpolate_parts(&lits, &toks, vals)
}

} // verus!
