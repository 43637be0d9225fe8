//! Turns program text into a flat token stream. Newlines are deleted
//! outright (adjacent text joins across them), parentheses become tokens
//! of their own, and runs of blank characters separate tokens.

use crate::numtext::string_from_chars;
use vstd::prelude::*;
use vstd::string::StrSliceExecFns;

verus! {

/// The characters that separate tokens: space, tab, carriage return,
/// vertical tab and form feed — the blank characters of ASCII. Newlines
/// never reach the splitter; they are removed first.
pub open spec fn spec_is_space(c: char) -> bool {
    c == ' ' || c == '\t' || c == '\r' || c == '\u{b}' || c == '\u{c}'
}

/// One step per character: the token being built and the tokens finished
/// so far, carried across the rest of the text.
pub open spec fn spec_tokenize_rec(
    s: Seq<char>,
    i: int,
    cur: Seq<char>,
    acc: Seq<Seq<char>>,
) -> Seq<Seq<char>>
    decreases s.len() - i,
{
    if i < 0 || i >= s.len() {
        if cur.len() > 0 {
            acc.push(cur)
        } else {
            acc
        }
    } else {
        let c = s[i];
        if c == '\n' {
            spec_tokenize_rec(s, i + 1, cur, acc)
        } else if c == '(' || c == ')' {
            let flushed = if cur.len() > 0 {
                acc.push(cur)
            } else {
                acc
            };
            spec_tokenize_rec(s, i + 1, Seq::empty(), flushed.push(seq![c]))
        } else if spec_is_space(c) {
            let flushed = if cur.len() > 0 {
                acc.push(cur)
            } else {
                acc
            };
            spec_tokenize_rec(s, i + 1, Seq::empty(), flushed)
        } else {
            spec_tokenize_rec(s, i + 1, cur.push(c), acc)
        }
    }
}

/// The token stream of a text.
pub open spec fn spec_tokenize(s: Seq<char>) -> Seq<Seq<char>> {
    spec_tokenize_rec(s, 0, Seq::empty(), Seq::empty())
}

/// Splits program text into tokens: parentheses stand alone, blanks
/// separate, and newlines are deleted before splitting, exactly as the
/// text replacements the surface syntax is defined by would do it.
pub fn tokenize(expr: String) -> (r: Vec<String>)
    ensures
        r.deep_view() == spec_tokenize(expr@),
{
    let s = expr.as_str();
    let n = s.unicode_len();
    let mut toks: Vec<String> = Vec::new();
    let mut cur: Vec<char> = Vec::new();
    let mut i: usize = 0;
    proof {
        assert(cur@ =~= Seq::<char>::empty());
        assert(toks.deep_view() =~= Seq::<Seq<char>>::empty());
    }
    while i < n
        invariant
            i <= n,
            n == s@.len(),
            s@ == expr@,
            spec_tokenize(expr@) == spec_tokenize_rec(s@, i as int, cur@, toks.deep_view()),
        decreases n - i,
    {
        let ghost prev_toks = toks.deep_view();
        let ghost prev_cur = cur@;
        let c = s.get_char(i);
        if c == '\n' {
            // deleted: text joins across line breaks
        } else if c == '(' || c == ')' {
            if cur.len() > 0 {
                toks.push(string_from_chars(&cur));
                cur = Vec::new();
            }
            let mut paren: Vec<char> = Vec::new();
            paren.push(c);
            toks.push(string_from_chars(&paren));
            proof {
                assert(toks.deep_view() =~= (if prev_cur.len() > 0 {
                    prev_toks.push(prev_cur)
                } else {
                    prev_toks
                }).push(seq![c]));
                assert(cur@ =~= Seq::<char>::empty());
            }
        } else if c == ' ' || c == '\t' || c == '\r' || c == '\u{b}' || c == '\u{c}' {
            if cur.len() > 0 {
                toks.push(string_from_chars(&cur));
                cur = Vec::new();
            }
            proof {
                assert(toks.deep_view() =~= (if prev_cur.len() > 0 {
                    prev_toks.push(prev_cur)
                } else {
                    prev_toks
                }));
                assert(cur@ =~= Seq::<char>::empty());
            }
        } else {
            cur.push(c);
        }
        i = i + 1;
    }
    if cur.len() > 0 {
        toks.push(string_from_chars(&cur));
    }
    toks
}

} // verus!
