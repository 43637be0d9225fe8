//! The recursive-descent parser: builds an expression tree from the token
//! stream. `(` begins and `)` ends a vector node; a lone `"` token begins
//! a string literal; a token that reads as a base-10 signed integer is a
//! number and anything else is a symbol. Running out of tokens inside a
//! form is a parse error, never a panic.

use crate::err::{ErrV, LispError, ParseFault};
use crate::exp::{exp_view, exps_view, Exp, ExpV};
use crate::numtext::{parse_i64, spec_parse_i64};
use vstd::prelude::*;
use vstd::string::StringExecFns;

verus! {

/// The expression a single token denotes: a number if the whole token
/// parses as one, else a symbol.
pub open spec fn spec_atom(t: Seq<char>) -> ExpV {
    match spec_parse_i64(t) {
        Some(n) => ExpV::Num(n),
        None => ExpV::Symbol(t),
    }
}

/// The string-literal tokens from `j` up to the closing quote mark, and
/// the position after it; an unterminated literal swallows the rest.
pub open spec fn spec_str_tokens(toks: Seq<Seq<char>>, j: int) -> (Seq<Seq<char>>, int)
    decreases toks.len() - j,
{
    if j < 0 || j >= toks.len() {
        (Seq::empty(), j)
    } else if toks[j] == "\""@ {
        (Seq::empty(), j + 1)
    } else {
        let (rest, j2) = spec_str_tokens(toks, j + 1);
        (seq![toks[j]] + rest, j2)
    }
}

/// The collected pieces of a string literal, joined by single spaces.
pub open spec fn spec_join(parts: Seq<Seq<char>>) -> Seq<char>
    decreases parts.len(),
{
    if parts.len() == 0 {
        Seq::empty()
    } else if parts.len() == 1 {
        parts[0]
    } else {
        parts[0] + " "@ + spec_join(parts.drop_first())
    }
}

/// What parsing one form at position `i` yields, with the position after
/// it. A guard keeps the definition total: a recursive step that failed
/// to consume tokens would stop with a parse error, though parsing always
/// consumes at least one token.
pub open spec fn spec_parse(toks: Seq<Seq<char>>, i: int) -> (Result<ExpV, ErrV>, int)
    decreases toks.len() - i, 0int,
{
    if i < 0 || i >= toks.len() {
        (Err(ErrV::ParseError(ParseFault::UnexpectedEof)), i)
    } else {
        let t = toks[i];
        if t == "\""@ {
            let (parts, j2) = spec_str_tokens(toks, i + 1);
            (Ok(ExpV::Str(spec_join(parts))), j2)
        } else if t == "("@ {
            let (r, j2) = spec_parse_list(toks, i + 1);
            match r {
                Ok(es) => (Ok(ExpV::Vector(es)), j2),
                Err(e) => (Err(e), j2),
            }
        } else if t == ")"@ {
            (Err(ErrV::ParseError(ParseFault::UnexpectedClose)), i + 1)
        } else {
            (Ok(spec_atom(t)), i + 1)
        }
    }
}

/// The elements of a parenthesized form from `j` up to the matching `)`,
/// and the position after it; the end of the tokens inside a form is an
/// unexpected-end-of-input error.
pub open spec fn spec_parse_list(toks: Seq<Seq<char>>, j: int) -> (Result<Seq<ExpV>, ErrV>, int)
    decreases toks.len() - j, 1int,
{
    if j < 0 || j >= toks.len() {
        (Err(ErrV::ParseError(ParseFault::UnexpectedEof)), j)
    } else if toks[j] == ")"@ {
        (Ok(Seq::empty()), j + 1)
    } else {
        let (r, j2) = spec_parse(toks, j);
        match r {
            Err(e) => (Err(e), j2),
            Ok(e) => if j2 <= j || j2 > toks.len() {
                (Err(ErrV::ParseError(ParseFault::UnexpectedEof)), j2)
            } else {
                let (rr, j3) = spec_parse_list(toks, j2);
                match rr {
                    Err(er) => (Err(er), j3),
                    Ok(es) => (Ok(seq![e] + es), j3),
                }
            },
        }
    }
}

/// Parsing a form moves forward: it consumes at least one token on
/// success and never runs past the end.
pub proof fn lemma_parse_progress(toks: Seq<Seq<char>>, i: int)
    requires
        0 <= i <= toks.len(),
    ensures
        ({
            let (r, j) = spec_parse(toks, i);
            i <= j <= toks.len() && (r is Ok ==> j > i)
        }),
    decreases toks.len() - i, 0int,
{
    if i < toks.len() {
        let t = toks[i];
        if t == "\""@ {
            lemma_str_tokens_progress(toks, i + 1);
        } else if t == "("@ {
            lemma_parse_list_progress(toks, i + 1);
        }
    }
}

/// Collecting a string literal moves forward and stays in range.
pub proof fn lemma_str_tokens_progress(toks: Seq<Seq<char>>, j: int)
    requires
        0 <= j <= toks.len(),
    ensures
        ({
            let (_, j2) = spec_str_tokens(toks, j);
            j <= j2 <= toks.len()
        }),
    decreases toks.len() - j,
{
    if j < toks.len() && toks[j] != "\""@ {
        lemma_str_tokens_progress(toks, j + 1);
    }
}

/// Reading list elements moves forward and stays in range.
pub proof fn lemma_parse_list_progress(toks: Seq<Seq<char>>, j: int)
    requires
        0 <= j <= toks.len(),
    ensures
        ({
            let (_, j2) = spec_parse_list(toks, j);
            j <= j2 <= toks.len()
        }),
    decreases toks.len() - j, 1int,
{
    if 0 <= j < toks.len() && toks[j] != ")"@ {
        lemma_parse_progress(toks, j);
        let (r, j2) = spec_parse(toks, j);
        if r is Ok && j < j2 <= toks.len() {
            lemma_parse_list_progress(toks, j2);
        }
    }
}

/// Reads one token as an atom: a number if the whole token parses as a
/// base-10 signed 64-bit integer, else a symbol.
pub fn atom(token: &str) -> (r: Exp)
    ensures
        exp_view(r) == spec_atom(token@),
{
    match parse_i64(token) {
        Some(num) => Exp::Num(num),
        None => Exp::Symbol(token.to_owned()),
    }
}

/// Parses one form starting at `*pos`, advancing `*pos` past it.
#[verifier::loop_isolation(false)]
pub fn parse_tokens(tokens: &Vec<String>, pos: &mut usize) -> (r: Result<Exp, LispError>)
    requires
        *old(pos) <= tokens@.len(),
    ensures
        ({
            let (sr, j) = spec_parse(tokens.deep_view(), *old(pos) as int);
            (match r {
                Ok(e) => sr matches Ok(se) && exp_view(e) == se,
                Err(e) => sr matches Err(se) && e@ == se,
            }) && *final(pos) == j && *final(pos) <= tokens@.len()
        }),
    decreases tokens@.len() - *pos, 0int,
{
    let ghost toksv = tokens.deep_view();
    proof {
        reveal_strlit("\"");
        reveal_strlit("(");
        reveal_strlit(")");
        lemma_parse_progress(toksv, *pos as int);
    }
    if *pos >= tokens.len() {
        return Err(LispError::ParseError(ParseFault::UnexpectedEof));
    }
    let ghost i = *pos as int;
    proof {
        assert(toksv[i] == tokens@[i]@);
    }
    let quote = String::from_str("\"");
    let open = String::from_str("(");
    let close = String::from_str(")");
    let t = &tokens[*pos];
    if *t == quote {
        *pos += 1;
        let mut parts: Vec<String> = Vec::new();
        proof {
            assert(parts.deep_view() =~= Seq::<Seq<char>>::empty());
            assert(Seq::<Seq<char>>::empty() + spec_str_tokens(toksv, i + 1).0 =~= spec_str_tokens(
                toksv,
                i + 1,
            ).0);
        }
        while *pos < tokens.len() && !(tokens[*pos] == quote)
            invariant
                i + 1 <= *pos <= tokens@.len(),
                spec_str_tokens(toksv, i + 1).0 == parts.deep_view() + spec_str_tokens(
                    toksv,
                    *pos as int,
                ).0,
                spec_str_tokens(toksv, i + 1).1 == spec_str_tokens(toksv, *pos as int).1,
            decreases tokens@.len() - *pos,
        {
            proof {
                assert(toksv[*pos as int] == tokens@[*pos as int]@);
            }
            let tk = &tokens[*pos];
            *pos += 1;
            let ghost prev = parts.deep_view();
            parts.push(tk.clone());
            proof {
                assert(parts.deep_view() =~= prev.push(tk@));
                assert(prev.push(tk@) + spec_str_tokens(toksv, *pos as int).0 =~= prev + (seq![
                    tk@,
                ] + spec_str_tokens(toksv, *pos as int).0));
            }
        }
        proof {
            assert(parts.deep_view() + Seq::<Seq<char>>::empty() =~= parts.deep_view());
        }
        if *pos < tokens.len() {
            // consume the closing quote mark
            proof {
                assert(toksv[*pos as int] == tokens@[*pos as int]@);
            }
            *pos += 1;
        }
        let joined = join_parts(&parts);
        Ok(Exp::Str(joined))
    } else if *t == open {
        *pos += 1;
        let mut list: Vec<Exp> = Vec::new();
        proof {
            assert(exps_view(list@) =~= Seq::<ExpV>::empty());
            let (here, _) = spec_parse_list(toksv, i + 1);
            if here is Ok {
                assert(Seq::<ExpV>::empty() + here->Ok_0 =~= here->Ok_0);
            }
        }
        loop
            invariant
                i + 1 <= *pos <= tokens@.len(),
                ({
                    let (all, jall) = spec_parse_list(toksv, i + 1);
                    let (here, jhere) = spec_parse_list(toksv, *pos as int);
                    (match here {
                        Ok(es) => all matches Ok(aes) && aes == exps_view(list@) + es,
                        Err(e) => all matches Err(ae) && ae == e,
                    }) && jall == jhere
                }),
            decreases tokens@.len() - *pos,
        {
            if *pos >= tokens.len() {
                return Err(LispError::ParseError(ParseFault::UnexpectedEof));
            }
            proof {
                assert(toksv[*pos as int] == tokens@[*pos as int]@);
            }
            if tokens[*pos] == close {
                *pos += 1;
                proof {
                    assert(exps_view(list@) + Seq::<ExpV>::empty() =~= exps_view(list@));
                    crate::exp::lemma_exp_vec_view(list);
                }
                return Ok(Exp::Vector(list));
            }
            let ghost p0 = *pos as int;
            proof {
                lemma_parse_progress(toksv, p0);
            }
            match parse_tokens(tokens, pos) {
                Err(e) => {
                    return Err(e);
                },
                Ok(e) => {
                    let ghost prev = exps_view(list@);
                    let ghost ev = exp_view(e);
                    list.push(e);
                    proof {
                        assert(exps_view(list@) =~= prev.push(ev));
                        let (here, _) = spec_parse_list(toksv, *pos as int);
                        if here is Ok {
                            assert(prev.push(ev) + here->Ok_0 =~= prev + (seq![ev] + here->Ok_0));
                        }
                    }
                },
            }
        }
    } else if *t == close {
        *pos += 1;
        Err(LispError::ParseError(ParseFault::UnexpectedClose))
    } else {
        *pos += 1;
        Ok(atom(t.as_str()))
    }
}

/// Joins string-literal pieces with single spaces.
fn join_parts(parts: &Vec<String>) -> (r: String)
    ensures
        r@ == spec_join(parts.deep_view()),
{
    let ghost pv = parts.deep_view();
    let mut r = String::new();
    let n = parts.len();
    let mut k: usize = 0;
    proof {
        assert(pv.skip(0) =~= pv);
        assert(Seq::<char>::empty() + spec_join(pv) =~= spec_join(pv));
    }
    while k < n
        invariant
            k <= n,
            n == parts@.len(),
            pv == parts.deep_view(),
            spec_join(pv) == r@ + spec_join(pv.skip(k as int)),
        decreases n - k,
    {
        proof {
            assert(pv.skip(k as int)[0] == pv[k as int]);
            assert(pv.skip(k as int).drop_first() =~= pv.skip(k as int + 1));
            assert(pv[k as int] == parts@[k as int]@);
        }
        let ghost r0 = r@;
        r.append(parts[k].as_str());
        if k + 1 < n {
            r.append(" ");
            proof {
                assert(pv.skip(k as int).len() >= 2);
                assert(spec_join(pv.skip(k as int)) == pv[k as int] + " "@ + spec_join(
                    pv.skip(k as int + 1),
                ));
                assert(r@ + spec_join(pv.skip(k as int + 1)) =~= r0 + spec_join(
                    pv.skip(k as int),
                ));
            }
        } else {
            proof {
                assert(pv.skip(k as int).len() == 1);
                assert(spec_join(pv.skip(k as int)) == pv[k as int]);
                assert(pv.skip(k as int + 1) =~= Seq::<Seq<char>>::empty());
                assert(r@ + spec_join(pv.skip(k as int + 1)) =~= r0 + spec_join(
                    pv.skip(k as int),
                ));
            }
        }
        k = k + 1;
    }
    proof {
        assert(pv.skip(n as int) =~= Seq::<Seq<char>>::empty());
    }
    r
}

} // verus!
