//! The parser: a recursive descent over the token stream that builds one
//! syntax tree. Alongside each construct it records the inter-token spans
//! the printer will need. Prefix expressions become a flat suffix chain;
//! function bodies, if-chains, for-loops and return statements each get the
//! variant matching exactly which optional parts are present.

use vstd::prelude::*;

use crate::lexer::{tokenize, LexicalError, Token};
use crate::lua_ast::{FieldsOpts, Loc, Node, Str, TableConstructorOpts};
use crate::util::clone_chars;

verus! {

#[derive(PartialEq, Eq, Debug)]
pub enum ParseError {
    Lexical(LexicalError),
    UnexpectedToken(usize, Vec<char>),
}

/// What the parser relies on in a token stream: one closing `EOF`, spans in
/// source order, and no early `EOF`.
pub open spec fn ptoks_ok(toks: Seq<(usize, Token, usize)>) -> bool {
    &&& toks.len() >= 1
    &&& toks[toks.len() - 1].1 is EOF
    &&& forall|i: int| 0 <= i < toks.len() ==> (#[trigger] toks[i].0) <= toks[i].2
    &&& forall|i: int| 0 <= i < toks.len() - 1 ==> (#[trigger] toks[i].2) <= toks[i + 1].0
    &&& forall|i: int| 0 <= i < toks.len() - 1 ==> !((#[trigger] toks[i].1) is EOF)
}

/// A token list is held in a vector, so its length fits the machine; the
/// position arithmetic below leans on this bound.
proof fn lemma_token_count_bounded(toks: &Vec<(usize, Token, usize)>)
    ensures
        toks@.len() <= usize::MAX,
{
    assert(toks@.len() == toks.len());
}

/// The error for a token the grammar cannot take here: its offset and its
/// description.
fn unexpected(toks: &Vec<(usize, Token, usize)>, i: usize) -> (r: ParseError)
    requires
        i < toks@.len(),
    ensures
        r == ParseError::UnexpectedToken(
            toks@[i as int].0,
            r->UnexpectedToken_1,
        ) && r->UnexpectedToken_1@ == crate::lexer::spec_token_description(toks@[i as int].1),
{
    ParseError::UnexpectedToken(toks[i].0, crate::lexer::token_description(&toks[i].1))
}

/// The span between token `i - 1` and token `i`.
fn gap(toks: &Vec<(usize, Token, usize)>, i: usize) -> (r: Loc)
    requires
        1 <= i < toks@.len(),
{
    Loc(toks[i - 1].2, toks[i].0)
}

/// An empty span at the start of token `i`.
fn empty_at(toks: &Vec<(usize, Token, usize)>, i: usize) -> (r: Loc)
    requires
        i < toks@.len(),
{
    Loc(toks[i].0, toks[i].0)
}

/// The span of token `i` itself.
fn span_of(toks: &Vec<(usize, Token, usize)>, i: usize) -> (r: Loc)
    requires
        i < toks@.len(),
{
    Loc(toks[i].0, toks[i].2)
}

fn is_eof(toks: &Vec<(usize, Token, usize)>, i: usize) -> (r: bool)
    requires
        i < toks@.len(),
    ensures
        r == (toks@[i as int].1 is EOF),
        !r ==> i + 1 < toks@.len() || !ptoks_ok(toks@),
{
    matches!(&toks[i].1, Token::EOF)
}

/// Consuming a non-`EOF` token always leaves the closing `EOF` ahead.
proof fn lemma_advance(toks: Seq<(usize, Token, usize)>, i: int)
    requires
        ptoks_ok(toks),
        0 <= i < toks.len(),
        !(toks[i].1 is EOF),
    ensures
        i + 1 < toks.len(),
{
    if i == toks.len() - 1 {
        assert(toks[i].1 is EOF);
    }
}

/// Whether a block ends at this token: `end`, `else`, `elseif`, `until` or
/// the end of the input.
fn is_block_end(toks: &Vec<(usize, Token, usize)>, i: usize) -> (r: bool)
    requires
        i < toks@.len(),
    ensures
        (toks@[i as int].1 is EOF) ==> r,
{
    match &toks[i].1 {
        Token::End => true,
        Token::Else => true,
        Token::ElseIf => true,
        Token::Until => true,
        Token::EOF => true,
        _ => false,
    }
}

/// The spelling, left and right binding power of a binary operator token.
fn binop_info(t: &Token) -> (r: Option<(Vec<char>, u32, u32)>)
    ensures
        r is Some ==> !(*t is EOF),
{
    match t {
        Token::OpLogicalOr => Some((crate::util::to_chars("or"), 1, 1)),
        Token::OpLogicalAnd => Some((crate::util::to_chars("and"), 2, 2)),
        Token::OpLessThan => Some((crate::util::to_chars("<"), 3, 3)),
        Token::OpGreaterThan => Some((crate::util::to_chars(">"), 3, 3)),
        Token::OpLessOrEqual => Some((crate::util::to_chars("<="), 3, 3)),
        Token::OpGreaterOrEqual => Some((crate::util::to_chars(">="), 3, 3)),
        Token::OpInequality => Some((crate::util::to_chars("~="), 3, 3)),
        Token::OpEquality => Some((crate::util::to_chars("=="), 3, 3)),
        Token::OpBitwiseOr => Some((crate::util::to_chars("|"), 4, 4)),
        Token::Tilde => Some((crate::util::to_chars("~"), 5, 5)),
        Token::OpBitwiseAnd => Some((crate::util::to_chars("&"), 6, 6)),
        Token::OpLeftShift => Some((crate::util::to_chars("<<"), 7, 7)),
        Token::OpRightShift => Some((crate::util::to_chars(">>"), 7, 7)),
        Token::OpConcatenation => Some((crate::util::to_chars(".."), 9, 8)),
        Token::OpAddition => Some((crate::util::to_chars("+"), 10, 10)),
        Token::Minus => Some((crate::util::to_chars("-"), 10, 10)),
        Token::OpMultiplication => Some((crate::util::to_chars("*"), 11, 11)),
        Token::OpDivision => Some((crate::util::to_chars("/"), 11, 11)),
        Token::OpFloorDivision => Some((crate::util::to_chars("//"), 11, 11)),
        Token::OpModulo => Some((crate::util::to_chars("%"), 11, 11)),
        Token::OpExponentiation => Some((crate::util::to_chars("^"), 14, 13)),
        _ => None,
    }
}

/// Whether a suffix-chain element may close a call statement: only a chain
/// ending in arguments or a method call is a statement.
fn is_call_suffix(nd: &Node) -> (r: bool)
{
    match nd {
        Node::ArgsRoundBrackets(..) => true,
        Node::ArgsRoundBracketsEmpty(..) => true,
        Node::TableConstructor(..) => true,
        Node::TableConstructorEmpty(..) => true,
        Node::NormalStringLiteral(..) => true,
        Node::CharStringLiteral(..) => true,
        Node::MultiLineStringLiteral(..) => true,
        Node::FnMethodCall(..) => true,
        _ => false,
    }
}

/// Parses one expression with the usual Lua precedence table; `limit` is
/// the binding power of the operator to the left.
#[verifier::loop_isolation(false)]
fn parse_subexpr(toks: &Vec<(usize, Token, usize)>, pos: usize, limit: u32) -> (r: Result<
    (Node, usize),
    ParseError,
>)
    requires
        ptoks_ok(toks@),
        pos < toks@.len(),
    ensures
        match r {
            Ok((_, p)) => pos < p < toks@.len(),
            Err(e) => e is UnexpectedToken,
        },
    decreases toks@.len() - pos, 8nat,
{
    proof {
        lemma_token_count_bounded(toks);
    }
    let (first, mut p): (Node, usize) = match &toks[pos].1 {
        Token::OpLogicalNot => {
            proof {
                lemma_advance(toks@, pos as int);
            }
            let (e, p2) = parse_subexpr(toks, pos + 1, 12)?;
            (Node::UnaryNot(span_of(toks, pos), [gap(toks, pos + 1)], Box::new(e)), p2)
        }
        Token::Minus => {
            proof {
                lemma_advance(toks@, pos as int);
            }
            let (e, p2) = parse_subexpr(toks, pos + 1, 12)?;
            (
                Node::UnaryOp(
                    span_of(toks, pos),
                    [gap(toks, pos + 1)],
                    Str(crate::util::to_chars("-")),
                    Box::new(e),
                ),
                p2,
            )
        }
        Token::OpLength => {
            proof {
                lemma_advance(toks@, pos as int);
            }
            let (e, p2) = parse_subexpr(toks, pos + 1, 12)?;
            (
                Node::UnaryOp(
                    span_of(toks, pos),
                    [gap(toks, pos + 1)],
                    Str(crate::util::to_chars("#")),
                    Box::new(e),
                ),
                p2,
            )
        }
        Token::Tilde => {
            proof {
                lemma_advance(toks@, pos as int);
            }
            let (e, p2) = parse_subexpr(toks, pos + 1, 12)?;
            (
                Node::UnaryOp(
                    span_of(toks, pos),
                    [gap(toks, pos + 1)],
                    Str(crate::util::to_chars("~")),
                    Box::new(e),
                ),
                p2,
            )
        }
        _ => parse_simple(toks, pos)?,
    };
    let mut lhs = first;
    loop
        invariant
            pos < p < toks@.len(),
        decreases toks@.len() - p,
    {
        let info = binop_info(&toks[p].1);
        match info {
            Some((text, lprec, rprec)) => {
                if lprec > limit {
                    proof {
                        lemma_advance(toks@, p as int);
                    }
                    let (rhs, p2) = parse_subexpr(toks, p + 1, rprec)?;
                    lhs = Node::BinaryOp(
                        span_of(toks, p),
                        [gap(toks, p), gap(toks, p + 1)],
                        Str(text),
                        Box::new(lhs),
                        Box::new(rhs),
                    );
                    p = p2;
                } else {
                    return Ok((lhs, p));
                }
            }
            None => {
                return Ok((lhs, p));
            }
        }
    }
}

/// Parses a simple expression: a literal, vararg, table, function value, or
/// a prefix expression with its suffixes.
fn parse_simple(toks: &Vec<(usize, Token, usize)>, pos: usize) -> (r: Result<
    (Node, usize),
    ParseError,
>)
    requires
        ptoks_ok(toks@),
        pos < toks@.len(),
    ensures
        match r {
            Ok((_, p)) => pos < p < toks@.len(),
            Err(e) => e is UnexpectedToken,
        },
    decreases toks@.len() - pos, 6nat,
{
    proof {
        lemma_token_count_bounded(toks);
    }
    match &toks[pos].1 {
        Token::Nil => {
            proof {
                lemma_advance(toks@, pos as int);
            }
            Ok((Node::Nil(span_of(toks, pos)), pos + 1))
        }
        Token::True => {
            proof {
                lemma_advance(toks@, pos as int);
            }
            Ok((Node::True(span_of(toks, pos)), pos + 1))
        }
        Token::False => {
            proof {
                lemma_advance(toks@, pos as int);
            }
            Ok((Node::False(span_of(toks, pos)), pos + 1))
        }
        Token::VarArg => {
            proof {
                lemma_advance(toks@, pos as int);
            }
            Ok((Node::VarArg(span_of(toks, pos)), pos + 1))
        }
        Token::Numeral(s) => {
            proof {
                lemma_advance(toks@, pos as int);
            }
            Ok((Node::Numeral(span_of(toks, pos), clone_chars(s)), pos + 1))
        }
        Token::NormalStringLiteral(s) => {
            proof {
                lemma_advance(toks@, pos as int);
            }
            Ok((Node::NormalStringLiteral(span_of(toks, pos), clone_chars(s)), pos + 1))
        }
        Token::CharStringLiteral(s) => {
            proof {
                lemma_advance(toks@, pos as int);
            }
            Ok((Node::CharStringLiteral(span_of(toks, pos), clone_chars(s)), pos + 1))
        }
        Token::MultilineStringLiteral(k, s) => {
            proof {
                lemma_advance(toks@, pos as int);
            }
            Ok((Node::MultiLineStringLiteral(span_of(toks, pos), *k, clone_chars(s)), pos + 1))
        }
        Token::Function => {
            proof {
                lemma_advance(toks@, pos as int);
            }
            let (body, p2) = parse_funcbody(toks, pos + 1)?;
            Ok(
                (
                    Node::FunctionDef(span_of(toks, pos), [gap(toks, pos + 1)], Box::new(body)),
                    p2,
                ),
            )
        }
        Token::OpenCurlyBracket => parse_table(toks, pos),
        _ => parse_suffixedexp(toks, pos),
    }
}

/// Parses a prefix expression — a name or a parenthesized expression — and
/// the flat chain of suffixes that follows it.
#[verifier::loop_isolation(false)]
fn parse_suffixedexp(toks: &Vec<(usize, Token, usize)>, pos: usize) -> (r: Result<
    (Node, usize),
    ParseError,
>)
    requires
        ptoks_ok(toks@),
        pos < toks@.len(),
    ensures
        match r {
            Ok((_, p)) => pos < p < toks@.len(),
            Err(e) => e is UnexpectedToken,
        },
    decreases toks@.len() - pos, 3nat,
{
    proof {
        lemma_token_count_bounded(toks);
    }
    // the primary part
    let mut round: Option<(Loc, Loc)> = None;
    let (base, mut p): (Node, usize) = match &toks[pos].1 {
        Token::Variable(s) => {
            proof {
                lemma_advance(toks@, pos as int);
            }
            (Node::Name(span_of(toks, pos), clone_chars(s)), pos + 1)
        }
        Token::OpenRoundBracket => {
            proof {
                lemma_advance(toks@, pos as int);
            }
            let (inner, p2) = parse_subexpr(toks, pos + 1, 0)?;
            if !matches!(&toks[p2].1, Token::CloseRoundBracket) {
                return Err(unexpected(toks, p2));
            }
            proof {
                lemma_advance(toks@, p2 as int);
            }
            round = Some((gap(toks, pos + 1), gap(toks, p2)));
            (inner, p2 + 1)
        }
        _ => {
            return Err(unexpected(toks, pos));
        }
    };
    // the suffix chain
    let first_suffix_gap_pos = p;
    let mut suffixes: Vec<(Loc, Node)> = Vec::new();
    loop
        invariant
            ptoks_ok(toks@),
            pos < p < toks@.len(),
        decreases toks@.len() - p,
    {
        let lead = if suffixes.len() == 0 {
            empty_at(toks, p)
        } else {
            gap(toks, p)
        };
        match &toks[p].1 {
            Token::Period => {
                proof {
                    lemma_advance(toks@, p as int);
                }
                let q = p + 1;
                match &toks[q].1 {
                    Token::Variable(s) => {
                        proof {
                            lemma_advance(toks@, q as int);
                        }
                        let name = Node::Name(span_of(toks, q), clone_chars(s));
                        suffixes.push(
                            (
                                lead,
                                Node::TableMember(
                                    span_of(toks, p),
                                    [gap(toks, q)],
                                    Box::new(name),
                                ),
                            ),
                        );
                        p = q + 1;
                    }
                    _ => {
                        return Err(unexpected(toks, q));
                    }
                }
            }
            Token::OpenSquareBracket => {
                proof {
                    lemma_advance(toks@, p as int);
                }
                let (e, p2) = parse_subexpr(toks, p + 1, 0)?;
                if !matches!(&toks[p2].1, Token::CloseSquareBracket) {
                    return Err(unexpected(toks, p2));
                }
                proof {
                    lemma_advance(toks@, p2 as int);
                }
                suffixes.push(
                    (
                        lead,
                        Node::TableIndex(
                            span_of(toks, p),
                            [gap(toks, p + 1), gap(toks, p2)],
                            Box::new(e),
                        ),
                    ),
                );
                p = p2 + 1;
            }
            Token::Colon => {
                proof {
                    lemma_advance(toks@, p as int);
                }
                let q = p + 1;
                match &toks[q].1 {
                    Token::Variable(s) => {
                        proof {
                            lemma_advance(toks@, q as int);
                        }
                        let name = Node::Name(span_of(toks, q), clone_chars(s));
                        let (args, p2) = parse_args(toks, q + 1)?;
                        suffixes.push(
                            (
                                lead,
                                Node::FnMethodCall(
                                    span_of(toks, p),
                                    [gap(toks, q), gap(toks, q + 1)],
                                    Box::new(name),
                                    Box::new(args),
                                ),
                            ),
                        );
                        p = p2;
                    }
                    _ => {
                        return Err(unexpected(toks, q));
                    }
                }
            }
            Token::OpenRoundBracket => {
                let (args, p2) = parse_args(toks, p)?;
                suffixes.push((lead, args));
                p = p2;
            }
            Token::OpenCurlyBracket => {
                let (t, p2) = parse_table(toks, p)?;
                suffixes.push((lead, t));
                p = p2;
            }
            Token::NormalStringLiteral(s) => {
                proof {
                    lemma_advance(toks@, p as int);
                }
                suffixes.push(
                    (lead, Node::NormalStringLiteral(span_of(toks, p), clone_chars(s))),
                );
                p = p + 1;
            }
            Token::CharStringLiteral(s) => {
                proof {
                    lemma_advance(toks@, p as int);
                }
                suffixes.push((lead, Node::CharStringLiteral(span_of(toks, p), clone_chars(s))));
                p = p + 1;
            }
            Token::MultilineStringLiteral(k, s) => {
                proof {
                    lemma_advance(toks@, p as int);
                }
                suffixes.push(
                    (lead, Node::MultiLineStringLiteral(span_of(toks, p), *k, clone_chars(s))),
                );
                p = p + 1;
            }
            _ => {
                break;
            }
        }
    }
    match round {
        Some((g1, g2)) => {
            if suffixes.len() == 0 {
                Ok((Node::RoundBrackets(span_of(toks, pos), [g1, g2], Box::new(base)), p))
            } else {
                let chain = Node::VarSuffixList(empty_at(toks, pos), suffixes);
                Ok(
                    (
                        Node::VarRoundSuffix(
                            span_of(toks, pos),
                            [g1, g2, gap(toks, first_suffix_gap_pos)],
                            Box::new(base),
                            Box::new(chain),
                        ),
                        p,
                    ),
                )
            }
        }
        None => {
            if suffixes.len() == 0 {
                Ok((base, p))
            } else {
                let chain = Node::VarSuffixList(empty_at(toks, pos), suffixes);
                Ok(
                    (
                        Node::Var(
                            span_of(toks, pos),
                            [gap(toks, first_suffix_gap_pos)],
                            Box::new(base),
                            Box::new(chain),
                        ),
                        p,
                    ),
                )
            }
        }
    }
}

/// Parses call arguments: a parenthesized expression list, a table
/// constructor, or a bare string literal.
fn parse_args(toks: &Vec<(usize, Token, usize)>, pos: usize) -> (r: Result<
    (Node, usize),
    ParseError,
>)
    requires
        ptoks_ok(toks@),
        pos < toks@.len(),
    ensures
        match r {
            Ok((_, p)) => pos < p < toks@.len(),
            Err(e) => e is UnexpectedToken,
        },
    decreases toks@.len() - pos, 2nat,
{
    proof {
        lemma_token_count_bounded(toks);
    }
    match &toks[pos].1 {
        Token::OpenRoundBracket => {
            proof {
                lemma_advance(toks@, pos as int);
            }
            if matches!(&toks[pos + 1].1, Token::CloseRoundBracket) {
                proof {
                    lemma_advance(toks@, (pos + 1) as int);
                }
                Ok(
                    (
                        Node::ArgsRoundBracketsEmpty(span_of(toks, pos), [gap(toks, pos + 1)]),
                        pos + 2,
                    ),
                )
            } else {
                let (el, p2) = parse_explist(toks, pos + 1)?;
                if !matches!(&toks[p2].1, Token::CloseRoundBracket) {
                    return Err(unexpected(toks, p2));
                }
                proof {
                    lemma_advance(toks@, p2 as int);
                }
                Ok(
                    (
                        Node::ArgsRoundBrackets(
                            span_of(toks, pos),
                            [gap(toks, pos + 1), gap(toks, p2)],
                            Box::new(el),
                        ),
                        p2 + 1,
                    ),
                )
            }
        }
        Token::OpenCurlyBracket => {
            let (mut t, p2) = parse_table(toks, pos)?;
            mark_single_table(&mut t);
            Ok((t, p2))
        }
        Token::NormalStringLiteral(s) => {
            proof {
                lemma_advance(toks@, pos as int);
            }
            Ok((Node::NormalStringLiteral(span_of(toks, pos), clone_chars(s)), pos + 1))
        }
        Token::CharStringLiteral(s) => {
            proof {
                lemma_advance(toks@, pos as int);
            }
            Ok((Node::CharStringLiteral(span_of(toks, pos), clone_chars(s)), pos + 1))
        }
        Token::MultilineStringLiteral(k, s) => {
            proof {
                lemma_advance(toks@, pos as int);
            }
            Ok((Node::MultiLineStringLiteral(span_of(toks, pos), *k, clone_chars(s)), pos + 1))
        }
        _ => Err(unexpected(toks, pos)),
    }
}

/// Parses an expression list and records, on any table constructor in it,
/// whether it is the sole child and whether it comes first.
#[verifier::loop_isolation(false)]
fn parse_explist(toks: &Vec<(usize, Token, usize)>, pos: usize) -> (r: Result<
    (Node, usize),
    ParseError,
>)
    requires
        ptoks_ok(toks@),
        pos < toks@.len(),
    ensures
        match r {
            Ok((_, p)) => pos < p < toks@.len(),
            Err(e) => e is UnexpectedToken,
        },
    decreases toks@.len() - pos, 10nat,
{
    proof {
        lemma_token_count_bounded(toks);
    }
    let mut items: Vec<(Loc, Node, Loc, Vec<char>)> = Vec::new();
    let (first, mut p) = parse_subexpr(toks, pos, 0)?;
    let mut prev: (Loc, Node) = (empty_at(toks, pos), first);
    loop
        invariant
            ptoks_ok(toks@),
            pos < p < toks@.len(),
        decreases toks@.len() - p,
    {
        if matches!(&toks[p].1, Token::Comma) {
            proof {
                lemma_advance(toks@, p as int);
            }
            let (lead, nd) = prev;
            items.push((lead, nd, gap(toks, p), crate::util::to_chars(",")));
            let q = p + 1;
            let (e, p2) = parse_subexpr(toks, q, 0)?;
            prev = (gap(toks, q), e);
            p = p2;
        } else {
            break;
        }
    }
    let (lead, nd) = prev;
    items.push((lead, nd, empty_at(toks, p), crate::util::to_chars(",")));
    mark_table_children(&mut items);
    Ok((Node::ExpList(empty_at(toks, pos), items), p))
}

/// Records on each table constructor in an expression list whether it is
/// the sole child of the list and whether it is the first.
#[verifier::loop_isolation(false)]
fn mark_table_children(items: &mut Vec<(Loc, Node, Loc, Vec<char>)>)
{
    let single = items.len() == 1;
    let n = items.len();
    let mut i: usize = 0;
    while i < n
        invariant
            n == items@.len(),
        decreases n - i,
    {
        match &mut items[i].1 {
            Node::TableConstructor(_, _, fields, opts) => {
                opts.is_single_child = Some(single);
                opts.is_first_child = Some(i == 0);
                match &mut **fields {
                    Node::Fields(_, _, fopts) => {
                        fopts.is_single_child = Some(single);
                    }
                    _ => {}
                }
            }
            _ => {}
        }
        i = i + 1;
    }
}

/// Records on a table constructor standing alone in a value position —
/// a field value or a lone table argument — that it is the sole child of
/// its parent.
fn mark_single_table(nd: &mut Node)
{
    match nd {
        Node::TableConstructor(_, _, fields, opts) => {
            opts.is_single_child = Some(true);
            opts.is_first_child = Some(false);
            match &mut **fields {
                Node::Fields(_, _, fopts) => {
                    fopts.is_single_child = Some(true);
                }
                _ => {}
            }
        }
        _ => {}
    }
}

/// Parses one table field.
fn parse_field(toks: &Vec<(usize, Token, usize)>, pos: usize) -> (r: Result<
    (Node, usize, bool),
    ParseError,
>)
    requires
        ptoks_ok(toks@),
        pos < toks@.len(),
    ensures
        match r {
            Ok((_, p, _)) => pos < p < toks@.len(),
            Err(e) => e is UnexpectedToken,
        },
    decreases toks@.len() - pos, 12nat,
{
    proof {
        lemma_token_count_bounded(toks);
    }
    match &toks[pos].1 {
        Token::OpenSquareBracket => {
            proof {
                lemma_advance(toks@, pos as int);
            }
            let (e1, p2) = parse_subexpr(toks, pos + 1, 0)?;
            if !matches!(&toks[p2].1, Token::CloseSquareBracket) {
                return Err(unexpected(toks, p2));
            }
            proof {
                lemma_advance(toks@, p2 as int);
            }
            let q = p2 + 1;
            if !matches!(&toks[q].1, Token::EqualsSign) {
                return Err(unexpected(toks, q));
            }
            proof {
                lemma_advance(toks@, q as int);
            }
            let (mut e2, p3) = parse_subexpr(toks, q + 1, 0)?;
            mark_single_table(&mut e2);
            Ok(
                (
                    Node::FieldNamedBracket(
                        span_of(toks, pos),
                        [gap(toks, pos + 1), gap(toks, p2), gap(toks, q), gap(toks, q + 1)],
                        Box::new(e1),
                        Box::new(e2),
                    ),
                    p3,
                    false,
                ),
            )
        }
        Token::Variable(s) => {
            proof {
                lemma_advance(toks@, pos as int);
            }
            if matches!(&toks[pos + 1].1, Token::EqualsSign) {
                proof {
                    lemma_advance(toks@, (pos + 1) as int);
                }
                let name = Node::Name(span_of(toks, pos), clone_chars(s));
                let (mut e2, p2) = parse_subexpr(toks, pos + 2, 0)?;
                mark_single_table(&mut e2);
                Ok(
                    (
                        Node::FieldNamed(
                            span_of(toks, pos),
                            [gap(toks, pos + 1), gap(toks, pos + 2)],
                            Box::new(name),
                            Box::new(e2),
                        ),
                        p2,
                        false,
                    ),
                )
            } else {
                let (mut e, p2) = parse_subexpr(toks, pos, 0)?;
                mark_single_table(&mut e);
                Ok((Node::FieldSequential(span_of(toks, pos), Box::new(e)), p2, true))
            }
        }
        _ => {
            let (mut e, p2) = parse_subexpr(toks, pos, 0)?;
            mark_single_table(&mut e);
            Ok((Node::FieldSequential(span_of(toks, pos), Box::new(e)), p2, true))
        }
    }
}

/// Parses a table constructor, recording each field's separator text and
/// whether every field is positional.
#[verifier::loop_isolation(false)]
fn parse_table(toks: &Vec<(usize, Token, usize)>, pos: usize) -> (r: Result<
    (Node, usize),
    ParseError,
>)
    requires
        ptoks_ok(toks@),
        pos < toks@.len(),
    ensures
        match r {
            Ok((_, p)) => pos < p < toks@.len(),
            Err(e) => e is UnexpectedToken,
        },
    decreases toks@.len() - pos, 1nat,
{
    proof {
        lemma_token_count_bounded(toks);
    }
    if !matches!(&toks[pos].1, Token::OpenCurlyBracket) {
        return Err(unexpected(toks, pos));
    }
    proof {
        lemma_advance(toks@, pos as int);
    }
    if matches!(&toks[pos + 1].1, Token::CloseCurlyBracket) {
        proof {
            lemma_advance(toks@, (pos + 1) as int);
        }
        return Ok(
            (Node::TableConstructorEmpty(span_of(toks, pos), [gap(toks, pos + 1)]), pos + 2),
        );
    }
    let mut items: Vec<(Loc, Node, Loc, Vec<char>)> = Vec::new();
    let mut all_seq = true;
    let mut p: usize = pos + 1;
    let mut lead: Loc = gap(toks, p);
    loop
        invariant
            ptoks_ok(toks@),
            pos < p < toks@.len(),
        decreases toks@.len() - p,
    {
        let (field, p2, seq) = parse_field(toks, p)?;
        if !seq {
            all_seq = false;
        }
        match &toks[p2].1 {
            Token::Comma | Token::Semicolon => {
                proof {
                    lemma_advance(toks@, p2 as int);
                }
                let sep = if matches!(&toks[p2].1, Token::Semicolon) {
                    crate::util::to_chars(";")
                } else {
                    crate::util::to_chars(",")
                };
                items.push((lead, field, gap(toks, p2), sep));
                let q = p2 + 1;
                if matches!(&toks[q].1, Token::CloseCurlyBracket) {
                    // a trailing separator before the closing bracket
                    proof {
                        lemma_advance(toks@, q as int);
                    }
                    let fields = Node::Fields(
                        empty_at(toks, pos),
                        items,
                        FieldsOpts { is_all_sequential: Some(all_seq), is_single_child: None },
                    );
                    let opts = TableConstructorOpts {
                        is_all_sequential: Some(all_seq),
                        is_single_child: None,
                        is_first_child: None,
                    };
                    return Ok(
                        (
                            Node::TableConstructor(
                                span_of(toks, pos),
                                [empty_at(toks, pos + 1), gap(toks, q)],
                                Box::new(fields),
                                opts,
                            ),
                            q + 1,
                        ),
                    );
                }
                lead = gap(toks, q);
                p = q;
            }
            Token::CloseCurlyBracket => {
                proof {
                    lemma_advance(toks@, p2 as int);
                }
                items.push((lead, field, gap(toks, p2), crate::util::to_chars(",")));
                let fields = Node::Fields(
                    empty_at(toks, pos),
                    items,
                    FieldsOpts { is_all_sequential: Some(all_seq), is_single_child: None },
                );
                let opts = TableConstructorOpts {
                    is_all_sequential: Some(all_seq),
                    is_single_child: None,
                    is_first_child: None,
                };
                return Ok(
                    (
                        Node::TableConstructor(
                            span_of(toks, pos),
                            [empty_at(toks, pos + 1), empty_at(toks, p2)],
                            Box::new(fields),
                            opts,
                        ),
                        p2 + 1,
                    ),
                );
            }
            _ => {
                return Err(unexpected(toks, p2));
            }
        }
    }
}

/// Parses a name list: names separated by commas.
#[verifier::loop_isolation(false)]
fn parse_namelist(toks: &Vec<(usize, Token, usize)>, pos: usize, allow_vararg: bool) -> (r: Result<
    (Node, usize),
    ParseError,
>)
    requires
        ptoks_ok(toks@),
        pos < toks@.len(),
    ensures
        match r {
            Ok((_, p)) => pos < p < toks@.len(),
            Err(e) => e is UnexpectedToken,
        },
    decreases toks@.len() - pos, 2nat,
{
    proof {
        lemma_token_count_bounded(toks);
    }
    let mut items: Vec<(Loc, Node, Loc, Vec<char>)> = Vec::new();
    let first = match &toks[pos].1 {
        Token::Variable(s) => Node::Name(span_of(toks, pos), clone_chars(s)),
        Token::VarArg => {
            if allow_vararg {
                Node::VarArg(span_of(toks, pos))
            } else {
                return Err(unexpected(toks, pos));
            }
        }
        _ => {
            return Err(unexpected(toks, pos));
        }
    };
    proof {
        lemma_advance(toks@, pos as int);
    }
    let mut prev: (Loc, Node) = (empty_at(toks, pos), first);
    let mut p: usize = pos + 1;
    loop
        invariant
            ptoks_ok(toks@),
            pos < p < toks@.len(),
        decreases toks@.len() - p,
    {
        if matches!(&toks[p].1, Token::Comma) {
            proof {
                lemma_advance(toks@, p as int);
            }
            let q = p + 1;
            let nd = match &toks[q].1 {
                Token::Variable(s) => Node::Name(span_of(toks, q), clone_chars(s)),
                Token::VarArg => {
                    if allow_vararg {
                        Node::VarArg(span_of(toks, q))
                    } else {
                        return Err(unexpected(toks, q));
                    }
                }
                _ => {
                    return Err(unexpected(toks, q));
                }
            };
            proof {
                lemma_advance(toks@, q as int);
            }
            let (lead, pnd) = prev;
            items.push((lead, pnd, gap(toks, p), crate::util::to_chars(",")));
            prev = (gap(toks, q), nd);
            p = q + 1;
        } else {
            break;
        }
    }
    let (lead, pnd) = prev;
    items.push((lead, pnd, empty_at(toks, p), crate::util::to_chars(",")));
    Ok((Node::NameList(empty_at(toks, pos), items), p))
}

/// Parses a dotted function name, with its optional trailing `:` method
/// part.
#[verifier::loop_isolation(false)]
fn parse_funcname(toks: &Vec<(usize, Token, usize)>, pos: usize) -> (r: Result<
    (Node, usize),
    ParseError,
>)
    requires
        ptoks_ok(toks@),
        pos < toks@.len(),
    ensures
        match r {
            Ok((_, p)) => pos < p < toks@.len(),
            Err(e) => e is UnexpectedToken,
        },
    decreases toks@.len() - pos, 2nat,
{
    proof {
        lemma_token_count_bounded(toks);
    }
    let mut items: Vec<(Loc, Node, Loc, Vec<char>)> = Vec::new();
    let first = match &toks[pos].1 {
        Token::Variable(s) => Node::Name(span_of(toks, pos), clone_chars(s)),
        _ => {
            return Err(unexpected(toks, pos));
        }
    };
    proof {
        lemma_advance(toks@, pos as int);
    }
    let mut prev: (Loc, Node) = (empty_at(toks, pos), first);
    let mut p: usize = pos + 1;
    loop
        invariant
            ptoks_ok(toks@),
            pos < p < toks@.len(),
        decreases toks@.len() - p,
    {
        if matches!(&toks[p].1, Token::Period) {
            proof {
                lemma_advance(toks@, p as int);
            }
            let q = p + 1;
            let nd = match &toks[q].1 {
                Token::Variable(s) => Node::Name(span_of(toks, q), clone_chars(s)),
                _ => {
                    return Err(unexpected(toks, q));
                }
            };
            proof {
                lemma_advance(toks@, q as int);
            }
            let (lead, pnd) = prev;
            items.push((lead, pnd, gap(toks, p), crate::util::to_chars(".")));
            prev = (gap(toks, q), nd);
            p = q + 1;
        } else {
            break;
        }
    }
    let (lead, pnd) = prev;
    items.push((lead, pnd, empty_at(toks, p), crate::util::to_chars(".")));
    if matches!(&toks[p].1, Token::Colon) {
        proof {
            lemma_advance(toks@, p as int);
        }
        let q = p + 1;
        let nd = match &toks[q].1 {
            Token::Variable(s) => Node::Name(span_of(toks, q), clone_chars(s)),
            _ => {
                return Err(unexpected(toks, q));
            }
        };
        proof {
            lemma_advance(toks@, q as int);
        }
        Ok(
            (
                Node::FuncNameSelf(
                    empty_at(toks, pos),
                    [gap(toks, p), gap(toks, q)],
                    items,
                    Box::new(nd),
                ),
                q + 1,
            ),
        )
    } else {
        Ok((Node::FuncName(empty_at(toks, pos), items), p))
    }
}

/// Parses a return statement; its four variants record whether expressions
/// and a closing semicolon are present.
fn parse_retstat(toks: &Vec<(usize, Token, usize)>, pos: usize) -> (r: Result<
    (Node, usize),
    ParseError,
>)
    requires
        ptoks_ok(toks@),
        pos < toks@.len(),
        toks@[pos as int].1 is Return,
    ensures
        match r {
            Ok((_, p)) => pos < p < toks@.len(),
            Err(e) => e is UnexpectedToken,
        },
    decreases toks@.len() - pos, 14nat,
{
    proof {
        lemma_token_count_bounded(toks);
    }
    proof {
        lemma_advance(toks@, pos as int);
    }
    let q = pos + 1;
    if matches!(&toks[q].1, Token::Semicolon) {
        proof {
            lemma_advance(toks@, q as int);
        }
        return Ok((Node::RetStatNoneComma(span_of(toks, pos), [gap(toks, q)]), q + 1));
    }
    if is_block_end(toks, q) {
        return Ok((Node::RetStatNone(span_of(toks, pos)), q));
    }
    let (el, p2) = parse_explist(toks, q)?;
    if matches!(&toks[p2].1, Token::Semicolon) {
        proof {
            lemma_advance(toks@, p2 as int);
        }
        Ok(
            (
                Node::RetStatExprComma(
                    span_of(toks, pos),
                    [gap(toks, q), gap(toks, p2)],
                    Box::new(el),
                ),
                p2 + 1,
            ),
        )
    } else {
        Ok((Node::RetStatExpr(span_of(toks, pos), [gap(toks, q)], Box::new(el)), p2))
    }
}

/// Parses an if-chain, enumerating which of the optional parts — a then
/// body, else-if links, an else, an else body — are present.
#[verifier::loop_isolation(false)]
fn parse_if(toks: &Vec<(usize, Token, usize)>, pos: usize) -> (r: Result<
    (Node, usize),
    ParseError,
>)
    requires
        ptoks_ok(toks@),
        pos < toks@.len(),
        toks@[pos as int].1 is If,
    ensures
        match r {
            Ok((_, p)) => pos < p < toks@.len(),
            Err(e) => e is UnexpectedToken,
        },
    decreases toks@.len() - pos, 2nat,
{
    proof {
        lemma_token_count_bounded(toks);
    }
    proof {
        lemma_advance(toks@, pos as int);
    }
    let (e1, p2) = parse_subexpr(toks, pos + 1, 0)?;
    if !matches!(&toks[p2].1, Token::Then) {
        return Err(unexpected(toks, p2));
    }
    proof {
        lemma_advance(toks@, p2 as int);
    }
    let (b1, p3) = parse_block(toks, p2 + 1)?;
    let g_cond = gap(toks, pos + 1);
    let g_then = gap(toks, p2);
    let g_b1 = gap(toks, p2 + 1);
    let mut elseifs: Vec<(Loc, Node)> = Vec::new();
    let mut p: usize = p3;
    let mut g_vec: Loc = gap(toks, p3);
    loop
        invariant
            ptoks_ok(toks@),
            pos < p < toks@.len(),
        decreases toks@.len() - p,
    {
        if matches!(&toks[p].1, Token::ElseIf) {
            proof {
                lemma_advance(toks@, p as int);
            }
            if elseifs.len() == 0 {
                g_vec = gap(toks, p);
            }
            let lead = if elseifs.len() == 0 {
                empty_at(toks, p)
            } else {
                gap(toks, p)
            };
            let (ec, q2) = parse_subexpr(toks, p + 1, 0)?;
            if !matches!(&toks[q2].1, Token::Then) {
                return Err(unexpected(toks, q2));
            }
            proof {
                lemma_advance(toks@, q2 as int);
            }
            let (eb, q3) = parse_block(toks, q2 + 1)?;
            let nd = match eb {
                None => Node::ElseIfThen(
                    span_of(toks, p),
                    [gap(toks, p + 1), gap(toks, q2)],
                    Box::new(ec),
                ),
                Some(b) => Node::ElseIfThenB(
                    span_of(toks, p),
                    [gap(toks, p + 1), gap(toks, q2), gap(toks, q2 + 1)],
                    Box::new(ec),
                    Box::new(b),
                ),
            };
            elseifs.push((lead, nd));
            p = q3;
        } else {
            break;
        }
    }
    let has_elseif = elseifs.len() > 0;
    let elseif_vec = Node::ElseIfThenVec(empty_at(toks, p), elseifs);
    let mut has_else = false;
    let mut g_else: Loc = gap(toks, p);
    let mut g_b2: Loc = gap(toks, p);
    let mut b2: Option<Node> = None;
    if matches!(&toks[p].1, Token::Else) {
        proof {
            lemma_advance(toks@, p as int);
        }
        has_else = true;
        g_else = gap(toks, p);
        g_b2 = gap(toks, p + 1);
        let (eb, q) = parse_block(toks, p + 1)?;
        b2 = eb;
        p = q;
    }
    if !matches!(&toks[p].1, Token::End) {
        return Err(unexpected(toks, p));
    }
    proof {
        lemma_advance(toks@, p as int);
    }
    let g_end = gap(toks, p);
    let span = span_of(toks, pos);
    let node = if !has_elseif && !has_else {
        match b1 {
            None => Node::IfThen(span, [g_cond, g_then, g_end], Box::new(e1)),
            Some(b) => Node::IfThenB(
                span,
                [g_cond, g_then, g_b1, g_end],
                Box::new(e1),
                Box::new(b),
            ),
        }
    } else if !has_elseif && has_else {
        match (b1, b2) {
            (None, None) => Node::IfThenElse(span, [g_cond, g_then, g_else, g_end], Box::new(e1)),
            (Some(b), None) => Node::IfThenBElse(
                span,
                [g_cond, g_then, g_b1, g_else, g_end],
                Box::new(e1),
                Box::new(b),
            ),
            (None, Some(c)) => Node::IfThenElseB(
                span,
                [g_cond, g_then, g_else, g_b2, g_end],
                Box::new(e1),
                Box::new(c),
            ),
            (Some(b), Some(c)) => Node::IfThenBElseB(
                span,
                [g_cond, g_then, g_b1, g_else, g_b2, g_end],
                Box::new(e1),
                Box::new(b),
                Box::new(c),
            ),
        }
    } else if !has_else {
        match b1 {
            None => Node::IfThenElseIf(
                span,
                [g_cond, g_then, g_vec, g_end],
                Box::new(e1),
                Box::new(elseif_vec),
            ),
            Some(b) => Node::IfThenBElseIf(
                span,
                [g_cond, g_then, g_b1, g_vec, g_end],
                Box::new(e1),
                Box::new(b),
                Box::new(elseif_vec),
            ),
        }
    } else {
        match (b1, b2) {
            (None, None) => Node::IfThenElseIfElse(
                span,
                [g_cond, g_then, g_vec, g_else, g_end],
                Box::new(e1),
                Box::new(elseif_vec),
            ),
            (Some(b), None) => Node::IfThenBElseIfElse(
                span,
                [g_cond, g_then, g_b1, g_vec, g_else, g_end],
                Box::new(e1),
                Box::new(b),
                Box::new(elseif_vec),
            ),
            (None, Some(c)) => Node::IfThenElseIfElseB(
                span,
                [g_cond, g_then, g_vec, g_else, g_b2, g_end],
                Box::new(e1),
                Box::new(elseif_vec),
                Box::new(c),
            ),
            (Some(b), Some(c)) => Node::IfThenBElseIfElseB(
                span,
                [g_cond, g_then, g_b1, g_vec, g_else, g_b2, g_end],
                Box::new(e1),
                Box::new(b),
                Box::new(elseif_vec),
                Box::new(c),
            ),
        }
    };
    Ok((node, p + 1))
}

/// Parses one statement.
#[verifier::loop_isolation(false)]
#[verifier::rlimit(100)]
#[verifier::spinoff_prover]
fn parse_statement(toks: &Vec<(usize, Token, usize)>, pos: usize) -> (r: Result<
    (Node, usize),
    ParseError,
>)
    requires
        ptoks_ok(toks@),
        pos < toks@.len(),
    ensures
        match r {
            Ok((_, p)) => pos < p < toks@.len(),
            Err(e) => e is UnexpectedToken,
        },
    decreases toks@.len() - pos, 15nat,
{
    proof {
        lemma_token_count_bounded(toks);
    }
    match &toks[pos].1 {
        Token::Do => {
            proof {
                lemma_advance(toks@, pos as int);
            }
            let (b, p2) = parse_block(toks, pos + 1)?;
            if !matches!(&toks[p2].1, Token::End) {
                return Err(unexpected(toks, p2));
            }
            proof {
                lemma_advance(toks@, p2 as int);
            }
            match b {
                None => Ok((Node::DoEnd(span_of(toks, pos), [gap(toks, p2)]), p2 + 1)),
                Some(b) => Ok(
                    (
                        Node::DoBEnd(
                            span_of(toks, pos),
                            [gap(toks, pos + 1), gap(toks, p2)],
                            Box::new(b),
                        ),
                        p2 + 1,
                    ),
                ),
            }
        }
        Token::While => {
            proof {
                lemma_advance(toks@, pos as int);
            }
            let (e, p2) = parse_subexpr(toks, pos + 1, 0)?;
            if !matches!(&toks[p2].1, Token::Do) {
                return Err(unexpected(toks, p2));
            }
            proof {
                lemma_advance(toks@, p2 as int);
            }
            let (b, p3) = parse_block(toks, p2 + 1)?;
            if !matches!(&toks[p3].1, Token::End) {
                return Err(unexpected(toks, p3));
            }
            proof {
                lemma_advance(toks@, p3 as int);
            }
            match b {
                None => Ok(
                    (
                        Node::WhileDo(
                            span_of(toks, pos),
                            [gap(toks, pos + 1), gap(toks, p2), gap(toks, p3)],
                            Box::new(e),
                        ),
                        p3 + 1,
                    ),
                ),
                Some(b) => Ok(
                    (
                        Node::WhileDoB(
                            span_of(toks, pos),
                            [gap(toks, pos + 1), gap(toks, p2), gap(toks, p2 + 1), gap(toks, p3)],
                            Box::new(e),
                            Box::new(b),
                        ),
                        p3 + 1,
                    ),
                ),
            }
        }
        Token::Repeat => {
            proof {
                lemma_advance(toks@, pos as int);
            }
            let (b, p2) = parse_block(toks, pos + 1)?;
            if !matches!(&toks[p2].1, Token::Until) {
                return Err(unexpected(toks, p2));
            }
            proof {
                lemma_advance(toks@, p2 as int);
            }
            let (e, p3) = parse_subexpr(toks, p2 + 1, 0)?;
            match b {
                None => Ok(
                    (
                        Node::RepeatUntil(
                            span_of(toks, pos),
                            [gap(toks, p2), gap(toks, p2 + 1)],
                            Box::new(e),
                        ),
                        p3,
                    ),
                ),
                Some(b) => Ok(
                    (
                        Node::RepeatBUntil(
                            span_of(toks, pos),
                            [gap(toks, pos + 1), gap(toks, p2), gap(toks, p2 + 1)],
                            Box::new(b),
                            Box::new(e),
                        ),
                        p3,
                    ),
                ),
            }
        }
        Token::If => parse_if(toks, pos),
        Token::For => {
            proof {
                lemma_advance(toks@, pos as int);
            }
            if !matches!(&toks[pos + 1].1, Token::Variable(_)) {
                return Err(unexpected(toks, pos + 1));
            }
            proof {
                lemma_advance(toks@, (pos + 1) as int);
            }
            if matches!(&toks[pos + 2].1, Token::EqualsSign) {
                let name = match &toks[pos + 1].1 {
                    Token::Variable(s) => Node::Name(span_of(toks, pos + 1), clone_chars(s)),
                    _ => {
                        return Err(unexpected(toks, pos + 1));
                    }
                };
                proof {
                    lemma_advance(toks@, (pos + 2) as int);
                }
                let (e1, p3) = parse_subexpr(toks, pos + 3, 0)?;
                if !matches!(&toks[p3].1, Token::Comma) {
                    return Err(unexpected(toks, p3));
                }
                proof {
                    lemma_advance(toks@, p3 as int);
                }
                let (e2, p4) = parse_subexpr(toks, p3 + 1, 0)?;
                if matches!(&toks[p4].1, Token::Comma) {
                    proof {
                        lemma_advance(toks@, p4 as int);
                    }
                    let (e3, p5) = parse_subexpr(toks, p4 + 1, 0)?;
                    if !matches!(&toks[p5].1, Token::Do) {
                        return Err(unexpected(toks, p5));
                    }
                    proof {
                        lemma_advance(toks@, p5 as int);
                    }
                    let (b, p6) = parse_block(toks, p5 + 1)?;
                    if !matches!(&toks[p6].1, Token::End) {
                        return Err(unexpected(toks, p6));
                    }
                    proof {
                        lemma_advance(toks@, p6 as int);
                    }
                    match b {
                        None => Ok(
                            (
                                Node::ForIntStep(
                                    span_of(toks, pos),
                                    [
                                        gap(toks, pos + 1),
                                        gap(toks, pos + 2),
                                        gap(toks, pos + 3),
                                        gap(toks, p3),
                                        gap(toks, p3 + 1),
                                        gap(toks, p4),
                                        gap(toks, p4 + 1),
                                        gap(toks, p5),
                                        gap(toks, p6),
                                    ],
                                    Box::new(name),
                                    Box::new(e1),
                                    Box::new(e2),
                                    Box::new(e3),
                                ),
                                p6 + 1,
                            ),
                        ),
                        Some(b) => Ok(
                            (
                                Node::ForIntStepB(
                                    span_of(toks, pos),
                                    [
                                        gap(toks, pos + 1),
                                        gap(toks, pos + 2),
                                        gap(toks, pos + 3),
                                        gap(toks, p3),
                                        gap(toks, p3 + 1),
                                        gap(toks, p4),
                                        gap(toks, p4 + 1),
                                        gap(toks, p5),
                                        gap(toks, p5 + 1),
                                        gap(toks, p6),
                                    ],
                                    Box::new(name),
                                    Box::new(e1),
                                    Box::new(e2),
                                    Box::new(e3),
                                    Box::new(b),
                                ),
                                p6 + 1,
                            ),
                        ),
                    }
                } else {
                    if !matches!(&toks[p4].1, Token::Do) {
                        return Err(unexpected(toks, p4));
                    }
                    proof {
                        lemma_advance(toks@, p4 as int);
                    }
                    let (b, p5) = parse_block(toks, p4 + 1)?;
                    if !matches!(&toks[p5].1, Token::End) {
                        return Err(unexpected(toks, p5));
                    }
                    proof {
                        lemma_advance(toks@, p5 as int);
                    }
                    match b {
                        None => Ok(
                            (
                                Node::ForInt(
                                    span_of(toks, pos),
                                    [
                                        gap(toks, pos + 1),
                                        gap(toks, pos + 2),
                                        gap(toks, pos + 3),
                                        gap(toks, p3),
                                        gap(toks, p3 + 1),
                                        gap(toks, p4),
                                        gap(toks, p5),
                                    ],
                                    Box::new(name),
                                    Box::new(e1),
                                    Box::new(e2),
                                ),
                                p5 + 1,
                            ),
                        ),
                        Some(b) => Ok(
                            (
                                Node::ForIntB(
                                    span_of(toks, pos),
                                    [
                                        gap(toks, pos + 1),
                                        gap(toks, pos + 2),
                                        gap(toks, pos + 3),
                                        gap(toks, p3),
                                        gap(toks, p3 + 1),
                                        gap(toks, p4),
                                        gap(toks, p4 + 1),
                                        gap(toks, p5),
                                    ],
                                    Box::new(name),
                                    Box::new(e1),
                                    Box::new(e2),
                                    Box::new(b),
                                ),
                                p5 + 1,
                            ),
                        ),
                    }
                }
            } else {
                let (nl, p2) = parse_namelist(toks, pos + 1, false)?;
                if !matches!(&toks[p2].1, Token::In) {
                    return Err(unexpected(toks, p2));
                }
                proof {
                    lemma_advance(toks@, p2 as int);
                }
                let (el, p3) = parse_explist(toks, p2 + 1)?;
                if !matches!(&toks[p3].1, Token::Do) {
                    return Err(unexpected(toks, p3));
                }
                proof {
                    lemma_advance(toks@, p3 as int);
                }
                let (b, p4) = parse_block(toks, p3 + 1)?;
                if !matches!(&toks[p4].1, Token::End) {
                    return Err(unexpected(toks, p4));
                }
                proof {
                    lemma_advance(toks@, p4 as int);
                }
                match b {
                    None => Ok(
                        (
                            Node::ForRange(
                                span_of(toks, pos),
                                [
                                    gap(toks, pos + 1),
                                    gap(toks, p2),
                                    gap(toks, p2 + 1),
                                    gap(toks, p3),
                                    gap(toks, p4),
                                ],
                                Box::new(nl),
                                Box::new(el),
                            ),
                            p4 + 1,
                        ),
                    ),
                    Some(b) => Ok(
                        (
                            Node::ForRangeB(
                                span_of(toks, pos),
                                [
                                    gap(toks, pos + 1),
                                    gap(toks, p2),
                                    gap(toks, p2 + 1),
                                    gap(toks, p3),
                                    gap(toks, p3 + 1),
                                    gap(toks, p4),
                                ],
                                Box::new(nl),
                                Box::new(el),
                                Box::new(b),
                            ),
                            p4 + 1,
                        ),
                    ),
                }
            }
        }
        Token::Function => {
            proof {
                lemma_advance(toks@, pos as int);
            }
            let (fname, p2) = parse_funcname(toks, pos + 1)?;
            let (body, p3) = parse_funcbody(toks, p2)?;
            Ok(
                (
                    Node::FuncDecl(
                        span_of(toks, pos),
                        [gap(toks, pos + 1), gap(toks, p2)],
                        Box::new(fname),
                        Box::new(body),
                    ),
                    p3,
                ),
            )
        }
        Token::Local => {
            proof {
                lemma_advance(toks@, pos as int);
            }
            if matches!(&toks[pos + 1].1, Token::Function) {
                proof {
                    lemma_advance(toks@, (pos + 1) as int);
                }
                let name = match &toks[pos + 2].1 {
                    Token::Variable(s) => Node::Name(span_of(toks, pos + 2), clone_chars(s)),
                    _ => {
                        return Err(unexpected(toks, pos + 2));
                    }
                };
                proof {
                    lemma_advance(toks@, (pos + 2) as int);
                }
                let (body, p3) = parse_funcbody(toks, pos + 3)?;
                Ok(
                    (
                        Node::LocalFuncDecl(
                            span_of(toks, pos),
                            [gap(toks, pos + 1), gap(toks, pos + 2), gap(toks, pos + 3)],
                            Box::new(name),
                            Box::new(body),
                        ),
                        p3,
                    ),
                )
            } else {
                let (nl, p2) = parse_namelist(toks, pos + 1, false)?;
                if matches!(&toks[p2].1, Token::EqualsSign) {
                    proof {
                        lemma_advance(toks@, p2 as int);
                    }
                    let (el, p3) = parse_explist(toks, p2 + 1)?;
                    Ok(
                        (
                            Node::LocalNamesExprs(
                                span_of(toks, pos),
                                [gap(toks, pos + 1), gap(toks, p2), gap(toks, p2 + 1)],
                                Box::new(nl),
                                Box::new(el),
                            ),
                            p3,
                        ),
                    )
                } else {
                    Ok(
                        (
                            Node::LocalNames(
                                span_of(toks, pos),
                                [gap(toks, pos + 1)],
                                Box::new(nl),
                            ),
                            p2,
                        ),
                    )
                }
            }
        }
        Token::Label => {
            proof {
                lemma_advance(toks@, pos as int);
            }
            let name = match &toks[pos + 1].1 {
                Token::Variable(s) => Node::Name(span_of(toks, pos + 1), clone_chars(s)),
                _ => {
                    return Err(unexpected(toks, pos + 1));
                }
            };
            proof {
                lemma_advance(toks@, (pos + 1) as int);
            }
            if !matches!(&toks[pos + 2].1, Token::Label) {
                return Err(unexpected(toks, pos + 2));
            }
            proof {
                lemma_advance(toks@, (pos + 2) as int);
            }
            Ok(
                (
                    Node::Label(
                        span_of(toks, pos),
                        [gap(toks, pos + 1), gap(toks, pos + 2)],
                        Box::new(name),
                    ),
                    pos + 3,
                ),
            )
        }
        Token::GoTo => {
            proof {
                lemma_advance(toks@, pos as int);
            }
            let name = match &toks[pos + 1].1 {
                Token::Variable(s) => Node::Name(span_of(toks, pos + 1), clone_chars(s)),
                _ => {
                    return Err(unexpected(toks, pos + 1));
                }
            };
            proof {
                lemma_advance(toks@, (pos + 1) as int);
            }
            Ok((Node::GoTo(span_of(toks, pos), [gap(toks, pos + 1)], Box::new(name)), pos + 2))
        }
        Token::Break => {
            proof {
                lemma_advance(toks@, pos as int);
            }
            Ok((Node::Break(span_of(toks, pos)), pos + 1))
        }
        _ => parse_exprstat(toks, pos),
    }
}

/// Parses an assignment or a call statement, both of which begin with a
/// prefix expression.
#[verifier::loop_isolation(false)]
fn parse_exprstat(toks: &Vec<(usize, Token, usize)>, pos: usize) -> (r: Result<
    (Node, usize),
    ParseError,
>)
    requires
        ptoks_ok(toks@),
        pos < toks@.len(),
    ensures
        match r {
            Ok((_, p)) => pos < p < toks@.len(),
            Err(e) => e is UnexpectedToken,
        },
    decreases toks@.len() - pos, 14nat,
{
    proof {
        lemma_token_count_bounded(toks);
    }
    let (pe, p2) = parse_suffixedexp(toks, pos)?;
    if matches!(&toks[p2].1, Token::Comma) || matches!(&toks[p2].1, Token::EqualsSign) {
        let mut items: Vec<(Loc, Node, Loc, Vec<char>)> = Vec::new();
        let mut prev: (Loc, Node) = (empty_at(toks, pos), pe);
        let mut p: usize = p2;
        loop
            invariant
                ptoks_ok(toks@),
                pos < p < toks@.len(),
            decreases toks@.len() - p,
        {
            if matches!(&toks[p].1, Token::Comma) {
                proof {
                    lemma_advance(toks@, p as int);
                }
                let q = p + 1;
                let (v, p3) = parse_suffixedexp(toks, q)?;
                let (lead, nd) = prev;
                items.push((lead, nd, gap(toks, p), crate::util::to_chars(",")));
                prev = (gap(toks, q), v);
                p = p3;
            } else {
                break;
            }
        }
        if !matches!(&toks[p].1, Token::EqualsSign) {
            return Err(unexpected(toks, p));
        }
        proof {
            lemma_advance(toks@, p as int);
        }
        let (lead, nd) = prev;
        items.push((lead, nd, empty_at(toks, p), crate::util::to_chars(",")));
        let varlist = Node::VarList(empty_at(toks, pos), items);
        let (el, p4) = parse_explist(toks, p + 1)?;
        Ok(
            (
                Node::VarsExprs(
                    span_of(toks, pos),
                    [gap(toks, p), gap(toks, p + 1)],
                    Box::new(varlist),
                    Box::new(el),
                ),
                p4,
            ),
        )
    } else {
        // only a call may stand as a statement
        let is_call = match &pe {
            Node::Var(_, _, _, chain) => match &**chain {
                Node::VarSuffixList(_, suffs) => suffs.len() > 0 && is_call_suffix(
                    &suffs[suffs.len() - 1].1,
                ),
                _ => false,
            },
            Node::VarRoundSuffix(_, _, _, chain) => match &**chain {
                Node::VarSuffixList(_, suffs) => suffs.len() > 0 && is_call_suffix(
                    &suffs[suffs.len() - 1].1,
                ),
                _ => false,
            },
            _ => false,
        };
        if is_call {
            Ok((pe, p2))
        } else {
            Err(unexpected(toks, pos))
        }
    }
}

/// Parses a block: a run of statements with an optional closing return
/// statement. `None` stands for a completely empty block, so that callers
/// can pick the body-less variant of their construct.
#[verifier::loop_isolation(false)]
fn parse_block(toks: &Vec<(usize, Token, usize)>, pos: usize) -> (r: Result<
    (Option<Node>, usize),
    ParseError,
>)
    requires
        ptoks_ok(toks@),
        pos < toks@.len(),
    ensures
        match r {
            Ok((_, p)) => pos <= p < toks@.len(),
            Err(e) => e is UnexpectedToken,
        },
    decreases toks@.len() - pos, 20nat,
{
    proof {
        lemma_token_count_bounded(toks);
    }
    let mut items: Vec<(Loc, Node)> = Vec::new();
    let mut cur: usize = pos;
    loop
        invariant
            ptoks_ok(toks@),
            pos <= cur < toks@.len(),
        decreases toks@.len() - cur,
    {
        if matches!(&toks[cur].1, Token::Return) {
            let g_ret = if cur == pos {
                empty_at(toks, cur)
            } else {
                gap(toks, cur)
            };
            let (ret, p2) = parse_retstat(toks, cur)?;
            if items.len() == 0 {
                return Ok((Some(ret), p2));
            } else {
                let span = empty_at(toks, pos);
                let stmts = Node::StatementList(span, items);
                return Ok(
                    (
                        Some(
                            Node::StatsRetStat(
                                span,
                                [g_ret],
                                Box::new(stmts),
                                Box::new(ret),
                            ),
                        ),
                        p2,
                    ),
                );
            }
        }
        if is_block_end(toks, cur) {
            break;
        }
        let lead = if items.len() == 0 || cur == 0 {
            empty_at(toks, cur)
        } else {
            gap(toks, cur)
        };
        if matches!(&toks[cur].1, Token::Semicolon) {
            proof {
                lemma_advance(toks@, cur as int);
            }
            items.push((lead, Node::Semicolon(span_of(toks, cur))));
            cur = cur + 1;
        } else {
            let (st, p2) = parse_statement(toks, cur)?;
            items.push((lead, st));
            cur = p2;
        }
    }
    if items.len() == 0 {
        Ok((None, cur))
    } else {
        Ok((Some(Node::StatementList(empty_at(toks, pos), items)), cur))
    }
}

/// Parses whole Lua source text into one chunk node. A `#!` first line is
/// accepted and carried as its own chunk variant.
pub fn parse_lua(input: &Vec<char>) -> (r: Result<Node, ParseError>)
    ensures
        match r {
            Ok(n) => n is Chunk || n is SheBangChunk,
            Err(ParseError::Lexical(e)) => exists|p: int|
                0 <= p && #[trigger] crate::lexer::sp_lex_error(input@, p, e),
            Err(_) => true,
        },
{
    let n = input.len();
    let mut start: usize = 0;
    let mut shebang: Option<Vec<char>> = None;
    if n >= 2 && input[0] == '#' && input[1] == '!' {
        let mut e: usize = 0;
        while e < n && input[e] != '\n'
            invariant
                e <= n,
                n == input@.len(),
            decreases n - e,
        {
            e = e + 1;
        }
        let mut text: Vec<char> = Vec::new();
        crate::util::push_range(&mut text, input, 0, e);
        shebang = Some(text);
        // the line break that closed the first line is printed with it
        start = if e < n {
            e + 1
        } else {
            e
        };
    }
    let toks = match tokenize(input, start) {
        Ok(toks) => toks,
        Err(e) => {
            return Err(ParseError::Lexical(e));
        }
    };
    proof {
        let ts = toks@;
        assert forall|i: int| 0 <= i < ts.len() implies (#[trigger] ts[i].0) <= ts[i].2 by {
            assert(crate::lexer::token_span_ok(input@, ts[i].0 as int, ts[i].1, ts[i].2 as int));
        }
        assert(ptoks_ok(toks@));
    }
    let (block, p) = parse_block(&toks, 0)?;
    if !is_eof(&toks, p) {
        return Err(unexpected(&toks, p));
    }
    let block_node = match block {
        Some(b) => b,
        None => Node::StatementList(Loc(start, start), Vec::new()),
    };
    let locl = Loc(start, toks[0].0);
    let locr = if p == 0 {
        empty_at(&toks, 0)
    } else {
        gap(&toks, p)
    };
    match shebang {
        Some(text) => {
            let sb = Node::SheBang(Loc(0, start), text);
            Ok(
                Node::SheBangChunk(
                    Loc(0, 0),
                    Box::new(sb),
                    locl,
                    Box::new(block_node),
                    locr,
                ),
            )
        }
        None => Ok(Node::Chunk(locl, Box::new(block_node), locr)),
    }
}

/// Parses a function body: the parameter list in parentheses, the block,
/// and `end`. The four variants record which of the two are present.
fn parse_funcbody(toks: &Vec<(usize, Token, usize)>, pos: usize) -> (r: Result<
    (Node, usize),
    ParseError,
>)
    requires
        ptoks_ok(toks@),
        pos < toks@.len(),
    ensures
        match r {
            Ok((_, p)) => pos < p < toks@.len(),
            Err(e) => e is UnexpectedToken,
        },
    decreases toks@.len() - pos, 3nat,
{
    proof {
        lemma_token_count_bounded(toks);
    }
    if !matches!(&toks[pos].1, Token::OpenRoundBracket) {
        return Err(unexpected(toks, pos));
    }
    proof {
        lemma_advance(toks@, pos as int);
    }
    let (params, p): (Option<Node>, usize) = if matches!(
        &toks[pos + 1].1,
        Token::CloseRoundBracket,
    ) {
        (None, pos + 1)
    } else {
        let (nl, p2) = parse_namelist(toks, pos + 1, true)?;
        let parlist = match nl {
            Node::NameList(l, items) => Node::ParList(l, items),
            other => other,
        };
        if !matches!(&toks[p2].1, Token::CloseRoundBracket) {
            return Err(unexpected(toks, p2));
        }
        (Some(parlist), p2)
    };
    // p is the index of the closing bracket
    proof {
        lemma_advance(toks@, p as int);
    }
    let (block, p3) = parse_block(toks, p + 1)?;
    if !matches!(&toks[p3].1, Token::End) {
        return Err(unexpected(toks, p3));
    }
    proof {
        lemma_advance(toks@, p3 as int);
    }
    let node = match (params, block) {
        (None, None) => Node::FuncBody(span_of(toks, pos), [gap(toks, p), gap(toks, p3)]),
        (None, Some(b)) => Node::FuncBodyB(
            span_of(toks, pos),
            [gap(toks, p), gap(toks, p + 1), gap(toks, p3)],
            Box::new(b),
        ),
        (Some(pl), None) => Node::FuncPBody(
            span_of(toks, pos),
            [gap(toks, pos + 1), gap(toks, p), gap(toks, p3)],
            Box::new(pl),
        ),
        (Some(pl), Some(b)) => Node::FuncPBodyB(
            span_of(toks, pos),
            [gap(toks, pos + 1), gap(toks, p), gap(toks, p + 1), gap(toks, p3)],
            Box::new(pl),
            Box::new(b),
        ),
    };
    Ok((node, p3 + 1))
}

} // verus!
