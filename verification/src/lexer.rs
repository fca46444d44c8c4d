//! The lexer: turns the source characters into a stream of offset-tagged
//! tokens. Whitespace is skipped and comments are consumed whole; their text
//! stays in the source buffer and is recovered later through spans.

use vstd::prelude::*;

use crate::util::push_range;

verus! {

#[derive(PartialEq, Eq, Debug)]
pub enum Token {
    OpExponentiation,
    OpLogicalNot,
    OpLength,
    OpMultiplication,
    OpDivision,
    OpFloorDivision,
    OpModulo,
    OpAddition,
    Minus,
    OpConcatenation,
    OpLeftShift,
    OpRightShift,
    OpBitwiseAnd,
    Tilde,
    OpBitwiseOr,
    OpEquality,
    OpInequality,
    OpLessThan,
    OpGreaterThan,
    OpLessOrEqual,
    OpGreaterOrEqual,
    OpLogicalAnd,
    OpLogicalOr,
    Variable(Vec<char>),
    Numeral(Vec<char>),
    NormalStringLiteral(Vec<char>),
    CharStringLiteral(Vec<char>),
    MultilineStringLiteral(usize, Vec<char>),
    Semicolon,
    Comma,
    Colon,
    Label,
    EqualsSign,
    Period,
    OpenRoundBracket,
    CloseRoundBracket,
    OpenSquareBracket,
    CloseSquareBracket,
    OpenCurlyBracket,
    CloseCurlyBracket,
    Break,
    Do,
    Else,
    ElseIf,
    End,
    False,
    For,
    Function,
    GoTo,
    If,
    In,
    Local,
    Nil,
    Repeat,
    Return,
    Then,
    True,
    Until,
    VarArg,
    While,
    EOF,
}

#[derive(PartialEq, Eq, Debug)]
pub enum LexicalError {
    UnrecognizedSymbol(usize, char),
    UnexpectedEOF,
}

pub open spec fn sp_digit(c: char) -> bool {
    '0' <= c && c <= '9'
}

pub open spec fn sp_hex_digit(c: char) -> bool {
    sp_digit(c) || ('a' <= c && c <= 'f') || ('A' <= c && c <= 'F')
}

pub open spec fn sp_alpha(c: char) -> bool {
    ('a' <= c && c <= 'z') || ('A' <= c && c <= 'Z')
}

pub open spec fn sp_name_char(c: char) -> bool {
    sp_alpha(c) || sp_digit(c) || c == '_'
}

pub open spec fn sp_space(c: char) -> bool {
    c == ' ' || c == '\n' || c == '\r' || c == '\t'
}

fn is_digit(c: char) -> (r: bool)
    ensures
        r == sp_digit(c),
{
    c >= '0' && c <= '9'
}

fn is_hex_digit(c: char) -> (r: bool)
    ensures
        r == sp_hex_digit(c),
{
    is_digit(c) || (c >= 'a' && c <= 'f') || (c >= 'A' && c <= 'F')
}

fn is_alpha(c: char) -> (r: bool)
    ensures
        r == sp_alpha(c),
{
    (c >= 'a' && c <= 'z') || (c >= 'A' && c <= 'Z')
}

fn is_name_char(c: char) -> (r: bool)
    ensures
        r == sp_name_char(c),
{
    is_alpha(c) || is_digit(c) || c == '_'
}

fn is_space(c: char) -> (r: bool)
    ensures
        r == sp_space(c),
{
    c == ' ' || c == '\n' || c == '\r' || c == '\t'
}

/// Whether the character at `j` is escaped: an unescaped backslash stands
/// right before it. Scanning starts just past the opening delimiter at
/// `start`, which is never itself escaped.
pub open spec fn sp_escaped(input: Seq<char>, start: int, j: int) -> bool
    decreases j - start,
{
    if j <= start + 1 {
        false
    } else {
        input[j - 1] == '\\' && !sp_escaped(input, start, j - 1)
    }
}

/// A level-`level` closing long bracket stands at `j`: `]`, exactly
/// `level` equals signs, `]`.
pub open spec fn sp_long_close_at(input: Seq<char>, level: int, j: int) -> bool {
    &&& 0 <= j
    &&& j + level + 1 < input.len()
    &&& input[j] == ']'
    &&& forall|t: int| j < t < j + level + 1 ==> input[t] == '='
    &&& input[j + level + 1] == ']'
}

/// A long-bracket opener stands at `start`: `[`, an equals run, `[`.
pub open spec fn sp_long_opener(input: Seq<char>, start: int) -> bool {
    let run = sp_equals_run(input, start + 1);
    &&& 0 <= start < input.len()
    &&& input[start] == '['
    &&& start + 1 + run < input.len()
    &&& input[start + 1 + run] == '['
}

/// Length of the run of equals signs starting at `p`.
pub open spec fn sp_equals_run(input: Seq<char>, p: int) -> int
    decreases input.len() - p,
{
    if 0 <= p < input.len() && input[p] == '=' {
        1 + sp_equals_run(input, p + 1)
    } else {
        0
    }
}

/// An equals run is never negative.
proof fn lemma_equals_run_nonneg(input: Seq<char>, p: int)
    ensures
        sp_equals_run(input, p) >= 0,
    decreases input.len() - p,
{
    if 0 <= p < input.len() && input[p] == '=' {
        lemma_equals_run_nonneg(input, p + 1);
    }
}

/// A maximal run of equals signs has exactly the length `sp_equals_run`
/// gives.
proof fn lemma_equals_run(input: Seq<char>, p: int, k: int)
    requires
        0 <= p,
        0 <= k,
        p + k <= input.len(),
        forall|t: int| p <= t < p + k ==> input[t] == '=',
        p + k < input.len() ==> input[p + k] != '=',
    ensures
        sp_equals_run(input, p) == k,
    decreases k,
{
    if k == 0 {
    } else {
        assert(input[p] == '=');
        lemma_equals_run(input, p + 1, k - 1);
    }
}

/// A well-formed exponent tail stands right after the `e` at `m`: an
/// optional minus sign, then at least one digit.
pub open spec fn sp_exp_tail(input: Seq<char>, m: int) -> bool {
    ||| (m + 1 < input.len() && sp_digit(input[m + 1]))
    ||| (m + 1 < input.len() && input[m + 1] == '-' && m + 2 < input.len() && sp_digit(
        input[m + 2],
    ))
}

/// The shape of a numeral read at `start` and ending at `end`: a mantissa
/// of digits with at most one dot up to `m`, then an optional exponent —
/// `e` or `E`, an optional minus sign, and a non-empty digit tail. The
/// numeral is maximal: the mantissa cannot be extended by a digit or a
/// first dot, an exponent letter is left out only when no tail follows it,
/// and a taken tail swallows every digit after it.
pub open spec fn sp_numeral_shape(input: Seq<char>, start: int, m: int, end: int) -> bool {
    &&& start <= m <= end <= input.len()
    &&& forall|j: int| start <= j < m ==> sp_digit(#[trigger] input[j]) || input[j] == '.'
    &&& forall|j: int, k: int|
        start <= j < k < m ==> !((#[trigger] input[j]) == '.' && (#[trigger] input[k]) == '.')
    &&& (m < input.len() ==> !sp_digit(input[m]))
    &&& (m < input.len() && input[m] == '.' ==> exists|j: int|
        start <= j < m && (#[trigger] input[j]) == '.')
    &&& (m < end ==> (input[m] == 'e' || input[m] == 'E'))
    &&& (m < end && input[m + 1] == '-' ==> m + 3 <= end && (forall|t: int|
        m + 2 <= t < end ==> sp_digit(#[trigger] input[t])))
    &&& (m < end && input[m + 1] != '-' ==> m + 2 <= end && (forall|t: int|
        m + 1 <= t < end ==> sp_digit(#[trigger] input[t])))
    &&& (m == end && start < m && m < input.len() && (input[m] == 'e' || input[m] == 'E')
        ==> !sp_exp_tail(input, m))
    &&& (m < end && end < input.len() ==> !sp_digit(input[end]))
}

/// A hex numeral fills `[l, rr)`: `0x` or `0X`, then the longest run of
/// hex digits.
pub open spec fn sp_hex_numeral(input: Seq<char>, l: int, rr: int) -> bool {
    &&& l + 2 <= rr <= input.len()
    &&& input[l] == '0'
    &&& (input[l + 1] == 'x' || input[l + 1] == 'X')
    &&& forall|j: int| l + 2 <= j < rr ==> sp_hex_digit(#[trigger] input[j])
    &&& (rr < input.len() ==> !sp_hex_digit(input[rr]))
}

/// First newline at or past `p`, or the end of the input.
pub open spec fn sp_line_end(input: Seq<char>, p: int) -> int
    decreases input.len() - p,
{
    if p < 0 || p >= input.len() {
        input.len() as int
    } else if input[p] == '\n' {
        p
    } else {
        sp_line_end(input, p + 1)
    }
}

/// Offset of the earliest level-`level` closer at or past `j`, if any.
pub open spec fn sp_find_close(input: Seq<char>, level: int, j: int) -> Option<int>
    decreases input.len() - j,
{
    if j < 0 || j >= input.len() {
        None
    } else if sp_long_close_at(input, level, j) {
        Some(j)
    } else {
        sp_find_close(input, level, j + 1)
    }
}

/// Where a comment whose text begins at `start` ends: just past the
/// earliest closer of its level for a long comment (`None` when it never
/// closes), at the next newline otherwise.
pub open spec fn sp_comment_end(input: Seq<char>, start: int) -> Option<int> {
    if sp_long_opener(input, start) {
        let run = sp_equals_run(input, start + 1);
        match sp_find_close(input, run, start + 2 + run) {
            Some(j) => Some(j + run + 2),
            None => None,
        }
    } else {
        Some(sp_line_end(input, start))
    }
}

/// The region `[a, b)` holds only trivia: each step is one whitespace
/// character or one whole comment.
pub open spec fn sp_trivia(input: Seq<char>, a: int, b: int) -> bool
    decreases b - a,
{
    if a >= b {
        a == b
    } else if sp_space(input[a]) {
        sp_trivia(input, a + 1, b)
    } else if input[a] == '-' && a + 1 < b && input[a + 1] == '-' {
        match sp_comment_end(input, a + 2) {
            Some(e) => a + 2 <= e <= b && sp_trivia(input, e, b),
            None => false,
        }
    } else {
        false
    }
}

/// A character that can open a token: an operator or punctuation mark, a
/// quote, a digit, or the first character of a name.
pub open spec fn sp_token_lead(c: char) -> bool {
    ||| c == '^'
    ||| c == '#'
    ||| c == '*'
    ||| c == '%'
    ||| c == '/'
    ||| c == '+'
    ||| c == '-'
    ||| c == '.'
    ||| c == '<'
    ||| c == '>'
    ||| c == '&'
    ||| c == '~'
    ||| c == '|'
    ||| c == '='
    ||| c == ';'
    ||| c == ','
    ||| c == ':'
    ||| c == '('
    ||| c == ')'
    ||| c == '{'
    ||| c == '}'
    ||| c == '['
    ||| c == ']'
    ||| c == '"'
    ||| c == '\''
    ||| sp_digit(c)
    ||| sp_alpha(c)
    ||| c == '_'
}

/// The shapes on which lexing fails at `a`, once leading trivia is behind:
/// an unrecognized symbol is a character that opens no token, or the stray
/// character after a `[` + equals run that never becomes a long bracket;
/// an unexpected end of file is an unclosed long comment, an unclosed long
/// bracket (or one cut off inside its equals run), or a short string whose
/// quote is never matched.
pub open spec fn sp_lex_error_at(input: Seq<char>, a: int, e: LexicalError) -> bool {
    &&& 0 <= a < input.len()
    &&& match e {
        LexicalError::UnrecognizedSymbol(i, c) => {
            ||| (i == a && input[a] == c && !sp_token_lead(c))
            ||| {
                let k = sp_equals_run(input, a + 1);
                &&& input[a] == '['
                &&& k >= 1
                &&& a + 1 + k < input.len()
                &&& input[a + 1 + k] != '['
                &&& i == a + 1 + k
                &&& input[a + 1 + k] == c
            }
        },
        LexicalError::UnexpectedEOF => {
            ||| (input[a] == '-' && a + 1 < input.len() && input[a + 1] == '-' && sp_comment_end(
                input,
                a + 2,
            ) is None)
            ||| (input[a] == '[' && {
                let k = sp_equals_run(input, a + 1);
                ||| (k >= 1 && a + 1 + k >= input.len())
                ||| (sp_long_opener(input, a) && sp_find_close(input, k, a + 2 + k) is None)
            })
            ||| ((input[a] == '"' || input[a] == '\'') && (forall|j: int|
                a < j < input.len() ==> !(input[j] == input[a] && !sp_escaped(input, a, j))))
        },
    }
}

/// Lexing from `p` fails with `e`: past some trivia the input shows one of
/// the failing shapes of `sp_lex_error_at`. Where no such shape stands,
/// the next token is owed.
pub open spec fn sp_lex_error(input: Seq<char>, p: int, e: LexicalError) -> bool {
    exists|a: int| sp_trivia(input, p, a) && #[trigger] sp_lex_error_at(input, a, e)
}

/// Where no closer stands anywhere at or past `from`, the search finds
/// none.
proof fn lemma_find_close_none(input: Seq<char>, level: int, from: int)
    requires
        forall|j2: int| j2 >= from ==> !sp_long_close_at(input, level, j2),
    ensures
        sp_find_close(input, level, from) is None,
    decreases input.len() - from,
{
    if 0 <= from < input.len() {
        lemma_find_close_none(input, level, from + 1);
    }
}

/// A run without newlines up to one ends exactly where `sp_line_end` says.
proof fn lemma_line_end(input: Seq<char>, p: int, e: int)
    requires
        0 <= p <= e <= input.len(),
        forall|j: int| p <= j < e ==> input[j] != '\n',
        e < input.len() ==> input[e] == '\n',
    ensures
        sp_line_end(input, p) == e,
    decreases e - p,
{
    if p < e {
        lemma_line_end(input, p + 1, e);
    }
}

/// The earliest closer is exactly what `sp_find_close` finds.
proof fn lemma_find_close(input: Seq<char>, level: int, from: int, j: int)
    requires
        0 <= level,
        0 <= from <= j,
        sp_long_close_at(input, level, j),
        forall|j2: int| from <= j2 < j ==> !sp_long_close_at(input, level, j2),
    ensures
        sp_find_close(input, level, from) == Some(j),
    decreases j - from,
{
    if from < j {
        lemma_find_close(input, level, from + 1, j);
    } else {
        assert(j < input.len());
    }
}

/// A trivia region grows by one more whitespace character or one more
/// comment at its end.
proof fn lemma_trivia_extend(input: Seq<char>, a: int, p: int, q: int)
    requires
        0 <= a <= p < q <= input.len(),
        sp_trivia(input, a, p),
        (q == p + 1 && sp_space(input[p])) || (input[p] == '-' && p + 1 < input.len()
            && input[p + 1] == '-' && sp_comment_end(input, p + 2) == Some(q) && p + 2 <= q),
    ensures
        sp_trivia(input, a, q),
    decreases p - a,
{
    if a == p {
        if sp_space(input[p]) && q == p + 1 {
            assert(sp_trivia(input, q, q));
        } else {
            assert(sp_trivia(input, q, q));
            assert(sp_trivia(input, p, q));
        }
    } else {
        if sp_space(input[a]) {
            lemma_trivia_extend(input, a + 1, p, q);
        } else {
            match sp_comment_end(input, a + 2) {
                Some(e) => {
                    lemma_trivia_extend(input, e, p, q);
                }
                None => {
                    assert(false);
                }
            }
        }
    }
}

/// The fixed keyword table: the token a reserved word lexes to, `None` for
/// an ordinary identifier.
pub open spec fn spec_keyword(s: Seq<char>) -> Option<Token> {
    if s == "and"@ {
        Some(Token::OpLogicalAnd)
    } else if s == "break"@ {
        Some(Token::Break)
    } else if s == "do"@ {
        Some(Token::Do)
    } else if s == "else"@ {
        Some(Token::Else)
    } else if s == "elseif"@ {
        Some(Token::ElseIf)
    } else if s == "end"@ {
        Some(Token::End)
    } else if s == "false"@ {
        Some(Token::False)
    } else if s == "for"@ {
        Some(Token::For)
    } else if s == "function"@ {
        Some(Token::Function)
    } else if s == "goto"@ {
        Some(Token::GoTo)
    } else if s == "if"@ {
        Some(Token::If)
    } else if s == "in"@ {
        Some(Token::In)
    } else if s == "local"@ {
        Some(Token::Local)
    } else if s == "nil"@ {
        Some(Token::Nil)
    } else if s == "not"@ {
        Some(Token::OpLogicalNot)
    } else if s == "or"@ {
        Some(Token::OpLogicalOr)
    } else if s == "repeat"@ {
        Some(Token::Repeat)
    } else if s == "return"@ {
        Some(Token::Return)
    } else if s == "then"@ {
        Some(Token::Then)
    } else if s == "true"@ {
        Some(Token::True)
    } else if s == "until"@ {
        Some(Token::Until)
    } else if s == "while"@ {
        Some(Token::While)
    } else {
        None
    }
}

/// Looks a word up in the keyword table.
fn keyword_token(w: &Vec<char>) -> (r: Option<Token>)
    ensures
        r == spec_keyword(w@),
        match r {
            Some(t) => spec_token_text(t) == w@,
            None => true,
        },
{
    if crate::util::chars_eq_str(w, "and") {
        Some(Token::OpLogicalAnd)
    } else if crate::util::chars_eq_str(w, "break") {
        Some(Token::Break)
    } else if crate::util::chars_eq_str(w, "do") {
        Some(Token::Do)
    } else if crate::util::chars_eq_str(w, "else") {
        Some(Token::Else)
    } else if crate::util::chars_eq_str(w, "elseif") {
        Some(Token::ElseIf)
    } else if crate::util::chars_eq_str(w, "end") {
        Some(Token::End)
    } else if crate::util::chars_eq_str(w, "false") {
        Some(Token::False)
    } else if crate::util::chars_eq_str(w, "for") {
        Some(Token::For)
    } else if crate::util::chars_eq_str(w, "function") {
        Some(Token::Function)
    } else if crate::util::chars_eq_str(w, "goto") {
        Some(Token::GoTo)
    } else if crate::util::chars_eq_str(w, "if") {
        Some(Token::If)
    } else if crate::util::chars_eq_str(w, "in") {
        Some(Token::In)
    } else if crate::util::chars_eq_str(w, "local") {
        Some(Token::Local)
    } else if crate::util::chars_eq_str(w, "nil") {
        Some(Token::Nil)
    } else if crate::util::chars_eq_str(w, "not") {
        Some(Token::OpLogicalNot)
    } else if crate::util::chars_eq_str(w, "or") {
        Some(Token::OpLogicalOr)
    } else if crate::util::chars_eq_str(w, "repeat") {
        Some(Token::Repeat)
    } else if crate::util::chars_eq_str(w, "return") {
        Some(Token::Return)
    } else if crate::util::chars_eq_str(w, "then") {
        Some(Token::Then)
    } else if crate::util::chars_eq_str(w, "true") {
        Some(Token::True)
    } else if crate::util::chars_eq_str(w, "until") {
        Some(Token::Until)
    } else if crate::util::chars_eq_str(w, "while") {
        Some(Token::While)
    } else {
        None
    }
}

/// The spelling of a token, as the printer writes it: literal-carrying
/// tokens keep their payload between their delimiters, and the `EOF` item
/// has no spelling.
pub open spec fn spec_token_text(t: Token) -> Seq<char> {
    match t {
        Token::OpExponentiation => "^"@,
        Token::OpLogicalNot => "not"@,
        Token::OpLength => "#"@,
        Token::OpMultiplication => "*"@,
        Token::OpDivision => "/"@,
        Token::OpFloorDivision => "//"@,
        Token::OpModulo => "%"@,
        Token::OpAddition => "+"@,
        Token::Minus => "-"@,
        Token::OpConcatenation => ".."@,
        Token::OpLeftShift => "<<"@,
        Token::OpRightShift => ">>"@,
        Token::OpBitwiseAnd => "&"@,
        Token::Tilde => "~"@,
        Token::OpBitwiseOr => "|"@,
        Token::OpEquality => "=="@,
        Token::OpInequality => "~="@,
        Token::OpLessThan => "<"@,
        Token::OpGreaterThan => ">"@,
        Token::OpLessOrEqual => "<="@,
        Token::OpGreaterOrEqual => ">="@,
        Token::OpLogicalAnd => "and"@,
        Token::OpLogicalOr => "or"@,
        Token::Variable(s) => s@,
        Token::Numeral(s) => s@,
        Token::NormalStringLiteral(s) => "\""@ + s@ + "\""@,
        Token::CharStringLiteral(s) => "'"@ + s@ + "'"@,
        Token::MultilineStringLiteral(k, s) => "["@ + crate::util::repeat_chars(
            seq!['='],
            k as nat,
        ) + "["@ + s@ + "]"@ + crate::util::repeat_chars(seq!['='], k as nat) + "]"@,
        Token::Semicolon => ";"@,
        Token::Comma => ","@,
        Token::Colon => ":"@,
        Token::Label => "::"@,
        Token::EqualsSign => "="@,
        Token::Period => "."@,
        Token::OpenRoundBracket => "("@,
        Token::CloseRoundBracket => ")"@,
        Token::OpenSquareBracket => "["@,
        Token::CloseSquareBracket => "]"@,
        Token::OpenCurlyBracket => "{"@,
        Token::CloseCurlyBracket => "}"@,
        Token::Break => "break"@,
        Token::Do => "do"@,
        Token::Else => "else"@,
        Token::ElseIf => "elseif"@,
        Token::End => "end"@,
        Token::False => "false"@,
        Token::For => "for"@,
        Token::Function => "function"@,
        Token::GoTo => "goto"@,
        Token::If => "if"@,
        Token::In => "in"@,
        Token::Local => "local"@,
        Token::Nil => "nil"@,
        Token::Repeat => "repeat"@,
        Token::Return => "return"@,
        Token::Then => "then"@,
        Token::True => "true"@,
        Token::Until => "until"@,
        Token::VarArg => "..."@,
        Token::While => "while"@,
        Token::EOF => Seq::empty(),
    }
}

/// The spelling of a token, as `spec_token_text` gives it.
pub fn token_text(t: &Token) -> (r: Vec<char>)
    ensures
        r@ == spec_token_text(*t),
{
    match t {
        Token::OpExponentiation => crate::util::to_chars("^"),
        Token::OpLogicalNot => crate::util::to_chars("not"),
        Token::OpLength => crate::util::to_chars("#"),
        Token::OpMultiplication => crate::util::to_chars("*"),
        Token::OpDivision => crate::util::to_chars("/"),
        Token::OpFloorDivision => crate::util::to_chars("//"),
        Token::OpModulo => crate::util::to_chars("%"),
        Token::OpAddition => crate::util::to_chars("+"),
        Token::Minus => crate::util::to_chars("-"),
        Token::OpConcatenation => crate::util::to_chars(".."),
        Token::OpLeftShift => crate::util::to_chars("<<"),
        Token::OpRightShift => crate::util::to_chars(">>"),
        Token::OpBitwiseAnd => crate::util::to_chars("&"),
        Token::Tilde => crate::util::to_chars("~"),
        Token::OpBitwiseOr => crate::util::to_chars("|"),
        Token::OpEquality => crate::util::to_chars("=="),
        Token::OpInequality => crate::util::to_chars("~="),
        Token::OpLessThan => crate::util::to_chars("<"),
        Token::OpGreaterThan => crate::util::to_chars(">"),
        Token::OpLessOrEqual => crate::util::to_chars("<="),
        Token::OpGreaterOrEqual => crate::util::to_chars(">="),
        Token::OpLogicalAnd => crate::util::to_chars("and"),
        Token::OpLogicalOr => crate::util::to_chars("or"),
        Token::Variable(s) => crate::util::clone_chars(s),
        Token::Numeral(s) => crate::util::clone_chars(s),
        Token::NormalStringLiteral(s) => {
            let mut out = crate::util::to_chars("\"");
            crate::util::push_chars(&mut out, s);
            crate::util::push_str(&mut out, "\"");
            proof {
                assert(out@ =~= spec_token_text(Token::NormalStringLiteral(*s)));
            }
            out
        }
        Token::CharStringLiteral(s) => {
            let mut out = crate::util::to_chars("'");
            crate::util::push_chars(&mut out, s);
            crate::util::push_str(&mut out, "'");
            proof {
                assert(out@ =~= spec_token_text(Token::CharStringLiteral(*s)));
            }
            out
        }
        Token::MultilineStringLiteral(k, s) => {
            let mut out = crate::util::to_chars("[");
            crate::comment::push_equals(&mut out, *k);
            crate::util::push_str(&mut out, "[");
            crate::util::push_chars(&mut out, s);
            crate::util::push_str(&mut out, "]");
            crate::comment::push_equals(&mut out, *k);
            crate::util::push_str(&mut out, "]");
            proof {
                assert(out@ =~= spec_token_text(Token::MultilineStringLiteral(*k, *s)));
            }
            out
        }
        Token::Semicolon => crate::util::to_chars(";"),
        Token::Comma => crate::util::to_chars(","),
        Token::Colon => crate::util::to_chars(":"),
        Token::Label => crate::util::to_chars("::"),
        Token::EqualsSign => crate::util::to_chars("="),
        Token::Period => crate::util::to_chars("."),
        Token::OpenRoundBracket => crate::util::to_chars("("),
        Token::CloseRoundBracket => crate::util::to_chars(")"),
        Token::OpenSquareBracket => crate::util::to_chars("["),
        Token::CloseSquareBracket => crate::util::to_chars("]"),
        Token::OpenCurlyBracket => crate::util::to_chars("{"),
        Token::CloseCurlyBracket => crate::util::to_chars("}"),
        Token::Break => crate::util::to_chars("break"),
        Token::Do => crate::util::to_chars("do"),
        Token::Else => crate::util::to_chars("else"),
        Token::ElseIf => crate::util::to_chars("elseif"),
        Token::End => crate::util::to_chars("end"),
        Token::False => crate::util::to_chars("false"),
        Token::For => crate::util::to_chars("for"),
        Token::Function => crate::util::to_chars("function"),
        Token::GoTo => crate::util::to_chars("goto"),
        Token::If => crate::util::to_chars("if"),
        Token::In => crate::util::to_chars("in"),
        Token::Local => crate::util::to_chars("local"),
        Token::Nil => crate::util::to_chars("nil"),
        Token::Repeat => crate::util::to_chars("repeat"),
        Token::Return => crate::util::to_chars("return"),
        Token::Then => crate::util::to_chars("then"),
        Token::True => crate::util::to_chars("true"),
        Token::Until => crate::util::to_chars("until"),
        Token::VarArg => crate::util::to_chars("..."),
        Token::While => crate::util::to_chars("while"),
        Token::EOF => Vec::new(),
    }
}

/// How a token is described to a reader, in a parse error: fixed tokens by
/// their spelling, identifier and numeral payloads wrapped in double
/// quotes like the string literals, and the `EOF` item as `<EOF>`.
pub open spec fn spec_token_description(t: Token) -> Seq<char> {
    match t {
        Token::Variable(s) => "\""@ + s@ + "\""@,
        Token::Numeral(s) => "\""@ + s@ + "\""@,
        Token::EOF => "<EOF>"@,
        _ => spec_token_text(t),
    }
}

/// The description of a token, as `spec_token_description` spells it.
pub fn token_description(t: &Token) -> (r: Vec<char>)
    ensures
        r@ == spec_token_description(*t),
{
    match t {
        Token::Variable(s) => {
            let mut out = crate::util::to_chars("\"");
            crate::util::push_chars(&mut out, s);
            crate::util::push_str(&mut out, "\"");
            proof {
                assert(out@ =~= spec_token_description(Token::Variable(*s)));
            }
            out
        }
        Token::Numeral(s) => {
            let mut out = crate::util::to_chars("\"");
            crate::util::push_chars(&mut out, s);
            crate::util::push_str(&mut out, "\"");
            proof {
                assert(out@ =~= spec_token_description(Token::Numeral(*s)));
            }
            out
        }
        Token::EOF => crate::util::to_chars("<EOF>"),
        _ => token_text(t),
    }
}

/// How a token corresponds to the text at its span. Fixed tokens spell
/// exactly their source slice; a name is a maximal identifier run that is
/// not a keyword; strings carry their delimiters; a long string sits
/// between a level-`k` opener and closer. Payload equality is part of
/// `token_span_ok`.
pub open spec fn token_spells_text(input: Seq<char>, l: int, t: Token, rr: int) -> bool {
    match t {
        Token::EOF => true,
        Token::Variable(s) => {
            &&& sp_alpha(input[l]) || input[l] == '_'
            &&& forall|j: int| l <= j < rr ==> sp_name_char(#[trigger] input[j])
            &&& rr < input.len() ==> !sp_name_char(input[rr])
            &&& spec_keyword(s@) is None
        },
        Token::Numeral(_) => {
            if l + 1 < input.len() && input[l] == '0' && (input[l + 1] == 'x' || input[l + 1]
                == 'X') {
                sp_hex_numeral(input, l, rr)
            } else {
                &&& (sp_digit(input[l]) || input[l] == '.')
                &&& exists|m: int| sp_numeral_shape(input, l, m, rr)
            }
        },
        Token::NormalStringLiteral(_) => {
            &&& input[l] == '"'
            &&& l < rr - 1
            &&& input[rr - 1] == '"'
            &&& !sp_escaped(input, l, rr - 1)
            &&& forall|k: int| l < k < rr - 1 ==> !(input[k] == '"' && !sp_escaped(input, l, k))
        },
        Token::CharStringLiteral(_) => {
            &&& input[l] == '\''
            &&& l < rr - 1
            &&& input[rr - 1] == '\''
            &&& !sp_escaped(input, l, rr - 1)
            &&& forall|k: int| l < k < rr - 1 ==> !(input[k] == '\'' && !sp_escaped(input, l, k))
        },
        Token::MultilineStringLiteral(k, _) => {
            &&& input[l] == '['
            &&& forall|j: int| l < j < l + 1 + k ==> (#[trigger] input[j]) == '='
            &&& input[l + 1 + k] == '['
            &&& sp_long_close_at(input, k as int, rr - k - 2)
        },
        Token::OpDivision => input.subrange(l, rr) == spec_token_text(t) && (rr >= input.len()
            || input[rr] != '/'),
        Token::Minus => input.subrange(l, rr) == spec_token_text(t) && (rr >= input.len()
            || input[rr] != '-'),
        Token::Period => input.subrange(l, rr) == spec_token_text(t) && (rr >= input.len() || (
        input[rr] != '.' && !sp_digit(input[rr]))),
        Token::OpConcatenation => input.subrange(l, rr) == spec_token_text(t) && (rr
            >= input.len() || input[rr] != '.'),
        Token::OpLessThan => input.subrange(l, rr) == spec_token_text(t) && (rr >= input.len()
            || (input[rr] != '<' && input[rr] != '=')),
        Token::OpGreaterThan => input.subrange(l, rr) == spec_token_text(t) && (rr
            >= input.len() || (input[rr] != '>' && input[rr] != '=')),
        Token::Tilde => input.subrange(l, rr) == spec_token_text(t) && (rr >= input.len()
            || input[rr] != '='),
        Token::EqualsSign => input.subrange(l, rr) == spec_token_text(t) && (rr >= input.len()
            || input[rr] != '='),
        Token::Colon => input.subrange(l, rr) == spec_token_text(t) && (rr >= input.len()
            || input[rr] != ':'),
        Token::OpenSquareBracket => input.subrange(l, rr) == spec_token_text(t)
            && !sp_long_opener(input, l),
        _ => input.subrange(l, rr) == spec_token_text(t),
    }
}

/// What a well-formed token promises about its span: it lies inside the
/// input, literal payloads are exactly the spanned characters with their
/// delimiters stripped, and only `EOF` is empty.
pub open spec fn token_span_ok(input: Seq<char>, l: int, t: Token, r: int) -> bool {
    &&& 0 <= l <= r <= input.len()
    &&& match t {
        Token::EOF => l == input.len() && r == input.len(),
        Token::Variable(s) => l < r && s@ == input.subrange(l, r),
        Token::Numeral(s) => l < r && s@ == input.subrange(l, r),
        Token::NormalStringLiteral(s) => l + 2 <= r && s@ == input.subrange(l + 1, r - 1),
        Token::CharStringLiteral(s) => l + 2 <= r && s@ == input.subrange(l + 1, r - 1),
        Token::MultilineStringLiteral(k, s) => l + 2 * (k + 2) <= r && s@ == input.subrange(
            l + k + 2,
            r - k - 2,
        ),
        _ => l < r,
    }
}

pub struct Lexer {
    pub input: Vec<char>,
    pub pos: usize,
    pub at_end: bool,
}

impl Lexer {
    pub open spec fn wf(&self) -> bool {
        self.pos <= self.input@.len()
    }

    pub fn new(input: Vec<char>) -> (r: Lexer)
        ensures
            r.input@ == input@,
            r.pos == 0,
            r.at_end == false,
            r.wf(),
    {
        Lexer { input, pos: 0, at_end: false }
    }

    /// First offset at or past `start` that does not hold a decimal digit.
    fn get_integer_end(&self, start: usize) -> (end: usize)
        requires
            start <= self.input@.len(),
        ensures
            start <= end <= self.input@.len(),
            forall|j: int| start <= j < end ==> sp_digit(self.input@[j]),
            end < self.input@.len() ==> !sp_digit(self.input@[end as int]),
    {
        let mut i: usize = start;
        while i < self.input.len() && is_digit(self.input[i])
            invariant
                start <= i <= self.input@.len(),
                forall|j: int| start <= j < i ==> sp_digit(self.input@[j]),
            decreases self.input@.len() - i,
        {
            i = i + 1;
        }
        i
    }

    /// First offset at or past `start` that does not hold a hex digit.
    fn get_hex_integer_end(&self, start: usize) -> (end: usize)
        requires
            start <= self.input@.len(),
        ensures
            start <= end <= self.input@.len(),
            forall|j: int| start <= j < end ==> sp_hex_digit(self.input@[j]),
            end < self.input@.len() ==> !sp_hex_digit(self.input@[end as int]),
    {
        let mut i: usize = start;
        while i < self.input.len() && is_hex_digit(self.input[i])
            invariant
                start <= i <= self.input@.len(),
                forall|j: int| start <= j < i ==> sp_hex_digit(self.input@[j]),
            decreases self.input@.len() - i,
        {
            i = i + 1;
        }
        i
    }

    /// End of a numeral read at `start`: digits with at most one dot, then an
    /// optional exponent with its optional minus sign and a non-empty digit
    /// tail.
    #[verifier::loop_isolation(false)]
    fn get_float_end(&self, start: usize) -> (end: usize)
        requires
            start <= self.input@.len(),
        ensures
            start <= end <= self.input@.len(),
            start < self.input@.len() && (sp_digit(self.input@[start as int])
                || self.input@[start as int] == '.') ==> end > start,
            exists|m: int| sp_numeral_shape(self.input@, start as int, m, end as int),
    {
        let n = self.input.len();
        let mut i: usize = start;
        let mut seen_dot = false;
        while i < n && (is_digit(self.input[i]) || (self.input[i] == '.' && !seen_dot))
            invariant
                start <= i <= n,
                n == self.input@.len(),
                seen_dot <==> exists|j: int|
                    start <= j < i && (#[trigger] self.input@[j]) == '.',
                forall|j: int|
                    start <= j < i ==> sp_digit(#[trigger] self.input@[j]) || self.input@[j]
                        == '.',
                forall|j: int, k: int|
                    start <= j < k < i ==> !((#[trigger] self.input@[j]) == '.' && (
                    #[trigger] self.input@[k]) == '.'),
            decreases n - i,
        {
            if self.input[i] == '.' {
                seen_dot = true;
            }
            i = i + 1;
        }
        if i > start && i < n && (self.input[i] == 'e' || self.input[i] == 'E') {
            let mut j: usize = i + 1;
            if j < n && self.input[j] == '-' {
                j = j + 1;
            }
            if j < n && is_digit(self.input[j]) {
                let tail = self.get_integer_end(j);
                proof {
                    assert(sp_numeral_shape(self.input@, start as int, i as int, tail as int));
                }
                return tail;
            }
            proof {
                assert(!sp_exp_tail(self.input@, i as int));
                assert(sp_numeral_shape(self.input@, start as int, i as int, i as int));
            }
            return i;
        }
        proof {
            assert(sp_numeral_shape(self.input@, start as int, i as int, i as int));
        }
        i
    }

    /// First offset at or past `start` that cannot continue an identifier.
    fn get_variable_end(&self, start: usize) -> (end: usize)
        requires
            start <= self.input@.len(),
        ensures
            start <= end <= self.input@.len(),
            forall|j: int| start <= j < end ==> sp_name_char(self.input@[j]),
            end < self.input@.len() ==> !sp_name_char(self.input@[end as int]),
    {
        let mut i: usize = start;
        while i < self.input.len() && is_name_char(self.input[i])
            invariant
                start <= i <= self.input@.len(),
                forall|j: int| start <= j < i ==> sp_name_char(self.input@[j]),
            decreases self.input@.len() - i,
        {
            i = i + 1;
        }
        i
    }

    /// Offset of the first unescaped closing quote of a short string whose
    /// opening quote stands at `start`; a backslash escapes the following
    /// character. `None` when the string never closes.
    #[verifier::loop_isolation(false)]
    fn get_string_end(&self, prefix: char, start: usize) -> (r: Option<usize>)
        requires
            start < self.input@.len(),
        ensures
            match r {
                Some(j) => start < j < self.input@.len() && self.input@[j as int] == prefix
                    && !sp_escaped(self.input@, start as int, j as int) && (forall|k: int|
                    start < k < j ==> !(self.input@[k] == prefix && !sp_escaped(
                        self.input@,
                        start as int,
                        k,
                    ))),
                None => forall|k: int|
                    start < k < self.input@.len() ==> !(self.input@[k] == prefix && !sp_escaped(
                        self.input@,
                        start as int,
                        k,
                    )),
            },
    {
        let n = self.input.len();
        let mut i: usize = start + 1;
        let mut escaped = false;
        while i < n
            invariant
                start < i,
                n == self.input@.len(),
                escaped == sp_escaped(self.input@, start as int, i as int),
                forall|k: int|
                    start < k < i ==> !(self.input@[k] == prefix && !sp_escaped(
                        self.input@,
                        start as int,
                        k,
                    )),
            decreases n - i,
        {
            let c = self.input[i];
            if !escaped && c == prefix {
                return Some(i);
            }
            escaped = !escaped && c == '\\';
            i = i + 1;
        }
        None
    }

    /// First newline at or past `start`, or the end of the input.
    fn get_oneline_comment_end(&self, start: usize) -> (end: usize)
        requires
            start <= self.input@.len(),
        ensures
            start <= end <= self.input@.len(),
            forall|j: int| start <= j < end ==> self.input@[j] != '\n',
            end < self.input@.len() ==> self.input@[end as int] == '\n',
    {
        let mut i: usize = start;
        while i < self.input.len() && self.input[i] != '\n'
            invariant
                start <= i <= self.input@.len(),
                forall|j: int| start <= j < i ==> self.input@[j] != '\n',
            decreases self.input@.len() - i,
        {
            i = i + 1;
        }
        i
    }

    /// Length of the run of `=` signs starting at `start`: the level of a
    /// long bracket whose first `[` stands just before.
    fn get_multiline_string_level(&self, start: usize) -> (k: usize)
        requires
            start <= self.input@.len(),
        ensures
            start + k <= self.input@.len(),
            forall|j: int| start <= j < start + k ==> self.input@[j] == '=',
            start + k < self.input@.len() ==> self.input@[start + k] != '=',
    {
        let mut i: usize = start;
        while i < self.input.len() && self.input[i] == '='
            invariant
                start <= i <= self.input@.len(),
                forall|j: int| start <= j < i ==> self.input@[j] == '=',
            decreases self.input@.len() - i,
        {
            i = i + 1;
        }
        i - start
    }

    /// Offset of the `]` opening the first level-`level` closer at or past
    /// `start`; an earlier `]` at the wrong level belongs to the payload.
    /// `None` when no closer of this level follows.
    #[verifier::loop_isolation(false)]
    fn get_multiline_string_end(&self, level: usize, start: usize) -> (r: Option<usize>)
        requires
            start <= self.input@.len(),
        ensures
            match r {
                Some(j) => start <= j && sp_long_close_at(self.input@, level as int, j as int)
                    && (forall|j2: int|
                    start <= j2 < j ==> !sp_long_close_at(self.input@, level as int, j2)),
                None => forall|j2: int|
                    j2 >= start ==> !sp_long_close_at(self.input@, level as int, j2),
            },
    {
        let n = self.input.len();
        let mut i: usize = start;
        while i < n
            invariant
                start <= i,
                n == self.input@.len(),
                forall|j2: int|
                    start <= j2 < i ==> !sp_long_close_at(self.input@, level as int, j2),
            decreases n - i,
        {
            if self.input[i] == ']' {
                let k = self.get_multiline_string_level(i + 1);
                if k == level && i + 1 + k < n && self.input[i + 1 + k] == ']' {
                    proof {
                        assert(sp_long_close_at(self.input@, level as int, i as int));
                    }
                    return Some(i);
                }
                proof {
                    // not a closer here: the equals run is too short, too
                    // long, or the second bracket is missing
                    if sp_long_close_at(self.input@, level as int, i as int) {
                        if k < level {
                            assert(self.input@[i + 1 + k] == '=');
                        } else if k > level {
                            assert(self.input@[i + 1 + level] == '=');
                        }
                        assert(false);
                    }
                }
            }
            i = i + 1;
        }
        proof {
            assert forall|j2: int| j2 >= start implies !sp_long_close_at(
                self.input@,
                level as int,
                j2,
            ) by {
                if j2 < n {
                } else {
                }
            }
        }
        None
    }

    /// Consumes a comment whose text begins at `start` (just past the `--`).
    /// A long-bracket opener starts a long comment that ends just past the
    /// earliest closer of its level, or fails with `None` when it never
    /// closes; anything else runs to the next newline or the end of the
    /// input.
    fn process_comment(&self, start: usize) -> (r: Option<usize>)
        requires
            start <= self.input@.len(),
        ensures
            match r {
                Some(end) => start <= end <= self.input@.len(),
                None => true,
            },
            ({
                let input = self.input@;
                let run = sp_equals_run(input, start + 1);
                if sp_long_opener(input, start as int) {
                    match r {
                        Some(end) => start + 2 + run <= end - run - 2 && sp_long_close_at(
                            input,
                            run,
                            end - run - 2,
                        ) && (forall|j2: int|
                            start + 2 + run <= j2 < end - run - 2 ==> !sp_long_close_at(
                                input,
                                run,
                                j2,
                            )),
                        None => forall|j2: int|
                            j2 >= start + 2 + run ==> !sp_long_close_at(input, run, j2),
                    }
                } else {
                    match r {
                        Some(end) => start <= end <= input.len() && (forall|j: int|
                            start <= j < end ==> input[j] != '\n') && (end < input.len()
                            ==> input[end as int] == '\n'),
                        None => false,
                    }
                }
            }),
    {
        let n = self.input.len();
        if start < n && self.input[start] == '[' {
            let k = self.get_multiline_string_level(start + 1);
            proof {
                lemma_equals_run(self.input@, start + 1, k as int);
            }
            if start + 1 + k < n && self.input[start + 1 + k] == '[' {
                // a long comment of level k
                let body = start + 2 + k;
                match self.get_multiline_string_end(k, body) {
                    Some(j) => Some(j + k + 2),
                    None => None,
                }
            } else {
                Some(self.get_oneline_comment_end(start))
            }
        } else {
            Some(self.get_oneline_comment_end(start))
        }
    }

    /// The next token of the stream, or `None` once `EOF` has been handed
    /// out. Whitespace and comments before the token are consumed here.
    #[verifier::loop_isolation(false)]
    #[verifier::rlimit(100)]
    #[verifier::spinoff_prover]
    pub fn next_token(&mut self) -> (r: Option<
        Result<(usize, Token, usize), LexicalError>,
    >)
        requires
            old(self).wf(),
        ensures
            final(self).wf(),
            final(self).input@ == old(self).input@,
            final(self).pos >= old(self).pos,
            old(self).at_end ==> r is None,
            r is None ==> final(self).at_end,
            !old(self).at_end ==> r is Some,
            old(self).pos == old(self).input@.len() && !old(self).at_end ==> r == Some(
                Ok::<(usize, Token, usize), LexicalError>(
                    (old(self).pos, Token::EOF, old(self).pos),
                ),
            ),
            match r {
                Some(Ok((l, t, rr))) => {
                    &&& token_span_ok(final(self).input@, l as int, t, rr as int)
                    &&& token_spells_text(final(self).input@, l as int, t, rr as int)
                    &&& sp_trivia(final(self).input@, old(self).pos as int, l as int)
                    &&& old(self).pos <= l
                    &&& (t is EOF <==> final(self).at_end)
                    &&& final(self).pos == rr
                },
                Some(Err(e)) => {
                    &&& final(self).pos == final(self).input@.len()
                    &&& sp_lex_error(final(self).input@, old(self).pos as int, e)
                },
                _ => true,
            },
    {
        if self.at_end {
            return None;
        }
        let n = self.input.len();
        // skip whitespace and comments
        loop
            invariant
                self.wf(),
                self.input@ == old(self).input@,
                self.pos >= old(self).pos,
                self.at_end == old(self).at_end,
                n == self.input@.len(),
                sp_trivia(self.input@, old(self).pos as int, self.pos as int),
            decreases n - self.pos,
        {
            if self.pos >= n {
                break;
            }
            let c = self.input[self.pos];
            if is_space(c) {
                self.pos = self.pos + 1;
                proof {
                    lemma_trivia_extend(
                        self.input@,
                        old(self).pos as int,
                        self.pos as int - 1,
                        self.pos as int,
                    );
                }
            } else if c == '-' && self.pos + 1 < n && self.input[self.pos + 1] == '-' {
                let ghost cstart = self.pos as int;
                match self.process_comment(self.pos + 2) {
                    Some(end) => {
                        proof {
                            let input = self.input@;
                            let start = cstart + 2;
                            let run = sp_equals_run(input, start + 1);
                            lemma_equals_run_nonneg(input, start + 1);
                            if sp_long_opener(input, start) {
                                lemma_find_close(input, run, start + 2 + run, end - run - 2);
                            } else {
                                lemma_line_end(input, start, end as int);
                            }
                            assert(sp_comment_end(input, start) == Some(end as int));
                            lemma_trivia_extend(input, old(self).pos as int, cstart, end as int);
                        }
                        self.pos = end;
                    }
                    None => {
                        proof {
                            let input = self.input@;
                            let a = self.pos as int;
                            let start = a + 2;
                            let run = sp_equals_run(input, start + 1);
                            assert(sp_long_opener(input, start));
                            lemma_find_close_none(input, run, start + 2 + run);
                            assert(sp_comment_end(input, start) is None);
                            assert(sp_lex_error_at(input, a, LexicalError::UnexpectedEOF));
                            assert(sp_trivia(input, old(self).pos as int, a));
                        }
                        self.pos = n;
                        return Some(Err(LexicalError::UnexpectedEOF));
                    }
                }
            } else {
                break;
            }
        }
        if self.pos >= n {
            self.at_end = true;
            return Some(Ok((n, Token::EOF, n)));
        }
        let i = self.pos;
        let c = self.input[i];
        if c == '^' {
            self.pos = i + 1;
            {
                proof {
                    reveal_strlit("^");
                    assert(self.input@.subrange(i as int, i + 1) =~= "^"@);
                }
                Some(Ok((i, Token::OpExponentiation, i + 1)))
            }
        } else if c == '#' {
            self.pos = i + 1;
            {
                proof {
                    reveal_strlit("#");
                    assert(self.input@.subrange(i as int, i + 1) =~= "#"@);
                }
                Some(Ok((i, Token::OpLength, i + 1)))
            }
        } else if c == '*' {
            self.pos = i + 1;
            {
                proof {
                    reveal_strlit("*");
                    assert(self.input@.subrange(i as int, i + 1) =~= "*"@);
                }
                Some(Ok((i, Token::OpMultiplication, i + 1)))
            }
        } else if c == '%' {
            self.pos = i + 1;
            {
                proof {
                    reveal_strlit("%");
                    assert(self.input@.subrange(i as int, i + 1) =~= "%"@);
                }
                Some(Ok((i, Token::OpModulo, i + 1)))
            }
        } else if c == '/' {
            if i + 1 < n && self.input[i + 1] == '/' {
                self.pos = i + 2;
                {
                proof {
                    reveal_strlit("//");
                    assert(self.input@.subrange(i as int, i + 2) =~= "//"@);
                }
                Some(Ok((i, Token::OpFloorDivision, i + 2)))
            }
            } else {
                self.pos = i + 1;
                {
                proof {
                    reveal_strlit("/");
                    assert(self.input@.subrange(i as int, i + 1) =~= "/"@);
                }
                Some(Ok((i, Token::OpDivision, i + 1)))
            }
            }
        } else if c == '+' {
            self.pos = i + 1;
            {
                proof {
                    reveal_strlit("+");
                    assert(self.input@.subrange(i as int, i + 1) =~= "+"@);
                }
                Some(Ok((i, Token::OpAddition, i + 1)))
            }
        } else if c == '-' {
            // a "--" was consumed above, so this is a bare minus
            self.pos = i + 1;
            {
                proof {
                    reveal_strlit("-");
                    assert(self.input@.subrange(i as int, i + 1) =~= "-"@);
                }
                Some(Ok((i, Token::Minus, i + 1)))
            }
        } else if c == '.' {
            if i + 1 < n && self.input[i + 1] == '.' {
                if i + 2 < n && self.input[i + 2] == '.' {
                    self.pos = i + 3;
                    {
                proof {
                    reveal_strlit("...");
                    assert(self.input@.subrange(i as int, i + 3) =~= "..."@);
                }
                Some(Ok((i, Token::VarArg, i + 3)))
            }
                } else {
                    self.pos = i + 2;
                    {
                proof {
                    reveal_strlit("..");
                    assert(self.input@.subrange(i as int, i + 2) =~= ".."@);
                }
                Some(Ok((i, Token::OpConcatenation, i + 2)))
            }
                }
            } else if i + 1 < n && is_digit(self.input[i + 1]) {
                let end = self.get_float_end(i);
                self.pos = end;
                let text = slice_chars(&self.input, i, end);
                Some(Ok((i, Token::Numeral(text), end)))
            } else {
                self.pos = i + 1;
                {
                proof {
                    reveal_strlit(".");
                    assert(self.input@.subrange(i as int, i + 1) =~= "."@);
                }
                Some(Ok((i, Token::Period, i + 1)))
            }
            }
        } else if c == '<' {
            if i + 1 < n && self.input[i + 1] == '<' {
                self.pos = i + 2;
                {
                proof {
                    reveal_strlit("<<");
                    assert(self.input@.subrange(i as int, i + 2) =~= "<<"@);
                }
                Some(Ok((i, Token::OpLeftShift, i + 2)))
            }
            } else if i + 1 < n && self.input[i + 1] == '=' {
                self.pos = i + 2;
                {
                proof {
                    reveal_strlit("<=");
                    assert(self.input@.subrange(i as int, i + 2) =~= "<="@);
                }
                Some(Ok((i, Token::OpLessOrEqual, i + 2)))
            }
            } else {
                self.pos = i + 1;
                {
                proof {
                    reveal_strlit("<");
                    assert(self.input@.subrange(i as int, i + 1) =~= "<"@);
                }
                Some(Ok((i, Token::OpLessThan, i + 1)))
            }
            }
        } else if c == '>' {
            if i + 1 < n && self.input[i + 1] == '>' {
                self.pos = i + 2;
                {
                proof {
                    reveal_strlit(">>");
                    assert(self.input@.subrange(i as int, i + 2) =~= ">>"@);
                }
                Some(Ok((i, Token::OpRightShift, i + 2)))
            }
            } else if i + 1 < n && self.input[i + 1] == '=' {
                self.pos = i + 2;
                {
                proof {
                    reveal_strlit(">=");
                    assert(self.input@.subrange(i as int, i + 2) =~= ">="@);
                }
                Some(Ok((i, Token::OpGreaterOrEqual, i + 2)))
            }
            } else {
                self.pos = i + 1;
                {
                proof {
                    reveal_strlit(">");
                    assert(self.input@.subrange(i as int, i + 1) =~= ">"@);
                }
                Some(Ok((i, Token::OpGreaterThan, i + 1)))
            }
            }
        } else if c == '&' {
            self.pos = i + 1;
            {
                proof {
                    reveal_strlit("&");
                    assert(self.input@.subrange(i as int, i + 1) =~= "&"@);
                }
                Some(Ok((i, Token::OpBitwiseAnd, i + 1)))
            }
        } else if c == '~' {
            if i + 1 < n && self.input[i + 1] == '=' {
                self.pos = i + 2;
                {
                proof {
                    reveal_strlit("~=");
                    assert(self.input@.subrange(i as int, i + 2) =~= "~="@);
                }
                Some(Ok((i, Token::OpInequality, i + 2)))
            }
            } else {
                self.pos = i + 1;
                {
                proof {
                    reveal_strlit("~");
                    assert(self.input@.subrange(i as int, i + 1) =~= "~"@);
                }
                Some(Ok((i, Token::Tilde, i + 1)))
            }
            }
        } else if c == '|' {
            self.pos = i + 1;
            {
                proof {
                    reveal_strlit("|");
                    assert(self.input@.subrange(i as int, i + 1) =~= "|"@);
                }
                Some(Ok((i, Token::OpBitwiseOr, i + 1)))
            }
        } else if c == '=' {
            if i + 1 < n && self.input[i + 1] == '=' {
                self.pos = i + 2;
                {
                proof {
                    reveal_strlit("==");
                    assert(self.input@.subrange(i as int, i + 2) =~= "=="@);
                }
                Some(Ok((i, Token::OpEquality, i + 2)))
            }
            } else {
                self.pos = i + 1;
                {
                proof {
                    reveal_strlit("=");
                    assert(self.input@.subrange(i as int, i + 1) =~= "="@);
                }
                Some(Ok((i, Token::EqualsSign, i + 1)))
            }
            }
        } else if c == ';' {
            self.pos = i + 1;
            {
                proof {
                    reveal_strlit(";");
                    assert(self.input@.subrange(i as int, i + 1) =~= ";"@);
                }
                Some(Ok((i, Token::Semicolon, i + 1)))
            }
        } else if c == ',' {
            self.pos = i + 1;
            {
                proof {
                    reveal_strlit(",");
                    assert(self.input@.subrange(i as int, i + 1) =~= ","@);
                }
                Some(Ok((i, Token::Comma, i + 1)))
            }
        } else if c == ':' {
            if i + 1 < n && self.input[i + 1] == ':' {
                self.pos = i + 2;
                {
                proof {
                    reveal_strlit("::");
                    assert(self.input@.subrange(i as int, i + 2) =~= "::"@);
                }
                Some(Ok((i, Token::Label, i + 2)))
            }
            } else {
                self.pos = i + 1;
                {
                proof {
                    reveal_strlit(":");
                    assert(self.input@.subrange(i as int, i + 1) =~= ":"@);
                }
                Some(Ok((i, Token::Colon, i + 1)))
            }
            }
        } else if c == '(' {
            self.pos = i + 1;
            {
                proof {
                    reveal_strlit("(");
                    assert(self.input@.subrange(i as int, i + 1) =~= "("@);
                }
                Some(Ok((i, Token::OpenRoundBracket, i + 1)))
            }
        } else if c == ')' {
            self.pos = i + 1;
            {
                proof {
                    reveal_strlit(")");
                    assert(self.input@.subrange(i as int, i + 1) =~= ")"@);
                }
                Some(Ok((i, Token::CloseRoundBracket, i + 1)))
            }
        } else if c == '{' {
            self.pos = i + 1;
            {
                proof {
                    reveal_strlit("{");
                    assert(self.input@.subrange(i as int, i + 1) =~= "{"@);
                }
                Some(Ok((i, Token::OpenCurlyBracket, i + 1)))
            }
        } else if c == '}' {
            self.pos = i + 1;
            {
                proof {
                    reveal_strlit("}");
                    assert(self.input@.subrange(i as int, i + 1) =~= "}"@);
                }
                Some(Ok((i, Token::CloseCurlyBracket, i + 1)))
            }
        } else if c == ']' {
            self.pos = i + 1;
            {
                proof {
                    reveal_strlit("]");
                    assert(self.input@.subrange(i as int, i + 1) =~= "]"@);
                }
                Some(Ok((i, Token::CloseSquareBracket, i + 1)))
            }
        } else if c == '[' {
            let k = self.get_multiline_string_level(i + 1);
            proof {
                lemma_equals_run(self.input@, i + 1, k as int);
            }
            if i + 1 + k < n && self.input[i + 1 + k] == '[' {
                // a long string of level k
                let body = i + 2 + k;
                match self.get_multiline_string_end(k, body) {
                    Some(j) => {
                        let end = j + k + 2;
                        self.pos = end;
                        let text = slice_chars(&self.input, body, j);
                        Some(Ok((i, Token::MultilineStringLiteral(k, text), end)))
                    }
                    None => {
                        proof {
                            let input = self.input@;
                            assert(sp_long_opener(input, i as int));
                            lemma_find_close_none(input, k as int, body as int);
                            assert(sp_lex_error_at(
                                input,
                                i as int,
                                LexicalError::UnexpectedEOF,
                            ));
                        }
                        self.pos = n;
                        Some(Err(LexicalError::UnexpectedEOF))
                    }
                }
            } else if k == 0 {
                self.pos = i + 1;
                {
                proof {
                    reveal_strlit("[");
                    assert(self.input@.subrange(i as int, i + 1) =~= "["@);
                    lemma_equals_run(self.input@, i + 1, 0);
                }
                Some(Ok((i, Token::OpenSquareBracket, i + 1)))
            }
            } else if i + 1 + k < n {
                proof {
                    assert(sp_lex_error_at(
                        self.input@,
                        i as int,
                        LexicalError::UnrecognizedSymbol(
                            (i + 1 + k) as usize,
                            self.input@[i + 1 + k],
                        ),
                    ));
                }
                self.pos = n;
                Some(Err(LexicalError::UnrecognizedSymbol(i + 1 + k, self.input[i + 1 + k])))
            } else {
                proof {
                    assert(sp_lex_error_at(self.input@, i as int, LexicalError::UnexpectedEOF));
                }
                self.pos = n;
                Some(Err(LexicalError::UnexpectedEOF))
            }
        } else if c == '"' {
            match self.get_string_end('"', i) {
                Some(j) => {
                    self.pos = j + 1;
                    let text = slice_chars(&self.input, i + 1, j);
                    Some(Ok((i, Token::NormalStringLiteral(text), j + 1)))
                }
                None => {
                    proof {
                        assert(sp_lex_error_at(self.input@, i as int, LexicalError::UnexpectedEOF));
                    }
                    self.pos = n;
                    Some(Err(LexicalError::UnexpectedEOF))
                }
            }
        } else if c == '\'' {
            match self.get_string_end('\'', i) {
                Some(j) => {
                    self.pos = j + 1;
                    let text = slice_chars(&self.input, i + 1, j);
                    Some(Ok((i, Token::CharStringLiteral(text), j + 1)))
                }
                None => {
                    proof {
                        assert(sp_lex_error_at(self.input@, i as int, LexicalError::UnexpectedEOF));
                    }
                    self.pos = n;
                    Some(Err(LexicalError::UnexpectedEOF))
                }
            }
        } else if c == '0' && i + 1 < n && (self.input[i + 1] == 'x' || self.input[i + 1]
            == 'X') {
            let end = self.get_hex_integer_end(i + 2);
            self.pos = end;
            let text = slice_chars(&self.input, i, end);
            proof {
                assert(sp_hex_numeral(self.input@, i as int, end as int));
            }
            Some(Ok((i, Token::Numeral(text), end)))
        } else if is_digit(c) {
            let end = self.get_float_end(i);
            self.pos = end;
            let text = slice_chars(&self.input, i, end);
            Some(Ok((i, Token::Numeral(text), end)))
        } else if is_alpha(c) || c == '_' {
            let end = self.get_variable_end(i);
            let word = slice_chars(&self.input, i, end);
            self.pos = end;
            match keyword_token(&word) {
                Some(t) => Some(Ok((i, t, end))),
                None => Some(Ok((i, Token::Variable(word), end))),
            }
        } else {
            proof {
                assert(!sp_token_lead(c));
                assert(sp_lex_error_at(
                    self.input@,
                    i as int,
                    LexicalError::UnrecognizedSymbol(i, c),
                ));
            }
            self.pos = n;
            Some(Err(LexicalError::UnrecognizedSymbol(i, c)))
        }
    }
}

/// `buf[from..to]` as a fresh vector.
fn slice_chars(buf: &Vec<char>, from: usize, to: usize) -> (r: Vec<char>)
    requires
        from <= to <= buf@.len(),
    ensures
        r@ == buf@.subrange(from as int, to as int),
{
    let mut out: Vec<char> = Vec::new();
    push_range(&mut out, buf, from, to);
    proof {
        assert(out@ =~= buf@.subrange(from as int, to as int));
    }
    out
}

/// What the whole token stream promises: it ends in the one `EOF` item,
/// every span lies inside the input, spans do not overlap and keep source
/// order, and literal payloads match their spans.
pub open spec fn wf_token_stream(toks: Seq<(usize, Token, usize)>, input: Seq<char>) -> bool {
    &&& toks.len() >= 1
    &&& toks[toks.len() - 1].1 is EOF
    &&& forall|i: int|
        0 <= i < toks.len() ==> token_span_ok(input, #[trigger] toks[i].0 as int, toks[i].1, toks[i].2 as int)
    &&& forall|i: int|
        0 <= i < toks.len() ==> token_spells_text(
            input,
            #[trigger] toks[i].0 as int,
            toks[i].1,
            toks[i].2 as int,
        )
    &&& forall|i: int| 0 <= i < toks.len() - 1 ==> (#[trigger] toks[i].2) <= toks[i + 1].0
    &&& forall|i: int| 0 <= i < toks.len() - 1 ==> !((#[trigger] toks[i].1) is EOF)
    &&& forall|i: int|
        1 <= i < toks.len() ==> sp_trivia(input, toks[i - 1].2 as int, #[trigger] toks[i].0 as int)
}

/// Lexes everything from `start` to the end of `input` into one token list
/// closed by `EOF`.
#[verifier::loop_isolation(false)]
pub fn tokenize(input: &Vec<char>, start: usize) -> (r: Result<
    Vec<(usize, Token, usize)>,
    LexicalError,
>)
    requires
        start <= input@.len(),
    ensures
        match r {
            Ok(toks) => wf_token_stream(toks@, input@) && toks@.len() >= 1 && sp_trivia(
                input@,
                start as int,
                toks@[0].0 as int,
            ),
            Err(e) => exists|p: int| start <= p && #[trigger] sp_lex_error(input@, p, e),
        },
{
    let mut lexer = Lexer::new(crate::util::clone_chars(input));
    lexer.pos = start;
    let mut toks: Vec<(usize, Token, usize)> = Vec::new();
    loop
        invariant
            lexer.wf(),
            lexer.input@ == input@,
            !lexer.at_end,
            start <= lexer.pos,
            forall|i: int|
                0 <= i < toks@.len() ==> token_span_ok(
                    input@,
                    #[trigger] toks@[i].0 as int,
                    toks@[i].1,
                    toks@[i].2 as int,
                ),
            forall|i: int|
                0 <= i < toks@.len() ==> token_spells_text(
                    input@,
                    #[trigger] toks@[i].0 as int,
                    toks@[i].1,
                    toks@[i].2 as int,
                ),
            forall|i: int| 0 <= i < toks@.len() - 1 ==> (#[trigger] toks@[i].2) <= toks@[i + 1].0,
            forall|i: int| 0 <= i < toks@.len() ==> !((#[trigger] toks@[i].1) is EOF),
            toks@.len() == 0 ==> lexer.pos == start,
            toks@.len() > 0 ==> toks@[toks@.len() - 1].2 == lexer.pos,
            toks@.len() > 0 ==> sp_trivia(input@, start as int, toks@[0].0 as int),
            forall|i: int|
                1 <= i < toks@.len() ==> sp_trivia(
                    input@,
                    toks@[i - 1].2 as int,
                    #[trigger] toks@[i].0 as int,
                ),
        decreases input@.len() - lexer.pos,
    {
        let ghost prev = lexer.pos;
        match lexer.next_token() {
            Some(Ok((l, t, rr))) => {
                let is_eof = lexer.at_end;
                if is_eof {
                    toks.push((l, t, rr));
                    return Ok(toks);
                } else {
                    proof {
                        assert(l < rr);
                    }
                    toks.push((l, t, rr));
                }
            }
            Some(Err(e)) => {
                proof {
                    assert(sp_lex_error(input@, prev as int, e));
                }
                return Err(e);
            }
            None => {
                // next_token hands out None only after EOF, which ends the
                // loop above: this arm is unreachable
                proof {
                    assert(false);
                }
                return Err(LexicalError::UnexpectedEOF);
            }
        }
    }
}

} // verus!
