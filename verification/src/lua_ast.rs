//! The typed syntax tree. Every node carries a span covering itself plus the
//! inter-child spans ("location hints") its printing rule needs, in the order
//! the rule consumes them. Sequence-carrying variants hold, per element, the
//! leading span, the element, and — for separated lists — the trailing span
//! and the separator text the source used.

use vstd::prelude::*;

verus! {

/// A pair of offsets into the source buffer, `start <= end`, denoting the
/// characters between two grammar productions.
#[derive(Clone, Copy, PartialEq, Eq, Structural, Debug)]
pub struct Loc(pub usize, pub usize);

/// A fixed piece of output text, such as the spelling of a binary operator.
#[derive(Debug)]
pub struct Str(pub Vec<char>);

/// Printer hints recorded on a table constructor: whether every field is
/// positional, whether the constructor is the sole child of its parent, and
/// whether it is the first child.
#[derive(Clone, Copy, PartialEq, Eq, Structural, Debug)]
pub struct TableConstructorOpts {
    pub is_all_sequential: Option<bool>,
    pub is_single_child: Option<bool>,
    pub is_first_child: Option<bool>,
}

impl TableConstructorOpts {
    pub fn default() -> (r: TableConstructorOpts)
        ensures
            r.is_all_sequential is None,
            r.is_single_child is None,
            r.is_first_child is None,
    {
        TableConstructorOpts { is_all_sequential: None, is_single_child: None, is_first_child: None }
    }
}

/// Printer hints recorded on a field list.
#[derive(Clone, Copy, PartialEq, Eq, Structural, Debug)]
pub struct FieldsOpts {
    pub is_all_sequential: Option<bool>,
    pub is_single_child: Option<bool>,
}

impl FieldsOpts {
    pub fn default() -> (r: FieldsOpts)
        ensures
            r.is_all_sequential is None,
            r.is_single_child is None,
    {
        FieldsOpts { is_all_sequential: None, is_single_child: None }
    }
}

#[derive(Debug)]
pub enum Node {
    BinaryOp(Loc, [Loc; 2], Str, Box<Node>, Box<Node>),
    UnaryOp(Loc, [Loc; 1], Str, Box<Node>),
    UnaryNot(Loc, [Loc; 1], Box<Node>),
    Var(Loc, [Loc; 1], Box<Node>, Box<Node>),
    RoundBrackets(Loc, [Loc; 2], Box<Node>),
    ArgsRoundBrackets(Loc, [Loc; 2], Box<Node>),
    ArgsRoundBracketsEmpty(Loc, [Loc; 1]),
    Nil(Loc),
    False(Loc),
    True(Loc),
    VarArg(Loc),
    Break(Loc),
    Numeral(Loc, Vec<char>),
    NormalStringLiteral(Loc, Vec<char>),
    CharStringLiteral(Loc, Vec<char>),
    MultiLineStringLiteral(Loc, usize, Vec<char>),
    TableConstructor(Loc, [Loc; 2], Box<Node>, TableConstructorOpts),
    TableConstructorEmpty(Loc, [Loc; 1]),
    Fields(Loc, Vec<(Loc, Node, Loc, Vec<char>)>, FieldsOpts),
    FieldNamedBracket(Loc, [Loc; 4], Box<Node>, Box<Node>),
    FieldNamed(Loc, [Loc; 2], Box<Node>, Box<Node>),
    FieldSequential(Loc, Box<Node>),
    TableIndex(Loc, [Loc; 2], Box<Node>),
    TableMember(Loc, [Loc; 1], Box<Node>),
    ExpList(Loc, Vec<(Loc, Node, Loc, Vec<char>)>),
    NameList(Loc, Vec<(Loc, Node, Loc, Vec<char>)>),
    ParList(Loc, Vec<(Loc, Node, Loc, Vec<char>)>),
    VarList(Loc, Vec<(Loc, Node, Loc, Vec<char>)>),
    VarRoundSuffix(Loc, [Loc; 3], Box<Node>, Box<Node>),
    VarSuffixList(Loc, Vec<(Loc, Node)>),
    FnMethodCall(Loc, [Loc; 2], Box<Node>, Box<Node>),
    FunctionDef(Loc, [Loc; 1], Box<Node>),
    FuncBody(Loc, [Loc; 2]),
    FuncBodyB(Loc, [Loc; 3], Box<Node>),
    FuncPBody(Loc, [Loc; 3], Box<Node>),
    FuncPBodyB(Loc, [Loc; 4], Box<Node>, Box<Node>),
    FuncName(Loc, Vec<(Loc, Node, Loc, Vec<char>)>),
    FuncNameSelf(Loc, [Loc; 2], Vec<(Loc, Node, Loc, Vec<char>)>, Box<Node>),
    FuncDecl(Loc, [Loc; 2], Box<Node>, Box<Node>),
    LocalFuncDecl(Loc, [Loc; 3], Box<Node>, Box<Node>),
    StatementList(Loc, Vec<(Loc, Node)>),
    DoEnd(Loc, [Loc; 1]),
    DoBEnd(Loc, [Loc; 2], Box<Node>),
    VarsExprs(Loc, [Loc; 2], Box<Node>, Box<Node>),
    Name(Loc, Vec<char>),
    Label(Loc, [Loc; 2], Box<Node>),
    GoTo(Loc, [Loc; 1], Box<Node>),
    WhileDo(Loc, [Loc; 3], Box<Node>),
    WhileDoB(Loc, [Loc; 4], Box<Node>, Box<Node>),
    RepeatUntil(Loc, [Loc; 2], Box<Node>),
    RepeatBUntil(Loc, [Loc; 3], Box<Node>, Box<Node>),
    ForInt(Loc, [Loc; 7], Box<Node>, Box<Node>, Box<Node>),
    ForIntB(Loc, [Loc; 8], Box<Node>, Box<Node>, Box<Node>, Box<Node>),
    ForIntStep(Loc, [Loc; 9], Box<Node>, Box<Node>, Box<Node>, Box<Node>),
    ForIntStepB(Loc, [Loc; 10], Box<Node>, Box<Node>, Box<Node>, Box<Node>, Box<Node>),
    ForRange(Loc, [Loc; 5], Box<Node>, Box<Node>),
    ForRangeB(Loc, [Loc; 6], Box<Node>, Box<Node>, Box<Node>),
    LocalNames(Loc, [Loc; 1], Box<Node>),
    LocalNamesExprs(Loc, [Loc; 3], Box<Node>, Box<Node>),
    IfThen(Loc, [Loc; 3], Box<Node>),
    IfThenB(Loc, [Loc; 4], Box<Node>, Box<Node>),
    IfThenElse(Loc, [Loc; 4], Box<Node>),
    IfThenBElse(Loc, [Loc; 5], Box<Node>, Box<Node>),
    IfThenElseB(Loc, [Loc; 5], Box<Node>, Box<Node>),
    IfThenBElseB(Loc, [Loc; 6], Box<Node>, Box<Node>, Box<Node>),
    IfThenElseIf(Loc, [Loc; 4], Box<Node>, Box<Node>),
    IfThenBElseIf(Loc, [Loc; 5], Box<Node>, Box<Node>, Box<Node>),
    IfThenElseIfElse(Loc, [Loc; 5], Box<Node>, Box<Node>),
    IfThenBElseIfElse(Loc, [Loc; 6], Box<Node>, Box<Node>, Box<Node>),
    IfThenElseIfElseB(Loc, [Loc; 6], Box<Node>, Box<Node>, Box<Node>),
    IfThenBElseIfElseB(Loc, [Loc; 7], Box<Node>, Box<Node>, Box<Node>, Box<Node>),
    ElseIfThenVec(Loc, Vec<(Loc, Node)>),
    ElseIfThen(Loc, [Loc; 2], Box<Node>),
    ElseIfThenB(Loc, [Loc; 3], Box<Node>, Box<Node>),
    RetStatNone(Loc),
    RetStatExpr(Loc, [Loc; 1], Box<Node>),
    RetStatNoneComma(Loc, [Loc; 1]),
    RetStatExprComma(Loc, [Loc; 2], Box<Node>),
    StatsRetStat(Loc, [Loc; 1], Box<Node>, Box<Node>),
    Chunk(Loc, Box<Node>, Loc),
    SheBangChunk(Loc, Box<Node>, Loc, Box<Node>, Loc),
    Semicolon(Loc),
    SheBang(Loc, Vec<char>),
}

/// Every inter-token span a tree carries, in the order `collect_spans`
/// walks them.
pub open spec fn spec_spans(node: Node) -> Seq<Loc>
    decreases node, 0int,
{
    match node {
        Node::BinaryOp(_, locs, _, n0, n1) => seq![locs[0]] + seq![locs[1]] + spec_spans(*n0) + spec_spans(*n1),
        Node::UnaryOp(_, locs, _, n0) => seq![locs[0]] + spec_spans(*n0),
        Node::UnaryNot(_, locs, n0) => seq![locs[0]] + spec_spans(*n0),
        Node::Var(_, locs, n0, n1) => seq![locs[0]] + spec_spans(*n0) + spec_spans(*n1),
        Node::RoundBrackets(_, locs, n0) => seq![locs[0]] + seq![locs[1]] + spec_spans(*n0),
        Node::ArgsRoundBrackets(_, locs, n0) => seq![locs[0]] + seq![locs[1]] + spec_spans(*n0),
        Node::ArgsRoundBracketsEmpty(_, locs) => seq![locs[0]],
        Node::Nil(_) => Seq::<Loc>::empty(),
        Node::False(_) => Seq::<Loc>::empty(),
        Node::True(_) => Seq::<Loc>::empty(),
        Node::VarArg(_) => Seq::<Loc>::empty(),
        Node::Break(_) => Seq::<Loc>::empty(),
        Node::Numeral(_, _) => Seq::<Loc>::empty(),
        Node::NormalStringLiteral(_, _) => Seq::<Loc>::empty(),
        Node::CharStringLiteral(_, _) => Seq::<Loc>::empty(),
        Node::MultiLineStringLiteral(_, _, _) => Seq::<Loc>::empty(),
        Node::TableConstructor(_, locs, n0, _) => seq![locs[0]] + seq![locs[1]] + spec_spans(*n0),
        Node::TableConstructorEmpty(_, locs) => seq![locs[0]],
        Node::Fields(_, items, _) => spec_sep_spans_up_to(items@, items@.len() as int),
        Node::FieldNamedBracket(_, locs, n0, n1) => seq![locs[0]] + seq![locs[1]] + seq![locs[2]] + seq![locs[3]] + spec_spans(*n0) + spec_spans(*n1),
        Node::FieldNamed(_, locs, n0, n1) => seq![locs[0]] + seq![locs[1]] + spec_spans(*n0) + spec_spans(*n1),
        Node::FieldSequential(_, n0) => spec_spans(*n0),
        Node::TableIndex(_, locs, n0) => seq![locs[0]] + seq![locs[1]] + spec_spans(*n0),
        Node::TableMember(_, locs, n0) => seq![locs[0]] + spec_spans(*n0),
        Node::ExpList(_, items) => spec_sep_spans_up_to(items@, items@.len() as int),
        Node::NameList(_, items) => spec_sep_spans_up_to(items@, items@.len() as int),
        Node::ParList(_, items) => spec_sep_spans_up_to(items@, items@.len() as int),
        Node::VarList(_, items) => spec_sep_spans_up_to(items@, items@.len() as int),
        Node::VarRoundSuffix(_, locs, n0, n1) => seq![locs[0]] + seq![locs[1]] + seq![locs[2]] + spec_spans(*n0) + spec_spans(*n1),
        Node::VarSuffixList(_, items) => spec_plain_spans_up_to(items@, items@.len() as int),
        Node::FnMethodCall(_, locs, n0, n1) => seq![locs[0]] + seq![locs[1]] + spec_spans(*n0) + spec_spans(*n1),
        Node::FunctionDef(_, locs, n0) => seq![locs[0]] + spec_spans(*n0),
        Node::FuncBody(_, locs) => seq![locs[0]] + seq![locs[1]],
        Node::FuncBodyB(_, locs, n0) => seq![locs[0]] + seq![locs[1]] + seq![locs[2]] + spec_spans(*n0),
        Node::FuncPBody(_, locs, n0) => seq![locs[0]] + seq![locs[1]] + seq![locs[2]] + spec_spans(*n0),
        Node::FuncPBodyB(_, locs, n0, n1) => seq![locs[0]] + seq![locs[1]] + seq![locs[2]] + seq![locs[3]] + spec_spans(*n0) + spec_spans(*n1),
        Node::FuncName(_, items) => spec_sep_spans_up_to(items@, items@.len() as int),
        Node::FuncNameSelf(_, locs, items, n0) => seq![locs[0]] + seq![locs[1]] + spec_sep_spans_up_to(items@, items@.len() as int) + spec_spans(*n0),
        Node::FuncDecl(_, locs, n0, n1) => seq![locs[0]] + seq![locs[1]] + spec_spans(*n0) + spec_spans(*n1),
        Node::LocalFuncDecl(_, locs, n0, n1) => seq![locs[0]] + seq![locs[1]] + seq![locs[2]] + spec_spans(*n0) + spec_spans(*n1),
        Node::StatementList(_, items) => spec_plain_spans_up_to(items@, items@.len() as int),
        Node::DoEnd(_, locs) => seq![locs[0]],
        Node::DoBEnd(_, locs, n0) => seq![locs[0]] + seq![locs[1]] + spec_spans(*n0),
        Node::VarsExprs(_, locs, n0, n1) => seq![locs[0]] + seq![locs[1]] + spec_spans(*n0) + spec_spans(*n1),
        Node::Name(_, _) => Seq::<Loc>::empty(),
        Node::Label(_, locs, n0) => seq![locs[0]] + seq![locs[1]] + spec_spans(*n0),
        Node::GoTo(_, locs, n0) => seq![locs[0]] + spec_spans(*n0),
        Node::WhileDo(_, locs, n0) => seq![locs[0]] + seq![locs[1]] + seq![locs[2]] + spec_spans(*n0),
        Node::WhileDoB(_, locs, n0, n1) => seq![locs[0]] + seq![locs[1]] + seq![locs[2]] + seq![locs[3]] + spec_spans(*n0) + spec_spans(*n1),
        Node::RepeatUntil(_, locs, n0) => seq![locs[0]] + seq![locs[1]] + spec_spans(*n0),
        Node::RepeatBUntil(_, locs, n0, n1) => seq![locs[0]] + seq![locs[1]] + seq![locs[2]] + spec_spans(*n0) + spec_spans(*n1),
        Node::ForInt(_, locs, n0, n1, n2) => seq![locs[0]] + seq![locs[1]] + seq![locs[2]] + seq![locs[3]] + seq![locs[4]] + seq![locs[5]] + seq![locs[6]] + spec_spans(*n0) + spec_spans(*n1) + spec_spans(*n2),
        Node::ForIntB(_, locs, n0, n1, n2, n3) => seq![locs[0]] + seq![locs[1]] + seq![locs[2]] + seq![locs[3]] + seq![locs[4]] + seq![locs[5]] + seq![locs[6]] + seq![locs[7]] + spec_spans(*n0) + spec_spans(*n1) + spec_spans(*n2) + spec_spans(*n3),
        Node::ForIntStep(_, locs, n0, n1, n2, n3) => seq![locs[0]] + seq![locs[1]] + seq![locs[2]] + seq![locs[3]] + seq![locs[4]] + seq![locs[5]] + seq![locs[6]] + seq![locs[7]] + seq![locs[8]] + spec_spans(*n0) + spec_spans(*n1) + spec_spans(*n2) + spec_spans(*n3),
        Node::ForIntStepB(_, locs, n0, n1, n2, n3, n4) => seq![locs[0]] + seq![locs[1]] + seq![locs[2]] + seq![locs[3]] + seq![locs[4]] + seq![locs[5]] + seq![locs[6]] + seq![locs[7]] + seq![locs[8]] + seq![locs[9]] + spec_spans(*n0) + spec_spans(*n1) + spec_spans(*n2) + spec_spans(*n3) + spec_spans(*n4),
        Node::ForRange(_, locs, n0, n1) => seq![locs[0]] + seq![locs[1]] + seq![locs[2]] + seq![locs[3]] + seq![locs[4]] + spec_spans(*n0) + spec_spans(*n1),
        Node::ForRangeB(_, locs, n0, n1, n2) => seq![locs[0]] + seq![locs[1]] + seq![locs[2]] + seq![locs[3]] + seq![locs[4]] + seq![locs[5]] + spec_spans(*n0) + spec_spans(*n1) + spec_spans(*n2),
        Node::LocalNames(_, locs, n0) => seq![locs[0]] + spec_spans(*n0),
        Node::LocalNamesExprs(_, locs, n0, n1) => seq![locs[0]] + seq![locs[1]] + seq![locs[2]] + spec_spans(*n0) + spec_spans(*n1),
        Node::IfThen(_, locs, n0) => seq![locs[0]] + seq![locs[1]] + seq![locs[2]] + spec_spans(*n0),
        Node::IfThenB(_, locs, n0, n1) => seq![locs[0]] + seq![locs[1]] + seq![locs[2]] + seq![locs[3]] + spec_spans(*n0) + spec_spans(*n1),
        Node::IfThenElse(_, locs, n0) => seq![locs[0]] + seq![locs[1]] + seq![locs[2]] + seq![locs[3]] + spec_spans(*n0),
        Node::IfThenBElse(_, locs, n0, n1) => seq![locs[0]] + seq![locs[1]] + seq![locs[2]] + seq![locs[3]] + seq![locs[4]] + spec_spans(*n0) + spec_spans(*n1),
        Node::IfThenElseB(_, locs, n0, n1) => seq![locs[0]] + seq![locs[1]] + seq![locs[2]] + seq![locs[3]] + seq![locs[4]] + spec_spans(*n0) + spec_spans(*n1),
        Node::IfThenBElseB(_, locs, n0, n1, n2) => seq![locs[0]] + seq![locs[1]] + seq![locs[2]] + seq![locs[3]] + seq![locs[4]] + seq![locs[5]] + spec_spans(*n0) + spec_spans(*n1) + spec_spans(*n2),
        Node::IfThenElseIf(_, locs, n0, n1) => seq![locs[0]] + seq![locs[1]] + seq![locs[2]] + seq![locs[3]] + spec_spans(*n0) + spec_spans(*n1),
        Node::IfThenBElseIf(_, locs, n0, n1, n2) => seq![locs[0]] + seq![locs[1]] + seq![locs[2]] + seq![locs[3]] + seq![locs[4]] + spec_spans(*n0) + spec_spans(*n1) + spec_spans(*n2),
        Node::IfThenElseIfElse(_, locs, n0, n1) => seq![locs[0]] + seq![locs[1]] + seq![locs[2]] + seq![locs[3]] + seq![locs[4]] + spec_spans(*n0) + spec_spans(*n1),
        Node::IfThenBElseIfElse(_, locs, n0, n1, n2) => seq![locs[0]] + seq![locs[1]] + seq![locs[2]] + seq![locs[3]] + seq![locs[4]] + seq![locs[5]] + spec_spans(*n0) + spec_spans(*n1) + spec_spans(*n2),
        Node::IfThenElseIfElseB(_, locs, n0, n1, n2) => seq![locs[0]] + seq![locs[1]] + seq![locs[2]] + seq![locs[3]] + seq![locs[4]] + seq![locs[5]] + spec_spans(*n0) + spec_spans(*n1) + spec_spans(*n2),
        Node::IfThenBElseIfElseB(_, locs, n0, n1, n2, n3) => seq![locs[0]] + seq![locs[1]] + seq![locs[2]] + seq![locs[3]] + seq![locs[4]] + seq![locs[5]] + seq![locs[6]] + spec_spans(*n0) + spec_spans(*n1) + spec_spans(*n2) + spec_spans(*n3),
        Node::ElseIfThenVec(_, items) => spec_plain_spans_up_to(items@, items@.len() as int),
        Node::ElseIfThen(_, locs, n0) => seq![locs[0]] + seq![locs[1]] + spec_spans(*n0),
        Node::ElseIfThenB(_, locs, n0, n1) => seq![locs[0]] + seq![locs[1]] + seq![locs[2]] + spec_spans(*n0) + spec_spans(*n1),
        Node::RetStatNone(_) => Seq::<Loc>::empty(),
        Node::RetStatExpr(_, locs, n0) => seq![locs[0]] + spec_spans(*n0),
        Node::RetStatNoneComma(_, locs) => seq![locs[0]],
        Node::RetStatExprComma(_, locs, n0) => seq![locs[0]] + seq![locs[1]] + spec_spans(*n0),
        Node::StatsRetStat(_, locs, n0, n1) => seq![locs[0]] + spec_spans(*n0) + spec_spans(*n1),
        Node::Chunk(l0, n0, l2) => seq![l0] + spec_spans(*n0) + seq![l2],
        Node::SheBangChunk(l0, n0, l2, n1, l4) => seq![l0] + spec_spans(*n0) + seq![l2] + spec_spans(*n1) + seq![l4],
        Node::Semicolon(_) => Seq::<Loc>::empty(),
        Node::SheBang(_, _) => Seq::<Loc>::empty(),
    }
}

/// The spans of the first `i` elements of a separated list.
pub open spec fn spec_sep_spans_up_to(items: Seq<(Loc, Node, Loc, Vec<char>)>, i: int) -> Seq<Loc>
    decreases items, i,
{
    if i <= 0 || i > items.len() {
        Seq::empty()
    } else {
        spec_sep_spans_up_to(items, i - 1) + seq![items[i - 1].0] + spec_spans(items[i - 1].1)
            + seq![items[i - 1].2]
    }
}

/// The spans of the first `i` elements of an unseparated list.
pub open spec fn spec_plain_spans_up_to(items: Seq<(Loc, Node)>, i: int) -> Seq<Loc>
    decreases items, i,
{
    if i <= 0 || i > items.len() {
        Seq::empty()
    } else {
        spec_plain_spans_up_to(items, i - 1) + seq![items[i - 1].0] + spec_spans(items[i - 1].1)
    }
}

pub(crate) open spec fn span_group_exprs(node: Node) -> bool {
    |||
        node is BinaryOp
        ||| node is UnaryOp
        ||| node is UnaryNot
        ||| node is Var
        ||| node is RoundBrackets
        ||| node is ArgsRoundBrackets
        ||| node is ArgsRoundBracketsEmpty
        ||| node is Nil
        ||| node is False
        ||| node is True
        ||| node is VarArg
        ||| node is Break
        ||| node is Numeral
        ||| node is NormalStringLiteral
        ||| node is CharStringLiteral
        ||| node is MultiLineStringLiteral
        ||| node is TableConstructor
        ||| node is TableConstructorEmpty
        ||| node is Fields
        ||| node is FieldNamedBracket
        ||| node is FieldNamed
        ||| node is FieldSequential
        ||| node is TableIndex
        ||| node is TableMember
        ||| node is ExpList
        ||| node is NameList
        ||| node is ParList
        ||| node is VarList
}

pub(crate) open spec fn span_group_stmts(node: Node) -> bool {
    |||
        node is VarRoundSuffix
        ||| node is VarSuffixList
        ||| node is FnMethodCall
        ||| node is FunctionDef
        ||| node is FuncBody
        ||| node is FuncBodyB
        ||| node is FuncPBody
        ||| node is FuncPBodyB
        ||| node is FuncName
        ||| node is FuncNameSelf
        ||| node is FuncDecl
        ||| node is LocalFuncDecl
        ||| node is StatementList
        ||| node is DoEnd
        ||| node is DoBEnd
        ||| node is VarsExprs
        ||| node is Name
        ||| node is Label
        ||| node is GoTo
        ||| node is WhileDo
        ||| node is WhileDoB
        ||| node is RepeatUntil
        ||| node is RepeatBUntil
        ||| node is ForInt
        ||| node is ForIntB
        ||| node is ForIntStep
        ||| node is ForIntStepB
        ||| node is ForRange
}

pub(crate) open spec fn span_group_tail(node: Node) -> bool {
    |||
        node is ForRangeB
        ||| node is LocalNames
        ||| node is LocalNamesExprs
        ||| node is IfThen
        ||| node is IfThenB
        ||| node is IfThenElse
        ||| node is IfThenBElse
        ||| node is IfThenElseB
        ||| node is IfThenBElseB
        ||| node is IfThenElseIf
        ||| node is IfThenBElseIf
        ||| node is IfThenElseIfElse
        ||| node is IfThenBElseIfElse
        ||| node is IfThenElseIfElseB
        ||| node is IfThenBElseIfElseB
        ||| node is ElseIfThenVec
        ||| node is ElseIfThen
        ||| node is ElseIfThenB
        ||| node is RetStatNone
        ||| node is RetStatExpr
        ||| node is RetStatNoneComma
        ||| node is RetStatExprComma
        ||| node is StatsRetStat
        ||| node is Chunk
        ||| node is SheBangChunk
        ||| node is Semicolon
        ||| node is SheBang
}

/// Every variant falls in one of the three span-walk groups.
proof fn lemma_span_groups_cover(node: Node)
    ensures
        span_group_exprs(node) || span_group_stmts(node) || span_group_tail(node),
{
}

impl Node {
    /// Pushes every inter-token span this tree carries — exactly
    /// `spec_spans`. Together with the token spans these tile the source:
    /// each character outside a token belongs to exactly one of them.
    pub fn collect_spans(&self, out: &mut Vec<Loc>)
        ensures
            final(out)@ == old(out)@ + spec_spans(*self),
        decreases *self, 1nat,
    {
        if self.is_expr_group() {
            self.collect_spans_exprs(out);
        } else if self.is_stmt_group() {
            self.collect_spans_stmts(out);
        } else {
            proof {
                lemma_span_groups_cover(*self);
            }
            self.collect_spans_tail(out);
        }
    }

    /// Whether this variant belongs to the first third of the span walk.
    fn is_expr_group(&self) -> (r: bool)
        ensures
            r == span_group_exprs(*self),
    {
        matches!(self, Node::BinaryOp(..) | Node::UnaryOp(..) | Node::UnaryNot(..) | Node::Var(..) | Node::RoundBrackets(..) | Node::ArgsRoundBrackets(..) | Node::ArgsRoundBracketsEmpty(..) | Node::Nil(..) | Node::False(..) | Node::True(..) | Node::VarArg(..) | Node::Break(..) | Node::Numeral(..) | Node::NormalStringLiteral(..) | Node::CharStringLiteral(..) | Node::MultiLineStringLiteral(..) | Node::TableConstructor(..) | Node::TableConstructorEmpty(..) | Node::Fields(..) | Node::FieldNamedBracket(..) | Node::FieldNamed(..) | Node::FieldSequential(..) | Node::TableIndex(..) | Node::TableMember(..) | Node::ExpList(..) | Node::NameList(..) | Node::ParList(..) | Node::VarList(..))
    }

    /// Whether this variant belongs to the second third of the span walk.
    fn is_stmt_group(&self) -> (r: bool)
        ensures
            r == span_group_stmts(*self),
    {
        matches!(self, Node::VarRoundSuffix(..) | Node::VarSuffixList(..) | Node::FnMethodCall(..) | Node::FunctionDef(..) | Node::FuncBody(..) | Node::FuncBodyB(..) | Node::FuncPBody(..) | Node::FuncPBodyB(..) | Node::FuncName(..) | Node::FuncNameSelf(..) | Node::FuncDecl(..) | Node::LocalFuncDecl(..) | Node::StatementList(..) | Node::DoEnd(..) | Node::DoBEnd(..) | Node::VarsExprs(..) | Node::Name(..) | Node::Label(..) | Node::GoTo(..) | Node::WhileDo(..) | Node::WhileDoB(..) | Node::RepeatUntil(..) | Node::RepeatBUntil(..) | Node::ForInt(..) | Node::ForIntB(..) | Node::ForIntStep(..) | Node::ForIntStepB(..) | Node::ForRange(..))
    }

    /// One third of the span walk; splitting the tree's many variants
    /// keeps each proof within bounds.
    #[verifier::loop_isolation(false)]
    #[verifier::rlimit(100)]
    #[verifier::spinoff_prover]
    fn collect_spans_exprs(&self, out: &mut Vec<Loc>)
        requires
            span_group_exprs(*self),
        ensures
            final(out)@ == old(out)@ + spec_spans(*self),
        decreases *self, 0nat,
    {
        match self {
            Node::BinaryOp(_, locs, _, n0, n1) => {
                out.push(locs[0]);
                out.push(locs[1]);
                n0.collect_spans(out);
                n1.collect_spans(out);
                proof {
                    assert(out@ =~= old(out)@ + spec_spans(*self));
                }
            }
            Node::UnaryOp(_, locs, _, n0) => {
                out.push(locs[0]);
                n0.collect_spans(out);
                proof {
                    assert(out@ =~= old(out)@ + spec_spans(*self));
                }
            }
            Node::UnaryNot(_, locs, n0) => {
                out.push(locs[0]);
                n0.collect_spans(out);
                proof {
                    assert(out@ =~= old(out)@ + spec_spans(*self));
                }
            }
            Node::Var(_, locs, n0, n1) => {
                out.push(locs[0]);
                n0.collect_spans(out);
                n1.collect_spans(out);
                proof {
                    assert(out@ =~= old(out)@ + spec_spans(*self));
                }
            }
            Node::RoundBrackets(_, locs, n0) => {
                out.push(locs[0]);
                out.push(locs[1]);
                n0.collect_spans(out);
                proof {
                    assert(out@ =~= old(out)@ + spec_spans(*self));
                }
            }
            Node::ArgsRoundBrackets(_, locs, n0) => {
                out.push(locs[0]);
                out.push(locs[1]);
                n0.collect_spans(out);
                proof {
                    assert(out@ =~= old(out)@ + spec_spans(*self));
                }
            }
            Node::ArgsRoundBracketsEmpty(_, locs) => {
                out.push(locs[0]);
                proof {
                    assert(out@ =~= old(out)@ + spec_spans(*self));
                }
            }
            Node::Nil(_) => {
                proof {
                    assert(out@ =~= old(out)@ + spec_spans(*self));
                }
            }
            Node::False(_) => {
                proof {
                    assert(out@ =~= old(out)@ + spec_spans(*self));
                }
            }
            Node::True(_) => {
                proof {
                    assert(out@ =~= old(out)@ + spec_spans(*self));
                }
            }
            Node::VarArg(_) => {
                proof {
                    assert(out@ =~= old(out)@ + spec_spans(*self));
                }
            }
            Node::Break(_) => {
                proof {
                    assert(out@ =~= old(out)@ + spec_spans(*self));
                }
            }
            Node::Numeral(_, _) => {
                proof {
                    assert(out@ =~= old(out)@ + spec_spans(*self));
                }
            }
            Node::NormalStringLiteral(_, _) => {
                proof {
                    assert(out@ =~= old(out)@ + spec_spans(*self));
                }
            }
            Node::CharStringLiteral(_, _) => {
                proof {
                    assert(out@ =~= old(out)@ + spec_spans(*self));
                }
            }
            Node::MultiLineStringLiteral(_, _, _) => {
                proof {
                    assert(out@ =~= old(out)@ + spec_spans(*self));
                }
            }
            Node::TableConstructor(_, locs, n0, _) => {
                out.push(locs[0]);
                out.push(locs[1]);
                n0.collect_spans(out);
                proof {
                    assert(out@ =~= old(out)@ + spec_spans(*self));
                }
            }
            Node::TableConstructorEmpty(_, locs) => {
                out.push(locs[0]);
                proof {
                    assert(out@ =~= old(out)@ + spec_spans(*self));
                }
            }
            Node::Fields(_, items, _) => {
                let mut i: usize = 0;
                while i < items.len()
                    invariant
                        i <= items@.len(),
                        out@ == old(out)@ + spec_sep_spans_up_to(items@, i as int),
                    decreases items@.len() - i,
                {
                    out.push(items[i].0);
                    items[i].1.collect_spans(out);
                        out.push(items[i].2);
                    proof {
                        assert(out@ =~= old(out)@ + spec_sep_spans_up_to(items@, i + 1));
                    }
                    i = i + 1;
                }
                proof {
                    assert(out@ =~= old(out)@ + spec_spans(*self));
                }
            }
            Node::FieldNamedBracket(_, locs, n0, n1) => {
                out.push(locs[0]);
                out.push(locs[1]);
                out.push(locs[2]);
                out.push(locs[3]);
                n0.collect_spans(out);
                n1.collect_spans(out);
                proof {
                    assert(out@ =~= old(out)@ + spec_spans(*self));
                }
            }
            Node::FieldNamed(_, locs, n0, n1) => {
                out.push(locs[0]);
                out.push(locs[1]);
                n0.collect_spans(out);
                n1.collect_spans(out);
                proof {
                    assert(out@ =~= old(out)@ + spec_spans(*self));
                }
            }
            Node::FieldSequential(_, n0) => {
                n0.collect_spans(out);
                proof {
                    assert(out@ =~= old(out)@ + spec_spans(*self));
                }
            }
            Node::TableIndex(_, locs, n0) => {
                out.push(locs[0]);
                out.push(locs[1]);
                n0.collect_spans(out);
                proof {
                    assert(out@ =~= old(out)@ + spec_spans(*self));
                }
            }
            Node::TableMember(_, locs, n0) => {
                out.push(locs[0]);
                n0.collect_spans(out);
                proof {
                    assert(out@ =~= old(out)@ + spec_spans(*self));
                }
            }
            Node::ExpList(_, items) => {
                let mut i: usize = 0;
                while i < items.len()
                    invariant
                        i <= items@.len(),
                        out@ == old(out)@ + spec_sep_spans_up_to(items@, i as int),
                    decreases items@.len() - i,
                {
                    out.push(items[i].0);
                    items[i].1.collect_spans(out);
                        out.push(items[i].2);
                    proof {
                        assert(out@ =~= old(out)@ + spec_sep_spans_up_to(items@, i + 1));
                    }
                    i = i + 1;
                }
                proof {
                    assert(out@ =~= old(out)@ + spec_spans(*self));
                }
            }
            Node::NameList(_, items) => {
                let mut i: usize = 0;
                while i < items.len()
                    invariant
                        i <= items@.len(),
                        out@ == old(out)@ + spec_sep_spans_up_to(items@, i as int),
                    decreases items@.len() - i,
                {
                    out.push(items[i].0);
                    items[i].1.collect_spans(out);
                        out.push(items[i].2);
                    proof {
                        assert(out@ =~= old(out)@ + spec_sep_spans_up_to(items@, i + 1));
                    }
                    i = i + 1;
                }
                proof {
                    assert(out@ =~= old(out)@ + spec_spans(*self));
                }
            }
            Node::ParList(_, items) => {
                let mut i: usize = 0;
                while i < items.len()
                    invariant
                        i <= items@.len(),
                        out@ == old(out)@ + spec_sep_spans_up_to(items@, i as int),
                    decreases items@.len() - i,
                {
                    out.push(items[i].0);
                    items[i].1.collect_spans(out);
                        out.push(items[i].2);
                    proof {
                        assert(out@ =~= old(out)@ + spec_sep_spans_up_to(items@, i + 1));
                    }
                    i = i + 1;
                }
                proof {
                    assert(out@ =~= old(out)@ + spec_spans(*self));
                }
            }
            Node::VarList(_, items) => {
                let mut i: usize = 0;
                while i < items.len()
                    invariant
                        i <= items@.len(),
                        out@ == old(out)@ + spec_sep_spans_up_to(items@, i as int),
                    decreases items@.len() - i,
                {
                    out.push(items[i].0);
                    items[i].1.collect_spans(out);
                        out.push(items[i].2);
                    proof {
                        assert(out@ =~= old(out)@ + spec_sep_spans_up_to(items@, i + 1));
                    }
                    i = i + 1;
                }
                proof {
                    assert(out@ =~= old(out)@ + spec_spans(*self));
                }
            }
            _ => {
                proof {
                    assert(false);
                }
            }
        }
    }

    /// One third of the span walk; splitting the tree's many variants
    /// keeps each proof within bounds.
    #[verifier::loop_isolation(false)]
    #[verifier::rlimit(100)]
    #[verifier::spinoff_prover]
    fn collect_spans_stmts(&self, out: &mut Vec<Loc>)
        requires
            span_group_stmts(*self),
        ensures
            final(out)@ == old(out)@ + spec_spans(*self),
        decreases *self, 0nat,
    {
        match self {
            Node::VarRoundSuffix(_, locs, n0, n1) => {
                out.push(locs[0]);
                out.push(locs[1]);
                out.push(locs[2]);
                n0.collect_spans(out);
                n1.collect_spans(out);
                proof {
                    assert(out@ =~= old(out)@ + spec_spans(*self));
                }
            }
            Node::VarSuffixList(_, items) => {
                let mut i: usize = 0;
                while i < items.len()
                    invariant
                        i <= items@.len(),
                        out@ == old(out)@ + spec_plain_spans_up_to(items@, i as int),
                    decreases items@.len() - i,
                {
                    out.push(items[i].0);
                    items[i].1.collect_spans(out);
                    proof {
                        assert(out@ =~= old(out)@ + spec_plain_spans_up_to(items@, i + 1));
                    }
                    i = i + 1;
                }
                proof {
                    assert(out@ =~= old(out)@ + spec_spans(*self));
                }
            }
            Node::FnMethodCall(_, locs, n0, n1) => {
                out.push(locs[0]);
                out.push(locs[1]);
                n0.collect_spans(out);
                n1.collect_spans(out);
                proof {
                    assert(out@ =~= old(out)@ + spec_spans(*self));
                }
            }
            Node::FunctionDef(_, locs, n0) => {
                out.push(locs[0]);
                n0.collect_spans(out);
                proof {
                    assert(out@ =~= old(out)@ + spec_spans(*self));
                }
            }
            Node::FuncBody(_, locs) => {
                out.push(locs[0]);
                out.push(locs[1]);
                proof {
                    assert(out@ =~= old(out)@ + spec_spans(*self));
                }
            }
            Node::FuncBodyB(_, locs, n0) => {
                out.push(locs[0]);
                out.push(locs[1]);
                out.push(locs[2]);
                n0.collect_spans(out);
                proof {
                    assert(out@ =~= old(out)@ + spec_spans(*self));
                }
            }
            Node::FuncPBody(_, locs, n0) => {
                out.push(locs[0]);
                out.push(locs[1]);
                out.push(locs[2]);
                n0.collect_spans(out);
                proof {
                    assert(out@ =~= old(out)@ + spec_spans(*self));
                }
            }
            Node::FuncPBodyB(_, locs, n0, n1) => {
                out.push(locs[0]);
                out.push(locs[1]);
                out.push(locs[2]);
                out.push(locs[3]);
                n0.collect_spans(out);
                n1.collect_spans(out);
                proof {
                    assert(out@ =~= old(out)@ + spec_spans(*self));
                }
            }
            Node::FuncName(_, items) => {
                let mut i: usize = 0;
                while i < items.len()
                    invariant
                        i <= items@.len(),
                        out@ == old(out)@ + spec_sep_spans_up_to(items@, i as int),
                    decreases items@.len() - i,
                {
                    out.push(items[i].0);
                    items[i].1.collect_spans(out);
                        out.push(items[i].2);
                    proof {
                        assert(out@ =~= old(out)@ + spec_sep_spans_up_to(items@, i + 1));
                    }
                    i = i + 1;
                }
                proof {
                    assert(out@ =~= old(out)@ + spec_spans(*self));
                }
            }
            Node::FuncNameSelf(_, locs, items, n0) => {
                out.push(locs[0]);
                out.push(locs[1]);
                let mut i: usize = 0;
                while i < items.len()
                    invariant
                        i <= items@.len(),
                        out@ == old(out)@ + seq![locs[0]] + seq![locs[1]] + spec_sep_spans_up_to(items@, i as int),
                    decreases items@.len() - i,
                {
                    out.push(items[i].0);
                    items[i].1.collect_spans(out);
                        out.push(items[i].2);
                    proof {
                        assert(out@ =~= old(out)@ + seq![locs[0]] + seq![locs[1]] + spec_sep_spans_up_to(items@, i + 1));
                    }
                    i = i + 1;
                }
                n0.collect_spans(out);
                proof {
                    assert(out@ =~= old(out)@ + spec_spans(*self));
                }
            }
            Node::FuncDecl(_, locs, n0, n1) => {
                out.push(locs[0]);
                out.push(locs[1]);
                n0.collect_spans(out);
                n1.collect_spans(out);
                proof {
                    assert(out@ =~= old(out)@ + spec_spans(*self));
                }
            }
            Node::LocalFuncDecl(_, locs, n0, n1) => {
                out.push(locs[0]);
                out.push(locs[1]);
                out.push(locs[2]);
                n0.collect_spans(out);
                n1.collect_spans(out);
                proof {
                    assert(out@ =~= old(out)@ + spec_spans(*self));
                }
            }
            Node::StatementList(_, items) => {
                let mut i: usize = 0;
                while i < items.len()
                    invariant
                        i <= items@.len(),
                        out@ == old(out)@ + spec_plain_spans_up_to(items@, i as int),
                    decreases items@.len() - i,
                {
                    out.push(items[i].0);
                    items[i].1.collect_spans(out);
                    proof {
                        assert(out@ =~= old(out)@ + spec_plain_spans_up_to(items@, i + 1));
                    }
                    i = i + 1;
                }
                proof {
                    assert(out@ =~= old(out)@ + spec_spans(*self));
                }
            }
            Node::DoEnd(_, locs) => {
                out.push(locs[0]);
                proof {
                    assert(out@ =~= old(out)@ + spec_spans(*self));
                }
            }
            Node::DoBEnd(_, locs, n0) => {
                out.push(locs[0]);
                out.push(locs[1]);
                n0.collect_spans(out);
                proof {
                    assert(out@ =~= old(out)@ + spec_spans(*self));
                }
            }
            Node::VarsExprs(_, locs, n0, n1) => {
                out.push(locs[0]);
                out.push(locs[1]);
                n0.collect_spans(out);
                n1.collect_spans(out);
                proof {
                    assert(out@ =~= old(out)@ + spec_spans(*self));
                }
            }
            Node::Name(_, _) => {
                proof {
                    assert(out@ =~= old(out)@ + spec_spans(*self));
                }
            }
            Node::Label(_, locs, n0) => {
                out.push(locs[0]);
                out.push(locs[1]);
                n0.collect_spans(out);
                proof {
                    assert(out@ =~= old(out)@ + spec_spans(*self));
                }
            }
            Node::GoTo(_, locs, n0) => {
                out.push(locs[0]);
                n0.collect_spans(out);
                proof {
                    assert(out@ =~= old(out)@ + spec_spans(*self));
                }
            }
            Node::WhileDo(_, locs, n0) => {
                out.push(locs[0]);
                out.push(locs[1]);
                out.push(locs[2]);
                n0.collect_spans(out);
                proof {
                    assert(out@ =~= old(out)@ + spec_spans(*self));
                }
            }
            Node::WhileDoB(_, locs, n0, n1) => {
                out.push(locs[0]);
                out.push(locs[1]);
                out.push(locs[2]);
                out.push(locs[3]);
                n0.collect_spans(out);
                n1.collect_spans(out);
                proof {
                    assert(out@ =~= old(out)@ + spec_spans(*self));
                }
            }
            Node::RepeatUntil(_, locs, n0) => {
                out.push(locs[0]);
                out.push(locs[1]);
                n0.collect_spans(out);
                proof {
                    assert(out@ =~= old(out)@ + spec_spans(*self));
                }
            }
            Node::RepeatBUntil(_, locs, n0, n1) => {
                out.push(locs[0]);
                out.push(locs[1]);
                out.push(locs[2]);
                n0.collect_spans(out);
                n1.collect_spans(out);
                proof {
                    assert(out@ =~= old(out)@ + spec_spans(*self));
                }
            }
            Node::ForInt(_, locs, n0, n1, n2) => {
                out.push(locs[0]);
                out.push(locs[1]);
                out.push(locs[2]);
                out.push(locs[3]);
                out.push(locs[4]);
                out.push(locs[5]);
                out.push(locs[6]);
                n0.collect_spans(out);
                n1.collect_spans(out);
                n2.collect_spans(out);
                proof {
                    assert(out@ =~= old(out)@ + spec_spans(*self));
                }
            }
            Node::ForIntB(_, locs, n0, n1, n2, n3) => {
                out.push(locs[0]);
                out.push(locs[1]);
                out.push(locs[2]);
                out.push(locs[3]);
                out.push(locs[4]);
                out.push(locs[5]);
                out.push(locs[6]);
                out.push(locs[7]);
                n0.collect_spans(out);
                n1.collect_spans(out);
                n2.collect_spans(out);
                n3.collect_spans(out);
                proof {
                    assert(out@ =~= old(out)@ + spec_spans(*self));
                }
            }
            Node::ForIntStep(_, locs, n0, n1, n2, n3) => {
                out.push(locs[0]);
                out.push(locs[1]);
                out.push(locs[2]);
                out.push(locs[3]);
                out.push(locs[4]);
                out.push(locs[5]);
                out.push(locs[6]);
                out.push(locs[7]);
                out.push(locs[8]);
                n0.collect_spans(out);
                n1.collect_spans(out);
                n2.collect_spans(out);
                n3.collect_spans(out);
                proof {
                    assert(out@ =~= old(out)@ + spec_spans(*self));
                }
            }
            Node::ForIntStepB(_, locs, n0, n1, n2, n3, n4) => {
                out.push(locs[0]);
                out.push(locs[1]);
                out.push(locs[2]);
                out.push(locs[3]);
                out.push(locs[4]);
                out.push(locs[5]);
                out.push(locs[6]);
                out.push(locs[7]);
                out.push(locs[8]);
                out.push(locs[9]);
                n0.collect_spans(out);
                n1.collect_spans(out);
                n2.collect_spans(out);
                n3.collect_spans(out);
                n4.collect_spans(out);
                proof {
                    assert(out@ =~= old(out)@ + spec_spans(*self));
                }
            }
            Node::ForRange(_, locs, n0, n1) => {
                out.push(locs[0]);
                out.push(locs[1]);
                out.push(locs[2]);
                out.push(locs[3]);
                out.push(locs[4]);
                n0.collect_spans(out);
                n1.collect_spans(out);
                proof {
                    assert(out@ =~= old(out)@ + spec_spans(*self));
                }
            }
            _ => {
                proof {
                    assert(false);
                }
            }
        }
    }

    /// One third of the span walk; splitting the tree's many variants
    /// keeps each proof within bounds.
    #[verifier::loop_isolation(false)]
    #[verifier::rlimit(100)]
    #[verifier::spinoff_prover]
    fn collect_spans_tail(&self, out: &mut Vec<Loc>)
        requires
            span_group_tail(*self),
        ensures
            final(out)@ == old(out)@ + spec_spans(*self),
        decreases *self, 0nat,
    {
        match self {
            Node::ForRangeB(_, locs, n0, n1, n2) => {
                out.push(locs[0]);
                out.push(locs[1]);
                out.push(locs[2]);
                out.push(locs[3]);
                out.push(locs[4]);
                out.push(locs[5]);
                n0.collect_spans(out);
                n1.collect_spans(out);
                n2.collect_spans(out);
                proof {
                    assert(out@ =~= old(out)@ + spec_spans(*self));
                }
            }
            Node::LocalNames(_, locs, n0) => {
                out.push(locs[0]);
                n0.collect_spans(out);
                proof {
                    assert(out@ =~= old(out)@ + spec_spans(*self));
                }
            }
            Node::LocalNamesExprs(_, locs, n0, n1) => {
                out.push(locs[0]);
                out.push(locs[1]);
                out.push(locs[2]);
                n0.collect_spans(out);
                n1.collect_spans(out);
                proof {
                    assert(out@ =~= old(out)@ + spec_spans(*self));
                }
            }
            Node::IfThen(_, locs, n0) => {
                out.push(locs[0]);
                out.push(locs[1]);
                out.push(locs[2]);
                n0.collect_spans(out);
                proof {
                    assert(out@ =~= old(out)@ + spec_spans(*self));
                }
            }
            Node::IfThenB(_, locs, n0, n1) => {
                out.push(locs[0]);
                out.push(locs[1]);
                out.push(locs[2]);
                out.push(locs[3]);
                n0.collect_spans(out);
                n1.collect_spans(out);
                proof {
                    assert(out@ =~= old(out)@ + spec_spans(*self));
                }
            }
            Node::IfThenElse(_, locs, n0) => {
                out.push(locs[0]);
                out.push(locs[1]);
                out.push(locs[2]);
                out.push(locs[3]);
                n0.collect_spans(out);
                proof {
                    assert(out@ =~= old(out)@ + spec_spans(*self));
                }
            }
            Node::IfThenBElse(_, locs, n0, n1) => {
                out.push(locs[0]);
                out.push(locs[1]);
                out.push(locs[2]);
                out.push(locs[3]);
                out.push(locs[4]);
                n0.collect_spans(out);
                n1.collect_spans(out);
                proof {
                    assert(out@ =~= old(out)@ + spec_spans(*self));
                }
            }
            Node::IfThenElseB(_, locs, n0, n1) => {
                out.push(locs[0]);
                out.push(locs[1]);
                out.push(locs[2]);
                out.push(locs[3]);
                out.push(locs[4]);
                n0.collect_spans(out);
                n1.collect_spans(out);
                proof {
                    assert(out@ =~= old(out)@ + spec_spans(*self));
                }
            }
            Node::IfThenBElseB(_, locs, n0, n1, n2) => {
                out.push(locs[0]);
                out.push(locs[1]);
                out.push(locs[2]);
                out.push(locs[3]);
                out.push(locs[4]);
                out.push(locs[5]);
                n0.collect_spans(out);
                n1.collect_spans(out);
                n2.collect_spans(out);
                proof {
                    assert(out@ =~= old(out)@ + spec_spans(*self));
                }
            }
            Node::IfThenElseIf(_, locs, n0, n1) => {
                out.push(locs[0]);
                out.push(locs[1]);
                out.push(locs[2]);
                out.push(locs[3]);
                n0.collect_spans(out);
                n1.collect_spans(out);
                proof {
                    assert(out@ =~= old(out)@ + spec_spans(*self));
                }
            }
            Node::IfThenBElseIf(_, locs, n0, n1, n2) => {
                out.push(locs[0]);
                out.push(locs[1]);
                out.push(locs[2]);
                out.push(locs[3]);
                out.push(locs[4]);
                n0.collect_spans(out);
                n1.collect_spans(out);
                n2.collect_spans(out);
                proof {
                    assert(out@ =~= old(out)@ + spec_spans(*self));
                }
            }
            Node::IfThenElseIfElse(_, locs, n0, n1) => {
                out.push(locs[0]);
                out.push(locs[1]);
                out.push(locs[2]);
                out.push(locs[3]);
                out.push(locs[4]);
                n0.collect_spans(out);
                n1.collect_spans(out);
                proof {
                    assert(out@ =~= old(out)@ + spec_spans(*self));
                }
            }
            Node::IfThenBElseIfElse(_, locs, n0, n1, n2) => {
                out.push(locs[0]);
                out.push(locs[1]);
                out.push(locs[2]);
                out.push(locs[3]);
                out.push(locs[4]);
                out.push(locs[5]);
                n0.collect_spans(out);
                n1.collect_spans(out);
                n2.collect_spans(out);
                proof {
                    assert(out@ =~= old(out)@ + spec_spans(*self));
                }
            }
            Node::IfThenElseIfElseB(_, locs, n0, n1, n2) => {
                out.push(locs[0]);
                out.push(locs[1]);
                out.push(locs[2]);
                out.push(locs[3]);
                out.push(locs[4]);
                out.push(locs[5]);
                n0.collect_spans(out);
                n1.collect_spans(out);
                n2.collect_spans(out);
                proof {
                    assert(out@ =~= old(out)@ + spec_spans(*self));
                }
            }
            Node::IfThenBElseIfElseB(_, locs, n0, n1, n2, n3) => {
                out.push(locs[0]);
                out.push(locs[1]);
                out.push(locs[2]);
                out.push(locs[3]);
                out.push(locs[4]);
                out.push(locs[5]);
                out.push(locs[6]);
                n0.collect_spans(out);
                n1.collect_spans(out);
                n2.collect_spans(out);
                n3.collect_spans(out);
                proof {
                    assert(out@ =~= old(out)@ + spec_spans(*self));
                }
            }
            Node::ElseIfThenVec(_, items) => {
                let mut i: usize = 0;
                while i < items.len()
                    invariant
                        i <= items@.len(),
                        out@ == old(out)@ + spec_plain_spans_up_to(items@, i as int),
                    decreases items@.len() - i,
                {
                    out.push(items[i].0);
                    items[i].1.collect_spans(out);
                    proof {
                        assert(out@ =~= old(out)@ + spec_plain_spans_up_to(items@, i + 1));
                    }
                    i = i + 1;
                }
                proof {
                    assert(out@ =~= old(out)@ + spec_spans(*self));
                }
            }
            Node::ElseIfThen(_, locs, n0) => {
                out.push(locs[0]);
                out.push(locs[1]);
                n0.collect_spans(out);
                proof {
                    assert(out@ =~= old(out)@ + spec_spans(*self));
                }
            }
            Node::ElseIfThenB(_, locs, n0, n1) => {
                out.push(locs[0]);
                out.push(locs[1]);
                out.push(locs[2]);
                n0.collect_spans(out);
                n1.collect_spans(out);
                proof {
                    assert(out@ =~= old(out)@ + spec_spans(*self));
                }
            }
            Node::RetStatNone(_) => {
                proof {
                    assert(out@ =~= old(out)@ + spec_spans(*self));
                }
            }
            Node::RetStatExpr(_, locs, n0) => {
                out.push(locs[0]);
                n0.collect_spans(out);
                proof {
                    assert(out@ =~= old(out)@ + spec_spans(*self));
                }
            }
            Node::RetStatNoneComma(_, locs) => {
                out.push(locs[0]);
                proof {
                    assert(out@ =~= old(out)@ + spec_spans(*self));
                }
            }
            Node::RetStatExprComma(_, locs, n0) => {
                out.push(locs[0]);
                out.push(locs[1]);
                n0.collect_spans(out);
                proof {
                    assert(out@ =~= old(out)@ + spec_spans(*self));
                }
            }
            Node::StatsRetStat(_, locs, n0, n1) => {
                out.push(locs[0]);
                n0.collect_spans(out);
                n1.collect_spans(out);
                proof {
                    assert(out@ =~= old(out)@ + spec_spans(*self));
                }
            }
            Node::Chunk(l0, n0, l2) => {
                out.push(*l0);
                n0.collect_spans(out);
                out.push(*l2);
                proof {
                    assert(out@ =~= old(out)@ + spec_spans(*self));
                }
            }
            Node::SheBangChunk(l0, n0, l2, n1, l4) => {
                out.push(*l0);
                n0.collect_spans(out);
                out.push(*l2);
                n1.collect_spans(out);
                out.push(*l4);
                proof {
                    assert(out@ =~= old(out)@ + spec_spans(*self));
                }
            }
            Node::Semicolon(_) => {
                proof {
                    assert(out@ =~= old(out)@ + spec_spans(*self));
                }
            }
            Node::SheBang(_, _) => {
                proof {
                    assert(out@ =~= old(out)@ + spec_spans(*self));
                }
            }
            _ => {
                proof {
                    assert(false);
                }
            }
        }
    }
}

} // verus!
