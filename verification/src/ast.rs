//! The syntax tree of a Tea module, and source spans.
use vstd::prelude::*;

verus! {

/// A region of source text, by one-based line and column; a span whose
/// `line` is zero stands for an unknown location.
#[derive(Debug, Clone, Copy, PartialEq, Eq, Hash, Structural)]
pub struct SourceSpan {
    pub line: usize,
    pub column: usize,
    pub end_line: usize,
    pub end_column: usize,
}

/// Whether position (l1, c1) comes no later than position (l2, c2).
pub open spec fn position_le(l1: int, c1: int, l2: int, c2: int) -> bool {
    l1 < l2 || (l1 == l2 && c1 <= c2)
}

/// Whether the span stands for an unknown location.
pub open spec fn is_unknown_span(s: SourceSpan) -> bool {
    s.line == 0
}

/// The smallest span that covers both `a` and `b`; an unknown span is
/// ignored in favour of the other one.
pub open spec fn span_union(a: SourceSpan, b: SourceSpan) -> SourceSpan {
    if is_unknown_span(a) {
        b
    } else if is_unknown_span(b) {
        a
    } else {
        let a_first = position_le(a.line as int, a.column as int, b.line as int, b.column as int);
        let a_last = position_le(
            b.end_line as int,
            b.end_column as int,
            a.end_line as int,
            a.end_column as int,
        );
        SourceSpan {
            line: if a_first { a.line } else { b.line },
            column: if a_first { a.column } else { b.column },
            end_line: if a_last { a.end_line } else { b.end_line },
            end_column: if a_last { a.end_column } else { b.end_column },
        }
    }
}

impl SourceSpan {
    pub fn new(line: usize, column: usize, end_line: usize, end_column: usize) -> (span: Self)
        ensures
            span == (SourceSpan { line, column, end_line, end_column }),
    {
        SourceSpan { line, column, end_line, end_column }
    }

    /// The span of one position.
    pub fn single_point(line: usize, column: usize) -> (span: Self)
        ensures
            span == (SourceSpan { line, column, end_line: line, end_column: column }),
    {
        Self::new(line, column, line, column)
    }

    /// The smallest span covering `a` and `b` (see [`span_union`]).
    pub fn union(a: &Self, b: &Self) -> (span: Self)
        ensures
            span == span_union(*a, *b),
    {
        if a.line == 0 {
            return *b;
        }
        if b.line == 0 {
            return *a;
        }
        let (start_line, start_column) = if (a.line < b.line) || (a.line == b.line && a.column
            <= b.column) {
            (a.line, a.column)
        } else {
            (b.line, b.column)
        };
        let (end_line, end_column) = if (a.end_line > b.end_line) || (a.end_line == b.end_line
            && a.end_column >= b.end_column) {
            (a.end_line, a.end_column)
        } else {
            (b.end_line, b.end_column)
        };
        Self::new(start_line, start_column, end_line, end_column)
    }
}

impl Default for SourceSpan {
    /// The unknown location: every coordinate zero.
    fn default() -> (span: Self)
        ensures
            span == (SourceSpan { line: 0, column: 0, end_line: 0, end_column: 0 }),
    {
        SourceSpan { line: 0, column: 0, end_line: 0, end_column: 0 }
    }
}

/// Joining spans does not depend on how the joins are grouped.
pub proof fn lemma_union_associative(a: SourceSpan, b: SourceSpan, c: SourceSpan)
    ensures
        span_union(span_union(a, b), c) == span_union(a, span_union(b, c)),
{
}

/// Joining two spans does not depend on their order, unless both are
/// unknown locations (then the second one is kept).
pub proof fn lemma_union_commutative(a: SourceSpan, b: SourceSpan)
    requires
        !(is_unknown_span(a) && is_unknown_span(b)),
    ensures
        span_union(a, b) == span_union(b, a),
{
}

/// Joining a span with itself gives the span back.
pub proof fn lemma_union_idempotent(a: SourceSpan)
    ensures
        span_union(a, a) == a,
{
}

/// An unknown location is a neutral element of the join, on either side.
pub proof fn lemma_union_unknown_neutral(a: SourceSpan, b: SourceSpan)
    requires
        is_unknown_span(a),
    ensures
        span_union(a, b) == b,
        span_union(b, a) == b || is_unknown_span(b),
{
}

/// The join of two known spans starts no later and ends no earlier than
/// each of them.
pub proof fn lemma_union_covers(a: SourceSpan, b: SourceSpan)
    requires
        !is_unknown_span(a),
        !is_unknown_span(b),
    ensures
        position_le(
            span_union(a, b).line as int,
            span_union(a, b).column as int,
            a.line as int,
            a.column as int,
        ),
        position_le(
            span_union(a, b).line as int,
            span_union(a, b).column as int,
            b.line as int,
            b.column as int,
        ),
        position_le(
            a.end_line as int,
            a.end_column as int,
            span_union(a, b).end_line as int,
            span_union(a, b).end_column as int,
        ),
        position_le(
            b.end_line as int,
            b.end_column as int,
            span_union(a, b).end_line as int,
            span_union(a, b).end_column as int,
        ),
        !is_unknown_span(span_union(a, b)),
{
}

/// A lexical token of a type annotation; only its text is kept here.
#[derive(Debug, Clone)]
pub struct Token {
    pub lexeme: String,
}

#[derive(Debug)]
pub struct Module {
    pub statements: Vec<Statement>,
}

impl Module {
    pub fn new(statements: Vec<Statement>) -> (module: Self)
        ensures
            module.statements == statements,
    {
        Module { statements }
    }
}

#[derive(Debug)]
pub enum Statement {
    Use(UseStatement),
    Var(VarStatement),
    Function(FunctionStatement),
    Test(TestStatement),
    Struct(StructStatement),
    Conditional(ConditionalStatement),
    Loop(LoopStatement),
    Return(ReturnStatement),
    Expression(ExpressionStatement),
}

#[derive(Debug, Clone)]
pub struct UseStatement {
    pub alias: UseAlias,
    pub module_name: String,
    pub module_span: SourceSpan,
}

#[derive(Debug, Clone)]
pub struct UseAlias {
    pub name: String,
    pub span: SourceSpan,
}

#[derive(Debug)]
pub struct VarStatement {
    pub is_const: bool,
    pub bindings: Vec<VarBinding>,
    pub docstring: Option<String>,
}

#[derive(Debug)]
pub struct VarBinding {
    pub name: String,
    pub span: SourceSpan,
    pub type_annotation: Option<TypeExpression>,
    pub initializer: Option<Expression>,
}

#[derive(Debug, Clone)]
pub struct TypeExpression {
    pub tokens: Vec<Token>,
}

#[derive(Debug, Clone)]
pub struct TypeParameter {
    pub name: String,
    pub span: SourceSpan,
}

#[derive(Debug)]
pub struct FunctionStatement {
    pub is_public: bool,
    pub name: String,
    pub name_span: SourceSpan,
    pub type_parameters: Vec<TypeParameter>,
    pub parameters: Vec<FunctionParameter>,
    pub return_type: Option<TypeExpression>,
    pub body: Block,
    pub docstring: Option<String>,
}

#[derive(Debug)]
pub struct TestStatement {
    pub name: String,
    pub name_span: SourceSpan,
    pub body: Block,
    pub docstring: Option<String>,
}

#[derive(Debug)]
pub struct FunctionParameter {
    pub name: String,
    pub span: SourceSpan,
    pub type_annotation: Option<TypeExpression>,
    pub default_value: Option<Expression>,
}

#[derive(Debug, Clone)]
pub struct StructStatement {
    pub name: String,
    pub name_span: SourceSpan,
    pub type_parameters: Vec<TypeParameter>,
    pub fields: Vec<StructField>,
    pub docstring: Option<String>,
}

#[derive(Debug, Clone)]
pub struct StructField {
    pub name: String,
    pub span: SourceSpan,
    pub type_annotation: TypeExpression,
}

#[derive(Debug)]
pub struct ConditionalStatement {
    pub kind: ConditionalKind,
    pub condition: Expression,
    pub consequent: Block,
    pub alternative: Option<Block>,
}

#[derive(Debug, Clone, Copy, PartialEq, Eq, Structural)]
pub enum ConditionalKind {
    If,
    Unless,
}

#[derive(Debug)]
pub struct LoopStatement {
    pub kind: LoopKind,
    pub header: LoopHeader,
    pub body: Block,
    pub span: SourceSpan,
}

#[derive(Debug, Clone, PartialEq, Eq, Structural)]
pub enum LoopKind {
    For,
    While,
    Until,
}

#[derive(Debug)]
pub enum LoopHeader {
    For { pattern: ForPattern, iterator: Expression },
    Condition(Expression),
}

/// The variables a `for` loop binds: one for each element, or a key and a
/// value for each entry of a dictionary.
#[derive(Debug)]
pub enum ForPattern {
    Single(Identifier),
    Pair(Identifier, Identifier),
}

#[derive(Debug)]
pub struct ReturnStatement {
    pub span: SourceSpan,
    pub expression: Option<Expression>,
}

#[derive(Debug)]
pub struct ExpressionStatement {
    pub expression: Expression,
}

#[derive(Debug)]
pub struct Block {
    pub statements: Vec<Statement>,
}

#[derive(Debug, Clone)]
pub struct Identifier {
    pub name: String,
    pub span: SourceSpan,
}

/// A literal value. A float literal is held by the bit pattern of its
/// IEEE-754 double (`f64::to_bits`), which identifies the value exactly.
#[derive(Debug, Clone)]
pub enum Literal {
    Integer(i64),
    Float(u64),
    String(String),
    Boolean(bool),
    Nil,
}

#[derive(Debug, Clone, Copy, PartialEq, Eq, Structural)]
pub enum UnaryOperator {
    Positive,
    Negative,
    Not,
}

#[derive(Debug, Clone, Copy, PartialEq, Eq, Structural)]
pub enum BinaryOperator {
    Add,
    Subtract,
    Multiply,
    Divide,
    Modulo,
    Equal,
    NotEqual,
    Greater,
    GreaterEqual,
    Less,
    LessEqual,
    And,
    Or,
}

#[derive(Debug)]
pub struct Expression {
    pub span: SourceSpan,
    pub kind: ExpressionKind,
}

#[derive(Debug)]
pub enum ExpressionKind {
    Identifier(Identifier),
    Literal(Literal),
    InterpolatedString(InterpolatedStringExpression),
    List(ListLiteral),
    Dict(DictLiteral),
    Unary(UnaryExpression),
    Binary(BinaryExpression),
    Call(CallExpression),
    Member(MemberExpression),
    Index(IndexExpression),
    Range(RangeExpression),
    Lambda(LambdaExpression),
    Assignment(AssignmentExpression),
    Grouping(Box<Expression>),
}

#[derive(Debug)]
pub struct InterpolatedStringExpression {
    pub parts: Vec<InterpolatedStringPart>,
}

#[derive(Debug)]
pub enum InterpolatedStringPart {
    Literal(String),
    Expression(Expression),
}

#[derive(Debug)]
pub struct ListLiteral {
    pub elements: Vec<Expression>,
}

#[derive(Debug)]
pub struct DictLiteral {
    pub entries: Vec<DictEntry>,
}

#[derive(Debug)]
pub struct DictEntry {
    pub key: String,
    pub value: Expression,
}

#[derive(Debug)]
pub struct UnaryExpression {
    pub operator: UnaryOperator,
    pub operand: Box<Expression>,
}

#[derive(Debug)]
pub struct BinaryExpression {
    pub operator: BinaryOperator,
    pub left: Box<Expression>,
    pub right: Box<Expression>,
}

#[derive(Debug)]
pub struct CallExpression {
    pub callee: Box<Expression>,
    pub type_arguments: Vec<TypeExpression>,
    pub arguments: Vec<CallArgument>,
}

#[derive(Debug)]
pub struct CallArgument {
    pub name: Option<String>,
    pub name_span: Option<SourceSpan>,
    pub expression: Expression,
}

#[derive(Debug)]
pub struct MemberExpression {
    pub object: Box<Expression>,
    pub property: String,
    pub property_span: SourceSpan,
}

#[derive(Debug)]
pub struct IndexExpression {
    pub object: Box<Expression>,
    pub index: Box<Expression>,
}

#[derive(Debug)]
pub struct RangeExpression {
    pub start: Box<Expression>,
    pub end: Box<Expression>,
    pub inclusive: bool,
}

#[derive(Debug)]
pub struct LambdaExpression {
    pub id: usize,
    pub parameters: Vec<FunctionParameter>,
    pub body: LambdaBody,
}

#[derive(Debug)]
pub enum LambdaBody {
    Expression(Box<Expression>),
    Block(Block),
}

#[derive(Debug)]
pub struct AssignmentExpression {
    pub target: Box<Expression>,
    pub value: Box<Expression>,
}

} // verus!
