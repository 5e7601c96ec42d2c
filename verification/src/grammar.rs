//! The formula grammar, which the `arithmetic_parser` crate provides.
//!
//! The crate's syntax tree borrows from the text and is generic over the
//! grammar; this module copies what the formulas need out of it into
//! [`Syntax`], a tree of plain values.

use crate::ast::Operator;
use crate::scan::{blocks, nesting};
use arithmetic_parser::grammars::{F32Grammar, Parse, Untyped};
use arithmetic_parser::{BinaryOp, Expr, SpannedExpr};
use vstd::prelude::*;

verus! {

/// An expression as the grammar read it, leaves still as they were written.
#[derive(Debug)]
pub enum Syntax {
    /// A number: the text that the grammar read it from.
    Literal(String),
    /// An identifier: the text that the grammar read it from. The grammar
    /// counts parentheses around a single leaf to the leaf's text, and with
    /// them the blanks and comments inside the parentheses.
    Variable(String),
    /// A binary operation.
    Binary { op: Operator, lhs: Box<Syntax>, rhs: Box<Syntax> },
    /// Any other construct.
    Other,
}

/// What the grammar made of a text: statements that end in `;`, and after
/// them an expression, if there is one.
#[derive(Debug)]
pub struct ParsedBlock {
    pub statements: usize,
    pub value: Option<Syntax>,
}

/// The mathematical content of a [`Syntax`].
pub enum SyntaxView {
    Literal(Seq<char>),
    Variable(Seq<char>),
    Binary { op: Operator, lhs: Box<SyntaxView>, rhs: Box<SyntaxView> },
    Other,
}

/// The mathematical content of a [`ParsedBlock`].
pub struct ParsedBlockView {
    pub statements: usize,
    pub value: Option<SyntaxView>,
}

impl View for Syntax {
    type V = SyntaxView;

    open spec fn view(&self) -> SyntaxView
        decreases self,
    {
        match self {
            Syntax::Literal(text) => SyntaxView::Literal(text@),
            Syntax::Variable(name) => SyntaxView::Variable(name@),
            Syntax::Binary { op, lhs, rhs } => SyntaxView::Binary {
                op: *op,
                lhs: Box::new((**lhs).view()),
                rhs: Box::new((**rhs).view()),
            },
            Syntax::Other => SyntaxView::Other,
        }
    }
}

impl View for ParsedBlock {
    type V = ParsedBlockView;

    open spec fn view(&self) -> ParsedBlockView {
        ParsedBlockView {
            statements: self.statements,
            value: match self.value {
                Some(syntax) => Some(syntax@),
                None => None,
            },
        }
    }
}

/// The largest number of characters of a formula that is handed to the
/// grammar.
pub const MAX_FORMULA_LENGTH: usize = 1024;

/// The deepest formula that is handed to the grammar, as [`nesting`] measures
/// depth. The parser calls itself once for each level, and a deeper text
/// could exhaust the stack.
pub const MAX_NESTING: usize = 64;

/// Whether a text is short, flat and plain enough for the grammar: within
/// the two limits, and without a `{`. The parser reads what stands inside
/// `{ }` twice, so each level of blocks would double its work; and a block
/// has no value in a formula.
pub open spec fn fits_grammar(text: Seq<char>) -> bool {
    &&& text.len() <= MAX_FORMULA_LENGTH
    &&& nesting(text) <= MAX_NESTING
    &&& blocks(text) == 0
}

/// What the grammar makes of a text: a block, or the reason why the text is
/// none.
pub uninterp spec fn grammar_parse(text: Seq<char>) -> Result<ParsedBlockView, Seq<char>>;

/// `arithmetic_parser::BinaryOp`, the operator of a binary expression.
#[verifier::external_type_specification]
#[verifier::external_body]
pub struct ExBinaryOp(BinaryOp);

/// One expression of the tree that `arithmetic_parser` built. The crate's
/// `Expr` is bounded by its own `Grammar` trait, so the node is held here
/// unseen.
#[verifier::external_body]
struct GrammarNode<'a> {
    node: &'a SpannedExpr<'a, Untyped<F32Grammar>>,
}

/// The operator of the same name. `BinaryOp` is declared non-exhaustive: the
/// last arm takes `Le`, and with it whatever a later version may add.
#[verifier::external_body]
fn lower_operator(op: BinaryOp) -> Operator {
    match op {
        BinaryOp::Add => Operator::Add,
        BinaryOp::Sub => Operator::Sub,
        BinaryOp::Mul => Operator::Mul,
        BinaryOp::Div => Operator::Div,
        BinaryOp::Power => Operator::Power,
        BinaryOp::Eq => Operator::Eq,
        BinaryOp::NotEq => Operator::NotEq,
        BinaryOp::And => Operator::And,
        BinaryOp::Or => Operator::Or,
        BinaryOp::Gt => Operator::Gt,
        BinaryOp::Lt => Operator::Lt,
        BinaryOp::Ge => Operator::Ge,
        BinaryOp::Le | _ => Operator::Le,
    }
}

/// Copies an `Expr` into a [`Syntax`]: a variable and a literal with the text
/// of their span, a binary operation with its operator and operands.
#[verifier::external_body]
fn lower_node(node: GrammarNode<'_>) -> Syntax {
    match &node.node.extra {
        Expr::Variable => Syntax::Variable(node.node.fragment().to_string()),
        Expr::Literal(_) => Syntax::Literal(node.node.fragment().to_string()),
        Expr::Binary { lhs, op, rhs } => Syntax::Binary {
            op: lower_operator(op.extra),
            lhs: Box::new(lower_node(GrammarNode { node: lhs })),
            rhs: Box::new(lower_node(GrammarNode { node: rhs })),
        },
        _ => Syntax::Other,
    }
}

/// `Untyped::<F32Grammar>::parse_statements`: the number of statements of the
/// block and its closing expression, or the parser's message. The parser is
/// recursive and reads the inside of `{ }` twice, so a text that is too long,
/// too deep or holds a `{` is left out. The result depends on the text alone
/// and is only named here.
#[verifier::external_body]
pub(crate) fn parse_block(text: &str) -> (r: Result<ParsedBlock, String>)
    requires
        fits_grammar(text@),
    ensures
        match r {
            Ok(block) => grammar_parse(text@) == Ok::<ParsedBlockView, Seq<char>>(block@),
            Err(reason) => grammar_parse(text@) == Err::<ParsedBlockView, Seq<char>>(reason@),
        },
{
    match Untyped::<F32Grammar>::parse_statements(text) {
        Ok(block) => Ok(ParsedBlock {
            statements: block.statements.len(),
            value: match &block.return_value {
                Some(value) => Some(lower_node(GrammarNode { node: value })),
                None => None,
            },
        }),
        Err(e) => Err(e.to_string()),
    }
}

} // verus!
