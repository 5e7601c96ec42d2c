//! Formula trees: their shape, the symbols they name, and how a request text
//! becomes one.

use crate::decimal::{decimal_in, Decimal, DecimalView};
use crate::error::Error;
use crate::grammar::{
    grammar_parse, parse_block, ParsedBlock, ParsedBlockView, Syntax, SyntaxView,
    MAX_FORMULA_LENGTH, MAX_NESTING,
};
use crate::scan::{blocks, nesting, scan};
use crate::models::{StreamRequestAST, StreamRequestASTView};
use crate::text::{
    bare, characters, copy_range, find_at, first_at, segment, strip_parentheses,
};
use vstd::prelude::*;

verus! {

/// A binary operator of the formula grammar.
#[derive(Debug, Clone, Copy, PartialEq, Eq, Structural)]
pub enum Operator {
    /// `+`
    Add,
    /// `-`
    Sub,
    /// `*`
    Mul,
    /// `/`
    Div,
    /// The remainder of a division. The grammar has no sign for it; a tree
    /// built by hand may hold it.
    Rem,
    /// `^`
    Power,
    /// `==`
    Eq,
    /// `!=`
    NotEq,
    /// `&&`
    And,
    /// `||`
    Or,
    /// `>`
    Gt,
    /// `<`
    Lt,
    /// `>=`
    Ge,
    /// `<=`
    Le,
}

impl Operator {
    /// Whether the evaluator can apply the operator: only `+`, `-`, `*`, `/`.
    pub open spec fn supported(self) -> bool {
        self is Add || self is Sub || self is Mul || self is Div
    }

    /// Whether the evaluator can apply the operator.
    pub fn is_supported(self) -> (r: bool)
        ensures
            r == self.supported(),
    {
        match self {
            Operator::Add | Operator::Sub | Operator::Mul | Operator::Div => true,
            _ => false,
        }
    }
}

/// A formula over price symbols.
#[derive(Debug)]
pub enum Expression {
    /// A constant.
    Literal(Decimal),
    /// A reference to the latest sample of one symbol.
    Variable(String),
    /// Two formulas joined by an operator.
    Binary { op: Operator, lhs: Box<Expression>, rhs: Box<Expression> },
    /// Any other construct of the grammar (a call, a tuple, a negation, a
    /// block). It names no symbol and never has a value.
    Other,
}

/// The mathematical content of an [`Expression`].
pub enum ExpressionView {
    Literal(DecimalView),
    Variable(Seq<char>),
    Binary { op: Operator, lhs: Box<ExpressionView>, rhs: Box<ExpressionView> },
    Other,
}

impl View for Expression {
    type V = ExpressionView;

    open spec fn view(&self) -> ExpressionView
        decreases self,
    {
        match self {
            Expression::Literal(value) => ExpressionView::Literal(value@),
            Expression::Variable(symbol) => ExpressionView::Variable(symbol@),
            Expression::Binary { op, lhs, rhs } => ExpressionView::Binary {
                op: *op,
                lhs: Box::new((**lhs).view()),
                rhs: Box::new((**rhs).view()),
            },
            Expression::Other => ExpressionView::Other,
        }
    }
}

/// The symbols of a formula: those of its variables, one entry for each
/// occurrence, left operand before right operand.
pub open spec fn symbols_of(e: ExpressionView) -> Seq<Seq<char>>
    decreases e,
{
    match e {
        ExpressionView::Variable(symbol) => seq![symbol],
        ExpressionView::Binary { lhs, rhs, .. } => symbols_of(*lhs) + symbols_of(*rhs),
        _ => Seq::empty(),
    }
}

/// Whether a variable of the formula names `symbol`.
pub open spec fn occurs(e: ExpressionView, symbol: Seq<char>) -> bool
    decreases e,
{
    match e {
        ExpressionView::Variable(name) => name == symbol,
        ExpressionView::Binary { lhs, rhs, .. } => occurs(*lhs, symbol) || occurs(*rhs, symbol),
        _ => false,
    }
}

/// The number of variables in the formula, each occurrence counted.
pub open spec fn variable_count(e: ExpressionView) -> nat
    decreases e,
{
    match e {
        ExpressionView::Variable(_) => 1,
        ExpressionView::Binary { lhs, rhs, .. } => variable_count(*lhs) + variable_count(*rhs),
        _ => 0,
    }
}

/// Whether no symbol is named by two variables of the formula.
pub open spec fn repeats_no_symbol(e: ExpressionView) -> bool
    decreases e,
{
    match e {
        ExpressionView::Binary { lhs, rhs, .. } => {
            &&& repeats_no_symbol(*lhs)
            &&& repeats_no_symbol(*rhs)
            &&& forall|symbol: Seq<char>| !(occurs(*lhs, symbol) && occurs(*rhs, symbol))
        },
        _ => true,
    }
}

/// Nothing is left out and nothing is made up: the symbols of a formula are
/// those that its variables name, with one entry for each variable.
pub proof fn lemma_symbols_are_the_variables(e: ExpressionView)
    ensures
        forall|symbol: Seq<char>| symbols_of(e).contains(symbol) <==> occurs(e, symbol),
        symbols_of(e).len() == variable_count(e),
    decreases e,
{
    match e {
        ExpressionView::Variable(name) => {
            assert(symbols_of(e)[0] == name);
        },
        ExpressionView::Binary { lhs, rhs, .. } => {
            lemma_symbols_are_the_variables(*lhs);
            lemma_symbols_are_the_variables(*rhs);
            let l = symbols_of(*lhs);
            let r = symbols_of(*rhs);
            assert forall|symbol: Seq<char>| (l + r).contains(symbol) <==> occurs(
                e,
                symbol,
            ) by {
                if (l + r).contains(symbol) {
                    let i = choose|i: int| 0 <= i < (l + r).len() && (l + r)[i] == symbol;
                    if i < l.len() {
                        assert(l[i] == symbol);
                        assert(l.contains(symbol));
                    } else {
                        assert(r[i - l.len()] == symbol);
                        assert(r.contains(symbol));
                    }
                }
                if occurs(*lhs, symbol) {
                    assert(l.contains(symbol));
                    let i = choose|i: int| 0 <= i < l.len() && l[i] == symbol;
                    assert((l + r)[i] == symbol);
                }
                if occurs(*rhs, symbol) {
                    assert(r.contains(symbol));
                    let i = choose|i: int| 0 <= i < r.len() && r[i] == symbol;
                    assert((l + r)[l.len() + i] == symbol);
                }
            }
        },
        _ => {},
    }
}

/// A formula that names no symbol twice has a list of symbols without
/// repetitions.
pub proof fn lemma_symbols_without_repetition(e: ExpressionView)
    requires
        repeats_no_symbol(e),
    ensures
        symbols_of(e).no_duplicates(),
        first_occurrences(symbols_of(e)) == symbols_of(e),
    decreases e,
{
    match e {
        ExpressionView::Binary { lhs, rhs, .. } => {
            lemma_symbols_without_repetition(*lhs);
            lemma_symbols_without_repetition(*rhs);
            lemma_symbols_are_the_variables(*lhs);
            lemma_symbols_are_the_variables(*rhs);
            let l = symbols_of(*lhs);
            let r = symbols_of(*rhs);
            assert forall|i: int, j: int| 0 <= i < j < (l + r).len() implies (l + r)[i] != (l
                + r)[j] by {
                if j < l.len() {
                    assert((l + r)[i] == l[i] && (l + r)[j] == l[j]);
                } else if i >= l.len() {
                    assert((l + r)[i] == r[i - l.len()] && (l + r)[j] == r[j - l.len()]);
                } else {
                    assert((l + r)[i] == l[i] && (l + r)[j] == r[j - l.len()]);
                    assert(l.contains(l[i]));
                    assert(r.contains(r[j - l.len()]));
                    assert(occurs(*lhs, l[i]));
                    assert(occurs(*rhs, r[j - l.len()]));
                }
            }
        },
        _ => {},
    }
    lemma_first_occurrences_of_distinct(symbols_of(e));
}

/// A list without repetitions is its own list of first occurrences.
pub proof fn lemma_first_occurrences_of_distinct(s: Seq<Seq<char>>)
    requires
        s.no_duplicates(),
    ensures
        first_occurrences(s) == s,
    decreases s.len(),
{
    if s.len() > 0 {
        let head = s.drop_last();
        lemma_first_occurrences_of_distinct(head);
        if head.contains(s.last()) {
            let i = choose|i: int| 0 <= i < head.len() && head[i] == s.last();
            assert(s[i] == s[s.len() - 1]);
        }
        assert(head.push(s.last()) =~= s);
    }
}

/// Appends the symbols of `node` to `out`.
fn collect_symbols(node: &Expression, out: &mut Vec<String>)
    ensures
        final(out).deep_view() == old(out).deep_view() + symbols_of(node@),
    decreases node,
{
    match node {
        Expression::Variable(symbol) => {
            out.push(symbol.clone());
            assert(out.deep_view() =~= old(out).deep_view() + symbols_of(node@));
        },
        Expression::Binary { lhs, rhs, .. } => {
            collect_symbols(lhs, out);
            collect_symbols(rhs, out);
            assert(out.deep_view() =~= old(out).deep_view() + symbols_of(node@));
        },
        _ => {
            assert(out.deep_view() =~= old(out).deep_view() + symbols_of(node@));
        },
    }
}

/// The symbols that a formula depends on, in the order in which a reader
/// meets them: depth first, left operand before right operand, one entry for
/// each occurrence of a variable.
pub fn get_all_variables_from_ast(node: &Expression) -> (r: Vec<String>)
    ensures
        r.deep_view() == symbols_of(node@),
{
    let mut out: Vec<String> = Vec::new();
    collect_symbols(node, &mut out);
    assert(out.deep_view() =~= symbols_of(node@));
    out
}

/// Whether every operator of the formula is one that the evaluator can
/// apply.
pub open spec fn supported(e: ExpressionView) -> bool
    decreases e,
{
    match e {
        ExpressionView::Binary { op, lhs, rhs } => op.supported() && supported(*lhs) && supported(
            *rhs,
        ),
        _ => true,
    }
}

/// Whether every operator of the formula is one of `+`, `-`, `*`, `/`.
pub fn is_supported(node: &Expression) -> (r: bool)
    ensures
        r == supported(node@),
    decreases node,
{
    match node {
        Expression::Binary { op, lhs, rhs } => op.is_supported() && is_supported(lhs)
            && is_supported(rhs),
        _ => true,
    }
}

/// The entries of `s` without repetitions: each symbol once, at the place of
/// its first occurrence.
pub open spec fn first_occurrences(s: Seq<Seq<char>>) -> Seq<Seq<char>>
    decreases s.len(),
{
    if s.len() == 0 {
        s
    } else {
        let before = first_occurrences(s.drop_last());
        if before.contains(s.last()) {
            before
        } else {
            before.push(s.last())
        }
    }
}

/// `first_occurrences` repeats nothing and loses nothing.
pub proof fn lemma_first_occurrences(s: Seq<Seq<char>>)
    ensures
        first_occurrences(s).no_duplicates(),
        first_occurrences(s).to_set() == s.to_set(),
        first_occurrences(s).len() == s.to_set().len(),
    decreases s.len(),
{
    let out = first_occurrences(s);
    if s.len() == 0 {
        assert(out.to_set() =~= s.to_set());
    } else {
        let before = first_occurrences(s.drop_last());
        lemma_first_occurrences(s.drop_last());
        assert forall|x: Seq<char>| out.to_set().contains(x) <==> s.to_set().contains(x) by {
            if out.contains(x) {
                let i = choose|i: int| 0 <= i < out.len() && out[i] == x;
                if i < before.len() {
                    assert(before.contains(x));
                    assert(s.drop_last().to_set().contains(x));
                    let j = choose|j: int| 0 <= j < s.drop_last().len() && s.drop_last()[j] == x;
                    assert(s[j] == x);
                } else {
                    assert(x == s.last());
                    assert(s[s.len() - 1] == x);
                }
            }
            if s.contains(x) {
                let j = choose|j: int| 0 <= j < s.len() && s[j] == x;
                if j < s.len() - 1 {
                    assert(s.drop_last()[j] == x);
                    assert(s.drop_last().to_set().contains(x));
                    assert(before.contains(x));
                    let i = choose|i: int| 0 <= i < before.len() && before[i] == x;
                    assert(out[i] == x);
                } else if before.contains(x) {
                    let i = choose|i: int| 0 <= i < before.len() && before[i] == x;
                    assert(out[i] == x);
                } else {
                    assert(out[out.len() - 1] == x);
                }
            }
        }
        assert(out.to_set() =~= s.to_set());
    }
    out.unique_seq_to_set();
}

/// Whether `list` holds `symbol`.
fn holds_symbol(list: &Vec<String>, symbol: &String) -> (r: bool)
    ensures
        r == list.deep_view().contains(symbol@),
{
    let mut i: usize = 0;
    while i < list.len()
        invariant
            i <= list.len(),
            forall|j: int| 0 <= j < i ==> list.deep_view()[j] != symbol@,
        decreases list.len() - i,
    {
        if list[i] == *symbol {
            assert(list.deep_view()[i as int] == symbol@);
            return true;
        }
        i += 1;
    }
    false
}

/// The symbols of a list without repetitions: each once, at the place of its
/// first occurrence.
pub fn distinct_symbols(symbols: &Vec<String>) -> (r: Vec<String>)
    ensures
        r.deep_view() == first_occurrences(symbols.deep_view()),
{
    let mut out: Vec<String> = Vec::new();
    let mut i: usize = 0;
    assert(symbols.deep_view().take(0) =~= Seq::<Seq<char>>::empty());
    assert(out.deep_view() =~= Seq::<Seq<char>>::empty());
    while i < symbols.len()
        invariant
            i <= symbols.len(),
            out.deep_view() == first_occurrences(symbols.deep_view().take(i as int)),
        decreases symbols.len() - i,
    {
        let ghost all = symbols.deep_view();
        let ghost before = out.deep_view();
        assert(all.take(i + 1).drop_last() =~= all.take(i as int));
        assert(all.take(i + 1).last() == symbols[i as int]@);
        if !holds_symbol(&out, &symbols[i]) {
            out.push(symbols[i].clone());
            assert(out.deep_view() =~= before.push(symbols[i as int]@));
        }
        i += 1;
    }
    assert(symbols.deep_view().take(i as int) =~= symbols.deep_view());
    out
}

/// The formula that a syntax tree stands for, or `None` where one of its
/// literals is no decimal. The text of a leaf is taken without the
/// parentheses and comments around it. A literal becomes the decimal that its text spells,
/// a variable names the symbol that its text spells, and everything else
/// keeps its shape.
pub open spec fn lowered(s: SyntaxView) -> Option<ExpressionView>
    decreases s,
{
    match s {
        SyntaxView::Literal(text) => match decimal_in(bare(text)) {
            Some(value) => Some(ExpressionView::Literal(value)),
            None => None,
        },
        SyntaxView::Variable(name) => Some(ExpressionView::Variable(bare(name))),
        SyntaxView::Binary { op, lhs, rhs } => match (lowered(*lhs), lowered(*rhs)) {
            (Some(l), Some(r)) => Some(
                ExpressionView::Binary { op, lhs: Box::new(l), rhs: Box::new(r) },
            ),
            _ => None,
        },
        SyntaxView::Other => Some(ExpressionView::Other),
    }
}

/// Turns a syntax tree into a formula; `None` where a literal is no decimal.
pub fn lower(syntax: Syntax) -> (r: Option<Expression>)
    ensures
        match r {
            Some(e) => lowered(syntax@) == Some(e@),
            None => lowered(syntax@) is None,
        },
    decreases syntax,
{
    match syntax {
        Syntax::Literal(text) => match Decimal::parse(strip_parentheses(text.as_str()).as_str()) {
            Some(value) => Some(Expression::Literal(value)),
            None => None,
        },
        Syntax::Variable(name) => Some(Expression::Variable(strip_parentheses(name.as_str()))),
        Syntax::Binary { op, lhs, rhs } => {
            let l = match lower(*lhs) {
                Some(l) => l,
                None => { return None; },
            };
            let r = match lower(*rhs) {
                Some(r) => r,
                None => { return None; },
            };
            Some(Expression::Binary { op, lhs: Box::new(l), rhs: Box::new(r) })
        },
        Syntax::Other => Some(Expression::Other),
    }
}

/// The request that a parsed formula and an interval make, or the reason why
/// they make none: the parser's own message; no expression at the end of the
/// text; statements before that expression; a literal that is no decimal.
pub open spec fn request_from(
    parsed: Result<ParsedBlockView, Seq<char>>,
    interval: Seq<char>,
) -> Result<StreamRequestASTView, Seq<char>> {
    match parsed {
        Err(reason) => Err(reason),
        Ok(block) => match block.value {
            None => Err("no expressions found"@),
            Some(syntax) => if block.statements > 0 {
                Err("formula is not a single expression"@)
            } else {
                match lowered(syntax) {
                    None => Err("literal is not a decimal number"@),
                    Some(request) => Ok(
                        StreamRequestASTView { request, candle_interval: interval },
                    ),
                }
            },
        },
    }
}

/// The request that a text makes: its formula is what stands before the
/// first `@`, its interval what stands between the first `@` and the second
/// (or the end). A text without `@` makes none, nor does one whose formula
/// is longer or deeper than the grammar is trusted with, or holds a block in
/// braces.
pub open spec fn request_of(text: Seq<char>) -> Result<StreamRequestASTView, Seq<char>> {
    let at = first_at(text, 0);
    let formula = segment(text, 0);
    if at >= text.len() {
        Err("no @interval found"@)
    } else if formula.len() > MAX_FORMULA_LENGTH {
        Err("formula is too long"@)
    } else if nesting(formula) > MAX_NESTING {
        Err("formula is nested too deeply"@)
    } else if blocks(formula) > 0 {
        Err("formula holds a block"@)
    } else {
        request_from(grammar_parse(formula), segment(text, at + 1))
    }
}

/// Whether `r` is the request, or the parse error with the reason, that
/// `expected` describes.
pub open spec fn matches_request(
    r: Result<StreamRequestAST, Error>,
    expected: Result<StreamRequestASTView, Seq<char>>,
) -> bool {
    match expected {
        Ok(request) => r matches Ok(found) && found@ == request,
        Err(reason) => r matches Err(Error::ParseError(found)) && found@ == reason,
    }
}

/// The mathematical content of a parser result.
pub open spec fn parsed_view(parsed: Result<ParsedBlock, String>) -> Result<
    ParsedBlockView,
    Seq<char>,
> {
    match parsed {
        Ok(block) => Ok(block@),
        Err(reason) => Err(reason@),
    }
}

/// Makes a request of what the grammar read and of an interval.
pub fn build_request(parsed: Result<ParsedBlock, String>, interval: String) -> (r: Result<
    StreamRequestAST,
    Error,
>)
    ensures
        matches_request(r, request_from(parsed_view(parsed), interval@)),
{
    match parsed {
        Err(reason) => Err(Error::ParseError(reason)),
        Ok(block) => match block.value {
            None => Err(Error::ParseError("no expressions found".to_owned())),
            Some(syntax) => {
                if block.statements > 0 {
                    Err(Error::ParseError("formula is not a single expression".to_owned()))
                } else {
                    match lower(syntax) {
                        None => Err(
                            Error::ParseError("literal is not a decimal number".to_owned()),
                        ),
                        Some(request) => Ok(
                            StreamRequestAST { request, candle_interval: interval },
                        ),
                    }
                }
            },
        },
    }
}

/// Reads a request text of the form `formula@interval`.
pub fn parse_stream_request(s: &str) -> (r: Result<StreamRequestAST, Error>)
    ensures
        matches_request(r, request_of(s@)),
{
    let chars = characters(s);
    let at: usize = find_at(&chars, 0);
    if at >= chars.len() {
        return Err(Error::ParseError("no @interval found".to_owned()));
    }
    if at > MAX_FORMULA_LENGTH {
        return Err(Error::ParseError("formula is too long".to_owned()));
    }
    let body = copy_range(s, 0, at);
    let measure = scan(&characters(body.as_str()));
    if measure.deepest > MAX_NESTING {
        return Err(Error::ParseError("formula is nested too deeply".to_owned()));
    }
    if measure.blocks > 0 {
        return Err(Error::ParseError("formula holds a block".to_owned()));
    }
    let end: usize = find_at(&chars, at + 1);
    let interval = copy_range(s, at + 1, end);
    build_request(parse_block(body.as_str()), interval)
}

} // verus!
