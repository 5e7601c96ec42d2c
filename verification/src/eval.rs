//! Evaluating a formula over the latest samples.

use crate::ast::{occurs, supported, Expression, ExpressionView, Operator};
use crate::decimal::{
    difference_of, product_of, quotient_of, sum_of, Decimal, DecimalView,
};
use crate::error::Error;
use crate::models::{
    BinanceResponse, BinanceResponseData, BinanceResponseDataView, BinanceResponseView, Rates,
    RatesView,
};
use crate::store::SampleStore;
use vstd::prelude::*;

verus! {

/// How one evaluation of a formula ends.
pub enum Evaluation {
    /// With a combined sample.
    Value(BinanceResponseView),
    /// Without one: a symbol has no sample yet, or the formula holds a
    /// construct that has no value.
    Incomplete,
    /// At an operator that cannot be applied.
    Unsupported,
    /// At a division by zero, or at a decimal whose scale is out of range.
    Arithmetic,
}

/// The later of two times.
pub open spec fn later(a: u64, b: u64) -> u64 {
    if a >= b {
        a
    } else {
        b
    }
}

/// One operator applied to one pair of decimals; `None` where a scale is out
/// of range or the divisor is zero.
pub open spec fn applied(op: Operator, a: DecimalView, b: DecimalView) -> Option<DecimalView> {
    if !a.in_range() || !b.in_range() {
        None
    } else {
        match op {
            Operator::Add => Some(sum_of(a, b)),
            Operator::Sub => Some(difference_of(a, b)),
            Operator::Mul => Some(product_of(a, b)),
            Operator::Div => if b.unscaled == 0 {
                None
            } else {
                Some(quotient_of(a, b))
            },
            _ => None,
        }
    }
}

/// The sample that stands for a constant: all four rates are the constant,
/// both times are zero and the texts are empty.
pub open spec fn constant(value: DecimalView) -> BinanceResponseView {
    BinanceResponseView {
        stream: Seq::empty(),
        data: BinanceResponseDataView {
            event_type: Seq::empty(),
            event_time: 0,
            symbol: Seq::empty(),
            k: RatesView {
                kline_start_time: 0,
                open: value,
                high: value,
                low: value,
                close: value,
            },
        },
    }
}

/// Two samples joined by an operator. Open, high, low and close are joined
/// each on its own. Event time and start time are the later of the two.
/// Event type and symbol are those of the left sample; the stream name is
/// empty.
pub open spec fn combined(
    op: Operator,
    a: BinanceResponseView,
    b: BinanceResponseView,
) -> Evaluation {
    if !op.supported() {
        Evaluation::Unsupported
    } else {
        match (
            applied(op, a.data.k.open, b.data.k.open),
            applied(op, a.data.k.high, b.data.k.high),
            applied(op, a.data.k.low, b.data.k.low),
            applied(op, a.data.k.close, b.data.k.close),
        ) {
            (Some(open), Some(high), Some(low), Some(close)) => Evaluation::Value(
                BinanceResponseView {
                    stream: Seq::empty(),
                    data: BinanceResponseDataView {
                        event_type: a.data.event_type,
                        event_time: later(a.data.event_time, b.data.event_time),
                        symbol: a.data.symbol,
                        k: RatesView {
                            kline_start_time: later(
                                a.data.k.kline_start_time,
                                b.data.k.kline_start_time,
                            ),
                            open,
                            high,
                            low,
                            close,
                        },
                    },
                },
            ),
            _ => Evaluation::Arithmetic,
        }
    }
}

/// Two evaluations joined by an operator. Where either side ends without a
/// sample because one is still missing, so does the whole. Failing that, an
/// operator that cannot be applied, here or on either side, is what the
/// whole ends at; failing that too, an arithmetic failure on either side.
/// Two samples are combined.
pub open spec fn joined(op: Operator, a: Evaluation, b: Evaluation) -> Evaluation {
    if a is Incomplete || b is Incomplete {
        Evaluation::Incomplete
    } else if !op.supported() || a is Unsupported || b is Unsupported {
        Evaluation::Unsupported
    } else {
        match (a, b) {
            (Evaluation::Value(x), Evaluation::Value(y)) => combined(op, x, y),
            _ => Evaluation::Arithmetic,
        }
    }
}

/// The evaluation of a formula over a store. A constant is a sample of its
/// own, a variable has the sample of its symbol, and a binary operation joins
/// the evaluations of its two operands.
pub open spec fn evaluation(
    e: ExpressionView,
    store: Map<Seq<char>, BinanceResponseView>,
) -> Evaluation
    decreases e,
{
    match e {
        ExpressionView::Literal(value) => Evaluation::Value(constant(value)),
        ExpressionView::Variable(symbol) => if store.contains_key(symbol) {
            Evaluation::Value(store[symbol])
        } else {
            Evaluation::Incomplete
        },
        ExpressionView::Binary { op, lhs, rhs } => joined(
            op,
            evaluation(*lhs, store),
            evaluation(*rhs, store),
        ),
        ExpressionView::Other => Evaluation::Incomplete,
    }
}

/// Whether `r` is what the evaluation `e` looks like to a caller.
pub open spec fn shows(r: Result<Option<BinanceResponse>, Error>, e: Evaluation) -> bool {
    match e {
        Evaluation::Value(sample) => r matches Ok(Some(found)) && found@ == sample,
        Evaluation::Incomplete => r matches Ok(None),
        Evaluation::Unsupported => r matches Err(Error::UnsupportedOperator),
        Evaluation::Arithmetic => r matches Err(Error::Arithmetic),
    }
}

/// Applies one of `+`, `-`, `*`, `/` to a pair of decimals.
pub fn apply(op: Operator, a: &Decimal, b: &Decimal) -> (r: Option<Decimal>)
    ensures
        match r {
            Some(value) => applied(op, a@, b@) == Some(value@),
            None => applied(op, a@, b@) is None,
        },
{
    match op {
        Operator::Add => a.checked_add(b),
        Operator::Sub => a.checked_sub(b),
        Operator::Mul => a.checked_mul(b),
        Operator::Div => a.checked_div(b),
        _ => None,
    }
}

/// Joins two samples by an operator.
pub fn combine(op: Operator, a: BinanceResponse, b: BinanceResponse) -> (r: Result<
    BinanceResponse,
    Error,
>)
    ensures
        match combined(op, a@, b@) {
            Evaluation::Value(sample) => r matches Ok(found) && found@ == sample,
            Evaluation::Unsupported => r matches Err(Error::UnsupportedOperator),
            Evaluation::Arithmetic => r matches Err(Error::Arithmetic),
            Evaluation::Incomplete => false,
        },
{
    if !op.is_supported() {
        return Err(Error::UnsupportedOperator);
    }
    let open = apply(op, &a.data.k.open, &b.data.k.open);
    let high = apply(op, &a.data.k.high, &b.data.k.high);
    let low = apply(op, &a.data.k.low, &b.data.k.low);
    let close = apply(op, &a.data.k.close, &b.data.k.close);
    match (open, high, low, close) {
        (Some(open), Some(high), Some(low), Some(close)) => {
            let event_time: u64 = if a.data.event_time >= b.data.event_time {
                a.data.event_time
            } else {
                b.data.event_time
            };
            let kline_start_time: u64 = if a.data.k.kline_start_time
                >= b.data.k.kline_start_time {
                a.data.k.kline_start_time
            } else {
                b.data.k.kline_start_time
            };
            Ok(
                BinanceResponse {
                    stream: String::new(),
                    data: BinanceResponseData {
                        event_type: a.data.event_type,
                        event_time,
                        symbol: a.data.symbol,
                        k: Rates { kline_start_time, open, high, low, close },
                    },
                },
            )
        },
        _ => Err(Error::Arithmetic),
    }
}

/// Evaluates a formula over the latest samples.
///
/// `Ok(None)` says that the round has no result: a symbol of the formula has
/// no sample yet, or the formula holds a construct that has no value. This
/// comes before every failure. With every sample at hand, an operator other
/// than `+`, `-`, `*`, `/` anywhere in the formula ends the round with
/// `Error::UnsupportedOperator`; without such an operator, a division by
/// zero or a decimal whose scale is out of range ends it with
/// `Error::Arithmetic`.
pub fn eval_ast_with(node: &Expression, vals: &SampleStore) -> (r: Result<
    Option<BinanceResponse>,
    Error,
>)
    ensures
        shows(r, evaluation(node@, vals@)),
    decreases node,
{
    match node {
        Expression::Literal(value) => Ok(
            Some(
                BinanceResponse {
                    stream: String::new(),
                    data: BinanceResponseData {
                        event_type: String::new(),
                        event_time: 0,
                        symbol: String::new(),
                        k: Rates {
                            kline_start_time: 0,
                            open: value.clone(),
                            high: value.clone(),
                            low: value.clone(),
                            close: value.clone(),
                        },
                    },
                },
            ),
        ),
        Expression::Variable(symbol) => Ok(vals.get(symbol.as_str())),
        Expression::Binary { op, lhs, rhs } => {
            let a = eval_ast_with(lhs, vals);
            let b = eval_ast_with(rhs, vals);
            match a {
                Ok(None) => Ok(None),
                Ok(Some(x)) => match b {
                    Ok(None) => Ok(None),
                    Ok(Some(y)) => match combine(*op, x, y) {
                        Ok(sample) => Ok(Some(sample)),
                        Err(e) => Err(e),
                    },
                    Err(e) => if op.is_supported() {
                        Err(e)
                    } else {
                        Err(Error::UnsupportedOperator)
                    },
                },
                Err(ea) => match b {
                    Ok(None) => Ok(None),
                    Ok(Some(_)) => if op.is_supported() {
                        Err(ea)
                    } else {
                        Err(Error::UnsupportedOperator)
                    },
                    Err(eb) => if !op.is_supported() {
                        Err(Error::UnsupportedOperator)
                    } else {
                        match ea {
                            Error::UnsupportedOperator => Err(Error::UnsupportedOperator),
                            _ => Err(eb),
                        }
                    },
                },
            }
        },
        Expression::Other => Ok(None),
    }
}

/// Whether the formula is made of constants, variables and binary operations
/// alone.
pub open spec fn plain(e: ExpressionView) -> bool
    decreases e,
{
    match e {
        ExpressionView::Binary { lhs, rhs, .. } => plain(*lhs) && plain(*rhs),
        ExpressionView::Other => false,
        _ => true,
    }
}

/// Whether every symbol that the formula names has a sample.
pub open spec fn complete(e: ExpressionView, store: Map<Seq<char>, BinanceResponseView>) -> bool {
    forall|symbol: Seq<char>| #[trigger] occurs(e, symbol) ==> store.contains_key(symbol)
}

/// A formula has no result while a symbol that it names has no sample:
/// neither a sample nor a failure, whatever else the formula and the store
/// hold.
pub proof fn lemma_missing_symbol_yields_no_result(
    e: ExpressionView,
    store: Map<Seq<char>, BinanceResponseView>,
    symbol: Seq<char>,
)
    requires
        occurs(e, symbol),
        !store.contains_key(symbol),
    ensures
        evaluation(e, store) is Incomplete,
    decreases e,
{
    match e {
        ExpressionView::Binary { lhs, rhs, .. } => {
            if occurs(*lhs, symbol) {
                lemma_missing_symbol_yields_no_result(*lhs, store, symbol);
            } else {
                lemma_missing_symbol_yields_no_result(*rhs, store, symbol);
            }
        },
        _ => {},
    }
}

/// A formula of constants, variables and binary operations has a result as
/// soon as each of its symbols has a sample: a sample or a failure.
pub proof fn lemma_complete_round_has_a_result(
    e: ExpressionView,
    store: Map<Seq<char>, BinanceResponseView>,
)
    requires
        plain(e),
        complete(e, store),
    ensures
        !(evaluation(e, store) is Incomplete),
    decreases e,
{
    match e {
        ExpressionView::Variable(symbol) => {
            assert(occurs(e, symbol));
        },
        ExpressionView::Binary { lhs, rhs, .. } => {
            assert forall|symbol: Seq<char>| #[trigger] occurs(*lhs, symbol) implies store.contains_key(
                symbol,
            ) by {
                assert(occurs(e, symbol));
            }
            assert forall|symbol: Seq<char>| #[trigger] occurs(*rhs, symbol) implies store.contains_key(
                symbol,
            ) by {
                assert(occurs(e, symbol));
            }
            lemma_complete_round_has_a_result(*lhs, store);
            lemma_complete_round_has_a_result(*rhs, store);
        },
        _ => {},
    }
}

/// An operator that cannot be applied is reported once every symbol has a
/// sample, wherever in the formula it stands and whatever the samples are.
pub proof fn lemma_unsupported_operator_is_reported(
    e: ExpressionView,
    store: Map<Seq<char>, BinanceResponseView>,
)
    requires
        !supported(e),
        plain(e),
        complete(e, store),
    ensures
        evaluation(e, store) is Unsupported,
    decreases e,
{
    match e {
        ExpressionView::Binary { lhs, rhs, .. } => {
            assert forall|symbol: Seq<char>| #[trigger] occurs(*lhs, symbol) implies store.contains_key(
                symbol,
            ) by {
                assert(occurs(e, symbol));
            }
            assert forall|symbol: Seq<char>| #[trigger] occurs(*rhs, symbol) implies store.contains_key(
                symbol,
            ) by {
                assert(occurs(e, symbol));
            }
            lemma_complete_round_has_a_result(*lhs, store);
            lemma_complete_round_has_a_result(*rhs, store);
            if !supported(*lhs) {
                lemma_unsupported_operator_is_reported(*lhs, store);
            }
            if !supported(*rhs) {
                lemma_unsupported_operator_is_reported(*rhs, store);
            }
        },
        _ => {},
    }
}

/// A formula whose operators can all be applied gives a sample once every
/// symbol has one, unless the arithmetic fails: at a division by zero, or at
/// a scale out of range.
pub proof fn lemma_complete_round_gives_a_sample(
    e: ExpressionView,
    store: Map<Seq<char>, BinanceResponseView>,
)
    requires
        supported(e),
        plain(e),
        complete(e, store),
        !(evaluation(e, store) is Arithmetic),
    ensures
        evaluation(e, store) is Value,
{
    lemma_complete_round_has_a_result(e, store);
    lemma_supported_formula_applies_its_operators(e, store);
}

/// A formula with an operator that cannot be applied never has a sample.
pub proof fn lemma_unsupported_operator_yields_no_sample(
    e: ExpressionView,
    store: Map<Seq<char>, BinanceResponseView>,
)
    requires
        !supported(e),
    ensures
        !(evaluation(e, store) is Value),
    decreases e,
{
    match e {
        ExpressionView::Binary { lhs, rhs, .. } => {
            if !supported(*lhs) {
                lemma_unsupported_operator_yields_no_sample(*lhs, store);
            } else if !supported(*rhs) {
                lemma_unsupported_operator_yields_no_sample(*rhs, store);
            }
        },
        _ => {},
    }
}

/// A formula whose operators can all be applied never ends at an operator.
pub proof fn lemma_supported_formula_applies_its_operators(
    e: ExpressionView,
    store: Map<Seq<char>, BinanceResponseView>,
)
    requires
        supported(e),
    ensures
        !(evaluation(e, store) is Unsupported),
    decreases e,
{
    match e {
        ExpressionView::Binary { lhs, rhs, .. } => {
            lemma_supported_formula_applies_its_operators(*lhs, store);
            lemma_supported_formula_applies_its_operators(*rhs, store);
        },
        _ => {},
    }
}

/// An evaluation reads the samples of the formula's own symbols and nothing
/// else: two stores that agree on them give the same evaluation.
pub proof fn lemma_evaluation_reads_its_symbols(
    e: ExpressionView,
    a: Map<Seq<char>, BinanceResponseView>,
    b: Map<Seq<char>, BinanceResponseView>,
)
    requires
        forall|symbol: Seq<char>| #[trigger]
            occurs(e, symbol) ==> a.contains_key(symbol) == b.contains_key(symbol) && (
            a.contains_key(symbol) ==> a[symbol] == b[symbol]),
    ensures
        evaluation(e, a) == evaluation(e, b),
    decreases e,
{
    match e {
        ExpressionView::Variable(symbol) => {
            assert(occurs(e, symbol));
        },
        ExpressionView::Binary { lhs, rhs, .. } => {
            assert forall|symbol: Seq<char>| #[trigger]
                occurs(*lhs, symbol) implies a.contains_key(symbol) == b.contains_key(symbol)
                && (a.contains_key(symbol) ==> a[symbol] == b[symbol]) by {
                assert(occurs(e, symbol));
            }
            assert forall|symbol: Seq<char>| #[trigger]
                occurs(*rhs, symbol) implies a.contains_key(symbol) == b.contains_key(symbol)
                && (a.contains_key(symbol) ==> a[symbol] == b[symbol]) by {
                assert(occurs(e, symbol));
            }
            lemma_evaluation_reads_its_symbols(*lhs, a, b);
            lemma_evaluation_reads_its_symbols(*rhs, a, b);
        },
        _ => {},
    }
}

/// Whether the four rates of a sample have scales that the arithmetic
/// accepts.
pub open spec fn rates_in_range(sample: BinanceResponseView) -> bool {
    &&& sample.data.k.open.in_range()
    &&& sample.data.k.high.in_range()
    &&& sample.data.k.low.in_range()
    &&& sample.data.k.close.in_range()
}

/// Whether the formula is made of variables, of constants with a scale in
/// range, and of `+` and `-` alone.
pub open spec fn sums_only(e: ExpressionView) -> bool
    decreases e,
{
    match e {
        ExpressionView::Literal(value) => value.in_range(),
        ExpressionView::Variable(_) => true,
        ExpressionView::Binary { op, lhs, rhs } => (op is Add || op is Sub) && sums_only(*lhs)
            && sums_only(*rhs),
        ExpressionView::Other => false,
    }
}

/// A formula of sums and differences never fails: over samples with rates in
/// range it ends with a sample, whose rates are in range again, or without
/// one.
pub proof fn lemma_sums_never_fail(
    e: ExpressionView,
    store: Map<Seq<char>, BinanceResponseView>,
)
    requires
        sums_only(e),
        forall|symbol: Seq<char>| #[trigger]
            occurs(e, symbol) && store.contains_key(symbol) ==> rates_in_range(store[symbol]),
    ensures
        match evaluation(e, store) {
            Evaluation::Value(sample) => rates_in_range(sample),
            Evaluation::Incomplete => true,
            _ => false,
        },
    decreases e,
{
    match e {
        ExpressionView::Variable(symbol) => {
            assert(occurs(e, symbol));
        },
        ExpressionView::Binary { lhs, rhs, .. } => {
            assert forall|symbol: Seq<char>| #[trigger]
                occurs(*lhs, symbol) && store.contains_key(symbol) implies rates_in_range(
                store[symbol],
            ) by {
                assert(occurs(e, symbol));
            }
            assert forall|symbol: Seq<char>| #[trigger]
                occurs(*rhs, symbol) && store.contains_key(symbol) implies rates_in_range(
                store[symbol],
            ) by {
                assert(occurs(e, symbol));
            }
            lemma_sums_never_fail(*lhs, store);
            lemma_sums_never_fail(*rhs, store);
        },
        _ => {},
    }
}

/// A formula of sums and differences has a sample as soon as each of its
/// symbols has one with rates in range.
pub proof fn lemma_sums_have_a_sample(
    e: ExpressionView,
    store: Map<Seq<char>, BinanceResponseView>,
)
    requires
        sums_only(e),
        forall|symbol: Seq<char>| #[trigger]
            occurs(e, symbol) ==> store.contains_key(symbol) && rates_in_range(store[symbol]),
    ensures
        evaluation(e, store) matches Evaluation::Value(sample) && rates_in_range(sample),
    decreases e,
{
    match e {
        ExpressionView::Variable(symbol) => {
            assert(occurs(e, symbol));
        },
        ExpressionView::Binary { lhs, rhs, .. } => {
            assert forall|symbol: Seq<char>| #[trigger]
                occurs(*lhs, symbol) implies store.contains_key(symbol) && rates_in_range(
                store[symbol],
            ) by {
                assert(occurs(e, symbol));
            }
            assert forall|symbol: Seq<char>| #[trigger]
                occurs(*rhs, symbol) implies store.contains_key(symbol) && rates_in_range(
                store[symbol],
            ) by {
                assert(occurs(e, symbol));
            }
            lemma_sums_have_a_sample(*lhs, store);
            lemma_sums_have_a_sample(*rhs, store);
        },
        _ => {},
    }
}

} // verus!
