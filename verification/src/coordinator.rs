//! The fan-in coordinator: samples of single symbols come in one at a time,
//! combined samples go out.

use crate::ast::{
    distinct_symbols, first_occurrences, get_all_variables_from_ast, is_supported,
    lemma_first_occurrences, lemma_symbols_are_the_variables, occurs, supported, symbols_of,
    Expression, ExpressionView,
};
use crate::error::Error;
use crate::eval::{
    complete, eval_ast_with, evaluation, lemma_complete_round_gives_a_sample,
    lemma_missing_symbol_yields_no_result, lemma_sums_have_a_sample, plain, rates_in_range,
    sums_only, Evaluation,
};
use crate::feed::stream_symbol;
use crate::models::{BinanceResponse, BinanceResponseView};
use crate::store::SampleStore;
use crate::text::segment;
use vstd::prelude::*;

verus! {

/// The state of one session: the formula and the latest sample of each
/// symbol seen so far.
pub struct Coordinator {
    expression: Expression,
    /// The number of different symbols that the formula names, counted once
    /// when the session opens. It is a function of the formula and so has no
    /// place of its own in the view.
    required: usize,
    store: SampleStore,
}

/// The mathematical content of a [`Coordinator`].
pub struct CoordinatorView {
    pub expression: ExpressionView,
    pub store: Map<Seq<char>, BinanceResponseView>,
}

impl View for Coordinator {
    type V = CoordinatorView;

    closed spec fn view(&self) -> CoordinatorView {
        CoordinatorView { expression: self.expression@, store: self.store@ }
    }
}

/// The number of different symbols that a formula names.
pub open spec fn threshold(e: ExpressionView) -> nat {
    symbols_of(e).to_set().len()
}

/// Whether the store is warm: it holds at least as many symbols as the
/// formula names.
pub open spec fn warm(e: ExpressionView, store: Map<Seq<char>, BinanceResponseView>) -> bool {
    store.dom().len() >= threshold(e)
}

/// The state after a sample of `symbol` came in: it takes the place of the
/// symbol's earlier sample, and every other symbol keeps its own.
pub open spec fn observed(
    c: CoordinatorView,
    symbol: Seq<char>,
    sample: BinanceResponseView,
) -> CoordinatorView {
    CoordinatorView { expression: c.expression, store: c.store.insert(symbol, sample) }
}

/// What a round gives out: the combined sample, if the store is warm and the
/// evaluation over it ends with one.
pub open spec fn round(c: CoordinatorView) -> Option<BinanceResponseView> {
    if warm(c.expression, c.store) {
        match evaluation(c.expression, c.store) {
            Evaluation::Value(sample) => Some(sample),
            _ => None,
        }
    } else {
        None
    }
}

impl Coordinator {
    #[verifier::type_invariant]
    spec fn well_formed(&self) -> bool {
        &&& supported(self.expression@)
        &&& self.required == threshold(self.expression@)
    }

    /// Opens a session for a formula, with an empty store. A formula with an
    /// operator other than `+`, `-`, `*`, `/` is refused.
    pub fn new(expression: Expression) -> (r: Result<Coordinator, Error>)
        ensures
            match r {
                Ok(c) => supported(expression@) && c@ == (CoordinatorView {
                    expression: expression@,
                    store: Map::empty(),
                }),
                Err(e) => !supported(expression@) && e == Error::UnsupportedOperator,
            },
    {
        if !is_supported(&expression) {
            return Err(Error::UnsupportedOperator);
        }
        let symbols = distinct_symbols(&get_all_variables_from_ast(&expression));
        proof {
            lemma_first_occurrences(symbols_of(expression@));
        }
        Ok(Coordinator { expression, required: symbols.len(), store: SampleStore::new() })
    }

    /// The symbols to ask the feed for: those of the formula, each once, in
    /// the order in which the formula first names them.
    pub fn symbols(&self) -> (r: Vec<String>)
        ensures
            r.deep_view() == first_occurrences(symbols_of(self@.expression)),
    {
        distinct_symbols(&get_all_variables_from_ast(&self.expression))
    }

    /// Whether the store holds at least as many symbols as the formula names.
    pub fn is_warm(&self) -> (r: bool)
        ensures
            r == warm(self@.expression, self@.store),
            supported(self@.expression),
            self@.store.dom().finite(),
    {
        proof {
            use_type_invariant(self);
        }
        self.store.len() >= self.required
    }

    /// Takes in the latest sample of `symbol` and runs a round.
    ///
    /// The sample is installed first, in place of the symbol's earlier one.
    /// A round is run only once the store holds as many symbols as the
    /// formula names; its sample is returned. `None` says that the store is
    /// not warm yet, or that the round ended without a sample: a symbol of
    /// the formula is still missing, a rate was divided by zero, or a scale
    /// went out of range.
    pub fn observe(&mut self, symbol: String, sample: BinanceResponse) -> (r: Option<
        BinanceResponse,
    >)
        ensures
            final(self)@ == observed(old(self)@, symbol@, sample@),
            match r {
                Some(found) => round(final(self)@) == Some(found@),
                None => round(final(self)@) is None,
            },
            supported(final(self)@.expression),
            final(self)@.store.dom().finite(),
    {
        proof {
            use_type_invariant(&*self);
        }
        // The store is taken out while it changes and then put back.
        let mut store = SampleStore::new();
        std::mem::swap(&mut self.store, &mut store);
        store.insert(symbol, sample);
        std::mem::swap(&mut self.store, &mut store);
        if self.store.len() >= self.required {
            match eval_ast_with(&self.expression, &self.store) {
                Ok(Some(found)) => Some(found),
                _ => None,
            }
        } else {
            None
        }
    }

    /// Takes in one message of the feed. A message without candle, such as
    /// the feed's answer to the subscription, is passed over: the store stays
    /// as it is and nothing is given out. A candle is observed under the
    /// symbol that its stream name starts with.
    pub fn receive(&mut self, message: Option<BinanceResponse>) -> (r: Option<BinanceResponse>)
        ensures
            match message {
                None => final(self)@ == old(self)@ && r is None,
                Some(sample) => {
                    &&& final(self)@ == observed(
                        old(self)@,
                        segment(sample@.stream, 0),
                        sample@,
                    )
                    &&& match r {
                        Some(found) => round(final(self)@) == Some(found@),
                        None => round(final(self)@) is None,
                    }
                },
            },
    {
        match message {
            None => None,
            Some(sample) => {
                let symbol = stream_symbol(sample.stream.as_str());
                self.observe(symbol, sample)
            },
        }
    }
}

/// While a symbol of the formula has no sample, no round gives anything out.
pub proof fn lemma_cold_round_is_silent(c: CoordinatorView, missing: Seq<char>)
    requires
        occurs(c.expression, missing),
        !c.store.contains_key(missing),
    ensures
        round(c) is None,
{
    lemma_missing_symbol_yields_no_result(c.expression, c.store, missing);
}

/// Once every symbol of the formula has a sample the store is warm, and it
/// stays so: each further sample of any symbol runs a round over the new
/// sample and, for every other symbol, the sample it had before.
pub proof fn lemma_warm_round_evaluates(
    c: CoordinatorView,
    symbol: Seq<char>,
    sample: BinanceResponseView,
)
    requires
        c.store.dom().finite(),
        complete(c.expression, c.store),
    ensures
        warm(c.expression, c.store),
        warm(c.expression, observed(c, symbol, sample).store),
        forall|s: Seq<char>|
            s != symbol && c.store.contains_key(s) ==> #[trigger] observed(
                c,
                symbol,
                sample,
            ).store[s] == c.store[s],
        round(observed(c, symbol, sample)) == match evaluation(
            c.expression,
            c.store.insert(symbol, sample),
        ) {
            Evaluation::Value(found) => Some(found),
            _ => None,
        },
{
    let names = symbols_of(c.expression).to_set();
    lemma_symbols_are_the_variables(c.expression);
    assert(names.subset_of(c.store.dom())) by {
        assert forall|s: Seq<char>| names.contains(s) implies c.store.dom().contains(s) by {
            assert(symbols_of(c.expression).contains(s));
            assert(occurs(c.expression, s));
        }
    }
    let after = c.store.insert(symbol, sample).dom();
    assert(after =~= c.store.dom().insert(symbol));
    assert(names.subset_of(after));
    vstd::set_lib::lemma_len_subset(names, c.store.dom());
    vstd::set_lib::lemma_len_subset(names, after);
}

/// Once every symbol of the formula has a sample, each further sample of any
/// symbol gives a combined sample out, and at once: no other symbol is waited
/// for. This holds of a formula of constants, variables and the four
/// operators, unless the arithmetic of the round fails: at a division by
/// zero, or at a scale out of range.
pub proof fn lemma_warm_round_gives_a_sample(
    c: CoordinatorView,
    symbol: Seq<char>,
    sample: BinanceResponseView,
)
    requires
        c.store.dom().finite(),
        supported(c.expression),
        plain(c.expression),
        complete(c.expression, c.store),
        !(evaluation(c.expression, c.store.insert(symbol, sample)) is Arithmetic),
    ensures
        round(observed(c, symbol, sample)) matches Some(found) && evaluation(
            c.expression,
            c.store.insert(symbol, sample),
        ) == Evaluation::Value(found),
{
    lemma_warm_round_evaluates(c, symbol, sample);
    assert(complete(c.expression, c.store.insert(symbol, sample))) by {
        assert forall|s: Seq<char>| #[trigger] occurs(c.expression, s) implies c.store.insert(
            symbol,
            sample,
        ).contains_key(s) by {}
    }
    lemma_complete_round_gives_a_sample(c.expression, c.store.insert(symbol, sample));
}

/// A formula of sums and differences gives a sample out in every round, once
/// each of its symbols has a sample with rates in range.
pub proof fn lemma_warm_sums_give_a_sample(c: CoordinatorView)
    requires
        c.store.dom().finite(),
        sums_only(c.expression),
        forall|s: Seq<char>| #[trigger]
            occurs(c.expression, s) ==> c.store.contains_key(s) && rates_in_range(c.store[s]),
    ensures
        round(c) is Some,
{
    lemma_sums_have_a_sample(c.expression, c.store);
    let names = symbols_of(c.expression).to_set();
    lemma_symbols_are_the_variables(c.expression);
    assert(names.subset_of(c.store.dom())) by {
        assert forall|s: Seq<char>| names.contains(s) implies c.store.dom().contains(s) by {
            assert(symbols_of(c.expression).contains(s));
            assert(occurs(c.expression, s));
        }
    }
    vstd::set_lib::lemma_len_subset(names, c.store.dom());
}

/// The same sample twice changes nothing: the second call leaves the state
/// of the first and gives out the same.
pub proof fn lemma_observe_twice(
    c: CoordinatorView,
    symbol: Seq<char>,
    sample: BinanceResponseView,
)
    ensures
        observed(observed(c, symbol, sample), symbol, sample) == observed(c, symbol, sample),
        round(observed(observed(c, symbol, sample), symbol, sample)) == round(
            observed(c, symbol, sample),
        ),
{
    let once = c.store.insert(symbol, sample);
    assert(once.insert(symbol, sample) =~= once);
}

} // verus!
