//! The names of the feed's streams and the messages built from them.

use crate::ast::{distinct_symbols, first_occurrences, get_all_variables_from_ast, symbols_of};
use crate::models::{
    BinanceRequest, BinanceRequestView, BinanceResponse, ClientResponse, ClientResponseView,
    Method, StreamRequestAST,
};
use crate::text::{characters, copy_range, find_at, first_at, lemma_first_at, segment};
use vstd::prelude::*;
use vstd::string::StringExecFns;

verus! {

/// The feed's name for the candles of one symbol at one interval:
/// the symbol, `@kline_`, the interval.
pub open spec fn stream_name(symbol: Seq<char>, interval: Seq<char>) -> Seq<char> {
    symbol + "@kline_"@ + interval
}

/// The stream names of a list of symbols, in the order of the list.
pub open spec fn stream_names(symbols: Seq<Seq<char>>, interval: Seq<char>) -> Seq<Seq<char>> {
    Seq::new(symbols.len(), |i: int| stream_name(symbols[i], interval))
}

/// The request that subscribes to the candles of every symbol of a formula:
/// one stream name for each symbol, each symbol once, in the order in which
/// the formula first names them.
pub fn subscription_request(id: u64, request: &StreamRequestAST) -> (r: BinanceRequest)
    ensures
        r@ == (BinanceRequestView {
            id,
            method: Method::Subscribe,
            params: stream_names(
                first_occurrences(symbols_of(request@.request)),
                request@.candle_interval,
            ),
        }),
{
    let symbols = distinct_symbols(&get_all_variables_from_ast(&request.request));
    let mut params: Vec<String> = Vec::new();
    let mut i: usize = 0;
    while i < symbols.len()
        invariant
            i <= symbols.len(),
            params.len() == i,
            forall|j: int|
                0 <= j < i ==> params.deep_view()[j] == stream_name(
                    symbols.deep_view()[j],
                    request@.candle_interval,
                ),
        decreases symbols.len() - i,
    {
        let ghost before = params.deep_view();
        let name = symbols[i].clone().concat("@kline_").concat(request.candle_interval.as_str());
        params.push(name);
        assert(params.deep_view() =~= before.push(name@));
        i += 1;
    }
    assert(params.deep_view() =~= stream_names(
        symbols.deep_view(),
        request@.candle_interval,
    ));
    BinanceRequest { id, method: Method::Subscribe, params }
}

/// The symbol that a stream name starts with: what stands before its first
/// `@`, or all of it where there is none.
pub fn stream_symbol(stream: &str) -> (r: String)
    ensures
        r@ == segment(stream@, 0),
{
    let at: usize = find_at(&characters(stream), 0);
    copy_range(stream, 0, at)
}

/// The message that carries a combined sample to the client: the client's
/// own stream text, and the rates of the sample.
pub fn client_response(stream: &str, sample: BinanceResponse) -> (r: ClientResponse)
    ensures
        r@ == (ClientResponseView { stream: stream@, data: sample@.data.k }),
{
    ClientResponse { stream: stream.to_owned(), data: sample.data.k }
}

/// A stream name leads back to its symbol, for a symbol without `@`.
pub proof fn lemma_stream_name_starts_with_symbol(symbol: Seq<char>, interval: Seq<char>)
    requires
        !symbol.contains('@'),
    ensures
        segment(stream_name(symbol, interval), 0) == symbol,
{
    let name = stream_name(symbol, interval);
    reveal_strlit("@kline_");
    assert(name[symbol.len() as int] == "@kline_"@[0]);
    assert forall|j: int| 0 <= j < symbol.len() implies name[j] != '@' by {
        assert(name[j] == symbol[j]);
        assert(symbol.contains(symbol[j]));
    }
    lemma_first_at(name, 0);
    let at = first_at(name, 0);
    if at < symbol.len() {
        assert(name[at] == '@');
    }
    if at > symbol.len() {
        assert(name[symbol.len() as int] != '@');
    }
    assert(name.subrange(0, at) =~= symbol);
}

} // verus!
