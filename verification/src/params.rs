use vstd::prelude::*;

use crate::msg_type::MessageType;

verus! {

/// The marshaled parameter shape shared by the symbol-filtered feeds:
/// a validated exchange name, an optional symbol filter and an
/// optional run bound.
pub struct CrawlParams {
    /// Exchange name.
    pub exchange: String,
    /// `None` means no filter: every symbol of the market type.
    pub symbols: Option<Vec<String>>,
    /// `None` means unbounded: run until natural exhaustion.
    pub duration: Option<u64>,
}

/// The marshaled parameter shape of the candlestick feed: symbols and
/// intervals zipped positionally.
pub struct CandlestickParams {
    /// Exchange name.
    pub exchange: String,
    /// `None` means no filter; pairs otherwise, in input order.
    pub pairs: Option<Vec<(String, usize)>>,
    /// `None` means unbounded.
    pub duration: Option<u64>,
}

/// The marshaled parameter shape of the market-wide open-interest
/// feed: no symbol filter exists for it.
pub struct OpenInterestParams {
    /// Exchange name.
    pub exchange: String,
    /// `None` means unbounded.
    pub duration: Option<u64>,
}

/// The marshaled parameter shape of the single-symbol subscription.
pub struct SubscribeParams {
    /// Exchange name.
    pub exchange: String,
    /// The one symbol subscribed to.
    pub symbol: String,
    /// Which message kinds to stream.
    pub msg_types: Vec<MessageType>,
    /// `None` means unbounded.
    pub duration: Option<u64>,
}

/// The symbol list `symbols` is the validated text of `raw`, element
/// for element and in order. A `None` element of `raw` stands for a
/// host array entry that failed validation at the boundary (a null
/// pointer, or text that is not valid UTF-8).
pub open spec fn symbols_converted(raw: Seq<Option<String>>, symbols: Seq<String>) -> bool {
    &&& symbols.len() == raw.len()
    &&& forall|i: int| 0 <= i < raw.len() ==> raw[i] == Some(#[trigger] symbols[i])
}

/// Convert the host's symbol array into an owned list, in input order.
/// Returns `None` exactly when some element failed validation. `None`
/// is the caller-contract-breach signal: the shell around the library
/// must turn it into a process-fatal assertion, never into a
/// recoverable error. Verified code itself does not panic, so the
/// judgement stands here and the abort stands at the boundary.
pub fn convert_symbols(raw: &Vec<Option<String>>) -> (r: Option<Vec<String>>)
    ensures
        match r {
            Some(symbols) => symbols_converted(raw@, symbols@),
            None => exists|i: int| 0 <= i < raw@.len() && raw@[i] is None,
        },
{
    let mut out: Vec<String> = Vec::new();
    let mut i: usize = 0;
    while i < raw.len()
        invariant
            0 <= i <= raw@.len(),
            symbols_converted(raw@.take(i as int), out@),
        decreases raw@.len() - i,
    {
        match &raw[i] {
            Some(s) => {
                let ghost prev = out@;
                out.push(s.clone());
                proof {
                    assert(raw@[i as int] == Some(out@[i as int]));
                    assert forall|j: int|
                        0 <= j < raw@.take(i + 1).len() implies raw@.take(i + 1)[j] == Some(
                        #[trigger] out@[j],
                    ) by {
                        assert(raw@.take(i + 1)[j] == raw@[j]);
                        if j < i {
                            assert(raw@.take(i as int)[j] == Some(prev[j]));
                            assert(out@[j] == prev[j]);
                        }
                    }
                }
            },
            None => {
                assert(raw@[i as int] is None);
                return None;
            },
        }
        i += 1;
    }
    proof {
        assert(raw@.take(i as int) =~= raw@);
    }
    Some(out)
}

/// An empty symbol list means "all symbols": the engine takes `None`
/// as the absence of a filter, `Some` as the filter itself, unchanged.
pub fn symbols_to_filter(symbols: Vec<String>) -> (r: Option<Vec<String>>)
    ensures
        symbols@.len() == 0 <==> r is None,
        r matches Some(v) ==> v == symbols,
{
    if symbols.len() == 0 {
        None
    } else {
        Some(symbols)
    }
}

/// Zip the symbol and interval lists positionally: entry `i` pairs
/// symbol `i` with interval `i`.
pub fn zip_symbol_intervals(symbols: Vec<String>, intervals: &Vec<usize>) -> (r: Vec<
    (String, usize),
>)
    requires
        symbols@.len() == intervals@.len(),
    ensures
        r@.len() == symbols@.len(),
        forall|i: int|
            0 <= i < r@.len() ==> (#[trigger] r@[i]).0 == symbols@[i] && r@[i].1 == intervals@[i],
{
    let ghost gs = symbols@;
    let mut rest = symbols;
    let mut out: Vec<(String, usize)> = Vec::new();
    while rest.len() > 0
        invariant
            out@.len() + rest@.len() == gs.len(),
            gs.len() == intervals@.len(),
            rest@ == gs.skip(out@.len() as int),
            forall|j: int|
                0 <= j < out@.len() ==> (#[trigger] out@[j]).0 == gs[j] && out@[j].1
                    == intervals@[j],
        decreases rest@.len(),
    {
        let ghost k = out@.len() as int;
        let s = rest.remove(0);
        assert(s == gs[k]);
        let interval = intervals[out.len()];
        out.push((s, interval));
        assert(rest@ =~= gs.skip(k + 1));
    }
    out
}

/// An empty pair list means "all symbols", as the empty symbol list
/// does for the other feeds.
pub fn pairs_to_filter(pairs: Vec<(String, usize)>) -> (r: Option<Vec<(String, usize)>>)
    ensures
        pairs@.len() == 0 <==> r is None,
        r matches Some(v) ==> v == pairs,
{
    if pairs.len() == 0 {
        None
    } else {
        Some(pairs)
    }
}

/// A duration of zero means unbounded: the engine takes `None` as the
/// absence of a bound, `Some(d)` as a bound of `d` time units.
pub fn duration_to_option(duration: u64) -> (r: Option<u64>)
    ensures
        duration == 0 <==> r is None,
        r matches Some(d) ==> d == duration,
{
    if duration > 0 {
        Some(duration)
    } else {
        None
    }
}

/// Marshal the shared crawl-parameter shape in one pass: the exchange
/// name and every symbol must have passed boundary validation, the
/// empty symbol list becomes the absent filter, and a zero duration
/// becomes the absent bound. `None` signals a caller contract breach
/// (a null or non-UTF-8 string); the shell must make it process-fatal
/// and must not start a channel, a thread or an engine call.
pub fn marshal_crawl_params(
    exchange: Option<String>,
    raw_symbols: &Vec<Option<String>>,
    duration: u64,
) -> (r: Option<CrawlParams>)
    ensures
        match r {
            Some(p) => {
                &&& exchange matches Some(e) && p.exchange == e
                &&& raw_symbols@.len() == 0 ==> p.symbols is None
                &&& raw_symbols@.len() > 0 ==> (p.symbols matches Some(v)
                    && symbols_converted(raw_symbols@, v@))
                &&& duration == 0 <==> p.duration is None
                &&& p.duration matches Some(d) ==> d == duration
            },
            None => exchange is None || exists|i: int|
                0 <= i < raw_symbols@.len() && raw_symbols@[i] is None,
        },
{
    let exchange = match exchange {
        Some(e) => e,
        None => {
            return None;
        },
    };
    let symbols = match convert_symbols(raw_symbols) {
        Some(v) => v,
        None => {
            return None;
        },
    };
    Some(
        CrawlParams {
            exchange,
            symbols: symbols_to_filter(symbols),
            duration: duration_to_option(duration),
        },
    )
}

/// Marshal the candlestick parameter shape: both arrays share one
/// count, so the pair list zips them positionally. As with the shared
/// shape, `None` signals a caller contract breach that the shell must
/// make process-fatal.
pub fn marshal_candlestick_params(
    exchange: Option<String>,
    raw_symbols: &Vec<Option<String>>,
    intervals: &Vec<usize>,
    duration: u64,
) -> (r: Option<CandlestickParams>)
    requires
        raw_symbols@.len() == intervals@.len(),
    ensures
        match r {
            Some(p) => {
                &&& exchange matches Some(e) && p.exchange == e
                &&& raw_symbols@.len() == 0 ==> p.pairs is None
                &&& raw_symbols@.len() > 0 ==> (p.pairs matches Some(v) && {
                    &&& v@.len() == raw_symbols@.len()
                    &&& forall|i: int|
                        0 <= i < v@.len() ==> raw_symbols@[i] == Some((#[trigger] v@[i]).0)
                            && v@[i].1 == intervals@[i]
                })
                &&& duration == 0 <==> p.duration is None
                &&& p.duration matches Some(d) ==> d == duration
            },
            None => exchange is None || exists|i: int|
                0 <= i < raw_symbols@.len() && raw_symbols@[i] is None,
        },
{
    let exchange = match exchange {
        Some(e) => e,
        None => {
            return None;
        },
    };
    let symbols = match convert_symbols(raw_symbols) {
        Some(v) => v,
        None => {
            return None;
        },
    };
    let ghost gsyms = symbols@;
    let pairs = zip_symbol_intervals(symbols, intervals);
    proof {
        assert forall|i: int|
            0 <= i < pairs@.len() implies raw_symbols@[i] == Some((#[trigger] pairs@[i]).0)
                && pairs@[i].1 == intervals@[i] by {
            assert(pairs@[i].0 == gsyms[i]);
            assert(raw_symbols@[i] == Some(gsyms[i]));
        }
    }
    Some(
        CandlestickParams {
            exchange,
            pairs: pairs_to_filter(pairs),
            duration: duration_to_option(duration),
        },
    )
}

/// Marshal the open-interest parameter shape: no symbol filter exists
/// for the market-wide feed. `None` signals a caller contract breach
/// that the shell must make process-fatal.
pub fn marshal_open_interest_params(exchange: Option<String>, duration: u64) -> (r: Option<
    OpenInterestParams,
>)
    ensures
        match r {
            Some(p) => {
                &&& exchange matches Some(e) && p.exchange == e
                &&& duration == 0 <==> p.duration is None
                &&& p.duration matches Some(d) ==> d == duration
            },
            None => exchange is None,
        },
{
    match exchange {
        Some(e) => Some(
            OpenInterestParams { exchange: e, duration: duration_to_option(duration) },
        ),
        None => None,
    }
}

/// Marshal the single-symbol subscription shape: the exchange and the
/// symbol must both have passed boundary validation; the message-kind
/// filters are kept unchanged, in input order. `None` signals a caller
/// contract breach that the shell must make process-fatal.
pub fn marshal_subscribe_params(
    exchange: Option<String>,
    symbol: Option<String>,
    msg_types: Vec<MessageType>,
    duration: u64,
) -> (r: Option<SubscribeParams>)
    ensures
        match r {
            Some(p) => {
                &&& exchange matches Some(e) && p.exchange == e
                &&& symbol matches Some(s) && p.symbol == s
                &&& p.msg_types == msg_types
                &&& duration == 0 <==> p.duration is None
                &&& p.duration matches Some(d) ==> d == duration
            },
            None => exchange is None || symbol is None,
        },
{
    match (exchange, symbol) {
        (Some(e), Some(s)) => Some(
            SubscribeParams {
                exchange: e,
                symbol: s,
                msg_types,
                duration: duration_to_option(duration),
            },
        ),
        _ => None,
    }
}

} // verus!
