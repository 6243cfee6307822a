use vstd::prelude::*;

verus! {

/// Message-kind tag carried across the boundary, one variant per kind
/// the engine can emit, in the engine's order.
///
/// The set is deliberately total over the engine's kinds — the
/// level2-top-k and open-interest feeds emit `L2TopK` and
/// `OpenInterest`, and `Other` is the engine's own catch-all — so
/// every emitted message is representable and none is lost or turned
/// into a fault at the boundary.
#[derive(Copy, Clone, Debug, PartialEq, Eq, Structural)]
pub enum MessageType {
    /// All other messages.
    Other,
    /// Tick-by-tick trade messages.
    Trade,
    /// Incremental level2 orderbook updates.
    L2Event,
    /// Level2 snapshots polled from RESTful interfaces.
    L2Snapshot,
    /// Level2 top-k snapshots streamed over websocket.
    L2TopK,
    /// Incremental level3 orderbook updates.
    L3Event,
    /// Level3 snapshots polled from RESTful interfaces.
    L3Snapshot,
    /// Best bid and ask.
    BBO,
    /// 24hr rolling window ticker.
    Ticker,
    /// OHLCV candlestick.
    Candlestick,
    /// Funding rate.
    FundingRate,
    /// Open interest.
    OpenInterest,
    /// Long/short ratio.
    LongShortRatio,
    /// Taker buy/sell volume.
    TakerVolume,
}

} // verus!
