use vstd::prelude::*;

verus! {

/// Instrument class tag carried across the boundary.
///
/// Mirrors the engine's market-type tag as a plain enum that verified
/// code can inspect and compare. The engine's `Unknown` tag has no
/// variant here on purpose: the engine stamps each message with the
/// market type its call was made with, which is always one of these,
/// and the shell drops a message it cannot tag — with a diagnostic,
/// never a fault — before it reaches the library.
#[derive(Copy, Clone, Debug, PartialEq, Eq, Structural)]
pub enum MarketType {
    Spot,
    LinearFuture,
    InverseFuture,
    LinearSwap,
    InverseSwap,
    AmericanOption,
    EuropeanOption,
    QuantoFuture,
    QuantoSwap,
    Move,
    BVOL,
}

} // verus!
