use vstd::prelude::*;

verus! {

/// Every failure the helper reports.
#[derive(Debug, Clone, Copy, PartialEq, Eq, Structural)]
pub enum Error {
    DlOpenError,
    DlSymError,
    FindBaseAddrError,
    PlayersListError,
    EntsListError,
    TraceLineError,
    Player1Error,
    SDLHookError,
    SymbolError,
    BehindCamera,
}

} // verus!
