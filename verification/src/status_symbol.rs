use vstd::prelude::*;

use crate::presentation::PresentationStatusSymbol;

verus! {

/// How the strokes of a status symbol end.
#[derive(Clone, Copy, Debug, PartialEq, Eq, Structural)]
pub enum LineCap {
    /// Cut square at the end point.
    Butt,
    /// Rounded past the end point.
    Round,
}

/// Whether a status symbol stands for a connection that cannot present.
pub open spec fn is_unavailable_symbol(symbol: PresentationStatusSymbol) -> bool {
    symbol == PresentationStatusSymbol::PairingRequired || symbol
        == PresentationStatusSymbol::Disconnected || symbol
        == PresentationStatusSymbol::OutputUnavailable
}

/// The line cap a status symbol is drawn with: round for the symbols of an
/// unavailable connection, square-cut for the playback symbols.
pub fn symbol_line_cap(symbol: PresentationStatusSymbol) -> (cap: LineCap)
    ensures
        cap == if is_unavailable_symbol(symbol) {
            LineCap::Round
        } else {
            LineCap::Butt
        },
{
    match symbol {
        PresentationStatusSymbol::PairingRequired
        | PresentationStatusSymbol::Disconnected
        | PresentationStatusSymbol::OutputUnavailable => LineCap::Round,
        PresentationStatusSymbol::Playing
        | PresentationStatusSymbol::Paused
        | PresentationStatusSymbol::Starting
        | PresentationStatusSymbol::Idle => LineCap::Butt,
    }
}

} // verus!
