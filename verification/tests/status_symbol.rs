use roonscape_renderer::presentation::PresentationStatusSymbol;
use roonscape_renderer::status_symbol::{LineCap, symbol_line_cap};

#[test]
fn uses_butt_caps_for_starting_and_round_caps_only_for_unavailable_symbols() {
    assert!(matches!(
        symbol_line_cap(PresentationStatusSymbol::Starting),
        LineCap::Butt
    ));

    for symbol in [
        PresentationStatusSymbol::Playing,
        PresentationStatusSymbol::Paused,
        PresentationStatusSymbol::Idle,
    ] {
        assert!(matches!(symbol_line_cap(symbol), LineCap::Butt));
    }

    for symbol in [
        PresentationStatusSymbol::PairingRequired,
        PresentationStatusSymbol::Disconnected,
        PresentationStatusSymbol::OutputUnavailable,
    ] {
        assert!(matches!(symbol_line_cap(symbol), LineCap::Round));
    }
}
