use roonscape_renderer::diagnostics::{
    ConnectionState, Diagnostics, DiagnosticsConfiguration, resident_memory_bytes,
};

use std::time::Duration;

const MILLISECOND: u128 = 1_000_000;

/// The frame time in milliseconds to one decimal place, formatted from a
/// floating-point duration as the host does.
fn frame_figure(diagnostics: &Diagnostics) -> String {
    diagnostics.frame_time_nanos().map_or_else(String::new, |nanos| {
        let duration = Duration::new((nanos / 1_000_000_000) as u64, (nanos % 1_000_000_000) as u32);
        format!("{:.1}", duration.as_secs_f64() * 1_000.0)
    })
}

#[test]
fn diagnostics_are_disabled_by_default_and_require_an_explicit_host_flag() {
    assert!(
        !DiagnosticsConfiguration::from_value(None)
            .expect("absent configuration should be valid")
            .enabled()
    );
    assert!(
        !DiagnosticsConfiguration::from_value(Some("false"))
            .expect("false should be valid")
            .enabled()
    );
    assert!(
        DiagnosticsConfiguration::from_value(Some("1"))
            .expect("1 should enable diagnostics")
            .enabled()
    );
    assert!(
        DiagnosticsConfiguration::from_value(Some("true"))
            .expect("true should enable diagnostics")
            .enabled()
    );
    assert!(DiagnosticsConfiguration::from_value(Some("occasionally")).is_err());
}

#[test]
fn zero_disables_and_case_matters() {
    assert!(!DiagnosticsConfiguration::from_value(Some("0")).unwrap().enabled());
    assert!(DiagnosticsConfiguration::from_value(Some("TRUE")).is_err());
    assert!(DiagnosticsConfiguration::from_value(Some("")).is_err());
}

#[test]
fn the_overlay_reports_memory_frame_time_artwork_connection_and_revision() {
    let mut diagnostics = Diagnostics::default();
    diagnostics.observe_connection(ConnectionState::Connected);
    diagnostics.observe_snapshot(7, Some((1200, 1200)));
    diagnostics.observe_frame(10 * MILLISECOND);
    diagnostics.observe_frame(27 * MILLISECOND);

    assert_eq!(
        diagnostics.overlay_text(Some(48 * 1024 * 1024), &frame_figure(&diagnostics)),
        "Memory  48.0 MiB\nFrame   17.0 ms\nArtwork 1200 \u{d7} 1200\nConnection connected\nRevision 7"
    );
}

#[test]
fn unknown_observations_show_a_dash() {
    let diagnostics = Diagnostics::default();
    assert_eq!(
        diagnostics.overlay_text(None, &frame_figure(&diagnostics)),
        "Memory  \u{2014}\nFrame   \u{2014}\nArtwork \u{2014}\nConnection disconnected\nRevision \u{2014}"
    );
}

#[test]
fn disconnecting_forgets_the_artwork_and_a_backwards_clock_forgets_the_frame_time() {
    let mut diagnostics = Diagnostics::default();
    diagnostics.observe_snapshot(3, Some((-1, 40)));
    diagnostics.observe_frame(50 * MILLISECOND);
    diagnostics.observe_frame(40 * MILLISECOND);
    assert!(diagnostics.overlay_text(Some(1), &frame_figure(&diagnostics)).contains("Artwork -1 \u{d7} 40\n"));
    assert!(diagnostics.overlay_text(Some(1), &frame_figure(&diagnostics)).contains("Frame   \u{2014}\n"));
    diagnostics.observe_connection(ConnectionState::Disconnected);
    assert!(diagnostics.overlay_text(Some(1), &frame_figure(&diagnostics)).contains("Artwork \u{2014}\n"));
}

#[test]
fn memory_tenths_round_half_to_even_and_the_frame_time_uses_the_given_figure() {
    let mut diagnostics = Diagnostics::default();
    diagnostics.observe_frame(0);
    diagnostics.observe_frame(16_650_000);
    assert_eq!(diagnostics.frame_time_nanos(), Some(16_650_000));
    assert!(diagnostics
        .overlay_text(Some(104_858), &frame_figure(&diagnostics))
        .starts_with("Memory  0.1 MiB\nFrame   16.7 ms\n"));
    diagnostics.observe_frame(16_650_000 + 16_750_000);
    assert!(diagnostics
        .overlay_text(Some(3 * 524_288), &frame_figure(&diagnostics))
        .starts_with("Memory  1.5 MiB\nFrame   16.8 ms\n"));
    assert!(diagnostics.overlay_text(Some(0), "4.2").starts_with("Memory  0.0 MiB\nFrame   4.2 ms\n"));
}

#[test]
fn a_fifty_microsecond_frame_shows_as_a_tenth_of_a_millisecond() {
    let mut diagnostics = Diagnostics::default();
    diagnostics.observe_frame(0);
    diagnostics.observe_frame(50_000);
    assert!(diagnostics
        .overlay_text(None, &frame_figure(&diagnostics))
        .contains("\nFrame   0.1 ms\n"));
}

#[test]
fn memory_beyond_double_precision_is_rounded_as_a_double_first() {
    let diagnostics = Diagnostics::default();
    assert!(diagnostics
        .overlay_text(Some(9_223_372_036_855_038_019), "")
        .starts_with("Memory  8796093022208.2 MiB\n"));
    assert!(diagnostics
        .overlay_text(Some(u64::MAX), "")
        .starts_with("Memory  17592186044416.0 MiB\n"));
    assert!(diagnostics.overlay_text(None, "9.9").contains("\nFrame   \u{2014}\n"));
}

#[test]
fn resident_memory_comes_from_the_first_readable_vm_rss_line() {
    let status = "Name:\trenderer\nVmPeak:\t  90000 kB\nVmRSS:\t   49152 kB\nThreads:\t4\n";
    assert_eq!(resident_memory_bytes(status), Some(49152 * 1024));
    assert_eq!(resident_memory_bytes("VmRSS:\r\nVmRSS: 12 kB\r\n"), Some(12 * 1024));
    assert_eq!(resident_memory_bytes("VmRSS: +7"), Some(7 * 1024));
    assert_eq!(resident_memory_bytes("VmRSS: seven kB\nVmRSS: 3"), Some(3 * 1024));
    assert_eq!(resident_memory_bytes(" VmRSS: 12 kB"), None);
    assert_eq!(resident_memory_bytes("VmRSS: 12kB"), None);
    assert_eq!(resident_memory_bytes("Name: renderer\n"), None);
    assert_eq!(resident_memory_bytes(""), None);
    assert_eq!(resident_memory_bytes("VmRSS: 18014398509481984 kB"), None);
    assert_eq!(
        resident_memory_bytes("VmRSS: 18014398509481983 kB"),
        Some(18014398509481983 * 1024)
    );
}
