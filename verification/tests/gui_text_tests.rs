use strixctl::gui::{
    cap_badge, cap_controls_enabled, cap_hint, cores_hint, cores_threads_label, freq_tile_hint,
    on_off, thread_count,
};
use strixctl::state::CorePreset;

#[test]
fn threads_double_with_smt() {
    assert_eq!(thread_count(&CorePreset::Eight, true), 16);
    assert_eq!(thread_count(&CorePreset::Eight, false), 8);
    assert_eq!(cores_threads_label(&CorePreset::Sixteen, true), "16C / 32T");
    assert_eq!(cores_threads_label(&CorePreset::Four, false), "4C / 4T");
}

#[test]
fn cores_hint_mentions_reboot_where_needed() {
    assert_eq!(cores_hint(&CorePreset::Twelve, true, false), "Currently 12C / 24T.");
    assert_eq!(
        cores_hint(&CorePreset::Twelve, false, true),
        "Currently 12C / 12T. Applied via bcdedit — takes effect after a reboot."
    );
}

#[test]
fn cap_hint_describes_range_and_cap() {
    assert!(!cap_controls_enabled(true, None));
    assert!(cap_controls_enabled(false, None));
    assert!(cap_controls_enabled(true, Some((400000, 5100000))));
    assert_eq!(
        cap_hint(true, None, None),
        "Unavailable — this system exposes no cpufreq scaling range."
    );
    assert_eq!(
        cap_hint(true, Some((400000, 5100000)), Some(3000000)),
        "Capped at 3000 MHz (hardware 400–5100 MHz). Applied with cpupower / scaling_max_freq."
    );
    assert_eq!(
        cap_hint(true, Some((400000, 5100000)), None),
        "Uncapped (hardware 400–5100 MHz). Applied with cpupower / scaling_max_freq."
    );
    assert_eq!(
        cap_hint(false, None, Some(3000000)),
        "Sets the power plan's maximum processor frequency (powercfg PROCFREQMAX)."
    );
}

#[test]
fn frequency_labels() {
    assert_eq!(freq_tile_hint(Some(2500000)), "fastest core · capped 2500 MHz");
    assert_eq!(freq_tile_hint(None), "fastest core · uncapped");
    assert_eq!(cap_badge(Some(4200000)), "cap  4200 MHz");
    assert_eq!(cap_badge(None), "cap  off");
    assert_eq!(on_off(true), "On");
    assert_eq!(on_off(false), "Off");
}
