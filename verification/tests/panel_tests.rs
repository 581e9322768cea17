use strixctl::gui::Tab;
use strixctl::panel::{Effect, Event, Panel, Readings, Settings};
use strixctl::state::{CorePreset, PptLimits, Profile};

fn settings() -> Settings {
    Settings {
        profile: Profile::Balanced,
        ppt: PptLimits { apu_limit: 15000, fast_limit: 45000, slow_limit: 35000 },
        hysteresis: 2,
        boost_enabled: true,
        smt_enabled: true,
        core_preset: CorePreset::Sixteen,
        max_freq_khz: None,
    }
}

fn panel() -> Panel {
    Panel::new(settings(), false, Some((400000, 5100000)), Some("Gaming".to_string()))
}

#[test]
fn panel_starts_from_the_settings_read() {
    let p = panel();
    assert_eq!(p.tab, Tab::Overview);
    assert_eq!(p.ppt_apu_str, "15000");
    assert_eq!(p.ppt_slow_str, "35000");
    assert_eq!(p.ppt_fast_str, "45000");
    assert_eq!(p.hyst_str, "2");
    assert!(!p.max_freq_capped);
    assert_eq!(p.max_freq_str, "5100");
    assert_eq!(p.selected_profile_name, "Gaming");
    assert_eq!(p.status_msg, "Ready");
    assert_eq!(p.status_token, 0);
}

#[test]
fn panel_seeds_cap_field_with_the_cap() {
    let mut s = settings();
    s.max_freq_khz = Some(3000000);
    let p = Panel::new(s, true, None, None);
    assert!(p.max_freq_capped);
    assert_eq!(p.max_freq_str, "3000");
    assert_eq!(p.selected_profile_name, "");
    assert!(p.core_reboot_pending);
}

#[test]
fn critical_temperature_switches_to_performance() {
    let mut p = panel();
    let e = p.update(Event::Tick { critical: true });
    assert!(matches!(e, Effect::ApplyProfile(Profile::Performance)));
    assert_eq!(p.settings.profile, Profile::Performance);
    assert_eq!(p.status_msg, "⚠ Critical temp! Switched to Performance.");
    assert_eq!(p.status_token, 1);
    // Already in Performance: nothing more happens.
    let e = p.update(Event::Tick { critical: true });
    assert!(matches!(e, Effect::Nothing));
    assert_eq!(p.status_token, 1);
}

#[test]
fn ordinary_tick_changes_nothing() {
    let mut p = panel();
    let e = p.update(Event::Tick { critical: false });
    assert!(matches!(e, Effect::Nothing));
    assert_eq!(p.settings.profile, Profile::Balanced);
    assert_eq!(p.status_msg, "Ready");
}

#[test]
fn applied_profile_reloads_curve_and_limits() {
    let mut p = panel();
    let e = p.update(Event::ProfileApplied(Ok(Profile::Quiet)));
    assert!(matches!(e, Effect::ReloadAfterProfile(Profile::Quiet)));
    assert_eq!(p.settings.profile, Profile::Quiet);
    assert_eq!(p.status_msg, "Profile set to quiet.");
    assert!(p.ppt_reload_inflight);
    let e = p.update(Event::PptReloaded(Some(PptLimits {
        apu_limit: 20000,
        fast_limit: 50000,
        slow_limit: 40000,
    })));
    assert!(matches!(e, Effect::Nothing));
    assert!(!p.ppt_reload_inflight);
    assert_eq!(p.ppt_apu_str, "20000");
    assert_eq!(p.ppt_slow_str, "40000");
    assert_eq!(p.ppt_fast_str, "50000");
    assert_eq!(p.status_msg, "Power limits synced.");
}

#[test]
fn ppt_fields_are_applied_only_when_valid() {
    let mut p = panel();
    p.update(Event::PptSlowChanged("50000".to_string()));
    let e = p.update(Event::ApplyPpt);
    assert!(matches!(e, Effect::Nothing));
    assert_eq!(p.settings.ppt.slow_limit, 35000);
    p.update(Event::PptFastChanged("60000".to_string()));
    let e = p.update(Event::ApplyPpt);
    match e {
        Effect::ApplyPpt(l) => {
            assert_eq!(l.apu_limit, 15000);
            assert_eq!(l.slow_limit, 50000);
            assert_eq!(l.fast_limit, 60000);
        }
        other => panic!("unexpected {other:?}"),
    }
    assert_eq!(p.settings.ppt.fast_limit, 60000);
    assert_eq!(p.status_msg, "Applying power limits…");
}

#[test]
fn reloaded_limits_apply_back_unchanged() {
    let mut p = panel();
    let limits = PptLimits { apu_limit: 65000, fast_limit: 65000, slow_limit: 55000 };
    p.update(Event::PptReloaded(Some(limits)));
    match p.update(Event::ApplyPpt) {
        Effect::ApplyPpt(l) => assert_eq!(l, limits),
        other => panic!("unexpected {other:?}"),
    }
}

#[test]
fn failures_show_the_error() {
    let mut p = panel();
    let e = p.update(Event::BoostApplied(Err("pkexec refused".to_string())));
    assert!(matches!(e, Effect::Nothing));
    assert_eq!(p.status_msg, "Error: pkexec refused");
    let e = p.update(Event::MaxFreqApplied(Err("no cpufreq".to_string())));
    assert!(matches!(e, Effect::Nothing));
    assert_eq!(p.status_msg, "Error: no cpufreq");
    assert_eq!(p.status_token, 2);
}

#[test]
fn hysteresis_input_is_capped() {
    let mut p = panel();
    p.update(Event::HysteresisChanged("25".to_string()));
    assert_eq!(p.settings.hysteresis, 10);
    assert_eq!(p.hyst_str, "25");
    p.update(Event::HysteresisChanged("x".to_string()));
    assert_eq!(p.settings.hysteresis, 10);
    assert_eq!(p.hyst_str, "x");
    p.update(Event::HysteresisChanged("4".to_string()));
    assert_eq!(p.settings.hysteresis, 4);
}

#[test]
fn shift_field_is_read_then_cleared() {
    let mut p = panel();
    p.update(Event::ShiftInputChanged(" -7 ".to_string()));
    assert!(matches!(p.update(Event::ApplyShift), Effect::ShiftFanCurve(-7)));
    assert_eq!(p.shift_input, "");
    p.update(Event::ShiftInputChanged("abc".to_string()));
    assert!(matches!(p.update(Event::ApplyShift), Effect::Nothing));
    assert_eq!(p.shift_input, "");
}

#[test]
fn frequency_cap_is_checked_against_the_range() {
    let mut p = panel();
    p.update(Event::MaxFreqCapToggled(true));
    assert!(p.max_freq_capped);
    p.update(Event::MaxFreqChanged("6000".to_string()));
    assert!(matches!(p.update(Event::ApplyMaxFreq), Effect::Nothing));
    assert_eq!(p.status_msg, "Cap must be between 400 and 5100 MHz.");
    p.update(Event::MaxFreqChanged("3000".to_string()));
    assert!(matches!(p.update(Event::ApplyMaxFreq), Effect::SetMaxFreq(Some(3000000))));
    assert_eq!(p.status_msg, "Applying frequency cap…");
    p.update(Event::MaxFreqApplied(Ok(Some(3000000))));
    assert_eq!(p.settings.max_freq_khz, Some(3000000));
    assert_eq!(p.status_msg, "Max frequency capped at 3000 MHz.");
    p.update(Event::MaxFreqCapToggled(false));
    assert!(matches!(p.update(Event::ApplyMaxFreq), Effect::SetMaxFreq(None)));
    assert_eq!(p.status_msg, "Removing frequency cap…");
    p.update(Event::MaxFreqApplied(Ok(None)));
    assert_eq!(p.settings.max_freq_khz, None);
    assert!(!p.max_freq_capped);
    assert_eq!(p.max_freq_str, "3000");
    assert_eq!(p.status_msg, "Frequency cap removed.");
}

#[test]
fn cap_toggle_fills_empty_field_with_hardware_maximum() {
    let mut p = panel();
    p.update(Event::MaxFreqChanged("  ".to_string()));
    p.update(Event::MaxFreqCapToggled(true));
    assert_eq!(p.max_freq_str, "5100");
}

#[test]
fn core_preset_status_mentions_pending_restart() {
    let mut p = panel();
    p.update(Event::SetCorePreset(CorePreset::Eight));
    assert!(matches!(p.update(Event::ApplyCorePreset), Effect::SetCorePreset(CorePreset::Eight)));
    p.update(Event::CorePresetApplied(Ok((CorePreset::Eight, true))));
    assert!(p.core_reboot_pending);
    assert_eq!(p.status_msg, "Core preset set to 8 cores — restart to apply.");
    p.update(Event::CorePresetApplied(Ok((CorePreset::Twelve, false))));
    assert_eq!(p.status_msg, "Core preset set to 12 cores.");
}

#[test]
fn smt_change_rereads_core_preset() {
    let mut p = panel();
    p.update(Event::SmtToggled(false));
    assert!(matches!(p.update(Event::ApplySmt), Effect::SetSmt(false)));
    assert!(matches!(p.update(Event::SmtApplied(Ok(false))), Effect::ReadCorePreset));
    assert_eq!(p.status_msg, "SMT disabled.");
    p.update(Event::CorePresetRead(CorePreset::Four));
    assert_eq!(p.settings.core_preset, CorePreset::Four);
}

#[test]
fn saving_needs_a_name() {
    let mut p = panel();
    p.update(Event::NewProfileNameChanged("   ".to_string()));
    assert!(matches!(p.update(Event::SaveProfile), Effect::Nothing));
    assert_eq!(p.selected_profile_name, "Gaming");
    p.update(Event::NewProfileNameChanged("  Quiet night ".to_string()));
    assert!(matches!(p.update(Event::SaveProfile), Effect::StoreSelected));
    assert_eq!(p.selected_profile_name, "Quiet night");
    assert_eq!(p.new_profile_name, "");
    assert_eq!(p.status_msg, "Profile saved.");
}

#[test]
fn replace_and_delete_use_the_selection() {
    let mut p = panel();
    assert!(matches!(p.update(Event::ReplaceProfile), Effect::StoreSelected));
    assert_eq!(p.status_msg, "Replaced 'Gaming' with current state.");
    assert!(matches!(
        p.update(Event::ProfileDeleted(Some("Office".to_string()))),
        Effect::WriteProfiles
    ));
    assert_eq!(p.selected_profile_name, "Office");
    assert_eq!(p.status_msg, "Profile deleted.");
    p.update(Event::ProfileDeleted(None));
    assert_eq!(p.selected_profile_name, "");
    assert!(matches!(p.update(Event::ReplaceProfile), Effect::Nothing));
}

#[test]
fn loading_a_profile_restores_its_settings() {
    let mut p = panel();
    let s = Settings {
        profile: Profile::Performance,
        ppt: PptLimits { apu_limit: 80000, fast_limit: 90000, slow_limit: 85000 },
        hysteresis: 5,
        boost_enabled: false,
        smt_enabled: false,
        core_preset: CorePreset::Twelve,
        max_freq_khz: Some(4000000),
    };
    p.update(Event::ProfileLoaded(s));
    assert_eq!(p.settings.profile, Profile::Performance);
    assert_eq!(p.settings.ppt, s.ppt);
    assert_eq!(p.settings.hysteresis, 5);
    assert!(!p.settings.boost_enabled);
    assert!(!p.settings.smt_enabled);
    assert_eq!(p.settings.core_preset, CorePreset::Twelve);
    assert_eq!(p.settings.max_freq_khz, Some(4000000));
    assert_eq!(p.ppt_apu_str, "80000");
    assert_eq!(p.hyst_str, "5");
    assert_eq!(p.max_freq_str, "4000");
    assert!(p.max_freq_capped);
    assert_eq!(p.status_msg, "Loaded 'Gaming'.");
}

#[test]
fn applying_saved_profile_reports_progress() {
    let mut p = panel();
    assert!(matches!(p.update(Event::ApplySavedProfile), Effect::ApplySelected));
    assert_eq!(p.status_msg, "Applying 'Gaming'…");
    assert!(matches!(
        p.update(Event::SavedProfileApplied(Ok("Gaming".to_string()))),
        Effect::RecordApplied
    ));
    assert_eq!(p.status_msg, "Applied 'Gaming'.");
}

#[test]
fn reload_takes_what_was_read() {
    let mut p = panel();
    let r = Readings {
        profile: Some(Profile::Quiet),
        ppt: None,
        hysteresis: Some(3),
        boost: Some(false),
        smt: None,
        core_preset: CorePreset::Eight,
        core_reboot_pending: true,
        freq_range_khz: Some((600000, 4000000)),
        max_freq_khz: Some(None),
    };
    assert!(matches!(p.update(Event::Reloaded(r)), Effect::Nothing));
    assert_eq!(p.settings.profile, Profile::Quiet);
    assert_eq!(p.settings.ppt.apu_limit, 15000);
    assert_eq!(p.hyst_str, "3");
    assert!(!p.settings.boost_enabled);
    assert!(p.settings.smt_enabled);
    assert_eq!(p.settings.core_preset, CorePreset::Eight);
    assert!(p.core_reboot_pending);
    assert_eq!(p.freq_range_khz, Some((600000, 4000000)));
    assert!(!p.max_freq_capped);
    assert_eq!(p.max_freq_str, "5100");
    assert_eq!(p.status_msg, "Settings reloaded from system.");
}

#[test]
fn actions_carry_the_current_settings() {
    let mut p = panel();
    p.update(Event::SetProfile(Profile::Quiet));
    assert!(matches!(p.update(Event::ApplyProfile), Effect::ApplyProfile(Profile::Quiet)));
    assert_eq!(p.status_msg, "Applying profile…");
    assert!(matches!(p.update(Event::ApplyFanCurve), Effect::ApplyFanCurve(Profile::Quiet)));
    p.update(Event::BoostToggled(false));
    assert!(matches!(p.update(Event::ApplyBoost), Effect::SetBoost(false)));
    p.update(Event::BoostApplied(Ok(false)));
    assert_eq!(p.status_msg, "Boost disabled.");
    p.update(Event::TabSelected(Tab::Cooling));
    assert_eq!(p.tab, Tab::Cooling);
    assert!(matches!(p.update(Event::FanShift(5)), Effect::ShiftFanCurve(5)));
}
