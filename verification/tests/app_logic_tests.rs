use strixctl::daemon::{
    apply_plan, apply_reply, check_ppt_request, find_profile, parse_profile_name, ppt_differs,
    profile_not_found, record_step, ApplyStep,
};
use strixctl::gui::{
    gdbus_name_arg, hysteresis_input, khz_to_mhz_string, max_freq_field, new_profile_name,
    parse_max_freq_khz, parse_ppt_fields, ppt_fields_message, shift_input, Tab,
};
use strixctl::profiles::active_name_from;
use strixctl::state::{PptLimits, Profile};

#[test]
fn ppt_drift_tolerance() {
    let a = PptLimits { apu_limit: 55000, fast_limit: 80000, slow_limit: 70000 };
    let b = PptLimits { apu_limit: 55500, fast_limit: 79500, slow_limit: 70000 };
    assert!(!ppt_differs(&a, &b));
    let c = PptLimits { apu_limit: 55501, ..a };
    assert!(ppt_differs(&c, &a));
    assert!(ppt_differs(&a, &c));
    assert!(!ppt_differs(&a, &a));
}

#[test]
fn daemon_request_checks() {
    assert_eq!(parse_profile_name("Quiet"), Ok(Profile::Quiet));
    assert_eq!(parse_profile_name("BALANCED"), Ok(Profile::Balanced));
    assert_eq!(parse_profile_name("performance"), Ok(Profile::Performance));
    assert_eq!(
        parse_profile_name("turbo").unwrap_err(),
        "unknown profile 'turbo'; expected quiet|balanced|performance"
    );
    for p in [Profile::Quiet, Profile::Balanced, Profile::Performance] {
        assert_eq!(parse_profile_name(p.as_str()), Ok(p));
    }
    let ok = check_ppt_request(15000, 45000, 35000).unwrap();
    assert_eq!((ok.apu_limit, ok.fast_limit, ok.slow_limit), (15000, 45000, 35000));
    assert_eq!(check_ppt_request(1, 2, 3).unwrap_err(), "slow_mw must not exceed fast_mw");
}

#[test]
fn saved_profile_apply_sequence() {
    assert_eq!(
        apply_plan(None),
        vec![
            ApplyStep::PlatformProfile,
            ApplyStep::FanCurve,
            ApplyStep::Settle,
            ApplyStep::Ppt,
            ApplyStep::Boost,
            ApplyStep::Smt,
            ApplyStep::CorePreset
        ]
    );
    assert_eq!(apply_plan(Some(3000000)).last(), Some(&ApplyStep::MaxFreq(3000000)));
    let mut errors = Vec::new();
    record_step(&mut errors, &ApplyStep::Ppt, Err("denied".to_string()));
    record_step(&mut errors, &ApplyStep::Boost, Ok(()));
    record_step(&mut errors, &ApplyStep::CorePreset, Err("busy".to_string()));
    assert_eq!(errors, vec!["PPT: denied", "core preset: busy"]);
    assert_eq!(apply_reply(&errors).unwrap_err(), "PPT: denied | core preset: busy");
    assert_eq!(apply_reply(&vec![]), Ok(()));
    assert_eq!(profile_not_found("gaming"), "profile 'gaming' not found");
    let names = vec!["a".to_string(), "b".to_string(), "a".to_string()];
    assert_eq!(find_profile(&names, "a"), Some(0));
    assert_eq!(find_profile(&names, "b"), Some(1));
    assert_eq!(find_profile(&names, "c"), None);
}

#[test]
fn tabs() {
    assert_eq!(Tab::Profile.label(), "Power");
    assert_eq!(Tab::Saved.label(), "Profiles");
    assert_eq!(Tab::visible(), vec![Tab::Overview, Tab::Profile, Tab::Cooling, Tab::Saved]);
}

#[test]
fn frequency_cap_field() {
    assert_eq!(khz_to_mhz_string(Some(5_100_999)), "5100");
    assert_eq!(khz_to_mhz_string(None), "");
    assert_eq!(parse_max_freq_khz(false, "junk", None), Ok(None));
    assert_eq!(parse_max_freq_khz(true, " 3000 ", Some((400_000, 5_100_000))), Ok(Some(3_000_000)));
    assert_eq!(
        parse_max_freq_khz(true, "300", Some((400_000, 5_100_000))).unwrap_err(),
        "Cap must be between 400 and 5100 MHz."
    );
    assert_eq!(
        parse_max_freq_khz(true, "3.5", None).unwrap_err(),
        "Enter the frequency cap as whole MHz."
    );
    assert_eq!(parse_max_freq_khz(true, "5000000", None), Ok(Some(u32::MAX)));
    assert_eq!(max_freq_field(Some(2_500_000), "x", None), "2500");
    assert_eq!(max_freq_field(None, "  ", Some((1, 5_000_000))), "5000");
    assert_eq!(max_freq_field(None, "1234", Some((1, 5_000_000))), "1234");
}

#[test]
fn ppt_fields() {
    let p = parse_ppt_fields("15000", "35000", "45000").unwrap();
    assert_eq!((p.apu_limit, p.slow_limit, p.fast_limit), (15000, 35000, 45000));
    assert!(parse_ppt_fields("15000", "50000", "45000").is_none());
    assert!(parse_ppt_fields("15 W", "1", "2").is_none());
    assert_eq!(
        ppt_fields_message("1", "50000", "45000"),
        "⚠  Slow limit must not exceed Fast limit"
    );
    assert_eq!(ppt_fields_message("x", "1", "2"), "Enter integer milliwatts in each field.");
    assert_eq!(ppt_fields_message("1", "1", "2"), " ");
}

#[test]
fn small_fields() {
    assert_eq!(hysteresis_input("4"), Some(4));
    assert_eq!(hysteresis_input("40"), Some(10));
    assert_eq!(hysteresis_input("300"), None);
    assert_eq!(shift_input(" -5 "), Some(-5));
    assert_eq!(shift_input("+7"), Some(7));
    assert_eq!(shift_input("-2147483648"), Some(i32::MIN));
    assert_eq!(shift_input("2147483648"), None);
    assert_eq!(shift_input("-"), None);
    assert_eq!(new_profile_name("  Gaming  "), Some("Gaming".to_string()));
    assert_eq!(new_profile_name(" \t "), None);
    assert_eq!(active_name_from("Quiet work\n"), Some("Quiet work".to_string()));
    assert_eq!(active_name_from("\n"), None);
}

#[test]
fn gdbus_argument_quotes_name() {
    assert_eq!(gdbus_name_arg("Work"), "'Work'");
    assert_eq!(gdbus_name_arg("Bob's"), "'Bob\\'s'");
}

#[test]
fn drag_state_starts_idle() {
    assert_eq!(strixctl::gui::DragState::default().dragging, None);
}
