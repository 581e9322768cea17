use strixctl::state::{CorePreset, PptLimits, Profile};
use strixctl::tools::{
    extract_paren_u32s, parse_active_profile, parse_cpu_fan_curve, profile_set_args,
    ryzenadj_args, ryzenadj_info_cells,
};

#[test]
fn profile_names_and_defaults() {
    assert_eq!(Profile::Quiet.as_str(), "quiet");
    assert_eq!(Profile::Balanced.as_str(), "balanced");
    assert_eq!(Profile::Performance.as_str(), "performance");
    assert_eq!(Profile::default(), Profile::Balanced);
    let d = PptLimits::default();
    assert_eq!((d.apu_limit, d.fast_limit, d.slow_limit), (15000, 45000, 35000));
    assert!(d.is_valid());
}

#[test]
fn core_preset_numbers() {
    assert_eq!(CorePreset::Twelve.as_u32(), 12);
    assert_eq!(CorePreset::from_u32(8), CorePreset::Eight);
    assert_eq!(CorePreset::from_u32(4), CorePreset::Four);
    assert_eq!(CorePreset::from_u32(7), CorePreset::Sixteen);
    assert_eq!(CorePreset::Eight.label(), "8 cores");
    for p in [CorePreset::Four, CorePreset::Eight, CorePreset::Twelve, CorePreset::Sixteen] {
        assert_eq!(CorePreset::from_u32(p.as_u32()), p);
    }
}

#[test]
fn asusctl_profile_arguments() {
    assert_eq!(profile_set_args(&Profile::Quiet), vec!["profile", "set", "quiet"]);
}

#[test]
fn reads_active_profile() {
    let out = "Starting version 6.0.12\nActive profile: Performance\nNext: Quiet\n";
    assert_eq!(parse_active_profile(out), Some(Profile::Performance));
    assert_eq!(parse_active_profile("ACTIVE PROFILE:  quiet \r\n"), Some(Profile::Quiet));
    assert_eq!(parse_active_profile("Active profile: LowPower"), Some(Profile::Balanced));
    assert_eq!(parse_active_profile("Active profile is quiet"), None);
    assert_eq!(parse_active_profile(""), None);
    // the first matching line counts
    assert_eq!(
        parse_active_profile("Active profile: quiet\nActive profile: performance"),
        Some(Profile::Quiet)
    );
}

#[test]
fn extracts_parenthesised_numbers() {
    assert_eq!(extract_paren_u32s("temp: (30, 40,50 )"), Some(vec![30, 40, 50]));
    assert_eq!(extract_paren_u32s("pwm: (1, 2), (3)"), None);
    assert_eq!(extract_paren_u32s("x (7)"), Some(vec![7]));
    assert_eq!(extract_paren_u32s("()"), None);
    assert_eq!(extract_paren_u32s(")("), None);
    assert_eq!(extract_paren_u32s("(1,,2)"), None);
    assert_eq!(extract_paren_u32s("no tuple"), None);
}

const FAN_OUTPUT: &str = "Fan curves for Balanced\n\
    \x20 fan: GPU,\n\
    \x20 pwm: (9, 9, 9, 9, 9, 9, 9, 9),\n\
    \x20 temp: (1, 1, 1, 1, 1, 1, 1, 1),\n\
    \x20 fan: CPU,\n\
    \x20 pwm: (3, 13, 25, 51, 89, 127, 178, 255),\n\
    \x20 temp: (30, 40, 50, 60, 70, 80, 90, 100),\n\
    \x20 enabled: true\n";

#[test]
fn reads_cpu_fan_curve() {
    let pts = parse_cpu_fan_curve(FAN_OUTPUT).unwrap();
    assert_eq!(pts.len(), 8);
    assert_eq!(pts[0], (30, 3));
    assert_eq!(pts[7], (100, 255));
    assert_eq!(parse_cpu_fan_curve("fan: CPU\npwm: (1,2)\ntemp: (1)\n"), None);
    assert_eq!(parse_cpu_fan_curve("fan: CPU\npwm: ()\ntemp: ()\n"), None);
    assert_eq!(parse_cpu_fan_curve("fan: GPU\npwm: (1)\ntemp: (1)\n"), None);
    assert_eq!(parse_cpu_fan_curve("FAN: cpu\n temp: (5)\n PWM: (6)"), Some(vec![(5, 6)]));
    // the tuples must lie within eight lines of the header
    let far = "fan: cpu\n\n\n\n\n\n\n\npwm: (1)\ntemp: (2)\n";
    assert_eq!(parse_cpu_fan_curve(far), None);
}

#[test]
fn ryzenadj_limit_arguments() {
    let ppt = PptLimits { apu_limit: 35000, fast_limit: 60000, slow_limit: 45000 };
    assert_eq!(
        ryzenadj_args(&ppt),
        vec!["--stapm-limit=35000", "--fast-limit=60000", "--slow-limit=45000", "--apu-slow-limit=35000"]
    );
}

#[test]
fn reads_ryzenadj_info_cells() {
    let out = "CPU Family: Strix Halo\n\
        |        Name         |   Value   |     Parameter      |\n\
        |---------------------|-----------|--------------------|\n\
        | STAPM LIMIT         |    55.000 | stapm-limit        |\n\
        | PPT LIMIT FAST      |    80.000 | fast-limit         |\n\
        | PPT LIMIT SLOW      |    70.500 | slow-limit         |\n\
        | PPT LIMIT APU       |    55.000 | apu-slow-limit     |\n";
    let c = ryzenadj_info_cells(out);
    assert_eq!(c.apu.as_deref(), Some("55.000"));
    assert_eq!(c.fast.as_deref(), Some("80.000"));
    assert_eq!(c.slow.as_deref(), Some("70.500"));
    let none = ryzenadj_info_cells("nothing here");
    assert!(none.apu.is_none() && none.fast.is_none() && none.slow.is_none());
    // the last row of a kind counts, even without a value cell
    let c = ryzenadj_info_cells("|STAPM LIMIT|1.0|x|\nstapm limit\n");
    assert!(c.apu.is_none());
}

#[test]
fn fan_curve_invocations() {
    let sets = strixctl::tools::fan_curve_arg_sets(&Profile::Balanced, "30c:0,40c:13");
    assert_eq!(sets.len(), 3);
    assert_eq!(
        sets[0],
        vec!["fan-curve", "--mod-profile", "balanced", "--fan", "cpu", "--data", "30c:0,40c:13"]
    );
    assert_eq!(sets[1][4], "gpu");
    assert_eq!(
        sets[2],
        vec!["fan-curve", "--mod-profile", "balanced", "--enable-fan-curves", "true"]
    );
}

#[test]
fn cpu_fan_curve_stops_at_next_fan_block() {
    let output = "fan: CPU\npwm: (0, 51, 255)\ntemp: (30, 60, 90)\nfan: GPU\npwm: (255, 255)\ntemp: (90, 95)";
    assert_eq!(parse_cpu_fan_curve(output), Some(vec![(30, 0), (60, 51), (90, 255)]));
    // a CPU block without its own tuples does not borrow the next fan's
    assert_eq!(parse_cpu_fan_curve("fan: cpu\nfan: gpu\npwm: (1)\ntemp: (2)\n"), None);
}
