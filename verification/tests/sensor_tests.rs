use strixctl::sensors::{
    fan_kind, fastest_khz, is_cpu_zone, is_named, is_policy_entry, parse_reading, FanKind,
};

#[test]
fn sysfs_names_are_trimmed() {
    assert!(is_named("k10temp\n", "k10temp"));
    assert!(!is_named("k10temp2\n", "k10temp"));
    assert!(is_named(" Discharging\n", "Discharging"));
    assert!(!is_named("Charging\n", "Discharging"));
}

#[test]
fn cpu_thermal_zones() {
    assert!(is_cpu_zone("x86_pkg_temp\n"));
    assert!(is_cpu_zone("cpu-thermal\n"));
    assert!(is_cpu_zone("acpitz-cpu"));
    assert!(!is_cpu_zone("acpitz\n"));
    assert!(!is_cpu_zone("x86_pkg_temp2"));
}

#[test]
fn cpufreq_policies() {
    assert!(is_policy_entry("policy0"));
    assert!(is_policy_entry("policy15"));
    assert!(!is_policy_entry("boost"));
}

#[test]
fn fan_channels_by_label() {
    assert_eq!(fan_kind("cpu_fan\n"), Some(FanKind::Cpu));
    assert_eq!(fan_kind("gpu_fan"), Some(FanKind::Gpu));
    assert_eq!(fan_kind("mid_fan"), None);
    assert_eq!(parse_reading("0\n"), Some(0));
    assert_eq!(parse_reading(" 2400 \n"), Some(2400));
    assert_eq!(parse_reading("n/a"), None);
}

#[test]
fn fastest_policy_wins() {
    let v = vec!["3100000\n".to_string(), "garbage".to_string(), "5050000\n".to_string()];
    assert_eq!(fastest_khz(&v), 5050000);
    assert_eq!(fastest_khz(&vec![]), 0);
    assert_eq!(fastest_khz(&vec!["x".to_string()]), 0);
}

#[test]
fn smt_control_and_live_cap() {
    assert_eq!(strixctl::sensors::smt_state("on\n"), Some(true));
    assert_eq!(strixctl::sensors::smt_state("off\n"), Some(false));
    assert_eq!(strixctl::sensors::smt_state("forceoff"), Some(false));
    assert_eq!(strixctl::sensors::smt_state("notsupported\n"), None);
    assert_eq!(strixctl::sensors::live_cap(5100000, Some(5100000)), None);
    assert_eq!(strixctl::sensors::live_cap(3000000, Some(5100000)), Some(3000000));
    assert_eq!(strixctl::sensors::live_cap(3000000, None), Some(3000000));
}

#[test]
fn online_threads_give_the_core_preset() {
    let eight = strixctl::cpulist::parse_cpu_list("0-7,16-23\n").unwrap();
    assert_eq!(strixctl::cpulist::first_threads_online(&eight), 8);
    assert_eq!(
        strixctl::cpulist::online_core_preset(&eight),
        strixctl::state::CorePreset::Eight
    );
    let all = strixctl::cpulist::parse_cpu_list("0-31").unwrap();
    assert_eq!(strixctl::cpulist::first_threads_online(&all), 16);
    assert_eq!(strixctl::cpulist::online_core_preset(&all), strixctl::state::CorePreset::Sixteen);
}

#[test]
fn stored_numbers_read_back() {
    let text = strixctl::text::decimal_string(3000000);
    assert_eq!(strixctl::windows::parse_stored_u32(&text), Some(3000000));
    let pending = strixctl::windows::parse_stored_u32(&strixctl::text::decimal_string(8));
    let status = strixctl::windows::core_reboot_pending(pending, Some(32));
    assert!(status.pending);
    let status = strixctl::windows::core_reboot_pending(pending, Some(16));
    assert!(!status.pending);
    assert!(status.clear_marker);
}
