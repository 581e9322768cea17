use std::collections::BTreeSet;
use strixctl::cpuctl::{
    check_online_all_arg, cmd_boost, cmd_cores, cmd_maxfreq, cmd_smt, online_all_outcome,
    online_all_targets, scaling_max_freq_outcome,
};
use strixctl::cpulist::{ascending, format_cpu_list, parse_cpu_list};

fn set(v: &[u32]) -> BTreeSet<u32> {
    v.iter().copied().collect()
}

#[test]
fn cpu_list_error_messages() {
    assert_eq!(parse_cpu_list("4-2").unwrap_err(), "invalid CPU range '4-2'");
    assert_eq!(parse_cpu_list(" 0-x,3 ").unwrap_err(), "invalid CPU list ' 0-x,3 '");
    assert_eq!(parse_cpu_list("1, 2").unwrap_err(), "invalid CPU list '1, 2'");
    // the first bad item decides
    assert_eq!(parse_cpu_list("5-1,x").unwrap_err(), "invalid CPU range '5-1'");
    assert_eq!(parse_cpu_list("x,5-1").unwrap_err(), "invalid CPU list 'x,5-1'");
}

#[test]
fn cpu_list_edge_cases() {
    assert_eq!(parse_cpu_list("").unwrap(), set(&[]));
    assert_eq!(parse_cpu_list("  \n").unwrap(), set(&[]));
    assert_eq!(parse_cpu_list(",,7,,").unwrap(), set(&[7]));
    assert_eq!(parse_cpu_list("+3").unwrap(), set(&[3]));
    assert_eq!(parse_cpu_list("2-2,1").unwrap(), set(&[1, 2]));
    assert_eq!(parse_cpu_list("0-31").unwrap().len(), 32);
    assert!(parse_cpu_list("4294967296").is_err());
    assert_eq!(parse_cpu_list("4294967295").unwrap(), set(&[4294967295]));
    assert!(parse_cpu_list("1-2-3").is_err());
}

#[test]
fn format_cpu_list_joins_with_commas() {
    assert_eq!(format_cpu_list(&[1, 5, 17]), "1,5,17");
    assert_eq!(format_cpu_list(&[0]), "0");
    assert_eq!(format_cpu_list(&[]), "");
    assert_eq!(format_cpu_list(&[4294967295, 10]), "4294967295,10");
}

#[test]
fn formatted_list_parses_back() {
    let cpus = vec![0, 3, 9, 30];
    let text = format_cpu_list(&cpus);
    assert_eq!(parse_cpu_list(&text).unwrap(), set(&cpus));
}

#[test]
fn ascending_lists_set_in_order() {
    assert_eq!(ascending(&set(&[9, 1, 4])), vec![1, 4, 9]);
}

#[test]
fn boost_and_smt_writes() {
    let w = cmd_boost("1").unwrap();
    assert_eq!(w.path, "/sys/devices/system/cpu/cpufreq/boost");
    assert_eq!(w.value, "1");
    assert_eq!(cmd_boost("0").unwrap().value, "0");
    assert_eq!(cmd_boost("on").unwrap_err(), "boost: expected 0 or 1, got 'on'");
    let s = cmd_smt("0").unwrap();
    assert_eq!(s.path, "/sys/devices/system/cpu/smt/control");
    assert_eq!(s.value, "off");
    assert_eq!(cmd_smt("1").unwrap().value, "on");
    assert_eq!(cmd_smt("2").unwrap_err(), "smt: expected 0 or 1, got '2'");
}

fn online_cpus(ws: &[strixctl::cpuctl::SysfsWrite]) -> Vec<u32> {
    ws.iter()
        .filter(|w| w.value == "1")
        .map(|w| {
            w.path
                .trim_start_matches("/sys/devices/system/cpu/cpu")
                .trim_end_matches("/online")
                .parse()
                .unwrap()
        })
        .collect()
}

#[test]
fn core_presets_plan_hotplug_writes() {
    let ws = cmd_cores("4", false).unwrap();
    assert_eq!(ws.len(), 31);
    assert_eq!(ws[0].path, "/sys/devices/system/cpu/cpu1/online");
    assert_eq!(ws[30].path, "/sys/devices/system/cpu/cpu31/online");
    assert_eq!(online_cpus(&ws), vec![1, 2, 3, 16, 17, 18, 19]);
    let ws = cmd_cores("12", false).unwrap();
    assert_eq!(
        online_cpus(&ws),
        vec![1, 2, 3, 4, 5, 8, 9, 10, 11, 12, 13, 16, 17, 18, 19, 20, 21, 24, 25, 26, 27, 28, 29]
    );
    let ws = cmd_cores("8", true).unwrap();
    assert_eq!(ws.len(), 15);
    assert_eq!(online_cpus(&ws), vec![1, 2, 3, 4, 5, 6, 7]);
    let ws = cmd_cores("16", false).unwrap();
    assert_eq!(online_cpus(&ws).len(), 31);
    assert_eq!(cmd_cores("6", false).unwrap_err(), "cores: expected 4|8|12|16, got '6'");
    assert_eq!(cmd_cores("four", false).unwrap_err(), "cores: expected 4|8|12|16, got 'four'");
}

#[test]
fn maxfreq_clamps_into_hardware_range() {
    assert_eq!(cmd_maxfreq("MAX", Some(400000), Some(5100000)), Ok(5100000));
    assert_eq!(
        cmd_maxfreq("max", None, None).unwrap_err(),
        "maxfreq: cannot read cpuinfo_max_freq"
    );
    assert_eq!(cmd_maxfreq("3000000", Some(400000), Some(5100000)), Ok(3000000));
    assert_eq!(cmd_maxfreq("100", Some(400000), Some(5100000)), Ok(400000));
    assert_eq!(cmd_maxfreq("9000000", Some(400000), Some(5100000)), Ok(5100000));
    assert_eq!(cmd_maxfreq("9000000", None, Some(5100000)), Ok(9000000));
    assert_eq!(
        cmd_maxfreq("fast", None, None).unwrap_err(),
        "maxfreq: expected a frequency in kHz or 'max', got 'fast'"
    );
}

#[test]
fn scaling_sweep_reports() {
    assert_eq!(scaling_max_freq_outcome(32, &vec![]), Ok(()));
    assert_eq!(
        scaling_max_freq_outcome(0, &vec![]).unwrap_err(),
        "maxfreq: no cpufreq policies found"
    );
    let errs = vec!["policy0: denied".to_string(), "policy1: denied".to_string()];
    assert_eq!(
        scaling_max_freq_outcome(0, &errs).unwrap_err(),
        "maxfreq: all 2 policies failed (policy0: denied)"
    );
    assert_eq!(
        scaling_max_freq_outcome(30, &errs).unwrap_err(),
        "maxfreq: applied to 30 policies, 2 failed (policy0: denied)"
    );
}

#[test]
fn online_all_steps() {
    assert_eq!(check_online_all_arg("now"), Ok(()));
    assert_eq!(
        check_online_all_arg("later").unwrap_err(),
        "online-all: expected 'now', got 'later'"
    );
    assert_eq!(
        online_all_targets(&set(&[])).unwrap_err(),
        "online-all: kernel reported no present CPUs"
    );
    assert_eq!(online_all_targets(&set(&[3, 0, 1])).unwrap(), vec![1, 3]);
    assert_eq!(online_all_outcome(&set(&[0, 1, 2]), &set(&[0, 1, 2, 5]), &vec![]), Ok(()));
    assert_eq!(
        online_all_outcome(&set(&[0, 1, 2, 7]), &set(&[0, 1]), &vec![]).unwrap_err(),
        "online-all: still offline: 2,7"
    );
    let errs = vec!["cpu2: busy".to_string(), "cpu7: busy".to_string()];
    assert_eq!(
        online_all_outcome(&set(&[0, 1, 2, 7]), &set(&[0, 1]), &errs).unwrap_err(),
        "online-all: still offline: 2,7; write failures: cpu2: busy; cpu7: busy"
    );
}
