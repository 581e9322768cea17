use strixctl::cpulist::parse_cpu_list;
use strixctl::state::PptLimits;

#[test]
fn parses_kernel_cpu_lists() {
    let parsed = parse_cpu_list("0-3,8,10-11\n").unwrap();
    assert_eq!(parsed.into_iter().collect::<Vec<_>>(), vec![0, 1, 2, 3, 8, 10, 11]);
}

#[test]
fn rejects_reversed_cpu_ranges() {
    assert!(parse_cpu_list("4-2").is_err());
}

#[test]
fn ppt_valid_when_slow_lte_fast() {
    let ppt = PptLimits { apu_limit: 65000, slow_limit: 55000, fast_limit: 65000 };
    assert!(ppt.is_valid());
}

#[test]
fn ppt_valid_when_apu_exceeds_slow() {
    // STAPM is independent of PPT slow — this is a valid real-world config
    let ppt = PptLimits { apu_limit: 65000, slow_limit: 55000, fast_limit: 65000 };
    assert!(ppt.is_valid());
}

#[test]
fn ppt_invalid_when_slow_exceeds_fast() {
    let ppt = PptLimits { apu_limit: 15000, slow_limit: 50000, fast_limit: 45000 };
    assert!(!ppt.is_valid());
}
