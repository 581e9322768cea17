//! How the sensor files under sysfs are recognised and read: which hwmon
//! device or thermal zone is which, which fan channel is the CPU's, and the
//! integer readings. Converting temperatures and power to floating point is
//! left to the caller.

use vstd::prelude::*;
use crate::text::{
    chars_of, contains, contains_exec, equals_exec, parse_u32, parse_u32_exec, starts_with,
    starts_with_exec, trim, trimmed,
};

verus! {

/// Whether a sysfs file's text, trimmed, is exactly `name` (a hwmon `name`,
/// a label, a power-supply `type` or `status`).
pub fn is_named(text: &str, name: &str) -> (b: bool)
    ensures
        b == (trim(text@) == name@),
{
    let t = trimmed(&chars_of(text));
    let n = chars_of(name);
    equals_exec(&t, &n)
}

/// A thermal zone of the CPU: its type is `x86_pkg_temp` or mentions `cpu`.
pub open spec fn cpu_zone(t: Seq<char>) -> bool {
    trim(t) == "x86_pkg_temp"@ || contains(trim(t), "cpu"@)
}

/// Whether a thermal zone's `type` file names a CPU zone.
pub fn is_cpu_zone(type_text: &str) -> (b: bool)
    ensures
        b == cpu_zone(type_text@),
{
    let t = trimmed(&chars_of(type_text));
    let pkg = chars_of("x86_pkg_temp");
    let cpu = chars_of("cpu");
    equals_exec(&t, &pkg) || contains_exec(&t, &cpu)
}

/// Whether a cpufreq directory entry is a policy (`policy0`, `policy1`, …).
pub fn is_policy_entry(name: &str) -> (b: bool)
    ensures
        b == starts_with(name@, "policy"@),
{
    let n = chars_of(name);
    let p = chars_of("policy");
    starts_with_exec(&n, &p)
}

/// The fans of the asus hwmon device.
#[derive(Debug, Clone, Copy, PartialEq, Eq, Structural)]
pub enum FanKind {
    Cpu,
    Gpu,
}

/// The fan a channel label names: `cpu_fan` or `gpu_fan`, trimmed.
pub open spec fn fan_of_label(label: Seq<char>) -> Option<FanKind> {
    if trim(label) == "cpu_fan"@ {
        Some(FanKind::Cpu)
    } else if trim(label) == "gpu_fan"@ {
        Some(FanKind::Gpu)
    } else {
        None
    }
}

/// Which fan a `fanN_label` file names, if either.
pub fn fan_kind(label: &str) -> (k: Option<FanKind>)
    ensures
        k == fan_of_label(label@),
{
    if is_named(label, "cpu_fan") {
        Some(FanKind::Cpu)
    } else if is_named(label, "gpu_fan") {
        Some(FanKind::Gpu)
    } else {
        None
    }
}

/// An integer sysfs reading (fan RPM, kHz): the trimmed text as a `u32`.
pub fn parse_reading(text: &str) -> (r: Option<u32>)
    ensures
        r == parse_u32(trim(text@)),
{
    parse_u32_exec(&trimmed(&chars_of(text)))
}

/// The largest reading among `texts` that parses, 0 when none does.
pub open spec fn fastest(texts: Seq<Seq<char>>) -> u32
    decreases texts.len(),
{
    if texts.len() == 0 {
        0
    } else {
        let rest = fastest(texts.drop_last());
        match parse_u32(trim(texts.last())) {
            Some(k) => if k > rest {
                k
            } else {
                rest
            },
            None => rest,
        }
    }
}

/// The fastest reading is at least every reading that parses, and it is one
/// of them (0 when none parses).
pub proof fn law_fastest_is_the_maximum(texts: Seq<Seq<char>>)
    ensures
        forall|i: int|
            0 <= i < texts.len() && #[trigger] parse_u32(trim(texts[i])) is Some ==> parse_u32(
                trim(texts[i]),
            ).unwrap() <= fastest(texts),
        fastest(texts) == 0 || exists|i: int|
            0 <= i < texts.len() && #[trigger] parse_u32(trim(texts[i])) == Some(fastest(texts)),
        (forall|i: int| 0 <= i < texts.len() ==> #[trigger] parse_u32(trim(texts[i])) is None)
            ==> fastest(texts) == 0,
    decreases texts.len(),
{
    if texts.len() > 0 {
        let init = texts.drop_last();
        law_fastest_is_the_maximum(init);
        assert forall|i: int|
            0 <= i < texts.len() && #[trigger] parse_u32(trim(texts[i])) is Some implies parse_u32(
                trim(texts[i]),
            ).unwrap() <= fastest(texts) by {
            if i < texts.len() - 1 {
                assert(texts[i] == init[i]);
            }
        }
        if fastest(texts) != 0 {
            if fastest(texts) == fastest(init) {
                let j = choose|j: int|
                    0 <= j < init.len() && #[trigger] parse_u32(trim(init[j])) == Some(fastest(init));
                assert(texts[j] == init[j]);
            } else {
                assert(parse_u32(trim(texts[texts.len() - 1])) == Some(fastest(texts)));
            }
        }
        if forall|i: int| 0 <= i < texts.len() ==> #[trigger] parse_u32(trim(texts[i])) is None {
            assert forall|i: int| 0 <= i < init.len() implies #[trigger] parse_u32(trim(init[i])) is None by {
                assert(texts[i] == init[i]);
            }
            assert(parse_u32(trim(texts[texts.len() - 1])) is None);
        }
    }
}

/// The highest `scaling_cur_freq` (kHz) among the policies that could be
/// read; unreadable or malformed ones are skipped.
pub fn fastest_khz(texts: &Vec<String>) -> (k: u32)
    ensures
        k == fastest(crate::text::string_views(texts@)),
{
    let ghost all = crate::text::string_views(texts@);
    let mut best: u32 = 0;
    let mut i: usize = 0;
    while i < texts.len()
        invariant
            i <= texts@.len(),
            all == crate::text::string_views(texts@),
            best == fastest(all.take(i as int)),
        decreases texts@.len() - i,
    {
        assert(all.take(i + 1).drop_last() =~= all.take(i as int));
        assert(all.take(i + 1).last() == texts@[i as int]@);
        if let Some(k) = parse_reading(texts[i].as_str()) {
            if k > best {
                best = k;
            }
        }
        i = i + 1;
    }
    assert(all.take(texts@.len() as int) =~= all);
    best
}

/// The SMT state `/sys/devices/system/cpu/smt/control` reports: `on`, or
/// `off` / `forceoff`; anything else is unknown.
pub open spec fn smt_of(control: Seq<char>) -> Option<bool> {
    if trim(control) == "on"@ {
        Some(true)
    } else if trim(control) == "off"@ || trim(control) == "forceoff"@ {
        Some(false)
    } else {
        None
    }
}

/// Whether SMT is on, from the text of the SMT control file.
pub fn smt_state(control: &str) -> (r: Option<bool>)
    ensures
        r == smt_of(control@),
{
    if is_named(control, "on") {
        Some(true)
    } else if is_named(control, "off") || is_named(control, "forceoff") {
        Some(false)
    } else {
        None
    }
}

/// The live frequency cap: `scaling_max_freq` unless it equals the hardware
/// maximum, which means there is no cap.
pub fn live_cap(scaling_max: u32, hw_max: Option<u32>) -> (r: Option<u32>)
    ensures
        r == (if hw_max == Some(scaling_max) {
            None::<u32>
        } else {
            Some(scaling_max)
        }),
{
    match hw_max {
        Some(h) => if h == scaling_max {
            None
        } else {
            Some(scaling_max)
        },
        None => Some(scaling_max),
    }
}

/// SMT reads as on only for `on`, as off for `off` and `forceoff`
/// (surrounding whitespace aside), and as unknown otherwise; fan labels name
/// the CPU fan only for `cpu_fan` and the GPU fan only for `gpu_fan`.
pub proof fn law_sysfs_words(t: Seq<char>)
    ensures
        smt_of(t) == Some(true) <==> trim(t) == "on"@,
        smt_of(t) == Some(false) <==> (trim(t) == "off"@ || trim(t) == "forceoff"@),
        fan_of_label(t) == Some(FanKind::Cpu) <==> trim(t) == "cpu_fan"@,
        fan_of_label(t) == Some(FanKind::Gpu) <==> trim(t) == "gpu_fan"@,
{
    reveal_strlit("on");
    reveal_strlit("off");
    reveal_strlit("forceoff");
    reveal_strlit("cpu_fan");
    reveal_strlit("gpu_fan");
    assert("on"@.len() == 2);
    assert("off"@.len() == 3);
    assert("forceoff"@.len() == 8);
    assert("cpu_fan"@[0] != "gpu_fan"@[0]);
}

} // verus!
