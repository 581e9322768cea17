//! Decisions of the privileged CPU helper: which sysfs files to write, with
//! what, and how a run is reported. The helper itself only performs the
//! writes this module plans.

use std::collections::BTreeSet;
use vstd::prelude::*;
use crate::cpulist::{ascending, ascending_members, cpus_text};
use crate::text::{
    chars_of, decimal, is_text, join, join_strings, lower, lower_exec, parse_u32, parse_u32_exec,
    push_decimal, string_views, wrap,
};

verus! {

broadcast use {vstd::std_specs::btree::group_btree_axioms, vstd::laws_cmp::group_laws_cmp};

/// One planned write of `value` to the sysfs file `path`.
#[derive(Debug)]
pub struct SysfsWrite {
    pub path: String,
    pub value: String,
}

/// A planned write as plain text.
pub open spec fn write_view(w: SysfsWrite) -> (Seq<char>, Seq<char>) {
    (w.path@, w.value@)
}

/// A list of planned writes as plain text.
pub open spec fn writes_view(ws: Seq<SysfsWrite>) -> Seq<(Seq<char>, Seq<char>)> {
    ws.map_values(|w: SysfsWrite| write_view(w))
}

/// `<what>: expected <expected>, got '<value>'`.
pub open spec fn usage_error(head: Seq<char>, value: Seq<char>) -> Seq<char> {
    head + value + "'"@
}

fn single_write(path: &str, value: &str) -> (w: SysfsWrite)
    ensures
        write_view(w) == (path@, value@),
{
    SysfsWrite { path: String::from_str(path), value: String::from_str(value) }
}

/// `boost <0|1>`: the cpufreq boost switch.
pub fn cmd_boost(value: &str) -> (r: Result<SysfsWrite, String>)
    ensures
        match r {
            Ok(w) => (value@ == "0"@ || value@ == "1"@) && write_view(w) == (
                "/sys/devices/system/cpu/cpufreq/boost"@,
                value@,
            ),
            Err(e) => value@ != "0"@ && value@ != "1"@ && e@ == usage_error(
                "boost: expected 0 or 1, got '"@,
                value@,
            ),
        },
{
    let v = chars_of(value);
    if is_text(&v, "0") {
        Ok(single_write("/sys/devices/system/cpu/cpufreq/boost", "0"))
    } else if is_text(&v, "1") {
        Ok(single_write("/sys/devices/system/cpu/cpufreq/boost", "1"))
    } else {
        Err(wrap("boost: expected 0 or 1, got '", &v, "'"))
    }
}

/// `smt <0|1>`: the global SMT control, `off` or `on`.
pub fn cmd_smt(value: &str) -> (r: Result<SysfsWrite, String>)
    ensures
        match r {
            Ok(w) => (value@ == "0"@ && write_view(w) == (
                "/sys/devices/system/cpu/smt/control"@,
                "off"@,
            )) || (value@ == "1"@ && write_view(w) == (
                "/sys/devices/system/cpu/smt/control"@,
                "on"@,
            )),
            Err(e) => value@ != "0"@ && value@ != "1"@ && e@ == usage_error(
                "smt: expected 0 or 1, got '"@,
                value@,
            ),
        },
{
    let v = chars_of(value);
    if is_text(&v, "0") {
        Ok(single_write("/sys/devices/system/cpu/smt/control", "off"))
    } else if is_text(&v, "1") {
        Ok(single_write("/sys/devices/system/cpu/smt/control", "on"))
    } else {
        Err(wrap("smt: expected 0 or 1, got '", &v, "'"))
    }
}

/// The core presets the helper knows.
pub open spec fn known_preset(n: u32) -> bool {
    n == 4 || n == 8 || n == 12 || n == 16
}

/// Whether `cpu` stays online under a preset. CPUs 0-15 are the first thread
/// of cores 0-15 (CCD0: 0-7, CCD1: 8-15) and CPUs 16-31 their SMT siblings;
/// 12 cores keep six cores of each CCD.
pub open spec fn core_online(preset: u32, cpu: int) -> bool {
    if preset == 4 {
        cpu < 4 || (16 <= cpu && cpu < 20)
    } else if preset == 8 {
        cpu < 8 || (16 <= cpu && cpu < 24)
    } else if preset == 12 {
        cpu < 6 || (8 <= cpu && cpu < 14) || (16 <= cpu && cpu < 22) || (24 <= cpu && cpu < 30)
    } else {
        true
    }
}

/// The hot-plug switch of a CPU.
pub open spec fn online_path(cpu: nat) -> Seq<char> {
    "/sys/devices/system/cpu/cpu"@ + decimal(cpu) + "/online"@
}

/// `1` for online, `0` for offline.
pub open spec fn switch_text(on: bool) -> Seq<char> {
    if on {
        "1"@
    } else {
        "0"@
    }
}

/// The writes of a preset: every CPU from 1 to 31 (cpu0 cannot go offline),
/// or only 1 to 15 when SMT is off and the sibling threads are absent.
pub open spec fn core_plan(preset: u32, smt_off: bool) -> Seq<(Seq<char>, Seq<char>)> {
    Seq::new(
        if smt_off {
            15nat
        } else {
            31nat
        },
        |k: int| (online_path((k + 1) as nat), switch_text(core_online(preset, k + 1))),
    )
}

fn online_switch(cpu: u32, on: bool) -> (w: SysfsWrite)
    ensures
        write_view(w) == (online_path(cpu as nat), switch_text(on)),
{
    let mut path = String::from_str("/sys/devices/system/cpu/cpu");
    push_decimal(&mut path, cpu as u64);
    path.append("/online");
    let value = if on {
        String::from_str("1")
    } else {
        String::from_str("0")
    };
    SysfsWrite { path, value }
}

fn core_online_exec(preset: u32, cpu: u32) -> (b: bool)
    ensures
        b == core_online(preset, cpu as int),
{
    if preset == 4 {
        cpu < 4 || (16 <= cpu && cpu < 20)
    } else if preset == 8 {
        cpu < 8 || (16 <= cpu && cpu < 24)
    } else if preset == 12 {
        cpu < 6 || (8 <= cpu && cpu < 14) || (16 <= cpu && cpu < 22) || (24 <= cpu && cpu < 30)
    } else {
        true
    }
}

/// How many of the CPUs below `m` a preset keeps online.
pub open spec fn count_online(preset: u32, m: nat) -> nat
    decreases m,
{
    if m == 0 {
        0
    } else {
        count_online(preset, (m - 1) as nat) + if core_online(preset, m - 1) {
            1nat
        } else {
            0nat
        }
    }
}

/// A preset of `n` cores keeps cores `0..n` online with both their threads
/// (twelve cores keep six of each CCD): CPU `c` and its SMT sibling `c + 16`
/// are online together, the first threads online are exactly the preset's
/// cores, and `2n` of the 32 threads are online.
pub proof fn law_preset_keeps_whole_cores(n: u32, c: int)
    requires
        known_preset(n),
        0 <= c < 16,
    ensures
        core_online(n, c + 16) == core_online(n, c),
        n != 12 ==> core_online(n, c) == (c < n),
        n == 12 ==> core_online(n, c) == (c % 8 < 6),
        count_online(n, 32) == 2 * n,
{
    reveal_with_fuel(count_online, 33);
}

/// After a preset's writes with SMT on, reading the online CPUs back gives
/// the same preset: exactly `n` of the first sixteen threads are online.
pub proof fn law_preset_reads_back(n: u32)
    requires
        known_preset(n),
    ensures
        ({
            let online = Set::new(|c: u32| c < 32 && (c == 0 || core_online(n, c as int)));
            &&& crate::cpulist::count_below(online, 16) == n
            &&& crate::state::preset_of(crate::cpulist::count_below(online, 16) as u32)
                == crate::state::preset_of(n)
        }),
{
    reveal_with_fuel(crate::cpulist::count_below, 17);
}

/// Each write of a preset's plan switches CPU `k + 1` (cpu0 is never
/// written), to `1` exactly when that CPU's core is one the preset keeps;
/// sibling threads are left alone when SMT is off.
pub proof fn law_core_plan_writes(n: u32, smt_off: bool, k: int)
    requires
        known_preset(n),
        0 <= k < core_plan(n, smt_off).len(),
    ensures
        core_plan(n, smt_off).len() == (if smt_off {
            15int
        } else {
            31int
        }),
        core_plan(n, smt_off)[k].0 == online_path((k + 1) as nat),
        core_plan(n, smt_off)[k].1 == (if (n != 12 && (k + 1) % 16 < n) || (n == 12 && ((k + 1)
            % 16) % 8 < 6) {
            "1"@
        } else {
            "0"@
        }),
{
    if k + 1 >= 16 {
        law_preset_keeps_whole_cores(n, k + 1 - 16);
    } else {
        law_preset_keeps_whole_cores(n, k + 1);
    }
}

/// `cores <4|8|12|16>`: the hot-plug writes that leave exactly the preset's
/// CPUs online. `smt_off` tells whether SMT is administratively off.
pub fn cmd_cores(value: &str, smt_off: bool) -> (r: Result<Vec<SysfsWrite>, String>)
    ensures
        match r {
            Ok(ws) => parse_u32(value@) matches Some(n) && known_preset(n) && writes_view(ws@)
                == core_plan(n, smt_off),
            Err(e) => !(parse_u32(value@) matches Some(n) && known_preset(n)) && e@
                == usage_error("cores: expected 4|8|12|16, got '"@, value@),
        },
{
    let v = chars_of(value);
    let preset = match parse_u32_exec(&v) {
        Some(n) => n,
        None => {
            return Err(wrap("cores: expected 4|8|12|16, got '", &v, "'"));
        },
    };
    if !(preset == 4 || preset == 8 || preset == 12 || preset == 16) {
        return Err(wrap("cores: expected 4|8|12|16, got '", &v, "'"));
    }
    let last: u32 = if smt_off {
        15
    } else {
        31
    };
    let mut ws: Vec<SysfsWrite> = Vec::new();
    let mut cpu: u32 = 1;
    while cpu <= last
        invariant
            1 <= cpu <= last + 1,
            last == (if smt_off {
                15u32
            } else {
                31u32
            }),
            writes_view(ws@) == core_plan(preset, smt_off).take(cpu - 1),
        decreases last + 1 - cpu,
    {
        let w = online_switch(cpu, core_online_exec(preset, cpu));
        let ghost before = writes_view(ws@);
        ws.push(w);
        assert(writes_view(ws@) =~= before.push(write_view(w)));
        cpu = cpu + 1;
        assert(writes_view(ws@) =~= core_plan(preset, smt_off).take(cpu - 1));
    }
    assert(core_plan(preset, smt_off).take(last as int) =~= core_plan(preset, smt_off));
    Ok(ws)
}

/// `value` asks for the hardware maximum (`max`, in any ASCII case).
pub open spec fn asks_for_max(value: Seq<char>) -> bool {
    lower(value) == "max"@
}

/// `Ord::clamp`.
pub open spec fn clamp(x: u32, lo: u32, hi: u32) -> u32 {
    if x < lo {
        lo
    } else if x > hi {
        hi
    } else {
        x
    }
}

/// The frequency cap (kHz) that `maxfreq <value>` applies, given the
/// hardware range read from `cpuinfo_min_freq` / `cpuinfo_max_freq`.
pub open spec fn maxfreq_target(value: Seq<char>, hw_min: Option<u32>, hw_max: Option<u32>) -> Result<u32, Seq<char>> {
    if asks_for_max(value) {
        match hw_max {
            Some(hi) => Ok(hi),
            None => Err("maxfreq: cannot read cpuinfo_max_freq"@),
        }
    } else {
        match parse_u32(value) {
            None => Err(usage_error("maxfreq: expected a frequency in kHz or 'max', got '"@, value)),
            Some(k) => match (hw_min, hw_max) {
                (Some(lo), Some(hi)) => Ok(clamp(k, lo, hi)),
                _ => Ok(k),
            },
        }
    }
}

/// `maxfreq <kHz|max>`: the cap to apply. A number is clamped into the
/// hardware range when both ends are known, rather than rejected.
pub fn cmd_maxfreq(value: &str, hw_min: Option<u32>, hw_max: Option<u32>) -> (r: Result<u32, String>)
    requires
        !asks_for_max(value@) && parse_u32(value@) is Some && hw_min is Some && hw_max is Some
            ==> hw_min.unwrap() <= hw_max.unwrap(),
    ensures
        match r {
            Ok(k) => maxfreq_target(value@, hw_min, hw_max) == Ok::<u32, Seq<char>>(k),
            Err(e) => maxfreq_target(value@, hw_min, hw_max) == Err::<u32, Seq<char>>(e@),
        },
{
    let v = chars_of(value);
    let l = lower_exec(&v);
    if is_text(&l, "max") {
        return match hw_max {
            Some(hi) => Ok(hi),
            None => Err(String::from_str("maxfreq: cannot read cpuinfo_max_freq")),
        };
    }
    let k = match parse_u32_exec(&v) {
        Some(k) => k,
        None => {
            return Err(wrap("maxfreq: expected a frequency in kHz or 'max', got '", &v, "'"));
        },
    };
    match (hw_min, hw_max) {
        (Some(lo), Some(hi)) => {
            if k < lo {
                Ok(lo)
            } else if k > hi {
                Ok(hi)
            } else {
                Ok(k)
            }
        },
        _ => Ok(k),
    }
}

/// A numeric cap always lands inside the hardware range when both ends of
/// that range are known.
pub proof fn law_maxfreq_within_range(value: Seq<char>, lo: u32, hi: u32)
    requires
        lo <= hi,
        !asks_for_max(value),
        parse_u32(value) is Some,
    ensures
        maxfreq_target(value, Some(lo), Some(hi)) matches Ok(k) && lo <= k <= hi,
{
}

/// A requested cap already inside the hardware range is applied as given;
/// one outside it is moved to the nearer end; `max` asks for the hardware
/// maximum itself.
pub proof fn law_maxfreq_keeps_or_clamps(value: Seq<char>, lo: u32, hi: u32)
    requires
        lo <= hi,
    ensures
        asks_for_max(value) ==> maxfreq_target(value, Some(lo), Some(hi)) == Ok::<u32, Seq<char>>(hi),
        !asks_for_max(value) ==> (parse_u32(value) matches Some(k) ==> maxfreq_target(
            value,
            Some(lo),
            Some(hi),
        ) == Ok::<u32, Seq<char>>(
            if k < lo {
                lo
            } else if k > hi {
                hi
            } else {
                k
            },
        )),
        !asks_for_max(value) && parse_u32(value) is None ==> maxfreq_target(value, Some(lo), Some(hi)) is Err,
{
}

/// How writing `scaling_max_freq` to every cpufreq policy is reported:
/// `written` policies took the value and `errors` holds one message per
/// policy that refused it.
pub open spec fn scaling_outcome(written: nat, errors: Seq<Seq<char>>) -> Result<(), Seq<char>> {
    if written == 0 {
        if errors.len() == 0 {
            Err("maxfreq: no cpufreq policies found"@)
        } else {
            Err("maxfreq: all "@ + decimal(errors.len()) + " policies failed ("@ + errors[0] + ")"@)
        }
    } else if errors.len() == 0 {
        Ok(())
    } else {
        Err("maxfreq: applied to "@ + decimal(written) + " policies, "@ + decimal(errors.len())
            + " failed ("@ + errors[0] + ")"@)
    }
}

/// The report of a `scaling_max_freq` sweep: a count and one example rather
/// than the same message for every policy.
pub fn scaling_max_freq_outcome(written: usize, errors: &Vec<String>) -> (r: Result<(), String>)
    ensures
        match r {
            Ok(()) => scaling_outcome(written as nat, string_views(errors@)) == Ok::<(), Seq<char>>(()),
            Err(e) => scaling_outcome(written as nat, string_views(errors@)) == Err::<(), Seq<char>>(e@),
        },
{
    if written == 0 {
        if errors.len() == 0 {
            return Err(String::from_str("maxfreq: no cpufreq policies found"));
        }
        let mut s = String::from_str("maxfreq: all ");
        push_decimal(&mut s, errors.len() as u64);
        s.append(" policies failed (");
        s.append(errors[0].as_str());
        s.append(")");
        return Err(s);
    }
    if errors.len() == 0 {
        return Ok(());
    }
    let mut s = String::from_str("maxfreq: applied to ");
    push_decimal(&mut s, written as u64);
    s.append(" policies, ");
    push_decimal(&mut s, errors.len() as u64);
    s.append(" failed (");
    s.append(errors[0].as_str());
    s.append(")");
    Err(s)
}

/// `online-all now`: anything but `now` is refused.
pub fn check_online_all_arg(value: &str) -> (r: Result<(), String>)
    ensures
        match r {
            Ok(()) => value@ == "now"@,
            Err(e) => value@ != "now"@ && e@ == usage_error(
                "online-all: expected 'now', got '"@,
                value@,
            ),
        },
{
    let v = chars_of(value);
    if is_text(&v, "now") {
        Ok(())
    } else {
        Err(wrap("online-all: expected 'now', got '", &v, "'"))
    }
}

/// The CPUs that `online-all` switches on: every present CPU but cpu0, in
/// increasing order. A kernel that reports no present CPU is an error.
pub fn online_all_targets(present: &BTreeSet<u32>) -> (r: Result<Vec<u32>, String>)
    ensures
        match r {
            Ok(v) => !present@.is_empty() && ascending_members(v@, present@.remove(0)),
            Err(e) => present@.is_empty() && e@ == "online-all: kernel reported no present CPUs"@,
        },
{
    if present.is_empty() {
        return Err(String::from_str("online-all: kernel reported no present CPUs"));
    }
    let all = ascending(present);
    let mut v: Vec<u32> = Vec::new();
    let mut i: usize = 0;
    while i < all.len()
        invariant
            i <= all@.len(),
            ascending_members(all@, present@),
            forall|a: int, b: int| 0 <= a < b < v@.len() ==> v@[a] < v@[b],
            forall|k: int| 0 <= k < v@.len() ==> exists|j: int| 0 <= j < i && all@[j] == #[trigger] v@[k],
            forall|x: u32| v@.contains(x) <==> (x != 0 && exists|j: int| 0 <= j < i && all@[j] == x),
        decreases all@.len() - i,
    {
        let x = all[i];
        if x != 0 {
            let ghost before = v@;
            v.push(x);
            assert forall|a: int, b: int| 0 <= a < b < v@.len() implies v@[a] < v@[b] by {
                if b == v@.len() - 1 {
                    let j = choose|j: int| 0 <= j < i && all@[j] == #[trigger] before[a];
                    assert(all@[j] < all@[i as int]);
                }
            }
            assert forall|x2: u32| v@.contains(x2) <==> (x2 != 0 && exists|j: int| 0 <= j < i + 1 && all@[j] == x2) by {
                if v@.contains(x2) && x2 != x {
                    let k = choose|k: int| 0 <= k < v@.len() && v@[k] == x2;
                    assert(before.contains(x2)) by {
                        assert(before[k] == x2);
                    }
                }
                if exists|j: int| 0 <= j < i + 1 && all@[j] == x2 {
                    let j = choose|j: int| 0 <= j < i + 1 && all@[j] == x2;
                    if j < i && x2 != 0 {
                        assert(before.contains(x2));
                        let k = choose|k: int| 0 <= k < before.len() && before[k] == x2;
                        assert(v@[k] == x2);
                    } else if x2 != 0 {
                        assert(v@[v@.len() - 1] == x2);
                    }
                }
            }
        }
        i = i + 1;
    }
    assert forall|x: u32| present@.remove(0).contains(x) <==> v@.contains(x) by {
        if present@.contains(x) {
            assert(all@.contains(x));
        }
    }
    Ok(v)
}

/// How a failed `online-all` is reported: the CPUs still offline (in
/// increasing order), then the write failures if there were any.
pub open spec fn online_all_failure(missing: Seq<u32>, write_errors: Seq<Seq<char>>) -> Seq<char> {
    let base = "online-all: still offline: "@ + cpus_text(missing);
    if write_errors.len() > 0 {
        base + "; write failures: "@ + join(write_errors, "; "@)
    } else {
        base
    }
}

/// The verdict of `online-all` once the `online` mask is read back: success
/// exactly when every present CPU is online (transient write errors are then
/// only worth a warning).
pub fn online_all_outcome(present: &BTreeSet<u32>, online: &BTreeSet<u32>, write_errors: &Vec<String>) -> (r: Result<(), String>)
    ensures
        match r {
            Ok(()) => present@.subset_of(online@),
            Err(e) => !present@.subset_of(online@) && exists|m: Seq<u32>|
                ascending_members(m, present@.difference(online@)) && e@ == online_all_failure(
                    m,
                    string_views(write_errors@),
                ),
        },
{
    let all = ascending(present);
    let mut missing: Vec<u32> = Vec::new();
    let mut i: usize = 0;
    while i < all.len()
        invariant
            i <= all@.len(),
            ascending_members(all@, present@),
            forall|a: int, b: int| 0 <= a < b < missing@.len() ==> missing@[a] < missing@[b],
            forall|k: int| 0 <= k < missing@.len() ==> exists|j: int| 0 <= j < i && all@[j] == #[trigger] missing@[k],
            forall|x: u32| missing@.contains(x) <==> (!online@.contains(x) && exists|j: int| 0 <= j < i && all@[j] == x),
        decreases all@.len() - i,
    {
        let x = all[i];
        if !online.contains(&x) {
            let ghost before = missing@;
            missing.push(x);
            assert forall|a: int, b: int| 0 <= a < b < missing@.len() implies missing@[a] < missing@[b] by {
                if b == missing@.len() - 1 {
                    let j = choose|j: int| 0 <= j < i && all@[j] == #[trigger] before[a];
                    assert(all@[j] < all@[i as int]);
                }
            }
            assert forall|x2: u32| missing@.contains(x2) <==> (!online@.contains(x2) && exists|j: int| 0 <= j < i + 1 && all@[j] == x2) by {
                if missing@.contains(x2) && x2 != x {
                    let k = choose|k: int| 0 <= k < missing@.len() && missing@[k] == x2;
                    assert(before.contains(x2)) by {
                        assert(before[k] == x2);
                    }
                }
                if exists|j: int| 0 <= j < i + 1 && all@[j] == x2 {
                    let j = choose|j: int| 0 <= j < i + 1 && all@[j] == x2;
                    if j < i && !online@.contains(x2) {
                        assert(before.contains(x2));
                        let k = choose|k: int| 0 <= k < before.len() && before[k] == x2;
                        assert(missing@[k] == x2);
                    } else if !online@.contains(x2) {
                        assert(missing@[missing@.len() - 1] == x2);
                    }
                }
            }
        }
        i = i + 1;
    }
    assert(ascending_members(missing@, present@.difference(online@))) by {
        assert forall|x: u32| present@.difference(online@).contains(x) <==> missing@.contains(x) by {
            if present@.contains(x) {
                assert(all@.contains(x));
            }
        }
    }
    if missing.len() == 0 {
        assert forall|x: u32| present@.contains(x) implies online@.contains(x) by {
            assert(!missing@.contains(x));
        }
        return Ok(());
    }
    assert(!present@.subset_of(online@)) by {
        assert(missing@.contains(missing@[0]));
    }
    let list = crate::cpulist::format_cpu_list(&missing);
    let mut e = String::from_str("online-all: still offline: ");
    e.append(list.as_str());
    if write_errors.len() > 0 {
        e.append("; write failures: ");
        let joined = join_strings(write_errors, "; ");
        e.append(joined.as_str());
    }
    assert(e@ =~= online_all_failure(missing@, string_views(write_errors@)));
    assert(ascending_members(missing@, present@.difference(online@)) && e@ == online_all_failure(
        missing@,
        string_views(write_errors@),
    ));
    Err(e)
}

} // verus!
