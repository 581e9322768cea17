//! The Windows backend's decisions: the command lines for ryzenadj, bcdedit
//! and atrofac, the core-count bookkeeping across a reboot, and how the
//! batched apply script's exit code is reported. Running the tools elevated
//! is left to the caller.

use vstd::prelude::*;
use crate::state::{preset_cores, preset_of, CorePreset, PptLimits, Profile};
use crate::text::{
    chars_of, decimal, join, join_strings, lines, lines_of, parse_u32, parse_u32_exec,
    push_chars, push_decimal, string_views, trim, trimmed, views,
};
use crate::tools::{ppt_flags, ryzenadj_args};

verus! {

/// The ryzenadj argument line that sets `ppt` (space separated flags).
pub fn ryzenadj_arg_line(ppt: &PptLimits) -> (s: String)
    ensures
        s@ == join(ppt_flags(*ppt), " "@),
{
    let args = ryzenadj_args(ppt);
    join_strings(&args, " ")
}

/// `numproc` counts logical processors: a preset of `n` cores keeps `2n`
/// threads, and all sixteen cores means no cap at all.
pub open spec fn numproc_of(p: CorePreset) -> Option<u32> {
    if p == CorePreset::Sixteen {
        None
    } else {
        Some((preset_cores(p) * 2) as u32)
    }
}

/// The `numproc` boot setting of a preset, `None` for no cap.
pub fn preset_numproc(preset: &CorePreset) -> (r: Option<u32>)
    ensures
        r == numproc_of(*preset),
{
    match preset {
        CorePreset::Sixteen => None,
        other => Some(other.as_u32() * 2),
    }
}

/// `numproc` is the preset's logical-processor count: two threads per core
/// (4 → 8, 8 → 16, 12 → 24), no cap for all sixteen cores; after a reboot
/// with that many processors the preset reads back as itself.
pub proof fn law_numproc_counts_threads(p: CorePreset)
    ensures
        numproc_of(CorePreset::Four) == Some(8u32),
        numproc_of(CorePreset::Eight) == Some(16u32),
        numproc_of(CorePreset::Twelve) == Some(24u32),
        numproc_of(CorePreset::Sixteen) is None,
        p != CorePreset::Sixteen ==> numproc_of(p) == Some((2 * preset_cores(p)) as u32),
        preset_of(active_cores_of(numproc_of(p))) == p,
{
}

/// The bcdedit arguments for a preset.
pub open spec fn bcdedit_text(p: CorePreset) -> Seq<char> {
    match numproc_of(p) {
        Some(n) => "/set {current} numproc "@ + decimal(n as nat),
        None => "/deletevalue {current} numproc"@,
    }
}

/// `bcdedit /set {current} numproc <2n>`, or removing the cap for all cores.
pub fn bcdedit_args(preset: &CorePreset) -> (s: String)
    ensures
        s@ == bcdedit_text(*preset),
{
    match preset_numproc(preset) {
        Some(n) => {
            let mut s = String::from_str("/set {current} numproc ");
            push_decimal(&mut s, n as u64);
            s
        },
        None => String::from_str("/deletevalue {current} numproc"),
    }
}

/// The atrofac power plan of a profile.
pub open spec fn plan_name(p: Profile) -> Seq<char> {
    match p {
        Profile::Quiet => "silent"@,
        Profile::Balanced => "windows"@,
        Profile::Performance => "turbo"@,
    }
}

/// Maps a profile to an atrofac power plan: quiet → silent, balanced →
/// windows, performance → turbo.
pub fn profile_plan(profile: &Profile) -> (s: &'static str)
    ensures
        s@ == plan_name(*profile),
{
    match profile {
        Profile::Quiet => "silent",
        Profile::Balanced => "windows",
        Profile::Performance => "turbo",
    }
}

/// `atrofac-cli plan <plan>`: the arguments after the program.
pub fn atrofac_plan_args(profile: &Profile) -> (s: String)
    ensures
        s@ == "plan "@ + plan_name(*profile),
{
    let mut s = String::from_str("plan ");
    s.append(profile_plan(profile));
    s
}

/// atrofac takes exactly eight fan-curve points.
pub fn check_curve_len(n: usize) -> (r: Result<(), String>)
    ensures
        match r {
            Ok(()) => n == 8,
            Err(e) => n != 8 && e@ == "atrofac requires exactly 8 fan-curve points, got "@
                + decimal(n as nat),
        },
{
    if n == 8 {
        Ok(())
    } else {
        let mut s = String::from_str("atrofac requires exactly 8 fan-curve points, got ");
        push_decimal(&mut s, n as u64);
        Err(s)
    }
}

/// Physical cores from the logical-processor count (SMT on), at least one;
/// 32 threads are assumed when the count is unknown.
pub open spec fn active_cores_of(logical: Option<u32>) -> u32 {
    let t = match logical {
        Some(n) => n,
        None => 32u32,
    };
    if t / 2 >= 1 {
        (t / 2) as u32
    } else {
        1
    }
}

/// With SMT on each core shows two logical processors: `2k` of them mean
/// `k` cores; an unknown count means all sixteen.
pub proof fn law_cores_from_threads(k: u32)
    requires
        1 <= k <= 0x7fff_ffff,
    ensures
        active_cores_of(Some((2 * k) as u32)) == k,
        active_cores_of(None) == 16,
        active_cores_of(Some(0)) == 1,
{
}

/// Physical cores from the logical-processor count.
pub fn active_cores(logical: Option<u32>) -> (n: u32)
    ensures
        n == active_cores_of(logical),
{
    let threads = match logical {
        Some(n) => n,
        None => 32,
    };
    if threads / 2 >= 1 {
        threads / 2
    } else {
        1
    }
}

/// The preset the selector shows: the requested one while a reboot is
/// pending (`pending` holds the stored request), otherwise the one derived
/// from the live logical-processor count.
pub fn read_core_preset(pending: Option<u32>, logical: Option<u32>) -> (p: CorePreset)
    ensures
        p == match pending {
            Some(req) => preset_of(req),
            None => preset_of(active_cores_of(logical)),
        },
{
    match pending {
        Some(req) => CorePreset::from_u32(req),
        None => CorePreset::from_u32(active_cores(logical)),
    }
}

/// Whether a core-count change still waits for a reboot, and whether the
/// stored request has been met and should be cleared.
#[derive(Debug)]
pub struct RebootStatus {
    pub pending: bool,
    pub clear_marker: bool,
}

/// A reboot is pending while a stored request differs from the live core
/// count.
pub open spec fn reboot_pending_of(pending: Option<u32>, logical: Option<u32>) -> bool {
    pending is Some && pending.unwrap() != active_cores_of(logical)
}

/// A reboot is pending while a stored request differs from the live core
/// count; once they agree the marker is cleared.
pub fn core_reboot_pending(pending: Option<u32>, logical: Option<u32>) -> (r: RebootStatus)
    ensures
        r.pending == reboot_pending_of(pending, logical),
        r.clear_marker == (pending is Some && pending.unwrap() == active_cores_of(logical)),
{
    match pending {
        Some(req) => {
            if req == active_cores(logical) {
                RebootStatus { pending: false, clear_marker: true }
            } else {
                RebootStatus { pending: true, clear_marker: false }
            }
        },
        None => RebootStatus { pending: false, clear_marker: false },
    }
}

/// A number stored in one of the app's small state files: the trimmed
/// content as a `u32`.
pub fn parse_stored_u32(content: &str) -> (r: Option<u32>)
    ensures
        r == parse_u32(trim(content@)),
{
    let chars = chars_of(content);
    parse_u32_exec(&trimmed(&chars))
}

/// A number stored with [`crate::text::decimal_string`] is read back by
/// [`parse_stored_u32`] as the same number.
pub proof fn law_stored_number_read_back(n: u32)
    ensures
        parse_u32(trim(decimal(n as nat))) == Some(n),
{
    let d = decimal(n as nat);
    crate::text::lemma_decimal_value(n as nat);
    assert forall|i: int| 0 <= i < d.len() implies !crate::text::is_ws(#[trigger] d[i]) by {
        assert(crate::text::is_digit(d[i]));
    }
    crate::text::lemma_trim_no_ws(d);
    crate::text::lemma_parse_decimal(n);
}

/// After a core count `n` is requested and stored, a reboot is pending
/// exactly while the live core count differs from `n`, and the selector
/// shows the requested preset.
pub proof fn law_requested_cores_pending(n: u32, logical: Option<u32>)
    ensures
        reboot_pending_of(parse_u32(trim(decimal(n as nat))), logical) == (n != active_cores_of(
            logical,
        )),
        match parse_u32(trim(decimal(n as nat))) {
            Some(req) => preset_of(req) == preset_of(n),
            None => false,
        },
{
    law_stored_number_read_back(n);
}

/// The step of the batched apply script that exit code `code` names.
pub open spec fn step_name(code: u32) -> Option<Seq<char>> {
    if code == 1 {
        Some("power plan / fan curve (atrofac)"@)
    } else if code == 2 {
        Some("power limits (ryzenadj)"@)
    } else if code == 3 {
        Some("core preset (bcdedit)"@)
    } else if code == 4 {
        Some("max frequency (powercfg)"@)
    } else {
        None
    }
}

/// The batched script's exit codes 1 to 4 each name their step (atrofac,
/// ryzenadj, bcdedit, powercfg); no other code names one.
pub proof fn law_exit_codes_name_steps(code: u32)
    ensures
        step_name(1) == Some("power plan / fan curve (atrofac)"@),
        step_name(2) == Some("power limits (ryzenadj)"@),
        step_name(3) == Some("core preset (bcdedit)"@),
        step_name(4) == Some("max frequency (powercfg)"@),
        (code == 0 || code > 4) ==> step_name(code) is None,
{
}

/// The step a batch exit code names: 1 atrofac, 2 ryzenadj, 3 bcdedit,
/// 4 powercfg.
pub fn batch_step(code: u32) -> (r: Option<&'static str>)
    ensures
        match r {
            Some(s) => step_name(code) == Some(s@),
            None => step_name(code) is None,
        },
{
    if code == 1 {
        Some("power plan / fan curve (atrofac)")
    } else if code == 2 {
        Some("power limits (ryzenadj)")
    } else if code == 3 {
        Some("core preset (bcdedit)")
    } else if code == 4 {
        Some("max frequency (powercfg)")
    } else {
        None
    }
}

/// The last line of a captured log, trimmed as a whole, when it is not empty.
pub open spec fn log_detail(log: Option<Seq<char>>) -> Option<Seq<char>> {
    match log {
        Some(s) => {
            let ls = lines(trim(s));
            if ls.len() > 0 && ls.last().len() > 0 {
                Some(ls.last())
            } else {
                None
            }
        },
        None => None,
    }
}

/// `<step> failed: <last log line>`, or `<step> failed` without a log line.
pub open spec fn step_failure(step: Seq<char>, log: Option<Seq<char>>) -> Seq<char> {
    match log_detail(log) {
        Some(d) => step + " failed: "@ + d,
        None => step + " failed"@,
    }
}

/// The message for a failed batch step, naming the last line of its log.
pub fn step_error(step: &str, log: Option<&str>) -> (s: String)
    ensures
        s@ == step_failure(
            step@,
            match log {
                Some(l) => Some(l@),
                None => None,
            },
        ),
{
    let mut s = String::from_str(step);
    let detail: Option<Vec<char>> = match log {
        Some(l) => {
            let chars = chars_of(l);
            let ls = lines_of(&trimmed(&chars));
            let n = ls.len();
            if n > 0 && ls[n - 1].len() > 0 {
                let last = crate::text::slice_of(&ls[n - 1], 0, ls[n - 1].len());
                assert(last@ =~= ls@[n - 1]@);
                Some(last)
            } else {
                None
            }
        },
        None => None,
    };
    match detail {
        Some(d) => {
            s.append(" failed: ");
            push_chars(&mut s, &d);
        },
        None => {
            s.append(" failed");
        },
    }
    s
}

/// How the batched apply script's exit code is reported: 0 is success; a
/// step's code names the step (with its log's last line); anything else is
/// `apply failed (exit code <c>)`.
pub open spec fn batch_outcome(code: u32, log: Option<Seq<char>>) -> Result<(), Seq<char>> {
    if code == 0 {
        Ok(())
    } else {
        match step_name(code) {
            Some(step) => Err(step_failure(step, log)),
            None => Err("apply failed (exit code "@ + decimal(code as nat) + ")"@),
        }
    }
}

/// The verdict of the batched apply script.
pub fn apply_saved_outcome(code: u32, log: Option<&str>) -> (r: Result<(), String>)
    ensures
        match r {
            Ok(()) => batch_outcome(
                code,
                match log {
                    Some(l) => Some(l@),
                    None => None,
                },
            ) == Ok::<(), Seq<char>>(()),
            Err(e) => batch_outcome(
                code,
                match log {
                    Some(l) => Some(l@),
                    None => None,
                },
            ) == Err::<(), Seq<char>>(e@),
        },
{
    if code == 0 {
        return Ok(());
    }
    match batch_step(code) {
        Some(step) => Err(step_error(step, log)),
        None => {
            let mut s = String::from_str("apply failed (exit code ");
            push_decimal(&mut s, code as u64);
            s.append(")");
            Err(s)
        },
    }
}

/// An elevated run succeeds only with exit code 0.
pub fn elevated_outcome(code: u32) -> (r: Result<(), String>)
    ensures
        match r {
            Ok(()) => code == 0,
            Err(e) => code != 0 && e@ == "process exited with code "@ + decimal(code as nat),
        },
{
    if code == 0 {
        Ok(())
    } else {
        let mut s = String::from_str("process exited with code ");
        push_decimal(&mut s, code as u64);
        Err(s)
    }
}

/// Boost has no Windows control: never known.
pub fn read_boost() -> (r: Option<bool>)
    ensures
        r is None,
{
    None
}

/// Boost has no Windows control: accepted and ignored.
pub fn set_boost(enabled: bool) -> (r: Result<(), String>)
    ensures
        r is Ok,
{
    Ok(())
}

/// SMT has no Windows control: never known.
pub fn read_smt() -> (r: Option<bool>)
    ensures
        r is None,
{
    None
}

/// SMT has no Windows control: accepted and ignored.
pub fn set_smt(enabled: bool) -> (r: Result<(), String>)
    ensures
        r is Ok,
{
    Ok(())
}

/// Windows exposes no reliable frequency range to bound the cap with.
pub fn read_freq_range_khz() -> (r: Option<(u32, u32)>)
    ensures
        r is None,
{
    None
}

/// atrofac cannot read the current plan back.
pub fn read_current_profile() -> (r: Option<Profile>)
    ensures
        r is None,
{
    None
}

/// `s` with every `%` doubled, so that a batch file passes it on literally.
pub open spec fn escape_percent(s: Seq<char>) -> Seq<char>
    decreases s.len(),
{
    if s.len() == 0 {
        Seq::<char>::empty()
    } else if s.last() == '%' {
        escape_percent(s.drop_last()) + seq!['%', '%']
    } else {
        escape_percent(s.drop_last()).push(s.last())
    }
}

/// Escaping doubles each `%` and keeps every other character: it works
/// piece by piece, leaves text without `%` alone, and turns `%` into `%%`.
pub proof fn law_escape_percent_doubles_percent(a: Seq<char>, b: Seq<char>, c: char)
    ensures
        escape_percent(a + b) == escape_percent(a) + escape_percent(b),
        c != '%' ==> escape_percent(seq![c]) == seq![c],
        escape_percent(seq!['%']) == seq!['%', '%'],
    decreases b.len(),
{
    assert(seq![c].drop_last() =~= Seq::<char>::empty());
    assert(seq!['%'].drop_last() =~= Seq::<char>::empty());
    assert(escape_percent(Seq::<char>::empty()) == Seq::<char>::empty());
    assert(seq![c].last() == c);
    if c != '%' {
        assert(escape_percent(seq![c]) =~= Seq::<char>::empty().push(c));
        assert(Seq::<char>::empty().push(c) =~= seq![c]);
    }
    assert(escape_percent(seq!['%']) =~= Seq::<char>::empty() + seq!['%', '%']);
    assert(Seq::<char>::empty() + seq!['%', '%'] =~= seq!['%', '%']);
    if b.len() == 0 {
        assert(a + b =~= a);
        assert(escape_percent(a) + escape_percent(b) =~= escape_percent(a));
    } else {
        law_escape_percent_doubles_percent(a, b.drop_last(), c);
        assert((a + b).drop_last() =~= a + b.drop_last());
        assert((a + b).last() == b.last());
        if b.last() == '%' {
            assert(escape_percent(a) + escape_percent(b) =~= escape_percent(a) + escape_percent(
                b.drop_last(),
            ) + seq!['%', '%']);
        } else {
            assert(escape_percent(a) + escape_percent(b) =~= (escape_percent(a) + escape_percent(
                b.drop_last(),
            )).push(b.last()));
        }
    }
}

/// Doubles every `%` of `s`.
pub fn escape_percent_exec(s: &str) -> (r: String)
    ensures
        r@ == escape_percent(s@),
{
    let chars = chars_of(s);
    let mut out: Vec<char> = Vec::new();
    let mut i: usize = 0;
    while i < chars.len()
        invariant
            i <= chars@.len(),
            out@ == escape_percent(chars@.take(i as int)),
        decreases chars@.len() - i,
    {
        let c = chars[i];
        assert(chars@.take(i + 1).drop_last() =~= chars@.take(i as int));
        if c == '%' {
            out.push('%');
            out.push('%');
        } else {
            out.push(c);
        }
        i = i + 1;
        assert(out@ =~= escape_percent(chars@.take(i as int)));
    }
    assert(chars@.take(chars@.len() as int) =~= chars@);
    let mut r = String::new();
    push_chars(&mut r, &out);
    r
}

/// ` >> "<log>" 2>&1`: a command's output appended to the log.
pub open spec fn to_log(log: Seq<char>) -> Seq<char> {
    " >> \""@ + log + "\" 2>&1"@
}

/// The three powercfg commands that set the cap to `mhz` on AC and DC and
/// re-activate the scheme, each stopping the script with code 4.
pub open spec fn cap_lines(log: Seq<char>, mhz: u32) -> Seq<char> {
    "powercfg /setacvalueindex SCHEME_CURRENT SUB_PROCESSOR PROCFREQMAX "@ + decimal(mhz as nat)
        + to_log(log) + " || exit /b 4\r\n"@
        + "powercfg /setdcvalueindex SCHEME_CURRENT SUB_PROCESSOR PROCFREQMAX "@ + decimal(mhz as nat)
        + to_log(log) + " || exit /b 4\r\n"@ + "powercfg /setactive SCHEME_CURRENT"@ + to_log(log)
        + " || exit /b 4"@
}

/// The batch script that applies a saved profile under one elevation: the
/// power plan and fan curve (exit code 1 on failure), the PPT limits (2),
/// the core count (3; removing the cap is best-effort), then the frequency
/// cap (4), which must follow the plan switch that would discard it. Every
/// command's output goes to `log`; `%` in the curve is doubled.
pub open spec fn apply_script_text(
    atrofac: Seq<char>,
    ryzenadj: Seq<char>,
    log: Seq<char>,
    profile: Profile,
    curve: Seq<char>,
    ppt: PptLimits,
    preset: CorePreset,
    cap_mhz: Option<u32>,
) -> Seq<char> {
    let c = escape_percent(curve);
    "@echo off\r\n"@ + "\""@ + atrofac + "\" fan --plan "@ + plan_name(profile) + " --cpu "@ + c
        + " --gpu "@ + c + to_log(log) + " || exit /b 1\r\n"@ + "\""@ + ryzenadj + "\" "@ + join(
        ppt_flags(ppt),
        " "@,
    ) + to_log(log) + " || exit /b 2\r\n"@ + "bcdedit "@ + bcdedit_text(preset) + to_log(log) + (
    if numproc_of(preset) is Some {
        " || exit /b 3"@
    } else {
        Seq::<char>::empty()
    }) + "\r\n"@ + match cap_mhz {
        Some(m) => cap_lines(log, m),
        None => "rem no frequency cap in profile"@,
    } + "\r\n"@
}

/// Appends ` >> "<log>" 2>&1` to `s`.
fn push_to_log(s: &mut String, log: &str)
    ensures
        final(s)@ == old(s)@ + to_log(log@),
{
    s.append(" >> \"");
    s.append(log);
    s.append("\" 2>&1");
}

/// Appends one powercfg line of the cap.
fn push_cap_line(s: &mut String, head: &str, mhz: u32, log: &str, tail: &str)
    ensures
        final(s)@ == old(s)@ + head@ + decimal(mhz as nat) + to_log(log@) + tail@,
{
    s.append(head);
    push_decimal(s, mhz as u64);
    push_to_log(s, log);
    s.append(tail);
}

/// The batch script that applies a saved profile; `curve` is atrofac's
/// curve text and `cap_mhz` the stored cap in whole MHz.
pub fn apply_script(
    atrofac: &str,
    ryzenadj: &str,
    log: &str,
    profile: &Profile,
    curve: &str,
    ppt: &PptLimits,
    preset: &CorePreset,
    cap_mhz: Option<u32>,
) -> (s: String)
    ensures
        s@ == apply_script_text(atrofac@, ryzenadj@, log@, *profile, curve@, *ppt, *preset, cap_mhz),
{
    let c = escape_percent_exec(curve);
    let mut s = String::from_str("@echo off\r\n");
    s.append("\"");
    s.append(atrofac);
    s.append("\" fan --plan ");
    s.append(profile_plan(profile));
    s.append(" --cpu ");
    s.append(c.as_str());
    s.append(" --gpu ");
    s.append(c.as_str());
    push_to_log(&mut s, log);
    s.append(" || exit /b 1\r\n");
    s.append("\"");
    s.append(ryzenadj);
    s.append("\" ");
    let line = ryzenadj_arg_line(ppt);
    s.append(line.as_str());
    push_to_log(&mut s, log);
    s.append(" || exit /b 2\r\n");
    s.append("bcdedit ");
    let bcd = bcdedit_args(preset);
    s.append(bcd.as_str());
    push_to_log(&mut s, log);
    if preset_numproc(preset).is_some() {
        s.append(" || exit /b 3");
    }
    s.append("\r\n");
    match cap_mhz {
        Some(m) => {
            push_cap_line(
                &mut s,
                "powercfg /setacvalueindex SCHEME_CURRENT SUB_PROCESSOR PROCFREQMAX ",
                m,
                log,
                " || exit /b 4\r\n",
            );
            push_cap_line(
                &mut s,
                "powercfg /setdcvalueindex SCHEME_CURRENT SUB_PROCESSOR PROCFREQMAX ",
                m,
                log,
                " || exit /b 4\r\n",
            );
            s.append("powercfg /setactive SCHEME_CURRENT");
            push_to_log(&mut s, log);
            s.append(" || exit /b 4");
        },
        None => s.append("rem no frequency cap in profile"),
    }
    s.append("\r\n");
    s
}

} // verus!
