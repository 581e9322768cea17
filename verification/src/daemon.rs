//! Decisions of the D-Bus daemon: request validation, the order in which a
//! saved profile is applied, error reporting, and the PPT drift test.

use vstd::prelude::*;
use crate::state::{ppt_valid, CorePreset, PptLimits, Profile};
use crate::text::{chars_of, is_text, join, join_strings, lower, lower_exec, string_views, wrap};

verus! {

/// Differences up to this many milliwatts are rounding noise: ryzenadj
/// reports limits in watts and firmware may round them.
pub const PPT_TOLERANCE_MW: u32 = 500;

/// `|a - b| > 500`.
pub open spec fn differs(a: u32, b: u32) -> bool {
    if a >= b {
        a - b > 500
    } else {
        b - a > 500
    }
}

/// Some limit moved by more than the tolerance.
pub open spec fn ppt_drifted(current: PptLimits, wanted: PptLimits) -> bool {
    differs(current.apu_limit, wanted.apu_limit) || differs(current.fast_limit, wanted.fast_limit)
        || differs(current.slow_limit, wanted.slow_limit)
}

fn off(a: u32, b: u32) -> (r: bool)
    ensures
        r == differs(a, b),
{
    let d = if a >= b {
        a - b
    } else {
        b - a
    };
    d > PPT_TOLERANCE_MW
}

/// Whether any of the three limits differs from `wanted` by more than
/// [`PPT_TOLERANCE_MW`].
pub fn ppt_differs(current: &PptLimits, wanted: &PptLimits) -> (r: bool)
    ensures
        r == ppt_drifted(*current, *wanted),
{
    off(current.apu_limit, wanted.apu_limit) || off(current.fast_limit, wanted.fast_limit) || off(
        current.slow_limit,
        wanted.slow_limit,
    )
}

/// Limits never drift from themselves, and drift does not depend on which
/// side is the reading.
pub proof fn law_ppt_drift_symmetric(a: PptLimits, b: PptLimits)
    ensures
        !ppt_drifted(a, a),
        ppt_drifted(a, b) == ppt_drifted(b, a),
{
}

/// The limits count as drifted exactly when at least one of the three
/// (sustained, fast, slow) is more than 500 mW away from the wanted value,
/// in either direction.
pub proof fn law_ppt_drift_is_any_limit_off(c: PptLimits, w: PptLimits)
    ensures
        ppt_drifted(c, w) <==> (c.apu_limit - w.apu_limit > 500 || w.apu_limit - c.apu_limit > 500
            || c.fast_limit - w.fast_limit > 500 || w.fast_limit - c.fast_limit > 500
            || c.slow_limit - w.slow_limit > 500 || w.slow_limit - c.slow_limit > 500),
{
}

/// The profile named by a `SetAsusProfile` request (ASCII case ignored).
pub open spec fn requested_profile(s: Seq<char>) -> Option<Profile> {
    let t = lower(s);
    if t == "quiet"@ {
        Some(Profile::Quiet)
    } else if t == "balanced"@ {
        Some(Profile::Balanced)
    } else if t == "performance"@ {
        Some(Profile::Performance)
    } else {
        None
    }
}

/// Reads `quiet`, `balanced` or `performance` (in any ASCII case); any other
/// name is refused with `unknown profile '<name>'; expected
/// quiet|balanced|performance`.
pub fn parse_profile_name(name: &str) -> (r: Result<Profile, String>)
    ensures
        match r {
            Ok(p) => requested_profile(name@) == Some(p),
            Err(e) => requested_profile(name@) is None && e@ == "unknown profile '"@ + name@
                + "'; expected quiet|balanced|performance"@,
        },
{
    let v = chars_of(name);
    let l = lower_exec(&v);
    if is_text(&l, "quiet") {
        Ok(Profile::Quiet)
    } else if is_text(&l, "balanced") {
        Ok(Profile::Balanced)
    } else if is_text(&l, "performance") {
        Ok(Profile::Performance)
    } else {
        Err(wrap("unknown profile '", &v, "'; expected quiet|balanced|performance"))
    }
}

/// Every name the library gives a profile is accepted back by
/// `SetAsusProfile` as that same profile.
pub proof fn law_profile_name_accepted(p: Profile)
    ensures
        requested_profile(crate::state::profile_name(p)) == Some(p),
{
    reveal_strlit("quiet");
    reveal_strlit("balanced");
    reveal_strlit("performance");
    assert(lower("quiet"@) =~= "quiet"@);
    assert(lower("balanced"@) =~= "balanced"@);
    assert(lower("performance"@) =~= "performance"@);
}

/// `SetAsusProfile` accepts a name exactly when, ASCII case aside, it is
/// the name of a profile, and then it selects that profile.
pub proof fn law_profile_name_means_profile(s: Seq<char>, p: Profile)
    ensures
        requested_profile(s) == Some(p) <==> lower(s) == crate::state::profile_name(p),
{
    reveal_strlit("quiet");
    reveal_strlit("balanced");
    reveal_strlit("performance");
    assert("quiet"@.len() == 5);
    assert("balanced"@.len() == 8);
    assert("performance"@.len() == 11);
}

/// An `ApplyPpt` request: the limits, refused when the slow limit exceeds
/// the fast one.
pub fn check_ppt_request(apu_mw: u32, fast_mw: u32, slow_mw: u32) -> (r: Result<PptLimits, String>)
    ensures
        match r {
            Ok(p) => p == PptLimits { apu_limit: apu_mw, fast_limit: fast_mw, slow_limit: slow_mw }
                && ppt_valid(p),
            Err(e) => slow_mw > fast_mw && e@ == "slow_mw must not exceed fast_mw"@,
        },
{
    let ppt = PptLimits { apu_limit: apu_mw, fast_limit: fast_mw, slow_limit: slow_mw };
    if !ppt.is_valid() {
        return Err(String::from_str("slow_mw must not exceed fast_mw"));
    }
    Ok(ppt)
}

/// One step of applying a saved profile.
#[derive(Debug, Clone, Copy, PartialEq, Eq, Structural)]
pub enum ApplyStep {
    PlatformProfile,
    FanCurve,
    /// Wait 800 ms for asusd to settle after enabling fan curves, since that
    /// reload overwrites PPT registers.
    Settle,
    Ppt,
    Boost,
    Smt,
    CorePreset,
    /// Cap the CPU frequency at the given kHz.
    MaxFreq(u32),
}

/// The order of a saved profile's steps: platform profile, fan curve, the
/// settle delay, PPT, boost, SMT (before the core preset, so sibling threads
/// exist or not when cores are switched), core preset, and the frequency cap
/// only when the profile stores one.
pub open spec fn apply_order(max_freq_khz: Option<u32>) -> Seq<ApplyStep> {
    let base = seq![
        ApplyStep::PlatformProfile,
        ApplyStep::FanCurve,
        ApplyStep::Settle,
        ApplyStep::Ppt,
        ApplyStep::Boost,
        ApplyStep::Smt,
        ApplyStep::CorePreset,
    ];
    match max_freq_khz {
        Some(k) => base.push(ApplyStep::MaxFreq(k)),
        None => base,
    }
}

/// The steps that apply a saved profile, in order.
pub fn apply_plan(max_freq_khz: Option<u32>) -> (steps: Vec<ApplyStep>)
    ensures
        steps@ == apply_order(max_freq_khz),
{
    let mut steps: Vec<ApplyStep> = Vec::new();
    steps.push(ApplyStep::PlatformProfile);
    steps.push(ApplyStep::FanCurve);
    steps.push(ApplyStep::Settle);
    steps.push(ApplyStep::Ppt);
    steps.push(ApplyStep::Boost);
    steps.push(ApplyStep::Smt);
    steps.push(ApplyStep::CorePreset);
    if let Some(k) = max_freq_khz {
        steps.push(ApplyStep::MaxFreq(k));
    }
    assert(steps@ =~= apply_order(max_freq_khz));
    steps
}

/// The fan curve is enabled before PPT is written, and PPT only after the
/// settle delay; SMT is restored before the core preset.
pub proof fn law_apply_order(max_freq_khz: Option<u32>)
    ensures
        ({
            let s = apply_order(max_freq_khz);
            &&& s[0] == ApplyStep::PlatformProfile
            &&& s[1] == ApplyStep::FanCurve
            &&& s[2] == ApplyStep::Settle
            &&& s[3] == ApplyStep::Ppt
            &&& s[4] == ApplyStep::Boost
            &&& s[5] == ApplyStep::Smt
            &&& s[6] == ApplyStep::CorePreset
            &&& (s.len() == 8 <==> max_freq_khz is Some)
            &&& s.len() >= 7
            &&& (max_freq_khz matches Some(k) ==> s[7] == ApplyStep::MaxFreq(k))
        }),
{
}

/// The steps of a profile saved in the older format, where the fan curve
/// and the PPT limits are both optional: the curve first, the settle delay
/// only when both are present, then PPT.
pub open spec fn legacy_apply_order(has_curve: bool, has_ppt: bool) -> Seq<ApplyStep> {
    (if has_curve {
        seq![ApplyStep::FanCurve]
    } else {
        Seq::<ApplyStep>::empty()
    }) + (if has_curve && has_ppt {
        seq![ApplyStep::Settle]
    } else {
        Seq::<ApplyStep>::empty()
    }) + (if has_ppt {
        seq![ApplyStep::Ppt]
    } else {
        Seq::<ApplyStep>::empty()
    })
}

/// The steps that apply a profile saved in the older format.
pub fn legacy_apply_plan(has_curve: bool, has_ppt: bool) -> (steps: Vec<ApplyStep>)
    ensures
        steps@ == legacy_apply_order(has_curve, has_ppt),
{
    let mut steps: Vec<ApplyStep> = Vec::new();
    if has_curve {
        steps.push(ApplyStep::FanCurve);
    }
    if has_curve && has_ppt {
        steps.push(ApplyStep::Settle);
    }
    if has_ppt {
        steps.push(ApplyStep::Ppt);
    }
    assert(steps@ =~= legacy_apply_order(has_curve, has_ppt));
    steps
}

/// In the older format too, PPT is written last, after the settle delay
/// whenever a fan curve was applied before it.
pub proof fn law_legacy_ppt_last(has_curve: bool, has_ppt: bool)
    ensures
        ({
            let s = legacy_apply_order(has_curve, has_ppt);
            &&& has_ppt ==> s.last() == ApplyStep::Ppt
            &&& has_curve ==> s[0] == ApplyStep::FanCurve
            &&& (has_curve && has_ppt) ==> s == seq![ApplyStep::FanCurve, ApplyStep::Settle, ApplyStep::Ppt]
            &&& s.len() == (if has_curve { 1int } else { 0 }) + (if has_ppt { 1int } else { 0 }) + (if has_curve && has_ppt { 1int } else { 0 })
        }),
{
    let s = legacy_apply_order(has_curve, has_ppt);
    if has_curve && has_ppt {
        assert(s =~= seq![ApplyStep::FanCurve, ApplyStep::Settle, ApplyStep::Ppt]);
    }
}

/// How a failing step is named in the collected errors.
pub open spec fn step_label(s: ApplyStep) -> Seq<char> {
    match s {
        ApplyStep::PlatformProfile => "platform profile"@,
        ApplyStep::FanCurve => "fan curve"@,
        ApplyStep::Settle => "settle"@,
        ApplyStep::Ppt => "PPT"@,
        ApplyStep::Boost => "boost"@,
        ApplyStep::Smt => "SMT"@,
        ApplyStep::CorePreset => "core preset"@,
        ApplyStep::MaxFreq(_) => "max frequency"@,
    }
}

/// Each failing step is reported under its own name: the platform
/// profile, the fan curve, PPT, boost, SMT, the core preset and the
/// frequency cap are told apart in the collected errors.
pub proof fn law_step_labels_name_steps(k: u32)
    ensures
        step_label(ApplyStep::PlatformProfile) == "platform profile"@,
        step_label(ApplyStep::FanCurve) == "fan curve"@,
        step_label(ApplyStep::Ppt) == "PPT"@,
        step_label(ApplyStep::Boost) == "boost"@,
        step_label(ApplyStep::Smt) == "SMT"@,
        step_label(ApplyStep::CorePreset) == "core preset"@,
        step_label(ApplyStep::MaxFreq(k)) == "max frequency"@,
{
}

fn step_label_exec(s: &ApplyStep) -> (r: &'static str)
    ensures
        r@ == step_label(*s),
{
    match s {
        ApplyStep::PlatformProfile => "platform profile",
        ApplyStep::FanCurve => "fan curve",
        ApplyStep::Settle => "settle",
        ApplyStep::Ppt => "PPT",
        ApplyStep::Boost => "boost",
        ApplyStep::Smt => "SMT",
        ApplyStep::CorePreset => "core preset",
        ApplyStep::MaxFreq(_) => "max frequency",
    }
}

/// Records a step's result: a failure is kept as `<step>: <error>` and the
/// remaining steps still run.
pub fn record_step(errors: &mut Vec<String>, step: &ApplyStep, result: Result<(), String>)
    ensures
        string_views(final(errors)@) == match result {
            Ok(()) => string_views(old(errors)@),
            Err(e) => string_views(old(errors)@).push(step_label(*step) + ": "@ + e@),
        },
{
    if let Err(e) = result {
        let mut m = String::from_str(step_label_exec(step));
        m.append(": ");
        m.append(e.as_str());
        let ghost before = string_views(errors@);
        errors.push(m);
        assert(string_views(errors@) =~= before.push(step_label(*step) + ": "@ + e@));
    }
}

/// `profile '<name>' not found`.
pub fn profile_not_found(name: &str) -> (s: String)
    ensures
        s@ == "profile '"@ + name@ + "' not found"@,
{
    let v = chars_of(name);
    wrap("profile '", &v, "' not found")
}

/// The D-Bus reply to applying a saved profile: success when no step
/// failed, otherwise every failure joined by ` | `.
pub fn apply_reply(errors: &Vec<String>) -> (r: Result<(), String>)
    ensures
        match r {
            Ok(()) => errors@.len() == 0,
            Err(e) => errors@.len() > 0 && e@ == join(string_views(errors@), " | "@),
        },
{
    if errors.len() == 0 {
        Ok(())
    } else {
        Err(join_strings(errors, " | "))
    }
}

/// `k` is the first position of `name` in `names`.
pub open spec fn first_named(names: Seq<Seq<char>>, name: Seq<char>, k: int) -> bool {
    &&& 0 <= k < names.len()
    &&& names[k] == name
    &&& forall|j: int| 0 <= j < k ==> names[j] != name
}

/// The position of the first saved profile called `name`.
pub fn find_profile(names: &Vec<String>, name: &str) -> (r: Option<usize>)
    ensures
        match r {
            Some(k) => first_named(string_views(names@), name@, k as int),
            None => forall|j: int| 0 <= j < names@.len() ==> names@[j]@ != name@,
        },
{
    let target = chars_of(name);
    let mut i: usize = 0;
    while i < names.len()
        invariant
            i <= names@.len(),
            target@ == name@,
            forall|j: int| 0 <= j < i ==> names@[j]@ != name@,
        decreases names@.len() - i,
    {
        let cur = chars_of(names[i].as_str());
        if crate::text::equals_exec(&cur, &target) {
            return Some(i);
        }
        i = i + 1;
    }
    None
}

/// How long the drift guards leave the system alone after an apply: 15 s,
/// in nanoseconds.
pub const APPLY_COOLDOWN_NS: u64 = 15_000_000_000;

/// The drift guards act only while a saved profile is active, more than the
/// cooldown after the last apply (or when nothing was applied yet), and not
/// in the quiet period after a resume.
pub open spec fn guard_may_act(active: Seq<char>, since_apply_ns: Option<u64>, resume_quiet: bool) -> bool {
    &&& active.len() > 0
    &&& match since_apply_ns {
        Some(t) => t > APPLY_COOLDOWN_NS,
        None => true,
    }
    &&& !resume_quiet
}

/// Whether a drift guard may check and re-apply now. `since_apply_ns` is the
/// time since the last apply, if there was one.
pub fn guard_ready(active: &str, since_apply_ns: Option<u64>, resume_quiet: bool) -> (r: bool)
    ensures
        r == guard_may_act(active@, since_apply_ns, resume_quiet),
{
    let cooled = match since_apply_ns {
        Some(t) => t > APPLY_COOLDOWN_NS,
        None => true,
    };
    chars_of(active).len() > 0 && cooled && !resume_quiet
}

/// Stores `name` in `slot` and tells whether it differed from what was
/// there, so that a change signal is sent only on a real change.
pub fn replace_if_changed(slot: &mut String, name: &str) -> (changed: bool)
    ensures
        final(slot)@ == name@,
        changed == (old(slot)@ != name@),
{
    let a = chars_of(slot.as_str());
    let b = chars_of(name);
    if crate::text::equals_exec(&a, &b) {
        false
    } else {
        *slot = String::from_str(name);
        true
    }
}

/// What to do with a `PrepareForSleep` signal.
#[derive(Debug, Clone, Copy, PartialEq, Eq, Structural)]
pub enum SleepAction {
    /// Snapshot the CPU state, bring every CPU online, hold the apply lock
    /// and release the delay inhibitor.
    Prepare,
    /// A second `true` while a suspend is already pending.
    IgnoreDuplicate,
    /// Release the apply lock, start the quiet period and schedule the
    /// restore.
    Resume,
    /// A `false` with no suspend under way.
    IgnoreUnmatched,
}

/// The suspend handling: `start` is the signal's argument, `pending`
/// whether a suspend is already pending, `holding` whether the apply lock is
/// held across a sleep.
pub open spec fn sleep_action(pending: bool, holding: bool, start: bool) -> SleepAction {
    if start {
        if pending {
            SleepAction::IgnoreDuplicate
        } else {
            SleepAction::Prepare
        }
    } else if holding {
        SleepAction::Resume
    } else {
        SleepAction::IgnoreUnmatched
    }
}

/// Decides what a `PrepareForSleep(start)` signal leads to.
pub fn on_sleep_signal(pending: bool, holding: bool, start: bool) -> (a: SleepAction)
    ensures
        a == sleep_action(pending, holding, start),
{
    if start {
        if pending {
            SleepAction::IgnoreDuplicate
        } else {
            SleepAction::Prepare
        }
    } else if holding {
        SleepAction::Resume
    } else {
        SleepAction::IgnoreUnmatched
    }
}

/// How the pre-suspend selection is restored after a resume.
#[derive(Debug)]
pub enum RestorePlan {
    /// A newer change superseded the pre-suspend selection.
    Skip,
    /// Apply this saved profile again.
    ApplySaved(String),
    /// No saved profile is active: restore SMT (where it was known) and the
    /// core preset.
    RestoreCpu { smt: Option<bool>, preset: CorePreset },
}

/// The restore after a resume: nothing when the apply generation moved on
/// since the snapshot; otherwise the active saved profile, or else the CPU
/// state that was snapshotted.
pub fn resume_restore(
    generation_now: u64,
    generation_then: u64,
    active: Option<String>,
    smt: Option<bool>,
    preset: u32,
) -> (plan: RestorePlan)
    ensures
        generation_now != generation_then ==> plan is Skip,
        generation_now == generation_then ==> match active {
            Some(n) => plan matches RestorePlan::ApplySaved(m) && m@ == n@,
            None => plan matches RestorePlan::RestoreCpu { smt: s, preset: p } && s == smt
                && p == crate::state::preset_of(preset),
        },
{
    if generation_now != generation_then {
        return RestorePlan::Skip;
    }
    match active {
        Some(n) => RestorePlan::ApplySaved(n),
        None => RestorePlan::RestoreCpu { smt, preset: CorePreset::from_u32(preset) },
    }
}

/// A move of the frequency (MHz) big enough to report.
pub const FREQ_STEP_MHZ: u32 = 50;

/// Whether the metrics moved enough for a `MetricsChanged` signal: always
/// the first time; then a frequency change of at least 50 MHz, a change of
/// the battery estimate, or a power change that the caller judged large
/// enough (it is floating point).
pub open spec fn metrics_moved_spec(last: Option<(u32, i32)>, freq: u32, minutes: i32, power_moved: bool) -> bool {
    match last {
        None => true,
        Some((f, m)) => (if freq >= f {
            freq - f
        } else {
            f - freq
        }) >= FREQ_STEP_MHZ || power_moved || minutes != m,
    }
}

/// Decides whether to emit `MetricsChanged`; `last` is the frequency and
/// battery estimate last reported.
pub fn metrics_moved(last: Option<(u32, i32)>, freq: u32, minutes: i32, power_moved: bool) -> (r: bool)
    ensures
        r == metrics_moved_spec(last, freq, minutes, power_moved),
{
    match last {
        None => true,
        Some((f, m)) => {
            let d = if freq >= f {
                freq - f
            } else {
                f - freq
            };
            d >= FREQ_STEP_MHZ || power_moved || minutes != m
        },
    }
}

/// The drift guards never act without an active saved profile, within
/// 15 s of the last apply or in the quiet period after a resume, and always
/// act otherwise.
pub proof fn law_guard_respects_cooldown(active: Seq<char>, since: Option<u64>, quiet: bool)
    ensures
        guard_may_act(active, since, quiet) ==> active.len() > 0 && !quiet,
        since matches Some(t) && t <= 15_000_000_000 ==> !guard_may_act(active, since, quiet),
        active.len() > 0 && !quiet && (since matches Some(t) ==> t > 15_000_000_000)
            ==> guard_may_act(active, since, quiet),
{
}

/// Suspend signals pair up: a first `true` prepares, a second is ignored; a
/// `false` resumes only a suspend that was prepared.
pub proof fn law_sleep_signals_pair(pending: bool, holding: bool)
    ensures
        sleep_action(false, holding, true) == SleepAction::Prepare,
        sleep_action(true, holding, true) == SleepAction::IgnoreDuplicate,
        sleep_action(pending, true, false) == SleepAction::Resume,
        sleep_action(pending, false, false) == SleepAction::IgnoreUnmatched,
{
}

/// Metrics are reported the first time, on a frequency move of 50 MHz or
/// more, a change of the battery estimate or a power move; and only then.
pub proof fn law_metrics_report_real_moves(f: u32, m: i32, freq: u32, minutes: i32, power_moved: bool)
    ensures
        metrics_moved_spec(None, freq, minutes, power_moved),
        freq - f >= 50 || f - freq >= 50 ==> metrics_moved_spec(Some((f, m)), freq, minutes, power_moved),
        minutes != m || power_moved ==> metrics_moved_spec(Some((f, m)), freq, minutes, power_moved),
        freq - f < 50 && f - freq < 50 && minutes == m && !power_moved ==> !metrics_moved_spec(
            Some((f, m)),
            freq,
            minutes,
            power_moved,
        ),
{
}

} // verus!
