//! The GUI's decisions that do not draw anything: tabs, and the validation
//! of what the user types into the PPT, hysteresis, shift and frequency-cap
//! fields.

use vstd::prelude::*;
use crate::platform::SUPPORTS_FAN_CURVE;
use crate::state::{ppt_valid, preset_cores, CorePreset, PptLimits};
use crate::text::{
    chars_of, decimal, decimal_string, parse_i32, parse_i32_exec, parse_u32, parse_u32_exec,
    parse_u8, parse_u8_exec, push_chars, push_decimal, string_of, trim, trimmed,
};

verus! {

/// The tabs of the main window.
#[derive(Debug, Clone, Copy, PartialEq, Eq, Structural)]
pub enum Tab {
    Overview,
    Profile,
    Cooling,
    Saved,
}

/// The caption of a tab.
pub open spec fn tab_label(t: Tab) -> Seq<char> {
    match t {
        Tab::Overview => "Overview"@,
        Tab::Profile => "Power"@,
        Tab::Cooling => "Cooling"@,
        Tab::Saved => "Profiles"@,
    }
}

/// The tabs shown: Cooling only where fan curves are supported.
pub open spec fn shown_tabs() -> Seq<Tab> {
    if SUPPORTS_FAN_CURVE {
        seq![Tab::Overview, Tab::Profile, Tab::Cooling, Tab::Saved]
    } else {
        seq![Tab::Overview, Tab::Profile, Tab::Saved]
    }
}

impl Tab {
    /// The caption of the tab.
    pub fn label(self) -> (s: &'static str)
        ensures
            s@ == tab_label(self),
    {
        match self {
            Tab::Overview => "Overview",
            Tab::Profile => "Power",
            Tab::Cooling => "Cooling",
            Tab::Saved => "Profiles",
        }
    }

    /// The tabs to show on this platform, in order.
    pub fn visible() -> (v: Vec<Tab>)
        ensures
            v@ == shown_tabs(),
    {
        let mut v: Vec<Tab> = Vec::new();
        v.push(Tab::Overview);
        v.push(Tab::Profile);
        if SUPPORTS_FAN_CURVE {
            v.push(Tab::Cooling);
        }
        v.push(Tab::Saved);
        assert(v@ =~= shown_tabs());
        v
    }
}

/// Which fan-curve point, if any, the pointer is dragging.
pub struct DragState {
    pub dragging: Option<usize>,
}

impl Default for DragState {
    /// Nothing is being dragged.
    fn default() -> (s: Self)
        ensures
            s.dragging is None,
    {
        DragState { dragging: None }
    }
}

/// A kHz value as whole MHz for the input field; empty when unknown.
pub open spec fn mhz_text(khz: Option<u32>) -> Seq<char> {
    match khz {
        Some(k) => decimal((k / 1000) as nat),
        None => Seq::<char>::empty(),
    }
}

/// Formats an optional kHz value as a plain MHz string for the input field.
pub fn khz_to_mhz_string(khz: Option<u32>) -> (s: String)
    ensures
        s@ == mhz_text(khz),
{
    match khz {
        Some(k) => decimal_string((k / 1000) as u64),
        None => String::new(),
    }
}

/// `u32::saturating_mul(1000)`.
pub open spec fn mhz_to_khz(mhz: u32) -> u32 {
    if mhz * 1000 > u32::MAX {
        u32::MAX
    } else {
        (mhz * 1000) as u32
    }
}

/// What the frequency-cap field asks for: `None` when the cap is switched
/// off; otherwise the typed whole MHz (trimmed) in kHz, which must lie in
/// the hardware range when one is known.
pub open spec fn requested_cap(capped: bool, input: Seq<char>, range: Option<(u32, u32)>) -> Result<Option<u32>, Seq<char>> {
    if !capped {
        Ok(None)
    } else {
        match parse_u32(trim(input)) {
            None => Err("Enter the frequency cap as whole MHz."@),
            Some(mhz) => {
                let khz = mhz_to_khz(mhz);
                match range {
                    Some((lo, hi)) => if khz < lo || khz > hi {
                        Err("Cap must be between "@ + decimal((lo / 1000) as nat) + " and "@
                            + decimal((hi / 1000) as nat) + " MHz."@)
                    } else {
                        Ok(Some(khz))
                    },
                    None => Ok(Some(khz)),
                }
            },
        }
    }
}

/// Validates the cap input against the hardware range. `Ok(None)` means the
/// user wants no cap at all.
pub fn parse_max_freq_khz(capped: bool, input: &str, range: Option<(u32, u32)>) -> (r: Result<Option<u32>, String>)
    ensures
        match r {
            Ok(c) => requested_cap(capped, input@, range) == Ok::<Option<u32>, Seq<char>>(c),
            Err(e) => requested_cap(capped, input@, range) == Err::<Option<u32>, Seq<char>>(e@),
        },
{
    if !capped {
        return Ok(None);
    }
    let chars = chars_of(input);
    let mhz = match parse_u32_exec(&trimmed(&chars)) {
        Some(m) => m,
        None => {
            return Err(String::from_str("Enter the frequency cap as whole MHz."));
        },
    };
    let khz: u32 = if mhz > 4294967 {
        0xFFFF_FFFF
    } else {
        mhz * 1000
    };
    if let Some((lo, hi)) = range {
        if khz < lo || khz > hi {
            let mut s = String::from_str("Cap must be between ");
            push_decimal(&mut s, (lo / 1000) as u64);
            s.append(" and ");
            push_decimal(&mut s, (hi / 1000) as u64);
            s.append(" MHz.");
            return Err(s);
        }
    }
    Ok(Some(khz))
}

/// An accepted cap lies inside the hardware range whenever that range is
/// known.
pub proof fn law_accepted_cap_in_range(input: Seq<char>, lo: u32, hi: u32)
    ensures
        requested_cap(true, input, Some((lo, hi))) matches Ok(Some(k)) ==> lo <= k <= hi,
{
}

/// With the cap switched off nothing is capped; a whole number of MHz
/// whose kHz value lies in the known hardware range is taken as that many
/// kHz; one outside the range is refused.
pub proof fn law_cap_request_in_mhz(input: Seq<char>, m: u32, lo: u32, hi: u32)
    requires
        m * 1000 <= u32::MAX,
    ensures
        requested_cap(false, input, Some((lo, hi))) == Ok::<Option<u32>, Seq<char>>(None),
        lo <= m * 1000 <= hi ==> requested_cap(true, decimal(m as nat), Some((lo, hi)))
            == Ok::<Option<u32>, Seq<char>>(Some((m * 1000) as u32)),
        !(lo <= m * 1000 <= hi) ==> requested_cap(true, decimal(m as nat), Some((lo, hi))) is Err,
        requested_cap(true, decimal(m as nat), None) == Ok::<Option<u32>, Seq<char>>(Some((m * 1000) as u32)),
{
    crate::windows::law_stored_number_read_back(m);
}

/// A typed hysteresis is the typed number, but never more than 10 °C.
pub proof fn law_hysteresis_is_capped_input(s: Seq<char>)
    ensures
        parse_u8(s) matches Some(v) ==> hysteresis_of(s) == Some(if v <= 10 { v } else { 10u8 })
            && hysteresis_of(s).unwrap() <= 10,
        parse_u8(s) is None ==> hysteresis_of(s) is None,
{
}

/// Limits are read from the fields only when all three are integers and
/// slow does not exceed fast; they are then exactly the typed numbers.
pub proof fn law_ppt_fields_read_as_typed(apu: Seq<char>, slow: Seq<char>, fast: Seq<char>)
    ensures
        ppt_from_fields(apu, slow, fast) matches Some(p) ==> parse_u32(apu) == Some(p.apu_limit)
            && parse_u32(slow) == Some(p.slow_limit) && parse_u32(fast) == Some(p.fast_limit)
            && p.slow_limit <= p.fast_limit,
        (parse_u32(apu) is Some && parse_u32(slow) is Some && parse_u32(fast) is Some
            && parse_u32(slow).unwrap() <= parse_u32(fast).unwrap()) ==> ppt_from_fields(apu, slow, fast) is Some,
{
}

/// With SMT on a preset keeps two threads per core, without it one.
pub proof fn law_threads_per_core(p: CorePreset)
    ensures
        threads_of(p, false) == preset_cores(p),
        threads_of(p, true) == 2 * threads_of(p, false),
{
}

/// The frequency-cap field after a cap value is set: the cap in MHz, or,
/// with no cap, the current text unless it is blank, in which case the
/// hardware maximum.
pub open spec fn cap_field(khz: Option<u32>, current: Seq<char>, range: Option<(u32, u32)>) -> Seq<char> {
    match khz {
        Some(k) => decimal((k / 1000) as nat),
        None => if trim(current).len() == 0 {
            mhz_text(
                match range {
                    Some((lo, hi)) => Some(hi),
                    None => None,
                },
            )
        } else {
            current
        },
    }
}

/// The frequency-cap field's new text when the cap becomes `khz`.
pub fn max_freq_field(khz: Option<u32>, current: &str, range: Option<(u32, u32)>) -> (s: String)
    ensures
        s@ == cap_field(khz, current@, range),
{
    match khz {
        Some(k) => decimal_string((k / 1000) as u64),
        None => {
            let chars = chars_of(current);
            if trimmed(&chars).len() == 0 {
                khz_to_mhz_string(
                    match range {
                        Some((_, hi)) => Some(hi),
                        None => None,
                    },
                )
            } else {
                string_of(&chars)
            }
        },
    }
}

/// The three PPT fields (APU, slow, fast) as limits: each an integer number
/// of milliwatts, and slow not above fast.
pub open spec fn ppt_from_fields(apu: Seq<char>, slow: Seq<char>, fast: Seq<char>) -> Option<PptLimits> {
    match (parse_u32(apu), parse_u32(slow), parse_u32(fast)) {
        (Some(a), Some(sl), Some(f)) => if sl <= f {
            Some(PptLimits { apu_limit: a, fast_limit: f, slow_limit: sl })
        } else {
            None
        },
        _ => None,
    }
}

/// Reads the PPT fields; `None` when a field is not an integer or the slow
/// limit exceeds the fast one.
pub fn parse_ppt_fields(apu: &str, slow: &str, fast: &str) -> (r: Option<PptLimits>)
    ensures
        r == ppt_from_fields(apu@, slow@, fast@),
        r matches Some(p) ==> ppt_valid(p),
{
    let a = parse_u32_exec(&chars_of(apu));
    let sl = parse_u32_exec(&chars_of(slow));
    let f = parse_u32_exec(&chars_of(fast));
    match (a, sl, f) {
        (Some(a), Some(sl), Some(f)) => {
            if sl <= f {
                Some(PptLimits { apu_limit: a, fast_limit: f, slow_limit: sl })
            } else {
                None
            }
        },
        _ => None,
    }
}

/// The hint under the PPT fields: a slow limit above the fast one first,
/// then any field that is not an integer, otherwise nothing (a blank).
pub open spec fn ppt_hint(apu: Seq<char>, slow: Seq<char>, fast: Seq<char>) -> Seq<char> {
    if parse_u32(slow) is Some && parse_u32(fast) is Some && parse_u32(slow).unwrap() > parse_u32(
        fast,
    ).unwrap() {
        "⚠  Slow limit must not exceed Fast limit"@
    } else if parse_u32(apu) is None || parse_u32(slow) is None || parse_u32(fast) is None {
        "Enter integer milliwatts in each field."@
    } else {
        " "@
    }
}

/// The validation hint shown under the PPT fields.
pub fn ppt_fields_message(apu: &str, slow: &str, fast: &str) -> (s: &'static str)
    ensures
        s@ == ppt_hint(apu@, slow@, fast@),
{
    let a = parse_u32_exec(&chars_of(apu));
    let sl = parse_u32_exec(&chars_of(slow));
    let f = parse_u32_exec(&chars_of(fast));
    if let (Some(x), Some(y)) = (sl, f) {
        if x > y {
            return "⚠  Slow limit must not exceed Fast limit";
        }
    }
    if a.is_none() || sl.is_none() || f.is_none() {
        "Enter integer milliwatts in each field."
    } else {
        " "
    }
}

/// A typed hysteresis: a `u8`, capped at 10 °C.
pub open spec fn hysteresis_of(s: Seq<char>) -> Option<u8> {
    match parse_u8(s) {
        Some(v) => Some(
            if v <= 10 {
                v
            } else {
                10u8
            },
        ),
        None => None,
    }
}

/// Reads the hysteresis field; values above 10 °C are capped.
pub fn hysteresis_input(s: &str) -> (r: Option<u8>)
    ensures
        r == hysteresis_of(s@),
{
    match parse_u8_exec(&chars_of(s)) {
        Some(v) => Some(
            if v <= 10 {
                v
            } else {
                10
            },
        ),
        None => None,
    }
}

/// Reads the fan-curve shift field: a whole number of degrees, trimmed.
pub fn shift_input(s: &str) -> (r: Option<i32>)
    ensures
        r == parse_i32(trim(s@)),
{
    parse_i32_exec(&trimmed(&chars_of(s)))
}

/// A name typed for a new saved profile: trimmed, and not empty.
pub fn new_profile_name(s: &str) -> (r: Option<String>)
    ensures
        match r {
            Some(n) => trim(s@).len() > 0 && n@ == trim(s@),
            None => trim(s@).len() == 0,
        },
{
    let t = trimmed(&chars_of(s));
    if t.len() == 0 {
        None
    } else {
        Some(string_of(&t))
    }
}

/// A name with every `'` escaped as `\'`.
pub open spec fn escape_quotes(s: Seq<char>) -> Seq<char>
    decreases s.len(),
{
    if s.len() == 0 {
        Seq::<char>::empty()
    } else if s.last() == '\'' {
        escape_quotes(s.drop_last()) + seq!['\\', '\'']
    } else {
        escape_quotes(s.drop_last()).push(s.last())
    }
}

/// Escaping puts a backslash before each `'` and keeps every other
/// character: it works piece by piece, leaves other characters alone, and
/// turns `'` into `\'`.
pub proof fn law_escape_quotes_backslashes_quotes(a: Seq<char>, b: Seq<char>, c: char)
    ensures
        escape_quotes(a + b) == escape_quotes(a) + escape_quotes(b),
        c != '\'' ==> escape_quotes(seq![c]) == seq![c],
        escape_quotes(seq!['\'']) == seq!['\\', '\''],
    decreases b.len(),
{
    assert(seq![c].drop_last() =~= Seq::<char>::empty());
    assert(seq!['\''].drop_last() =~= Seq::<char>::empty());
    assert(escape_quotes(Seq::<char>::empty()) == Seq::<char>::empty());
    assert(seq![c].last() == c);
    if c != '\'' {
        assert(escape_quotes(seq![c]) =~= Seq::<char>::empty().push(c));
        assert(Seq::<char>::empty().push(c) =~= seq![c]);
    }
    assert(escape_quotes(seq!['\'']) =~= Seq::<char>::empty() + seq!['\\', '\'']);
    assert(Seq::<char>::empty() + seq!['\\', '\''] =~= seq!['\\', '\'']);
    if b.len() == 0 {
        assert(a + b =~= a);
        assert(escape_quotes(a) + escape_quotes(b) =~= escape_quotes(a));
    } else {
        law_escape_quotes_backslashes_quotes(a, b.drop_last(), c);
        assert((a + b).drop_last() =~= a + b.drop_last());
        assert((a + b).last() == b.last());
        if b.last() == '\'' {
            assert(escape_quotes(a) + escape_quotes(b) =~= escape_quotes(a) + escape_quotes(
                b.drop_last(),
            ) + seq!['\\', '\'']);
        } else {
            assert(escape_quotes(a) + escape_quotes(b) =~= (escape_quotes(a) + escape_quotes(
                b.drop_last(),
            )).push(b.last()));
        }
    }
}

/// The single-quoted GVariant string literal that `gdbus call` receives as
/// the profile name of `NotifyProfileApplied`.
pub fn gdbus_name_arg(name: &str) -> (s: String)
    ensures
        s@ == "'"@ + escape_quotes(name@) + "'"@,
{
    let chars = chars_of(name);
    let mut esc: Vec<char> = Vec::new();
    let mut i: usize = 0;
    while i < chars.len()
        invariant
            i <= chars@.len(),
            esc@ == escape_quotes(chars@.take(i as int)),
        decreases chars@.len() - i,
    {
        let c = chars[i];
        assert(chars@.take(i + 1).drop_last() =~= chars@.take(i as int));
        if c == '\'' {
            esc.push('\\');
            esc.push('\'');
        } else {
            esc.push(c);
        }
        i = i + 1;
        assert(esc@ =~= escape_quotes(chars@.take(i as int)));
    }
    assert(chars@.take(chars@.len() as int) =~= chars@);
    let mut s = String::from_str("'");
    push_chars(&mut s, &esc);
    s.append("'");
    s
}

/// The logical CPUs a preset leaves online: two per core with SMT on.
pub open spec fn threads_of(p: CorePreset, smt: bool) -> nat {
    if smt {
        (preset_cores(p) * 2) as nat
    } else {
        preset_cores(p) as nat
    }
}

/// `<cores>C / <threads>T`.
pub open spec fn cores_label(p: CorePreset, smt: bool) -> Seq<char> {
    decimal(preset_cores(p) as nat) + "C / "@ + decimal(threads_of(p, smt)) + "T"@
}

/// The number of logical CPUs a preset leaves online.
pub fn thread_count(p: &CorePreset, smt: bool) -> (n: u32)
    ensures
        n == threads_of(*p, smt),
{
    let cores = p.as_u32();
    if smt {
        cores * 2
    } else {
        cores
    }
}

/// The active-cores summary, e.g. `8C / 16T`.
pub fn cores_threads_label(p: &CorePreset, smt: bool) -> (s: String)
    ensures
        s@ == cores_label(*p, smt),
{
    let mut s = decimal_string(p.as_u32() as u64);
    s.append("C / ");
    push_decimal(&mut s, thread_count(p, smt) as u64);
    s.append("T");
    s
}

/// The hint under the core-preset control; where a change needs a reboot,
/// it says so.
pub open spec fn cores_hint_text(p: CorePreset, smt: bool, needs_reboot: bool) -> Seq<char> {
    if needs_reboot {
        "Currently "@ + cores_label(p, smt) + ". Applied via bcdedit — takes effect after a reboot."@
    } else {
        "Currently "@ + cores_label(p, smt) + "."@
    }
}

/// The hint under the core-preset control.
pub fn cores_hint(p: &CorePreset, smt: bool, needs_reboot: bool) -> (s: String)
    ensures
        s@ == cores_hint_text(*p, smt, needs_reboot),
{
    let mut s = String::from_str("Currently ");
    let label = cores_threads_label(p, smt);
    s.append(label.as_str());
    if needs_reboot {
        s.append(". Applied via bcdedit — takes effect after a reboot.");
    } else {
        s.append(".");
    }
    s
}

/// The cap controls work unless the platform reads a frequency range back
/// and found none.
pub open spec fn cap_available(readback: bool, range: Option<(u32, u32)>) -> bool {
    !(readback && range is None)
}

/// Whether the frequency-cap controls are enabled.
pub fn cap_controls_enabled(readback: bool, range: Option<(u32, u32)>) -> (b: bool)
    ensures
        b == cap_available(readback, range),
{
    !(readback && range.is_none())
}

/// The hint under the frequency-cap control.
pub open spec fn cap_hint_text(readback: bool, range: Option<(u32, u32)>, cap: Option<u32>) -> Seq<char> {
    if !cap_available(readback, range) {
        "Unavailable — this system exposes no cpufreq scaling range."@
    } else {
        match range {
            Some((lo, hi)) => {
                let hw = "hardware "@ + decimal((lo / 1000) as nat) + "–"@ + decimal((hi / 1000) as nat)
                    + " MHz). Applied with cpupower / scaling_max_freq."@;
                match cap {
                    Some(k) => "Capped at "@ + decimal((k / 1000) as nat) + " MHz ("@ + hw,
                    None => "Uncapped ("@ + hw,
                }
            },
            None => "Sets the power plan's maximum processor frequency (powercfg PROCFREQMAX)."@,
        }
    }
}

/// The hint under the frequency-cap control: why it is unavailable, or the
/// cap and the hardware range, or what the control does on Windows.
pub fn cap_hint(readback: bool, range: Option<(u32, u32)>, cap: Option<u32>) -> (s: String)
    ensures
        s@ == cap_hint_text(readback, range, cap),
{
    if readback && range.is_none() {
        return String::from_str("Unavailable — this system exposes no cpufreq scaling range.");
    }
    match range {
        Some((lo, hi)) => {
            let mut s = match cap {
                Some(k) => {
                    let mut s = String::from_str("Capped at ");
                    push_decimal(&mut s, (k / 1000) as u64);
                    s.append(" MHz (");
                    s
                },
                None => String::from_str("Uncapped ("),
            };
            s.append("hardware ");
            push_decimal(&mut s, (lo / 1000) as u64);
            s.append("–");
            push_decimal(&mut s, (hi / 1000) as u64);
            s.append(" MHz). Applied with cpupower / scaling_max_freq.");
            s
        },
        None => String::from_str(
            "Sets the power plan's maximum processor frequency (powercfg PROCFREQMAX).",
        ),
    }
}

/// The hint of the frequency tile.
pub open spec fn freq_tile_hint_text(cap: Option<u32>) -> Seq<char> {
    match cap {
        Some(k) => "fastest core · capped "@ + decimal((k / 1000) as nat) + " MHz"@,
        None => "fastest core · uncapped"@,
    }
}

/// The hint of the frequency tile: the cap in MHz, or that there is none.
pub fn freq_tile_hint(cap: Option<u32>) -> (s: String)
    ensures
        s@ == freq_tile_hint_text(cap),
{
    match cap {
        Some(k) => {
            let mut s = String::from_str("fastest core · capped ");
            push_decimal(&mut s, (k / 1000) as u64);
            s.append(" MHz");
            s
        },
        None => String::from_str("fastest core · uncapped"),
    }
}

/// The cap badge of the summary.
pub open spec fn cap_badge_text(cap: Option<u32>) -> Seq<char> {
    match cap {
        Some(k) => "cap  "@ + decimal((k / 1000) as nat) + " MHz"@,
        None => "cap  off"@,
    }
}

/// The cap badge of the summary, e.g. `cap  3000 MHz`.
pub fn cap_badge(cap: Option<u32>) -> (s: String)
    ensures
        s@ == cap_badge_text(cap),
{
    match cap {
        Some(k) => {
            let mut s = String::from_str("cap  ");
            push_decimal(&mut s, (k / 1000) as u64);
            s.append(" MHz");
            s
        },
        None => String::from_str("cap  off"),
    }
}

/// `On` or `Off`.
pub fn on_off(b: bool) -> (s: &'static str)
    ensures
        s@ == (if b {
            "On"@
        } else {
            "Off"@
        }),
{
    if b {
        "On"
    } else {
        "Off"
    }
}

} // verus!
