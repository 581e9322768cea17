//! The main window's controller: every decision the GUI takes on a user
//! action or on a finished background job, as a step from the panel's state
//! and an event to the next state and the effect to carry out.
//!
//! What the panel holds is what those decisions read: the settings being
//! edited, the text of the input fields, the selected saved profile and the
//! status line. The fan curve's points and the live readings are floating
//! point and stay with the caller, which performs each effect and reports
//! its outcome back as an event.

use vstd::prelude::*;
use crate::gui::{cap_field, hysteresis_of, mhz_text, ppt_from_fields, requested_cap, Tab};
use crate::state::{preset_label, profile_name, CorePreset, PptLimits, Profile};
use crate::text::{decimal, decimal_string, push_decimal, trim};

verus! {

/// The settings the GUI edits and a saved profile stores, apart from the fan
/// curve's points.
#[derive(Debug, Clone, Copy)]
pub struct Settings {
    pub profile: Profile,
    pub ppt: PptLimits,
    /// Fan-curve hysteresis in °C.
    pub hysteresis: u8,
    pub boost_enabled: bool,
    pub smt_enabled: bool,
    pub core_preset: CorePreset,
    /// The CPU frequency cap in kHz; `None` for no cap.
    pub max_freq_khz: Option<u32>,
}

/// What a reload read back from the system; `None` where a value could not
/// be read (and the panel keeps its own).
#[derive(Debug, Clone, Copy)]
pub struct Readings {
    pub profile: Option<Profile>,
    pub ppt: Option<PptLimits>,
    /// The hysteresis of the fan curve read for the (new) profile.
    pub hysteresis: Option<u8>,
    pub boost: Option<bool>,
    pub smt: Option<bool>,
    pub core_preset: CorePreset,
    pub core_reboot_pending: bool,
    pub freq_range_khz: Option<(u32, u32)>,
    /// `Some(cap)` where the platform reads the cap back.
    pub max_freq_khz: Option<Option<u32>>,
}

/// The GUI's state, apart from the fan curve's points and live readings.
pub struct Panel {
    pub settings: Settings,
    pub core_reboot_pending: bool,
    /// The hardware frequency range (min, max) in kHz, when known.
    pub freq_range_khz: Option<(u32, u32)>,
    pub tab: Tab,
    pub ppt_apu_str: String,
    pub ppt_slow_str: String,
    pub ppt_fast_str: String,
    pub hyst_str: String,
    /// The frequency-cap field, in MHz.
    pub max_freq_str: String,
    /// Whether the cap is engaged.
    pub max_freq_capped: bool,
    pub shift_input: String,
    /// A delayed PPT read-back is under way.
    pub ppt_reload_inflight: bool,
    pub selected_profile_name: String,
    pub new_profile_name: String,
    pub status_msg: String,
    /// Bumped on every status message.
    pub status_token: u64,
}

/// The panel's state as mathematical values.
pub struct PanelView {
    pub settings: Settings,
    pub core_reboot_pending: bool,
    pub freq_range_khz: Option<(u32, u32)>,
    pub tab: Tab,
    pub ppt_apu: Seq<char>,
    pub ppt_slow: Seq<char>,
    pub ppt_fast: Seq<char>,
    pub hyst: Seq<char>,
    pub max_freq: Seq<char>,
    pub max_freq_capped: bool,
    pub shift: Seq<char>,
    pub ppt_reload_inflight: bool,
    pub selected: Seq<char>,
    pub new_name: Seq<char>,
    pub status: Seq<char>,
    pub status_token: u64,
}

impl View for Panel {
    type V = PanelView;

    open spec fn view(&self) -> PanelView {
        PanelView {
            settings: self.settings,
            core_reboot_pending: self.core_reboot_pending,
            freq_range_khz: self.freq_range_khz,
            tab: self.tab,
            ppt_apu: self.ppt_apu_str@,
            ppt_slow: self.ppt_slow_str@,
            ppt_fast: self.ppt_fast_str@,
            hyst: self.hyst_str@,
            max_freq: self.max_freq_str@,
            max_freq_capped: self.max_freq_capped,
            shift: self.shift_input@,
            ppt_reload_inflight: self.ppt_reload_inflight,
            selected: self.selected_profile_name@,
            new_name: self.new_profile_name@,
            status: self.status_msg@,
            status_token: self.status_token,
        }
    }
}

/// The panel as the window opens: the settings read at start-up shown in
/// their fields, the cap field seeded with the cap or else the hardware
/// maximum, the first saved profile selected, and `Ready` in the status line.
pub open spec fn initial(
    s: Settings,
    pending: bool,
    range: Option<(u32, u32)>,
    first: Option<String>,
) -> PanelView {
    PanelView {
        settings: s,
        core_reboot_pending: pending,
        freq_range_khz: range,
        tab: Tab::Overview,
        ppt_apu: decimal(s.ppt.apu_limit as nat),
        ppt_slow: decimal(s.ppt.slow_limit as nat),
        ppt_fast: decimal(s.ppt.fast_limit as nat),
        hyst: decimal(s.hysteresis as nat),
        max_freq: mhz_text(
            match s.max_freq_khz {
                Some(k) => Some(k),
                None => range_max(range),
            },
        ),
        max_freq_capped: s.max_freq_khz is Some,
        shift: Seq::<char>::empty(),
        ppt_reload_inflight: false,
        selected: match first {
            Some(n) => n@,
            None => Seq::<char>::empty(),
        },
        new_name: Seq::<char>::empty(),
        status: "Ready"@,
        status_token: 0,
    }
}

/// The status token after one more message (`wrapping_add(1)`).
pub open spec fn next_token(t: u64) -> u64 {
    if t == u64::MAX {
        0
    } else {
        (t + 1) as u64
    }
}

/// `v` showing the status message `msg`.
pub open spec fn with_status(v: PanelView, msg: Seq<char>) -> PanelView {
    PanelView { status: msg, status_token: next_token(v.status_token), ..v }
}

/// `v` with its PPT limits set to `p`, and the three fields showing them.
pub open spec fn with_ppt(v: PanelView, p: PptLimits) -> PanelView {
    PanelView {
        settings: Settings { ppt: p, ..v.settings },
        ppt_apu: decimal(p.apu_limit as nat),
        ppt_slow: decimal(p.slow_limit as nat),
        ppt_fast: decimal(p.fast_limit as nat),
        ..v
    }
}

/// `v` with the frequency cap set to `khz`: the cap engaged exactly when
/// there is one, and the field as [`cap_field`] gives it.
pub open spec fn with_max_freq(v: PanelView, khz: Option<u32>) -> PanelView {
    PanelView {
        settings: Settings { max_freq_khz: khz, ..v.settings },
        max_freq_capped: khz is Some,
        max_freq: cap_field(khz, v.max_freq, v.freq_range_khz),
        ..v
    }
}

/// `Error: <e>`.
pub open spec fn error_status(e: Seq<char>) -> Seq<char> {
    "Error: "@ + e
}

/// Something the user did, or a background job that finished.
#[derive(Debug)]
pub enum Event {
    /// The once-a-second reading; `critical` when the CPU has reached the
    /// critical temperature.
    Tick { critical: bool },
    TabSelected(Tab),
    /// The settings were read back from the system.
    Reloaded(Readings),
    SetProfile(Profile),
    ApplyProfile,
    ProfileApplied(Result<Profile, String>),
    /// The fan curve was read again; this is its hysteresis.
    FanCurveReloaded(u8),
    PptReloaded(Option<PptLimits>),
    PptApuChanged(String),
    PptSlowChanged(String),
    PptFastChanged(String),
    ApplyPpt,
    PptApplied(Result<(), String>),
    HysteresisChanged(String),
    FanShift(i32),
    ShiftInputChanged(String),
    ApplyShift,
    ApplyFanCurve,
    FanCurveApplied(Result<(), String>),
    BoostToggled(bool),
    ApplyBoost,
    BoostApplied(Result<bool, String>),
    SmtToggled(bool),
    ApplySmt,
    SmtApplied(Result<bool, String>),
    /// The active core preset was read again.
    CorePresetRead(CorePreset),
    SetCorePreset(CorePreset),
    ApplyCorePreset,
    /// The preset that was set, and whether a reboot is now pending.
    CorePresetApplied(Result<(CorePreset, bool), String>),
    MaxFreqCapToggled(bool),
    MaxFreqChanged(String),
    ApplyMaxFreq,
    MaxFreqApplied(Result<Option<u32>, String>),
    NewProfileNameChanged(String),
    SaveProfile,
    SelectProfile(String),
    /// The selected saved profile was found; these are its settings.
    ProfileLoaded(Settings),
    /// The selected saved profile was found and is to be applied.
    ApplySavedProfile,
    SavedProfileApplied(Result<String, String>),
    ReplaceProfile,
    /// The selected saved profile was removed; the name of the first one
    /// left, if any.
    ProfileDeleted(Option<String>),
}

/// What the caller does after a step.
#[derive(Debug, Clone, Copy)]
pub enum Effect {
    Nothing,
    ApplyProfile(Profile),
    /// Re-read this profile's fan curve, and read the PPT limits back after
    /// the settle delay.
    ReloadAfterProfile(Profile),
    ApplyPpt(PptLimits),
    /// Move every fan-curve temperature by this many °C.
    ShiftFanCurve(i32),
    ApplyFanCurve(Profile),
    SetBoost(bool),
    SetSmt(bool),
    /// Read the active core preset again.
    ReadCorePreset,
    SetCorePreset(CorePreset),
    SetMaxFreq(Option<u32>),
    /// Store the current settings and fan curve as the selected saved
    /// profile (replacing one of that name), then write the list.
    StoreSelected,
    /// Apply the selected saved profile.
    ApplySelected,
    /// Remember the applied saved profile as the active one and tell the
    /// daemon.
    RecordApplied,
    /// Write the saved-profile list.
    WriteProfiles,
}

/// `v` with the platform profile `p`.
pub open spec fn with_profile(v: PanelView, p: Profile) -> PanelView {
    PanelView { settings: Settings { profile: p, ..v.settings }, ..v }
}

/// `v` with the hysteresis `h`, shown in its field.
pub open spec fn with_hysteresis(v: PanelView, h: u8) -> PanelView {
    PanelView { settings: Settings { hysteresis: h, ..v.settings }, hyst: decimal(h as nat), ..v }
}

/// `v` with the profile that was read, if any.
pub open spec fn read_profile(v: PanelView, p: Option<Profile>) -> PanelView {
    match p {
        Some(p) => with_profile(v, p),
        None => v,
    }
}

/// `v` with the PPT limits that were read, if any.
pub open spec fn read_ppt(v: PanelView, p: Option<PptLimits>) -> PanelView {
    match p {
        Some(p) => with_ppt(v, p),
        None => v,
    }
}

/// `v` with the hysteresis that was read, if any.
pub open spec fn read_hysteresis(v: PanelView, h: Option<u8>) -> PanelView {
    match h {
        Some(h) => with_hysteresis(v, h),
        None => v,
    }
}

/// `v` with the CPU state that was read: boost and SMT where known, the
/// core preset, the pending reboot and the frequency range.
pub open spec fn read_cpu(v: PanelView, r: Readings) -> PanelView {
    PanelView {
        settings: Settings {
            boost_enabled: match r.boost {
                Some(b) => b,
                None => v.settings.boost_enabled,
            },
            smt_enabled: match r.smt {
                Some(b) => b,
                None => v.settings.smt_enabled,
            },
            core_preset: r.core_preset,
            ..v.settings
        },
        core_reboot_pending: r.core_reboot_pending,
        freq_range_khz: r.freq_range_khz,
        ..v
    }
}

/// `v` with the frequency cap that was read, where the platform reads it.
pub open spec fn read_cap(v: PanelView, k: Option<Option<u32>>) -> PanelView {
    match k {
        Some(k) => with_max_freq(v, k),
        None => v,
    }
}

/// `v` after a reload: each value that was read replaces the panel's own,
/// the frequency range before the cap so that the cap field is filled from
/// it.
pub open spec fn with_readings(v: PanelView, r: Readings) -> PanelView {
    read_cap(
        read_cpu(read_hysteresis(read_ppt(read_profile(v, r.profile), r.ppt), r.hysteresis), r),
        r.max_freq_khz,
    )
}

/// `v` after loading a saved profile's settings.
pub open spec fn with_loaded(v: PanelView, s: Settings) -> PanelView {
    with_max_freq(with_hysteresis(with_ppt(PanelView { settings: s, ..v }, s.ppt), s.hysteresis), s.max_freq_khz)
}

/// The hardware maximum frequency, when the range is known.
pub open spec fn range_max(r: Option<(u32, u32)>) -> Option<u32> {
    match r {
        Some((lo, hi)) => Some(hi),
        None => None,
    }
}

/// The status line after the frequency cap became `khz`.
pub open spec fn cap_status(khz: Option<u32>) -> Seq<char> {
    match khz {
        Some(k) => "Max frequency capped at "@ + decimal((k / 1000) as nat) + " MHz."@,
        None => "Frequency cap removed."@,
    }
}

/// The status line after a core preset was set.
pub open spec fn preset_status(p: CorePreset, pending: bool) -> Seq<char> {
    if pending {
        "Core preset set to "@ + preset_label(p) + " — restart to apply."@
    } else {
        "Core preset set to "@ + preset_label(p) + "."@
    }
}

/// The panel's transition: the next state and the effect, for each event.
pub open spec fn step(v: PanelView, e: Event) -> (PanelView, Effect) {
    match e {
        Event::Tick { critical } => if critical && v.settings.profile != Profile::Performance {
            (
                with_status(
                    with_profile(v, Profile::Performance),
                    "⚠ Critical temp! Switched to Performance."@,
                ),
                Effect::ApplyProfile(Profile::Performance),
            )
        } else {
            (v, Effect::Nothing)
        },
        Event::TabSelected(t) => (PanelView { tab: t, ..v }, Effect::Nothing),
        Event::Reloaded(r) => (
            with_status(with_readings(v, r), "Settings reloaded from system."@),
            Effect::Nothing,
        ),
        Event::SetProfile(p) => (with_profile(v, p), Effect::Nothing),
        Event::ApplyProfile => (
            with_status(v, "Applying profile…"@),
            Effect::ApplyProfile(v.settings.profile),
        ),
        Event::ProfileApplied(Ok(p)) => (
            PanelView {
                ppt_reload_inflight: true,
                ..with_status(with_profile(v, p), "Profile set to "@ + profile_name(p) + "."@)
            },
            Effect::ReloadAfterProfile(p),
        ),
        Event::ProfileApplied(Err(e)) => (with_status(v, error_status(e@)), Effect::Nothing),
        Event::FanCurveReloaded(h) => (with_hysteresis(v, h), Effect::Nothing),
        Event::PptReloaded(r) => {
            let v1 = PanelView { ppt_reload_inflight: false, ..v };
            match r {
                Some(p) => (with_status(with_ppt(v1, p), "Power limits synced."@), Effect::Nothing),
                None => (v1, Effect::Nothing),
            }
        },
        Event::PptApuChanged(s) => (PanelView { ppt_apu: s@, ..v }, Effect::Nothing),
        Event::PptSlowChanged(s) => (PanelView { ppt_slow: s@, ..v }, Effect::Nothing),
        Event::PptFastChanged(s) => (PanelView { ppt_fast: s@, ..v }, Effect::Nothing),
        Event::ApplyPpt => match ppt_from_fields(v.ppt_apu, v.ppt_slow, v.ppt_fast) {
            Some(p) => (
                with_status(
                    PanelView { settings: Settings { ppt: p, ..v.settings }, ..v },
                    "Applying power limits…"@,
                ),
                Effect::ApplyPpt(p),
            ),
            None => (v, Effect::Nothing),
        },
        Event::PptApplied(Ok(())) => (with_status(v, "Power limits applied."@), Effect::Nothing),
        Event::PptApplied(Err(e)) => (with_status(v, error_status(e@)), Effect::Nothing),
        Event::HysteresisChanged(s) => {
            let v1 = PanelView { hyst: s@, ..v };
            match hysteresis_of(s@) {
                Some(h) => (
                    PanelView { settings: Settings { hysteresis: h, ..v.settings }, ..v1 },
                    Effect::Nothing,
                ),
                None => (v1, Effect::Nothing),
            }
        },
        Event::FanShift(d) => (v, Effect::ShiftFanCurve(d)),
        Event::ShiftInputChanged(s) => (PanelView { shift: s@, ..v }, Effect::Nothing),
        Event::ApplyShift => {
            let v1 = PanelView { shift: Seq::<char>::empty(), ..v };
            match crate::text::parse_i32(trim(v.shift)) {
                Some(d) => (v1, Effect::ShiftFanCurve(d)),
                None => (v1, Effect::Nothing),
            }
        },
        Event::ApplyFanCurve => (
            with_status(v, "Applying fan curve…"@),
            Effect::ApplyFanCurve(v.settings.profile),
        ),
        Event::FanCurveApplied(Ok(())) => (with_status(v, "Fan curve applied."@), Effect::Nothing),
        Event::FanCurveApplied(Err(e)) => (with_status(v, error_status(e@)), Effect::Nothing),
        Event::BoostToggled(b) => (
            PanelView { settings: Settings { boost_enabled: b, ..v.settings }, ..v },
            Effect::Nothing,
        ),
        Event::ApplyBoost => (
            with_status(v, "Applying boost…"@),
            Effect::SetBoost(v.settings.boost_enabled),
        ),
        Event::BoostApplied(Ok(b)) => (
            with_status(
                v,
                if b {
                    "Boost enabled."@
                } else {
                    "Boost disabled."@
                },
            ),
            Effect::Nothing,
        ),
        Event::BoostApplied(Err(e)) => (with_status(v, error_status(e@)), Effect::Nothing),
        Event::SmtToggled(b) => (
            PanelView { settings: Settings { smt_enabled: b, ..v.settings }, ..v },
            Effect::Nothing,
        ),
        Event::ApplySmt => (
            with_status(v, "Applying SMT…"@),
            Effect::SetSmt(v.settings.smt_enabled),
        ),
        Event::SmtApplied(Ok(b)) => (
            with_status(
                v,
                if b {
                    "SMT enabled."@
                } else {
                    "SMT disabled."@
                },
            ),
            Effect::ReadCorePreset,
        ),
        Event::SmtApplied(Err(e)) => (with_status(v, error_status(e@)), Effect::Nothing),
        Event::CorePresetRead(p) => (
            PanelView { settings: Settings { core_preset: p, ..v.settings }, ..v },
            Effect::Nothing,
        ),
        Event::SetCorePreset(p) => (
            PanelView { settings: Settings { core_preset: p, ..v.settings }, ..v },
            Effect::Nothing,
        ),
        Event::ApplyCorePreset => (
            with_status(v, "Applying core preset…"@),
            Effect::SetCorePreset(v.settings.core_preset),
        ),
        Event::CorePresetApplied(Ok((p, pending))) => (
            with_status(PanelView { core_reboot_pending: pending, ..v }, preset_status(p, pending)),
            Effect::Nothing,
        ),
        Event::CorePresetApplied(Err(e)) => (with_status(v, error_status(e@)), Effect::Nothing),
        Event::MaxFreqCapToggled(on) => {
            let v1 = PanelView { max_freq_capped: on, ..v };
            if on && trim(v.max_freq).len() == 0 {
                (PanelView { max_freq: mhz_text(range_max(v.freq_range_khz)), ..v1 }, Effect::Nothing)
            } else {
                (v1, Effect::Nothing)
            }
        },
        Event::MaxFreqChanged(s) => (PanelView { max_freq: s@, ..v }, Effect::Nothing),
        Event::ApplyMaxFreq => match requested_cap(v.max_freq_capped, v.max_freq, v.freq_range_khz) {
            Ok(t) => (
                with_status(
                    v,
                    if t is Some {
                        "Applying frequency cap…"@
                    } else {
                        "Removing frequency cap…"@
                    },
                ),
                Effect::SetMaxFreq(t),
            ),
            Err(msg) => (with_status(v, msg), Effect::Nothing),
        },
        Event::MaxFreqApplied(Ok(k)) => (
            with_status(with_max_freq(v, k), cap_status(k)),
            Effect::Nothing,
        ),
        Event::MaxFreqApplied(Err(e)) => (with_status(v, error_status(e@)), Effect::Nothing),
        Event::NewProfileNameChanged(s) => (PanelView { new_name: s@, ..v }, Effect::Nothing),
        Event::SaveProfile => if trim(v.new_name).len() == 0 {
            (v, Effect::Nothing)
        } else {
            (
                with_status(
                    PanelView { selected: trim(v.new_name), new_name: Seq::<char>::empty(), ..v },
                    "Profile saved."@,
                ),
                Effect::StoreSelected,
            )
        },
        Event::SelectProfile(s) => (PanelView { selected: s@, ..v }, Effect::Nothing),
        Event::ProfileLoaded(s) => (
            with_status(with_loaded(v, s), "Loaded '"@ + v.selected + "'."@),
            Effect::Nothing,
        ),
        Event::ApplySavedProfile => (
            with_status(v, "Applying '"@ + v.selected + "'…"@),
            Effect::ApplySelected,
        ),
        Event::SavedProfileApplied(Ok(name)) => (
            with_status(v, "Applied '"@ + name@ + "'."@),
            Effect::RecordApplied,
        ),
        Event::SavedProfileApplied(Err(e)) => (with_status(v, error_status(e@)), Effect::Nothing),
        Event::ReplaceProfile => if v.selected.len() == 0 {
            (v, Effect::Nothing)
        } else {
            (
                with_status(v, "Replaced '"@ + v.selected + "' with current state."@),
                Effect::StoreSelected,
            )
        },
        Event::ProfileDeleted(first) => (
            with_status(
                PanelView {
                    selected: match first {
                        Some(n) => n@,
                        None => Seq::<char>::empty(),
                    },
                    ..v
                },
                "Profile deleted."@,
            ),
            Effect::WriteProfiles,
        ),
    }
}

/// Reaching the critical temperature always leaves the panel in the
/// Performance profile; when it was in another one, Performance is applied.
pub proof fn law_critical_temp_forces_performance(v: PanelView)
    ensures
        step(v, Event::Tick { critical: true }).0.settings.profile == Profile::Performance,
        v.settings.profile != Profile::Performance ==> step(v, Event::Tick { critical: true }).1
            == Effect::ApplyProfile(Profile::Performance),
        step(v, Event::Tick { critical: false }) == (v, Effect::Nothing),
{
}

/// Only limits whose slow limit does not exceed the fast one are ever sent
/// to the hardware, and they are the limits the panel then holds.
pub proof fn law_only_valid_ppt_applied(v: PanelView, e: Event)
    ensures
        step(v, e).1 matches Effect::ApplyPpt(p) ==> crate::state::ppt_valid(p)
            && step(v, e).0.settings.ppt == p,
{
}

/// A frequency cap is only sent inside the hardware range, when that range
/// is known.
pub proof fn law_cap_within_range(v: PanelView, e: Event, lo: u32, hi: u32)
    requires
        v.freq_range_khz == Some((lo, hi)),
    ensures
        step(v, e).1 matches Effect::SetMaxFreq(Some(k)) ==> lo <= k <= hi,
{
}

/// A saved profile is only stored under a name that is not empty.
pub proof fn law_store_needs_name(v: PanelView, e: Event)
    ensures
        step(v, e).1 is StoreSelected ==> step(v, e).0.selected.len() > 0,
{
    if e is SaveProfile && trim(v.new_name).len() > 0 {
        assert(step(v, e).0.selected == trim(v.new_name));
    }
}

/// The PPT fields show the limits they were filled from: applying them right
/// after sends exactly those limits, when they are valid.
pub proof fn law_ppt_fields_round_trip(v: PanelView, p: PptLimits)
    requires
        crate::state::ppt_valid(p),
    ensures
        step(with_ppt(v, p), Event::ApplyPpt).1 == Effect::ApplyPpt(p),
{
    crate::text::lemma_parse_decimal(p.apu_limit);
    crate::text::lemma_parse_decimal(p.slow_limit);
    crate::text::lemma_parse_decimal(p.fast_limit);
}

/// A background job that failed leaves its error in the status line,
/// prefixed with `Error: `, and nothing else is done.
pub proof fn law_failures_reported(v: PanelView, e: String)
    ensures
        step(v, Event::ProfileApplied(Err(e))) == (with_status(v, error_status(e@)), Effect::Nothing),
        step(v, Event::PptApplied(Err(e))) == (with_status(v, error_status(e@)), Effect::Nothing),
        step(v, Event::FanCurveApplied(Err(e))) == (with_status(v, error_status(e@)), Effect::Nothing),
        step(v, Event::BoostApplied(Err(e))) == (with_status(v, error_status(e@)), Effect::Nothing),
        step(v, Event::SmtApplied(Err(e))) == (with_status(v, error_status(e@)), Effect::Nothing),
        step(v, Event::CorePresetApplied(Err(e))) == (with_status(v, error_status(e@)), Effect::Nothing),
        step(v, Event::MaxFreqApplied(Err(e))) == (with_status(v, error_status(e@)), Effect::Nothing),
        step(v, Event::SavedProfileApplied(Err(e))) == (with_status(v, error_status(e@)), Effect::Nothing),
{
}

/// A reload takes every value that was read and keeps the panel's own
/// where nothing could be read: the profile, the PPT limits (shown in the
/// three fields), the hysteresis (shown in its field), boost and SMT, then
/// the core preset, the pending reboot and the frequency range as read, and
/// the cap where it is read back. Nothing is sent to the hardware.
pub proof fn law_reload_takes_readings(v: PanelView, r: Readings)
    ensures
        ({
            let (n, e) = step(v, Event::Reloaded(r));
            &&& e == Effect::Nothing
            &&& n.settings.profile == match r.profile {
                Some(p) => p,
                None => v.settings.profile,
            }
            &&& match r.ppt {
                Some(p) => n.settings.ppt == p && n.ppt_apu == decimal(p.apu_limit as nat)
                    && n.ppt_slow == decimal(p.slow_limit as nat) && n.ppt_fast == decimal(
                    p.fast_limit as nat,
                ),
                None => n.settings.ppt == v.settings.ppt && n.ppt_apu == v.ppt_apu && n.ppt_slow
                    == v.ppt_slow && n.ppt_fast == v.ppt_fast,
            }
            &&& match r.hysteresis {
                Some(h) => n.settings.hysteresis == h && n.hyst == decimal(h as nat),
                None => n.settings.hysteresis == v.settings.hysteresis && n.hyst == v.hyst,
            }
            &&& n.settings.boost_enabled == match r.boost {
                Some(b) => b,
                None => v.settings.boost_enabled,
            }
            &&& n.settings.smt_enabled == match r.smt {
                Some(b) => b,
                None => v.settings.smt_enabled,
            }
            &&& n.settings.core_preset == r.core_preset
            &&& n.core_reboot_pending == r.core_reboot_pending
            &&& n.freq_range_khz == r.freq_range_khz
            &&& match r.max_freq_khz {
                Some(k) => n.settings.max_freq_khz == k && n.max_freq_capped == (k is Some),
                None => n.settings.max_freq_khz == v.settings.max_freq_khz && n.max_freq_capped
                    == v.max_freq_capped && n.max_freq == v.max_freq,
            }
            &&& n.status == "Settings reloaded from system."@
            &&& n.tab == v.tab && n.selected == v.selected && n.new_name == v.new_name
        }),
{
}

/// What is chosen is what is applied: after selecting a profile, applying
/// the profile or the fan curve goes with exactly that profile.
pub proof fn law_apply_sends_selected_profile(v: PanelView, p: Profile)
    ensures
        step(v, Event::SetProfile(p)).0.settings.profile == p,
        step(step(v, Event::SetProfile(p)).0, Event::ApplyProfile).1 == Effect::ApplyProfile(p),
        step(step(v, Event::SetProfile(p)).0, Event::ApplyFanCurve).1 == Effect::ApplyFanCurve(p),
{
    let v1 = step(v, Event::SetProfile(p)).0;
    assert(v1.settings.profile == p);
    assert(step(v1, Event::ApplyProfile).1 == Effect::ApplyProfile(v1.settings.profile));
    assert(step(v1, Event::ApplyFanCurve).1 == Effect::ApplyFanCurve(v1.settings.profile));
}

/// After toggling boost or SMT, the matching apply sends exactly the
/// toggled value.
pub proof fn law_apply_sends_toggled_value(v: PanelView, b: bool)
    ensures
        step(v, Event::BoostToggled(b)).0.settings.boost_enabled == b,
        step(v, Event::SmtToggled(b)).0.settings.smt_enabled == b,
        step(step(v, Event::BoostToggled(b)).0, Event::ApplyBoost).1 == Effect::SetBoost(b),
        step(step(v, Event::SmtToggled(b)).0, Event::ApplySmt).1 == Effect::SetSmt(b),
{
    let v2 = step(v, Event::BoostToggled(b)).0;
    assert(v2.settings.boost_enabled == b);
    assert(step(v2, Event::ApplyBoost).1 == Effect::SetBoost(v2.settings.boost_enabled));
    let v3 = step(v, Event::SmtToggled(b)).0;
    assert(v3.settings.smt_enabled == b);
    assert(step(v3, Event::ApplySmt).1 == Effect::SetSmt(v3.settings.smt_enabled));
}

/// After choosing a core preset, applying it sends exactly that preset.
pub proof fn law_apply_sends_selected_preset(v: PanelView, c: CorePreset)
    ensures
        step(v, Event::SetCorePreset(c)).0.settings.core_preset == c,
        step(step(v, Event::SetCorePreset(c)).0, Event::ApplyCorePreset).1 == Effect::SetCorePreset(c),
{
    let v4 = step(v, Event::SetCorePreset(c)).0;
    assert(v4.settings.core_preset == c);
    assert(step(v4, Event::ApplyCorePreset).1 == Effect::SetCorePreset(v4.settings.core_preset));
}

/// A profile that was applied becomes the panel's profile; its fan curve is
/// read again and the PPT limits are read back, during which the PPT apply
/// waits; a read-back ends the wait and, when it has limits, shows them.
pub proof fn law_profile_applied_reloads(v: PanelView, p: Profile, r: Option<PptLimits>)
    ensures
        step(v, Event::ProfileApplied(Ok(p))).0.settings.profile == p,
        step(v, Event::ProfileApplied(Ok(p))).1 == Effect::ReloadAfterProfile(p),
        step(v, Event::ProfileApplied(Ok(p))).0.ppt_reload_inflight,
        !step(v, Event::PptReloaded(r)).0.ppt_reload_inflight,
        r matches Some(l) ==> step(v, Event::PptReloaded(r)).0.settings.ppt == l
            && step(v, Event::PptReloaded(r)).0.ppt_apu == decimal(l.apu_limit as nat),
        r is None ==> step(v, Event::PptReloaded(r)).0.settings.ppt == v.settings.ppt,
{
}

/// Typing into a field changes only that field's text, never the settings,
/// and nothing is sent.
pub proof fn law_typing_changes_only_the_field(v: PanelView, s: String)
    ensures
        step(v, Event::PptApuChanged(s)).0.ppt_apu == s@,
        step(v, Event::PptSlowChanged(s)).0.ppt_slow == s@,
        step(v, Event::PptFastChanged(s)).0.ppt_fast == s@,
        step(v, Event::MaxFreqChanged(s)).0.max_freq == s@,
        step(v, Event::NewProfileNameChanged(s)).0.new_name == s@,
        step(v, Event::ShiftInputChanged(s)).0.shift == s@,
        step(v, Event::PptApuChanged(s)).0.settings == v.settings,
        step(v, Event::MaxFreqChanged(s)).0.settings == v.settings,
        step(v, Event::NewProfileNameChanged(s)).0.settings == v.settings,
        step(v, Event::PptApuChanged(s)).1 == Effect::Nothing,
        step(v, Event::MaxFreqChanged(s)).1 == Effect::Nothing,
{
}

/// A cap that was applied becomes the panel's cap, engaged exactly when
/// there is one.
pub proof fn law_applied_cap_is_held(v: PanelView, k: Option<u32>)
    ensures
        step(v, Event::MaxFreqApplied(Ok(k))).0.settings.max_freq_khz == k,
        step(v, Event::MaxFreqApplied(Ok(k))).0.max_freq_capped == (k is Some),
{
}

/// A new panel shows the settings it was made with: the PPT limits and the
/// hysteresis in their fields, the cap engaged exactly when there is one,
/// and `Ready` in the status line.
pub proof fn law_initial_panel_shows_settings(
    s: Settings,
    pending: bool,
    range: Option<(u32, u32)>,
    first: Option<String>,
)
    ensures
        ({
            let v = initial(s, pending, range, first);
            &&& v.settings == s
            &&& v.ppt_apu == decimal(s.ppt.apu_limit as nat)
            &&& v.ppt_slow == decimal(s.ppt.slow_limit as nat)
            &&& v.ppt_fast == decimal(s.ppt.fast_limit as nat)
            &&& v.hyst == decimal(s.hysteresis as nat)
            &&& v.max_freq_capped == (s.max_freq_khz is Some)
            &&& v.core_reboot_pending == pending
            &&& v.freq_range_khz == range
            &&& v.status == "Ready"@
            &&& v.tab == Tab::Overview
        }),
{
}

/// Saving takes the typed name without surrounding whitespace, selects it
/// and clears the field; a blank name saves nothing. Deleting selects the
/// first profile left, or none.
pub proof fn law_save_and_delete_select(v: PanelView, first: Option<String>)
    ensures
        trim(v.new_name).len() > 0 ==> step(v, Event::SaveProfile).0.selected == trim(v.new_name)
            && step(v, Event::SaveProfile).0.new_name.len() == 0 && step(v, Event::SaveProfile).1
            == Effect::StoreSelected,
        trim(v.new_name).len() == 0 ==> step(v, Event::SaveProfile) == (v, Effect::Nothing),
        step(v, Event::ProfileDeleted(first)).0.selected == match first {
            Some(n) => n@,
            None => Seq::<char>::empty(),
        },
        step(v, Event::ProfileDeleted(first)).1 == Effect::WriteProfiles,
{
}

/// Applying the shift field moves the curve by the typed whole number of
/// degrees, if it is one, and always empties the field.
pub proof fn law_shift_field_moves_curve(v: PanelView)
    ensures
        step(v, Event::ApplyShift).0.shift.len() == 0,
        crate::text::parse_i32(trim(v.shift)) matches Some(d) ==> step(v, Event::ApplyShift).1
            == Effect::ShiftFanCurve(d),
        crate::text::parse_i32(trim(v.shift)) is None ==> step(v, Event::ApplyShift).1
            == Effect::Nothing,
        step(v, Event::ApplyShift).0.settings == v.settings,
{
}

/// Loading a saved profile gives back exactly the settings it stores.
pub proof fn law_load_restores_settings(v: PanelView, s: Settings)
    ensures
        step(v, Event::ProfileLoaded(s)).0.settings == s,
{
}

/// A typed hysteresis is never taken above 10 °C.
pub proof fn law_hysteresis_capped(v: PanelView, e: Event)
    requires
        v.settings.hysteresis <= 10,
        !(e is Reloaded),
        !(e is FanCurveReloaded),
        !(e is ProfileLoaded),
    ensures
        step(v, e).0.settings.hysteresis <= 10,
{
}

impl Panel {
    /// The panel for the settings read at start-up; `first_saved` is the
    /// name of the first saved profile, if there is one.
    pub fn new(
        settings: Settings,
        core_reboot_pending: bool,
        freq_range_khz: Option<(u32, u32)>,
        first_saved: Option<String>,
    ) -> (p: Panel)
        ensures
            p@ == initial(settings, core_reboot_pending, freq_range_khz, first_saved),
    {
        let seed = match settings.max_freq_khz {
            Some(k) => Some(k),
            None => match freq_range_khz {
                Some((_, hi)) => Some(hi),
                None => None,
            },
        };
        Panel {
            settings,
            core_reboot_pending,
            freq_range_khz,
            tab: Tab::Overview,
            ppt_apu_str: decimal_string(settings.ppt.apu_limit as u64),
            ppt_slow_str: decimal_string(settings.ppt.slow_limit as u64),
            ppt_fast_str: decimal_string(settings.ppt.fast_limit as u64),
            hyst_str: decimal_string(settings.hysteresis as u64),
            max_freq_str: crate::gui::khz_to_mhz_string(seed),
            max_freq_capped: settings.max_freq_khz.is_some(),
            shift_input: String::new(),
            ppt_reload_inflight: false,
            selected_profile_name: match first_saved {
                Some(n) => n,
                None => String::new(),
            },
            new_profile_name: String::new(),
            status_msg: String::from_str("Ready"),
            status_token: 0,
        }
    }

    /// Shows `msg` in the status line.
    fn set_status(&mut self, msg: String)
        ensures
            final(self)@ == with_status(old(self)@, msg@),
    {
        self.status_msg = msg;
        self.status_token = if self.status_token == u64::MAX {
            0
        } else {
            self.status_token + 1
        };
    }

    /// Shows the literal `msg` in the status line.
    fn say(&mut self, msg: &str)
        ensures
            final(self)@ == with_status(old(self)@, msg@),
    {
        self.set_status(String::from_str(msg));
    }

    /// Shows `Error: <e>` in the status line.
    fn say_error(&mut self, e: String)
        ensures
            final(self)@ == with_status(old(self)@, error_status(e@)),
    {
        let mut m = String::from_str("Error: ");
        m.append(e.as_str());
        self.set_status(m);
    }

    /// Sets the PPT limits and mirrors them into the three fields.
    fn set_ppt(&mut self, p: PptLimits)
        ensures
            final(self)@ == with_ppt(old(self)@, p),
    {
        self.ppt_apu_str = decimal_string(p.apu_limit as u64);
        self.ppt_slow_str = decimal_string(p.slow_limit as u64);
        self.ppt_fast_str = decimal_string(p.fast_limit as u64);
        self.settings.ppt = p;
    }

    /// Sets the frequency cap and mirrors it into the cap field.
    fn set_max_freq(&mut self, khz: Option<u32>)
        ensures
            final(self)@ == with_max_freq(old(self)@, khz),
    {
        let field = crate::gui::max_freq_field(khz, self.max_freq_str.as_str(), self.freq_range_khz);
        self.settings.max_freq_khz = khz;
        self.max_freq_capped = khz.is_some();
        self.max_freq_str = field;
    }
}

impl Panel {
    /// Applies what was read back from the system.
    fn apply_readings(&mut self, r: Readings)
        ensures
            final(self)@ == with_readings(old(self)@, r),
    {
        if let Some(p) = r.profile {
            self.settings.profile = p;
        }
        self.read_ppt(r.ppt);
        self.read_hysteresis(r.hysteresis);
        self.read_cpu(r);
        if let Some(k) = r.max_freq_khz {
            self.set_max_freq(k);
        }
    }

    fn read_ppt(&mut self, p: Option<PptLimits>)
        ensures
            final(self)@ == read_ppt(old(self)@, p),
    {
        if let Some(p) = p {
            self.set_ppt(p);
        }
    }

    fn read_hysteresis(&mut self, h: Option<u8>)
        ensures
            final(self)@ == read_hysteresis(old(self)@, h),
    {
        if let Some(h) = h {
            self.set_hysteresis(h);
        }
    }

    fn read_cpu(&mut self, r: Readings)
        ensures
            final(self)@ == read_cpu(old(self)@, r),
    {
        if let Some(b) = r.boost {
            self.settings.boost_enabled = b;
        }
        if let Some(b) = r.smt {
            self.settings.smt_enabled = b;
        }
        self.settings.core_preset = r.core_preset;
        self.core_reboot_pending = r.core_reboot_pending;
        self.freq_range_khz = r.freq_range_khz;
    }

    /// Sets the hysteresis and shows it in its field.
    fn set_hysteresis(&mut self, h: u8)
        ensures
            final(self)@ == with_hysteresis(old(self)@, h),
    {
        self.settings.hysteresis = h;
        self.hyst_str = decimal_string(h as u64);
    }

    /// Takes over a saved profile's settings.
    fn load_settings(&mut self, s: Settings)
        ensures
            final(self)@ == with_loaded(old(self)@, s),
    {
        self.settings = s;
        self.set_ppt(s.ppt);
        self.set_hysteresis(s.hysteresis);
        self.set_max_freq(s.max_freq_khz);
    }

    /// Shows `prefix + middle + suffix` in the status line.
    fn say_around(&mut self, prefix: &str, middle: &str, suffix: &str)
        ensures
            final(self)@ == with_status(old(self)@, prefix@ + middle@ + suffix@),
    {
        let mut m = String::from_str(prefix);
        m.append(middle);
        m.append(suffix);
        self.set_status(m);
    }

    /// One step of the GUI: updates the panel for `event` and returns what
    /// the caller has to do next.
    pub fn update(&mut self, event: Event) -> (effect: Effect)
        ensures
            final(self)@ == step(old(self)@, event).0,
            effect == step(old(self)@, event).1,
    {
        match event {
            Event::Tick { .. } | Event::TabSelected(..) | Event::Reloaded(..) | Event::SetProfile(..) | Event::ApplyProfile | Event::ProfileApplied(..) | Event::FanCurveReloaded(..) | Event::PptReloaded(..) => self.on_general(event),
            Event::PptApuChanged(..) | Event::PptSlowChanged(..) | Event::PptFastChanged(..) | Event::ApplyPpt | Event::PptApplied(..) | Event::HysteresisChanged(..) | Event::FanShift(..) | Event::ShiftInputChanged(..) | Event::ApplyShift | Event::ApplyFanCurve | Event::FanCurveApplied(..) => self.on_power(event),
            Event::BoostToggled(..) | Event::ApplyBoost | Event::BoostApplied(..) | Event::SmtToggled(..) | Event::ApplySmt | Event::SmtApplied(..) | Event::CorePresetRead(..) | Event::SetCorePreset(..) | Event::ApplyCorePreset | Event::CorePresetApplied(..) => self.on_cpu(event),
            Event::MaxFreqCapToggled(..) | Event::MaxFreqChanged(..) | Event::ApplyMaxFreq | Event::MaxFreqApplied(..) => self.on_cap(event),
            Event::NewProfileNameChanged(..) | Event::SaveProfile | Event::SelectProfile(..) | Event::ProfileLoaded(..) | Event::ApplySavedProfile | Event::SavedProfileApplied(..) | Event::ReplaceProfile | Event::ProfileDeleted(..) => self.on_saved(event),
        }
    }

    /// The events of the system state: ticks, tabs, reloads and the platform profile.
    fn on_general(&mut self, event: Event) -> (effect: Effect)
        requires
            event is Tick || event is TabSelected || event is Reloaded || event is SetProfile || event is ApplyProfile || event is ProfileApplied || event is FanCurveReloaded || event is PptReloaded,
        ensures
            final(self)@ == step(old(self)@, event).0,
            effect == step(old(self)@, event).1,
    {
        match event {
            Event::Tick { critical } => {
                if critical && self.settings.profile != Profile::Performance {
                    self.settings.profile = Profile::Performance;
                    self.say("⚠ Critical temp! Switched to Performance.");
                    Effect::ApplyProfile(Profile::Performance)
                } else {
                    Effect::Nothing
                }
            },
            Event::TabSelected(t) => {
                self.tab = t;
                Effect::Nothing
            },
            Event::Reloaded(r) => {
                self.apply_readings(r);
                self.say("Settings reloaded from system.");
                Effect::Nothing
            },
            Event::SetProfile(p) => {
                self.settings.profile = p;
                Effect::Nothing
            },
            Event::ApplyProfile => {
                self.say("Applying profile…");
                Effect::ApplyProfile(self.settings.profile)
            },
            Event::ProfileApplied(Ok(p)) => {
                self.settings.profile = p;
                self.say_around("Profile set to ", p.as_str(), ".");
                self.ppt_reload_inflight = true;
                Effect::ReloadAfterProfile(p)
            },
            Event::ProfileApplied(Err(e)) => {
                self.say_error(e);
                Effect::Nothing
            },
            Event::FanCurveReloaded(h) => {
                self.set_hysteresis(h);
                Effect::Nothing
            },
            Event::PptReloaded(r) => {
                self.ppt_reload_inflight = false;
                if let Some(p) = r {
                    self.set_ppt(p);
                    self.say("Power limits synced.");
                }
                Effect::Nothing
            },
            // Other events are routed elsewhere (see the precondition).
            _ => Effect::Nothing,
        }
    }

    /// The PPT fields and the fan-curve controls.
    fn on_power(&mut self, event: Event) -> (effect: Effect)
        requires
            event is PptApuChanged || event is PptSlowChanged || event is PptFastChanged || event is ApplyPpt || event is PptApplied || event is HysteresisChanged || event is FanShift || event is ShiftInputChanged || event is ApplyShift || event is ApplyFanCurve || event is FanCurveApplied,
        ensures
            final(self)@ == step(old(self)@, event).0,
            effect == step(old(self)@, event).1,
    {
        match event {
            Event::PptApuChanged(s) => {
                self.ppt_apu_str = s;
                Effect::Nothing
            },
            Event::PptSlowChanged(s) => {
                self.ppt_slow_str = s;
                Effect::Nothing
            },
            Event::PptFastChanged(s) => {
                self.ppt_fast_str = s;
                Effect::Nothing
            },
            Event::ApplyPpt => {
                match crate::gui::parse_ppt_fields(
                    self.ppt_apu_str.as_str(),
                    self.ppt_slow_str.as_str(),
                    self.ppt_fast_str.as_str(),
                ) {
                    Some(p) => {
                        self.settings.ppt = p;
                        self.say("Applying power limits…");
                        Effect::ApplyPpt(p)
                    },
                    None => Effect::Nothing,
                }
            },
            Event::PptApplied(Ok(())) => {
                self.say("Power limits applied.");
                Effect::Nothing
            },
            Event::PptApplied(Err(e)) => {
                self.say_error(e);
                Effect::Nothing
            },
            Event::HysteresisChanged(s) => {
                if let Some(h) = crate::gui::hysteresis_input(s.as_str()) {
                    self.settings.hysteresis = h;
                }
                self.hyst_str = s;
                Effect::Nothing
            },
            Event::FanShift(d) => Effect::ShiftFanCurve(d),
            Event::ShiftInputChanged(s) => {
                self.shift_input = s;
                Effect::Nothing
            },
            Event::ApplyShift => {
                let d = crate::gui::shift_input(self.shift_input.as_str());
                self.shift_input = String::new();
                match d {
                    Some(d) => Effect::ShiftFanCurve(d),
                    None => Effect::Nothing,
                }
            },
            Event::ApplyFanCurve => {
                self.say("Applying fan curve…");
                Effect::ApplyFanCurve(self.settings.profile)
            },
            Event::FanCurveApplied(Ok(())) => {
                self.say("Fan curve applied.");
                Effect::Nothing
            },
            Event::FanCurveApplied(Err(e)) => {
                self.say_error(e);
                Effect::Nothing
            },
            // Other events are routed elsewhere (see the precondition).
            _ => Effect::Nothing,
        }
    }

    /// Boost, SMT and the core preset.
    fn on_cpu(&mut self, event: Event) -> (effect: Effect)
        requires
            event is BoostToggled || event is ApplyBoost || event is BoostApplied || event is SmtToggled || event is ApplySmt || event is SmtApplied || event is CorePresetRead || event is SetCorePreset || event is ApplyCorePreset || event is CorePresetApplied,
        ensures
            final(self)@ == step(old(self)@, event).0,
            effect == step(old(self)@, event).1,
    {
        match event {
            Event::BoostToggled(b) => {
                self.settings.boost_enabled = b;
                Effect::Nothing
            },
            Event::ApplyBoost => {
                self.say("Applying boost…");
                Effect::SetBoost(self.settings.boost_enabled)
            },
            Event::BoostApplied(Ok(b)) => {
                self.say(
                    if b {
                        "Boost enabled."
                    } else {
                        "Boost disabled."
                    },
                );
                Effect::Nothing
            },
            Event::BoostApplied(Err(e)) => {
                self.say_error(e);
                Effect::Nothing
            },
            Event::SmtToggled(b) => {
                self.settings.smt_enabled = b;
                Effect::Nothing
            },
            Event::ApplySmt => {
                self.say("Applying SMT…");
                Effect::SetSmt(self.settings.smt_enabled)
            },
            Event::SmtApplied(Ok(b)) => {
                self.say(
                    if b {
                        "SMT enabled."
                    } else {
                        "SMT disabled."
                    },
                );
                Effect::ReadCorePreset
            },
            Event::SmtApplied(Err(e)) => {
                self.say_error(e);
                Effect::Nothing
            },
            Event::CorePresetRead(p) => {
                self.settings.core_preset = p;
                Effect::Nothing
            },
            Event::SetCorePreset(p) => {
                self.settings.core_preset = p;
                Effect::Nothing
            },
            Event::ApplyCorePreset => {
                self.say("Applying core preset…");
                Effect::SetCorePreset(self.settings.core_preset)
            },
            Event::CorePresetApplied(Ok((p, pending))) => {
                self.core_reboot_pending = pending;
                if pending {
                    self.say_around("Core preset set to ", p.label(), " — restart to apply.");
                } else {
                    self.say_around("Core preset set to ", p.label(), ".");
                }
                Effect::Nothing
            },
            Event::CorePresetApplied(Err(e)) => {
                self.say_error(e);
                Effect::Nothing
            },
            // Other events are routed elsewhere (see the precondition).
            _ => Effect::Nothing,
        }
    }

    /// The frequency cap.
    fn on_cap(&mut self, event: Event) -> (effect: Effect)
        requires
            event is MaxFreqCapToggled || event is MaxFreqChanged || event is ApplyMaxFreq || event is MaxFreqApplied,
        ensures
            final(self)@ == step(old(self)@, event).0,
            effect == step(old(self)@, event).1,
    {
        match event {
            Event::MaxFreqCapToggled(on) => {
                self.max_freq_capped = on;
                if on && crate::text::trimmed(&crate::text::chars_of(self.max_freq_str.as_str())).len() == 0 {
                    let hi = match self.freq_range_khz {
                        Some((_, hi)) => Some(hi),
                        None => None,
                    };
                    self.max_freq_str = crate::gui::khz_to_mhz_string(hi);
                }
                Effect::Nothing
            },
            Event::MaxFreqChanged(s) => {
                self.max_freq_str = s;
                Effect::Nothing
            },
            Event::ApplyMaxFreq => {
                match crate::gui::parse_max_freq_khz(
                    self.max_freq_capped,
                    self.max_freq_str.as_str(),
                    self.freq_range_khz,
                ) {
                    Ok(t) => {
                        self.say(
                            if t.is_some() {
                                "Applying frequency cap…"
                            } else {
                                "Removing frequency cap…"
                            },
                        );
                        Effect::SetMaxFreq(t)
                    },
                    Err(msg) => {
                        self.set_status(msg);
                        Effect::Nothing
                    },
                }
            },
            Event::MaxFreqApplied(Ok(k)) => {
                self.set_max_freq(k);
                match k {
                    Some(khz) => {
                        let mut m = String::from_str("Max frequency capped at ");
                        push_decimal(&mut m, (khz / 1000) as u64);
                        m.append(" MHz.");
                        self.set_status(m);
                    },
                    None => self.say("Frequency cap removed."),
                }
                Effect::Nothing
            },
            Event::MaxFreqApplied(Err(e)) => {
                self.say_error(e);
                Effect::Nothing
            },
            // Other events are routed elsewhere (see the precondition).
            _ => Effect::Nothing,
        }
    }

    /// The saved profiles.
    fn on_saved(&mut self, event: Event) -> (effect: Effect)
        requires
            event is NewProfileNameChanged || event is SaveProfile || event is SelectProfile || event is ProfileLoaded || event is ApplySavedProfile || event is SavedProfileApplied || event is ReplaceProfile || event is ProfileDeleted,
        ensures
            final(self)@ == step(old(self)@, event).0,
            effect == step(old(self)@, event).1,
    {
        match event {
            Event::NewProfileNameChanged(s) => {
                self.new_profile_name = s;
                Effect::Nothing
            },
            Event::SaveProfile => {
                match crate::gui::new_profile_name(self.new_profile_name.as_str()) {
                    Some(name) => {
                        self.selected_profile_name = name;
                        self.new_profile_name = String::new();
                        self.say("Profile saved.");
                        Effect::StoreSelected
                    },
                    None => Effect::Nothing,
                }
            },
            Event::SelectProfile(s) => {
                self.selected_profile_name = s;
                Effect::Nothing
            },
            Event::ProfileLoaded(s) => {
                let name = self.selected_profile_name.clone();
                self.load_settings(s);
                self.say_around("Loaded '", name.as_str(), "'.");
                Effect::Nothing
            },
            Event::ApplySavedProfile => {
                let name = self.selected_profile_name.clone();
                self.say_around("Applying '", name.as_str(), "'…");
                Effect::ApplySelected
            },
            Event::SavedProfileApplied(Ok(name)) => {
                self.say_around("Applied '", name.as_str(), "'.");
                Effect::RecordApplied
            },
            Event::SavedProfileApplied(Err(e)) => {
                self.say_error(e);
                Effect::Nothing
            },
            Event::ReplaceProfile => {
                if crate::text::chars_of(self.selected_profile_name.as_str()).len() == 0 {
                    Effect::Nothing
                } else {
                    let name = self.selected_profile_name.clone();
                    self.say_around("Replaced '", name.as_str(), "' with current state.");
                    Effect::StoreSelected
                }
            },
            Event::ProfileDeleted(first) => {
                self.selected_profile_name = match first {
                    Some(n) => n,
                    None => String::new(),
                };
                self.say("Profile deleted.");
                Effect::WriteProfiles
            },
            // Other events are routed elsewhere (see the precondition).
            _ => Effect::Nothing,
        }
    }
}

} // verus!
