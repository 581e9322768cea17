//! The settings model: platform profiles, PPT power limits and core presets.

use vstd::prelude::*;

verus! {

/// The ACPI platform profile (asusctl's power mode).
#[derive(Debug, Clone, Copy, PartialEq, Eq, Structural)]
pub enum Profile {
    Quiet,
    Balanced,
    Performance,
}

/// The lower-case name asusctl uses for a profile.
pub open spec fn profile_name(p: Profile) -> Seq<char> {
    match p {
        Profile::Quiet => "quiet"@,
        Profile::Balanced => "balanced"@,
        Profile::Performance => "performance"@,
    }
}

impl Profile {
    /// The lower-case name asusctl uses for this profile.
    pub fn as_str(&self) -> (s: &'static str)
        ensures
            s@ == profile_name(*self),
    {
        match self {
            Profile::Quiet => "quiet",
            Profile::Balanced => "balanced",
            Profile::Performance => "performance",
        }
    }
}

impl Default for Profile {
    /// Balanced is the firmware's default mode.
    fn default() -> (p: Self)
        ensures
            p == Profile::Balanced,
    {
        Profile::Balanced
    }
}

/// AMD power limits in milliwatts.
#[derive(Debug, Clone, Copy, PartialEq, Eq, Structural)]
pub struct PptLimits {
    /// Sustained limit (STAPM).
    pub apu_limit: u32,
    /// Short-term burst limit (PPT fast).
    pub fast_limit: u32,
    /// Long-term burst limit (PPT slow).
    pub slow_limit: u32,
}

/// A set of limits is accepted when the slow limit does not exceed the fast
/// one. The sustained (STAPM) limit is independent of both.
pub open spec fn ppt_valid(p: PptLimits) -> bool {
    p.slow_limit <= p.fast_limit
}

impl PptLimits {
    /// Whether the slow limit does not exceed the fast limit.
    pub fn is_valid(&self) -> (b: bool)
        ensures
            b == ppt_valid(*self),
    {
        self.slow_limit <= self.fast_limit
    }
}

impl Default for PptLimits {
    /// 15 W sustained, 45 W fast, 35 W slow.
    fn default() -> (p: Self)
        ensures
            p.apu_limit == 15000,
            p.fast_limit == 45000,
            p.slow_limit == 35000,
    {
        PptLimits { apu_limit: 15000, fast_limit: 45000, slow_limit: 35000 }
    }
}

/// Number of active physical cores (each keeps both SMT threads).
#[derive(Debug, Clone, Copy, PartialEq, Eq, Structural)]
pub enum CorePreset {
    Four,
    Eight,
    Twelve,
    Sixteen,
}

/// The physical-core count of a preset.
pub open spec fn preset_cores(p: CorePreset) -> u32 {
    match p {
        CorePreset::Four => 4,
        CorePreset::Eight => 8,
        CorePreset::Twelve => 12,
        CorePreset::Sixteen => 16,
    }
}

/// The preset for a core count: 4, 8 and 12 select their preset, any other
/// count means all sixteen cores.
pub open spec fn preset_of(n: u32) -> CorePreset {
    if n == 4 {
        CorePreset::Four
    } else if n == 8 {
        CorePreset::Eight
    } else if n == 12 {
        CorePreset::Twelve
    } else {
        CorePreset::Sixteen
    }
}

/// The display label of a preset.
pub open spec fn preset_label(p: CorePreset) -> Seq<char> {
    match p {
        CorePreset::Four => "4 cores"@,
        CorePreset::Eight => "8 cores"@,
        CorePreset::Twelve => "12 cores"@,
        CorePreset::Sixteen => "16 cores"@,
    }
}

impl CorePreset {
    /// The physical-core count.
    pub fn as_u32(&self) -> (n: u32)
        ensures
            n == preset_cores(*self),
    {
        match self {
            CorePreset::Four => 4,
            CorePreset::Eight => 8,
            CorePreset::Twelve => 12,
            CorePreset::Sixteen => 16,
        }
    }

    /// The preset for a core count (unknown counts mean all cores).
    pub fn from_u32(n: u32) -> (p: CorePreset)
        ensures
            p == preset_of(n),
    {
        if n == 4 {
            CorePreset::Four
        } else if n == 8 {
            CorePreset::Eight
        } else if n == 12 {
            CorePreset::Twelve
        } else {
            CorePreset::Sixteen
        }
    }

    /// The display label, e.g. "8 cores".
    pub fn label(&self) -> (s: &'static str)
        ensures
            s@ == preset_label(*self),
    {
        match self {
            CorePreset::Four => "4 cores",
            CorePreset::Eight => "8 cores",
            CorePreset::Twelve => "12 cores",
            CorePreset::Sixteen => "16 cores",
        }
    }
}

/// Reading a preset's core count back gives the same preset.
pub proof fn law_preset_round_trip(p: CorePreset)
    ensures
        preset_of(preset_cores(p)) == p,
{
}

/// A preset's label is its core count followed by ` cores`, and the four
/// presets are 4, 8, 12 and 16 cores.
pub proof fn law_preset_label_counts_cores(p: CorePreset)
    ensures
        preset_label(p) == crate::text::decimal(preset_cores(p) as nat) + " cores"@,
        preset_cores(CorePreset::Four) == 4,
        preset_cores(CorePreset::Eight) == 8,
        preset_cores(CorePreset::Twelve) == 12,
        preset_cores(CorePreset::Sixteen) == 16,
{
    reveal_with_fuel(crate::text::decimal, 3);
    reveal_strlit("4 cores");
    reveal_strlit("8 cores");
    reveal_strlit("12 cores");
    reveal_strlit("16 cores");
    reveal_strlit(" cores");
    assert(preset_label(p) =~= crate::text::decimal(preset_cores(p) as nat) + " cores"@);
}

} // verus!
