//! Features that every supported platform offers. Those that depend on the
//! operating system are decided by the program around the library.

use vstd::prelude::*;

verus! {

/// Platform power profiles: asusctl on Linux, atrofac power plans on Windows.
pub const SUPPORTS_PLATFORM_PROFILE: bool = true;

/// The fan-curve editor: asusctl on Linux, atrofac-cli on Windows.
pub const SUPPORTS_FAN_CURVE: bool = true;

/// AMD PPT tuning through ryzenadj.
pub const SUPPORTS_PPT: bool = true;

/// Active-core-count control: sysfs hot-plug on Linux, `bcdedit numproc` on
/// Windows.
pub const SUPPORTS_CORE_PRESET: bool = true;

} // verus!
