use strixctl::state::{CorePreset, PptLimits, Profile};
use strixctl::windows::{
    active_cores, apply_saved_outcome, atrofac_plan_args, batch_step, bcdedit_args,
    check_curve_len, core_reboot_pending, parse_stored_u32, preset_numproc, profile_plan,
    read_boost, read_core_preset, read_current_profile, read_freq_range_khz, read_smt,
    ryzenadj_arg_line, set_boost, set_smt, step_error,
};

#[test]
fn windows_command_lines() {
    let ppt = PptLimits { apu_limit: 15000, fast_limit: 45000, slow_limit: 35000 };
    assert_eq!(
        ryzenadj_arg_line(&ppt),
        "--stapm-limit=15000 --fast-limit=45000 --slow-limit=35000 --apu-slow-limit=15000"
    );
    assert_eq!(bcdedit_args(&CorePreset::Eight), "/set {current} numproc 16");
    assert_eq!(bcdedit_args(&CorePreset::Sixteen), "/deletevalue {current} numproc");
    assert_eq!(preset_numproc(&CorePreset::Twelve), Some(24));
    assert_eq!(preset_numproc(&CorePreset::Sixteen), None);
    assert_eq!(profile_plan(&Profile::Quiet), "silent");
    assert_eq!(profile_plan(&Profile::Balanced), "windows");
    assert_eq!(profile_plan(&Profile::Performance), "turbo");
    assert_eq!(atrofac_plan_args(&Profile::Performance), "plan turbo");
    assert_eq!(check_curve_len(8), Ok(()));
    assert_eq!(
        check_curve_len(5).unwrap_err(),
        "atrofac requires exactly 8 fan-curve points, got 5"
    );
}

#[test]
fn core_count_bookkeeping() {
    assert_eq!(active_cores(Some(32)), 16);
    assert_eq!(active_cores(Some(1)), 1);
    assert_eq!(active_cores(None), 16);
    assert_eq!(read_core_preset(Some(8), Some(32)), CorePreset::Eight);
    assert_eq!(read_core_preset(None, Some(24)), CorePreset::Twelve);
    let r = core_reboot_pending(Some(8), Some(32));
    assert!(r.pending && !r.clear_marker);
    let r = core_reboot_pending(Some(16), Some(32));
    assert!(!r.pending && r.clear_marker);
    let r = core_reboot_pending(None, Some(8));
    assert!(!r.pending && !r.clear_marker);
    assert_eq!(parse_stored_u32(" 12\n"), Some(12));
    assert_eq!(parse_stored_u32("twelve"), None);
}

#[test]
fn batch_exit_codes() {
    assert_eq!(apply_saved_outcome(0, None), Ok(()));
    assert_eq!(batch_step(3), Some("core preset (bcdedit)"));
    assert_eq!(batch_step(9), None);
    assert_eq!(
        apply_saved_outcome(2, Some("ok\nryzenadj: access denied\n\n")).unwrap_err(),
        "power limits (ryzenadj) failed: ryzenadj: access denied"
    );
    assert_eq!(
        apply_saved_outcome(1, Some("  \n")).unwrap_err(),
        "power plan / fan curve (atrofac) failed"
    );
    assert_eq!(
        apply_saved_outcome(4, None).unwrap_err(),
        "max frequency (powercfg) failed"
    );
    assert_eq!(apply_saved_outcome(7, None).unwrap_err(), "apply failed (exit code 7)");
    assert_eq!(step_error("x", Some("a\r\nb")), "x failed: b");
}

#[test]
fn windows_stubs() {
    assert_eq!(read_boost(), None);
    assert_eq!(read_smt(), None);
    assert_eq!(set_boost(true), Ok(()));
    assert_eq!(set_smt(false), Ok(()));
    assert_eq!(read_freq_range_khz(), None);
    assert_eq!(read_current_profile(), None);
}

#[test]
fn elevated_exit_codes() {
    assert_eq!(strixctl::windows::elevated_outcome(0), Ok(()));
    assert_eq!(
        strixctl::windows::elevated_outcome(1223).unwrap_err(),
        "process exited with code 1223"
    );
}

#[test]
fn apply_script_batches_every_step() {
    let ppt = PptLimits { apu_limit: 15000, fast_limit: 45000, slow_limit: 35000 };
    let s = strixctl::windows::apply_script(
        "C:\\a.exe",
        "C:\\r.exe",
        "C:\\l.log",
        &Profile::Performance,
        "30c:0%,40c:5%",
        &ppt,
        &CorePreset::Eight,
        Some(3000),
    );
    let expected = "@echo off\r\n\
\"C:\\a.exe\" fan --plan turbo --cpu 30c:0%%,40c:5%% --gpu 30c:0%%,40c:5%% >> \"C:\\l.log\" 2>&1 || exit /b 1\r\n\
\"C:\\r.exe\" --stapm-limit=15000 --fast-limit=45000 --slow-limit=35000 --apu-slow-limit=15000 >> \"C:\\l.log\" 2>&1 || exit /b 2\r\n\
bcdedit /set {current} numproc 16 >> \"C:\\l.log\" 2>&1 || exit /b 3\r\n\
powercfg /setacvalueindex SCHEME_CURRENT SUB_PROCESSOR PROCFREQMAX 3000 >> \"C:\\l.log\" 2>&1 || exit /b 4\r\n\
powercfg /setdcvalueindex SCHEME_CURRENT SUB_PROCESSOR PROCFREQMAX 3000 >> \"C:\\l.log\" 2>&1 || exit /b 4\r\n\
powercfg /setactive SCHEME_CURRENT >> \"C:\\l.log\" 2>&1 || exit /b 4\r\n";
    assert_eq!(s, expected);
}

#[test]
fn apply_script_without_cap_or_core_limit() {
    let ppt = PptLimits { apu_limit: 1, fast_limit: 3, slow_limit: 2 };
    let s = strixctl::windows::apply_script(
        "a", "r", "l", &Profile::Quiet, "c", &ppt, &CorePreset::Sixteen, None,
    );
    assert!(s.contains("\"a\" fan --plan silent --cpu c --gpu c >> \"l\" 2>&1 || exit /b 1\r\n"));
    assert!(s.contains("bcdedit /deletevalue {current} numproc >> \"l\" 2>&1\r\n"));
    assert!(s.ends_with("rem no frequency cap in profile\r\n"));
    assert_eq!(strixctl::windows::escape_percent_exec("5%"), "5%%");
}
