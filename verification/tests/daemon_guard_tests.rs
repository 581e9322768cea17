use strixctl::daemon::{
    legacy_apply_plan, ApplyStep,
    guard_ready, metrics_moved, on_sleep_signal, replace_if_changed, resume_restore, RestorePlan,
    SleepAction,
};
use strixctl::state::CorePreset;

#[test]
fn guards_wait_for_an_active_profile_and_the_cooldown() {
    assert!(!guard_ready("", None, false));
    assert!(guard_ready("Gaming", None, false));
    assert!(!guard_ready("Gaming", Some(15_000_000_000), false));
    assert!(guard_ready("Gaming", Some(15_000_000_001), false));
    assert!(!guard_ready("Gaming", Some(60_000_000_000), true));
}

#[test]
fn name_slot_reports_only_real_changes() {
    let mut slot = String::from("quiet");
    assert!(!replace_if_changed(&mut slot, "quiet"));
    assert_eq!(slot, "quiet");
    assert!(replace_if_changed(&mut slot, "performance"));
    assert_eq!(slot, "performance");
    assert!(replace_if_changed(&mut slot, ""));
    assert_eq!(slot, "");
}

#[test]
fn sleep_signals_pair_up() {
    assert_eq!(on_sleep_signal(false, false, true), SleepAction::Prepare);
    assert_eq!(on_sleep_signal(true, true, true), SleepAction::IgnoreDuplicate);
    assert_eq!(on_sleep_signal(true, true, false), SleepAction::Resume);
    assert_eq!(on_sleep_signal(false, false, false), SleepAction::IgnoreUnmatched);
}

#[test]
fn resume_restore_skips_superseded_selection() {
    assert!(matches!(resume_restore(3, 2, Some("Gaming".into()), Some(true), 8), RestorePlan::Skip));
    match resume_restore(2, 2, Some("Gaming".into()), Some(true), 8) {
        RestorePlan::ApplySaved(n) => assert_eq!(n, "Gaming"),
        other => panic!("unexpected {other:?}"),
    }
    match resume_restore(2, 2, None, Some(false), 8) {
        RestorePlan::RestoreCpu { smt, preset } => {
            assert_eq!(smt, Some(false));
            assert_eq!(preset, CorePreset::Eight);
        }
        other => panic!("unexpected {other:?}"),
    }
}

#[test]
fn metrics_report_real_moves_only() {
    assert!(metrics_moved(None, 1000, -1, false));
    assert!(!metrics_moved(Some((3000, 120)), 3049, 120, false));
    assert!(metrics_moved(Some((3000, 120)), 3050, 120, false));
    assert!(metrics_moved(Some((3000, 120)), 2950, 120, false));
    assert!(metrics_moved(Some((3000, 120)), 3000, 119, false));
    assert!(metrics_moved(Some((3000, 120)), 3000, 120, true));
}

#[test]
fn legacy_profiles_write_ppt_last() {

    assert_eq!(
        legacy_apply_plan(true, true),
        vec![ApplyStep::FanCurve, ApplyStep::Settle, ApplyStep::Ppt]
    );
    assert_eq!(legacy_apply_plan(true, false), vec![ApplyStep::FanCurve]);
    assert_eq!(legacy_apply_plan(false, true), vec![ApplyStep::Ppt]);
    assert!(legacy_apply_plan(false, false).is_empty());
}
