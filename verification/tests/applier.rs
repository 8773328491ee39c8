use power_presets::applier::{apply, conclude, plan, ApplyError, ProcessOutcome};
use power_presets::command::Invocation;
use power_presets::commands::{apply_preset, get_presets, save_preset};
use power_presets::preset::Preset;
use power_presets::registry::Registry;

fn quiet() -> Preset {
    Preset {
        name: "Quiet".to_string(),
        stapm_limit: Some(15000),
        fast_limit: Some(20000),
        slow_limit: Some(17000),
        slow_time: None,
        tctl_temp: None,
        apu_skin_temp: None,
        dgpu_skin_temp: None,
        power_saving: true,
        max_performance: false,
    }
}

#[test]
fn applying_an_unknown_name_reports_not_found() {
    let registry = Registry::new();
    let mut runs = 0;
    let result = apply_preset(&registry, "ghost", |_call: Invocation| {
        runs += 1;
        ProcessOutcome::Exited(Some(0))
    });
    assert_eq!(result, Err("Preset not found: ghost".to_string()));
    assert_eq!(runs, 0);
}

#[test]
fn unknown_name_is_a_not_found_error() {
    let registry = Registry::new();
    match apply(&registry, "ghost", |_call: Invocation| ProcessOutcome::Exited(Some(0))) {
        Err(ApplyError::NotFound(name)) => assert_eq!(name, "ghost"),
        other => panic!("unexpected: {:?}", other),
    }
    match plan(&registry, "ghost") {
        Err(ApplyError::NotFound(name)) => assert_eq!(name, "ghost"),
        other => panic!("unexpected: {:?}", other),
    }
}

#[test]
fn save_then_get_then_apply() {
    let mut registry = Registry::new();
    assert_eq!(save_preset(&mut registry, quiet()), Ok(()));
    assert_eq!(get_presets(&registry), Ok(vec![quiet()]));

    let mut seen: Vec<Invocation> = Vec::new();
    let result = apply_preset(&registry, "Quiet", |call: Invocation| {
        seen.push(call);
        ProcessOutcome::Exited(Some(0))
    });
    assert_eq!(result, Ok(()));
    assert_eq!(seen.len(), 1);
    assert_eq!(seen[0].program, "ryzenadj");
    assert_eq!(
        seen[0].args,
        vec!["--stapm-limit", "15000", "--fast-limit", "20000", "--slow-limit", "17000"]
    );
}

#[test]
fn apply_fails_when_the_tool_exits_non_zero() {
    let mut registry = Registry::new();
    registry.append(quiet());
    let mut runs = 0;
    let result = apply_preset(&registry, "Quiet", |_call: Invocation| {
        runs += 1;
        ProcessOutcome::Exited(Some(3))
    });
    assert_eq!(result, Err("Command failed with exit code: 3".to_string()));
    assert_eq!(runs, 1);
}

#[test]
fn apply_reports_a_run_without_exit_code() {
    let mut registry = Registry::new();
    registry.append(quiet());
    let typed = apply(&registry, "Quiet", |_call: Invocation| ProcessOutcome::Exited(None));
    assert!(matches!(typed, Err(ApplyError::NonZeroExit(None))));
    let text = apply_preset(&registry, "Quiet", |_call: Invocation| ProcessOutcome::Exited(None));
    assert_eq!(
        text,
        Err("Command terminated abnormally without an exit code".to_string())
    );
}

#[test]
fn apply_reports_a_tool_that_did_not_start() {
    let mut registry = Registry::new();
    registry.append(quiet());
    let typed = apply(&registry, "Quiet", |_call: Invocation| {
        ProcessOutcome::NotStarted("No such file or directory (os error 2)".to_string())
    });
    match typed {
        Err(ApplyError::LaunchFailed(cause)) => {
            assert_eq!(cause, "No such file or directory (os error 2)")
        }
        other => panic!("unexpected: {:?}", other),
    }
    let text = apply_preset(&registry, "Quiet", |_call: Invocation| {
        ProcessOutcome::NotStarted("permission denied".to_string())
    });
    assert_eq!(text, Err("Failed to execute command: permission denied".to_string()));
}

#[test]
fn apply_uses_the_first_preset_of_a_name() {
    let mut registry = Registry::new();
    let mut first = quiet();
    first.stapm_limit = Some(1);
    first.fast_limit = None;
    first.slow_limit = None;
    registry.append(first);
    registry.append(quiet());
    match plan(&registry, "Quiet") {
        Ok(call) => assert_eq!(call.args, vec!["--stapm-limit", "1"]),
        Err(error) => panic!("unexpected: {:?}", error),
    }
}

#[test]
fn plan_for_a_preset_without_limits_runs_the_bare_tool() {
    let mut registry = Registry::new();
    let mut bare = quiet();
    bare.stapm_limit = None;
    bare.fast_limit = None;
    bare.slow_limit = None;
    registry.append(bare);
    match plan(&registry, "Quiet") {
        Ok(call) => {
            assert_eq!(call.program, "ryzenadj");
            assert!(call.args.is_empty());
        }
        Err(error) => panic!("unexpected: {:?}", error),
    }
}

#[test]
fn conclude_judges_each_outcome() {
    assert!(matches!(conclude(ProcessOutcome::Exited(Some(0))), Ok(())));
    assert!(matches!(
        conclude(ProcessOutcome::Exited(Some(1))),
        Err(ApplyError::NonZeroExit(Some(1)))
    ));
    assert!(matches!(
        conclude(ProcessOutcome::Exited(Some(-1))),
        Err(ApplyError::NonZeroExit(Some(-1)))
    ));
    assert!(matches!(conclude(ProcessOutcome::Exited(None)), Err(ApplyError::NonZeroExit(None))));
    match conclude(ProcessOutcome::NotStarted("gone".to_string())) {
        Err(ApplyError::LaunchFailed(cause)) => assert_eq!(cause, "gone"),
        other => panic!("unexpected: {:?}", other),
    }
}

#[test]
fn messages_of_each_error() {
    assert_eq!(ApplyError::NotFound("ghost".to_string()).message(), "Preset not found: ghost");
    assert_eq!(ApplyError::NotFound(String::new()).message(), "Preset not found: ");
    assert_eq!(
        ApplyError::LaunchFailed("no such file".to_string()).message(),
        "Failed to execute command: no such file"
    );
    assert_eq!(
        ApplyError::NonZeroExit(Some(127)).message(),
        "Command failed with exit code: 127"
    );
    assert_eq!(ApplyError::NonZeroExit(Some(-9)).message(), "Command failed with exit code: -9");
    assert_eq!(ApplyError::NonZeroExit(Some(1)).message(), "Command failed with exit code: 1");
    assert_eq!(
        ApplyError::NonZeroExit(None).message(),
        "Command terminated abnormally without an exit code"
    );
}

#[test]
fn saving_never_fails_and_keeps_duplicates() {
    let mut registry = Registry::new();
    assert_eq!(save_preset(&mut registry, quiet()), Ok(()));
    assert_eq!(save_preset(&mut registry, quiet()), Ok(()));
    assert_eq!(get_presets(&registry), Ok(vec![quiet(), quiet()]));
}

#[test]
fn get_presets_of_an_empty_registry() {
    assert_eq!(get_presets(&Registry::new()), Ok(Vec::new()));
}

#[test]
fn a_run_without_exit_code_is_told_apart_from_every_code() {
    let marked = ApplyError::NonZeroExit(None).message();
    assert!(!marked.chars().any(|c| c.is_ascii_digit()));
    for code in [i32::MIN, -9, -1, 0, 1, 2, 127, 255, i32::MAX] {
        assert_ne!(ApplyError::NonZeroExit(Some(code)).message(), marked);
    }
    let mut registry = Registry::new();
    registry.append(quiet());
    let killed = apply_preset(&registry, "Quiet", |_call: Invocation| ProcessOutcome::Exited(None));
    let failed =
        apply_preset(&registry, "Quiet", |_call: Invocation| ProcessOutcome::Exited(Some(1)));
    assert_eq!(failed, Err("Command failed with exit code: 1".to_string()));
    assert_ne!(killed, failed);
}
