use pomo::hooks::{hook_action, hook_notice, HookAction, Hooks};

#[test]
fn absent_hook_reports_and_spawns_nothing() {
    assert_eq!(hook_action(&None), HookAction::NoHook);
    assert_eq!(hook_notice(&None), Some("No hook configured".to_string()));
}

#[test]
fn commented_hook_reports_and_spawns_nothing() {
    let hook = Some("# foo".to_string());
    assert_eq!(hook_action(&hook), HookAction::Commented);
    assert_eq!(
        hook_notice(&hook),
        Some("Hook is commented out: # foo".to_string())
    );
}

#[test]
fn commented_hook_with_leading_whitespace() {
    let hook = Some("   # pkill afplay".to_string());
    assert_eq!(hook_action(&hook), HookAction::Commented);
    assert_eq!(
        hook_notice(&hook),
        Some("Hook is commented out:    # pkill afplay".to_string())
    );
}

#[test]
fn whitespace_hook_reports_empty() {
    let hook = Some("  ".to_string());
    assert_eq!(hook_action(&hook), HookAction::Empty);
    assert_eq!(hook_notice(&hook), Some("Hook is empty".to_string()));
}

#[test]
fn empty_string_hook_reports_empty() {
    let hook = Some(String::new());
    assert_eq!(hook_action(&hook), HookAction::Empty);
    assert_eq!(hook_notice(&hook), Some("Hook is empty".to_string()));
}

#[test]
fn live_hook_is_run_without_notice() {
    let hook = Some("echo hi".to_string());
    assert_eq!(hook_action(&hook), HookAction::Run);
    assert_eq!(hook_notice(&hook), None);
}

#[test]
fn hash_inside_command_is_still_live() {
    let hook = Some("echo '#'".to_string());
    assert_eq!(hook_action(&hook), HookAction::Run);
}

#[test]
fn hooks_struct_carries_four_commands() {
    let hooks = Hooks {
        work_start: Some("echo start".to_string()),
        work_end: None,
        break_start: Some("# off".to_string()),
        break_end: Some(" ".to_string()),
    };
    assert_eq!(hook_action(&hooks.work_start), HookAction::Run);
    assert_eq!(hook_action(&hooks.work_end), HookAction::NoHook);
    assert_eq!(hook_action(&hooks.break_start), HookAction::Commented);
    assert_eq!(hook_action(&hooks.break_end), HookAction::Empty);
}
