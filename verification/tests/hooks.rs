use coclai::hooks::{
    collect_hook_outcomes, merge_hook_configs, merge_owned_with_overlay, merge_preferred_hooks,
    normalize_issue, HookIssue, HookIssueClass, HookKernel, HookPhase, HookReport, PluginContractVersion,
    RuntimeHookConfig,
};

fn names(xs: &[&str]) -> Vec<String> {
    xs.iter().map(|x| x.to_string()).collect()
}

#[test]
fn plugin_contract_major_must_match() {
    let current = PluginContractVersion::current();
    assert!(current.is_compatible_with(PluginContractVersion::new(1, 99)));
    assert!(!current.is_compatible_with(PluginContractVersion::new(2, 0)));
}

#[test]
fn hook_report_tracks_issues() {
    let mut report = HookReport::default();
    assert!(report.is_clean());
    report.push(HookIssue {
        hook_name: "pre_sanitize".to_owned(),
        phase: HookPhase::PreRun,
        class: HookIssueClass::Validation,
        message: "invalid metadata".to_owned(),
    });
    assert!(!report.is_clean());
    assert_eq!(report.issues.len(), 1);
}

#[test]
fn current_contract_is_one_zero() {
    assert_eq!(PluginContractVersion::current(), PluginContractVersion::new(1, 0));
}

#[test]
fn issues_are_attributed_to_the_running_hook() {
    let issue = HookIssue {
        hook_name: "  ".to_owned(),
        phase: HookPhase::PostRun,
        class: HookIssueClass::Execution,
        message: "boom".to_owned(),
    };
    let n = normalize_issue(issue.clone(), "fallback", HookPhase::PreTurn);
    assert_eq!(n.hook_name, "fallback");
    assert_eq!(n.phase, HookPhase::PreTurn);
    assert_eq!(n.message, "boom");
    let named = HookIssue { hook_name: "mine".to_owned(), ..issue };
    assert_eq!(normalize_issue(named, "fallback", HookPhase::PreRun).hook_name, "mine");
}

#[test]
fn merged_hooks_put_overlay_first_and_drop_duplicates() {
    let defaults = RuntimeHookConfig::new()
        .with_pre_hook("a".to_owned())
        .with_pre_hook("b".to_owned())
        .with_post_hook("p".to_owned());
    let overlay = RuntimeHookConfig::new()
        .with_pre_hook("b".to_owned())
        .with_pre_hook("c".to_owned());
    let merged = merge_hook_configs(&defaults, &overlay);
    assert_eq!(merged.pre_hooks, names(&["b", "c", "a"]));
    assert_eq!(merged.post_hooks, names(&["p"]));
    let only_defaults = merge_hook_configs(&defaults, &RuntimeHookConfig::new());
    assert_eq!(only_defaults, defaults);
    let only_overlay = merge_hook_configs(&RuntimeHookConfig::new(), &overlay);
    assert_eq!(only_overlay, overlay);
    assert!(!RuntimeHookConfig::new().is_empty());
    assert!(RuntimeHookConfig::new().with_post_hook("p".to_owned()).is_empty());
}

#[test]
fn list_merges_keep_first_names() {
    assert_eq!(
        merge_preferred_hooks(&names(&["x", "y", "x"]), &names(&["y", "z"])),
        names(&["x", "y", "z"])
    );
    assert_eq!(
        merge_owned_with_overlay(names(&["a"]), Some(&names(&["a", "b"]))),
        names(&["a", "b"])
    );
    assert_eq!(merge_owned_with_overlay(names(&["a", "a"]), None), names(&["a", "a"]));
}

#[test]
fn kernel_registers_new_names_only_and_orders_scoped_hooks_last() {
    let mut kernel = HookKernel::new(RuntimeHookConfig::new().with_pre_hook("a".to_owned()));
    assert!(kernel.is_enabled());
    kernel.register(RuntimeHookConfig::new().with_pre_hook("a".to_owned()).with_pre_hook("b".to_owned()));
    assert_eq!(kernel.pre_hooks, names(&["a", "b"]));
    let scoped = RuntimeHookConfig::new().with_pre_hook("c".to_owned()).with_pre_hook("a".to_owned());
    assert_eq!(kernel.pre_hooks_for(Some(&scoped)), names(&["a", "b", "c"]));
    assert_eq!(kernel.post_hooks_for(None), names(&[]));
    assert!(!HookKernel::new(RuntimeHookConfig::new()).is_enabled());
}

#[test]
fn hook_outcomes_split_into_answers_and_recorded_issues() {
    let mut kernel = HookKernel::new(RuntimeHookConfig::new());
    let mut report = HookReport::default();
    let outcomes: Vec<Result<u32, HookIssue>> = vec![
        Ok(1),
        Err(HookIssue {
            hook_name: "".to_owned(),
            phase: HookPhase::PostRun,
            class: HookIssueClass::Execution,
            message: "boom".to_owned(),
        }),
        Ok(3),
    ];
    let answers = collect_hook_outcomes(&names(&["h1", "h2", "h3"]), outcomes, HookPhase::PreTurn, &mut report);
    assert_eq!(answers, vec![("h1".to_owned(), 1), ("h3".to_owned(), 3)]);
    assert_eq!(report.issues.len(), 1);
    assert_eq!(report.issues[0].hook_name, "h2");
    assert_eq!(report.issues[0].phase, HookPhase::PreTurn);
    kernel.set_latest_report(report.clone());
    assert_eq!(kernel.report_snapshot(), report);
}

#[test]
fn registering_the_same_hooks_twice_changes_nothing() {
    let mut kernel = HookKernel::new(RuntimeHookConfig::new().with_pre_hook("a".to_owned()));
    let extra = RuntimeHookConfig::new().with_pre_hook("b".to_owned()).with_pre_hook("a".to_owned()).with_post_hook("p".to_owned());
    kernel.register(extra.clone());
    let once_pre = kernel.pre_hooks.clone();
    let once_post = kernel.post_hooks.clone();
    kernel.register(extra);
    assert_eq!(kernel.pre_hooks, once_pre);
    assert_eq!(kernel.post_hooks, once_post);
    assert_eq!(once_pre, vec!["a".to_owned(), "b".to_owned()]);
}
