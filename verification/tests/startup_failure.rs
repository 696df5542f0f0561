use grok_build::locale::{english, parse_catalog, Catalog, Catalogs, LocaleContext, UiLocale};
use grok_build::startup_failure::{
    advice_for, attempted_agents, format_steps, join_message, label_rows, open_timeout, render,
    step_advice, whole_seconds,
    AgentKind, ConnectAttempt, Context, EarlierAttempt, NextStep, PhaseSnapshot, Reason,
    StartupFailure, StartupPhase, TimedStep, Wait,
};

fn catalog(source: &str) -> Catalog {
    parse_catalog("sample", source).unwrap()
}

fn catalogs() -> Catalogs {
    Catalogs {
        en_us: catalog("{}"),
        zh_cn: catalog("{}"),
        zh_cn_metadata: catalog("{}"),
        en_to_zh: catalog(
            r#"{"local agent": "本地代理", "Log": "日志",
                "Startup cancelled while connecting to the {agent}.": "连接{agent}时已取消启动。"}"#,
        ),
    }
}

fn step(label: &str, elapsed: &str) -> TimedStep {
    TimedStep { label: label.to_string(), elapsed: elapsed.to_string() }
}

fn timings(longest_step: Option<StartupPhase>) -> PhaseSnapshot {
    PhaseSnapshot {
        completed: vec![step("config_load", "12ms"), step("bootstrap", "3.2s")],
        open: Some(step("acp_initialize", "26.8s")),
        longest_step,
    }
}

fn context(attempt: ConnectAttempt) -> Context {
    Context {
        target: AgentKind::Embedded,
        attempt,
        version: "0.1.157".to_string(),
        log_path: "/home/u/.grok/logs/startup.log".to_string(),
        retry_command: "GROK_CONNECT_TIMEOUT=120 grok".to_string(),
    }
}

fn wait(secs: u64, subsec_nanos: u32) -> Wait {
    Wait { secs, subsec_nanos }
}

fn earlier(shaped_the_wait: bool, wedged_leader: bool) -> EarlierAttempt {
    EarlierAttempt {
        target: AgentKind::Leader,
        wait: wait(10, 0),
        shaped_the_wait,
        wedged_leader,
    }
}

#[test]
fn a_timeout_explains_itself() {
    let catalogs = catalogs();
    let failure = StartupFailure {
        context: context(ConnectAttempt::First),
        reason: Reason::TimedOut {
            waited: wait(30, 0),
            timings: timings(Some(StartupPhase::AcpInitialize)),
        },
    };
    assert_eq!(
        render(english(&catalogs), &failure),
        "Couldn't start Grok: startup timed out after 30s.\n\
         \n\
         \x20 The longest step was waiting for the agent to respond. Start Grok again.\n\
         \x20 On a slow machine or network filesystem, a larger startup budget can help.\n\
         \x20 Set it with the command below.\n\
         \n\
         \x20 Mode:    local agent\n\
         \x20 Version: 0.1.157\n\
         \x20 Steps:   config_load=12ms, bootstrap=3.2s, acp_initialize=26.8s+\n\
         \x20 Try:     GROK_CONNECT_TIMEOUT=120 grok\n\
         \x20 Log:     /home/u/.grok/logs/startup.log"
    );
}

#[test]
fn a_wedged_leader_is_restarted_first() {
    let catalogs = catalogs();
    let ctx = english(&catalogs);
    let attempt = ConnectAttempt::AfterFallback(earlier(true, true));
    let failure = StartupFailure {
        context: context(attempt),
        reason: Reason::TimedOut {
            waited: wait(29, 600_000_000),
            timings: timings(Some(StartupPhase::Bootstrap)),
        },
    };
    let text = render(ctx, &failure);
    assert!(text.starts_with("Couldn't start Grok: startup timed out after 30s.\n\n"), "{text}");
    assert!(text.contains("  Mode:    shared leader, then local agent\n"), "{text}");
    assert!(text.contains("  Try:     grok leader kill\n"), "{text}");
    let advice = advice_for(ctx, &timings(Some(StartupPhase::Bootstrap)), attempt);
    assert_eq!(
        advice.explanation(ctx),
        "The longest step was loading your account settings. Grok spent the first 10s on the shared leader. Stop it with the command below, which also stops any other Grok session using it, then start Grok again."
    );
}

#[test]
fn advice_follows_the_longest_step() {
    let catalogs = catalogs();
    let ctx = english(&catalogs);
    let quiet = ConnectAttempt::AfterFallback(earlier(false, false));
    let advice = advice_for(ctx, &timings(Some(StartupPhase::EagerAuth)), quiet);
    assert_eq!(advice.next_step, NextStep::CheckNetworkThenRetry);
    assert_eq!(advice.earlier, None);
    let none = advice_for(ctx, &timings(None), ConnectAttempt::First);
    assert_eq!(none.next_step, NextStep::Retry);
    assert_eq!(
        none.explanation(ctx),
        "No startup step had begun. Start Grok again. On a slow machine or network filesystem, a larger startup budget can help. Set it with the command below."
    );
    assert_eq!(
        step_advice(ctx, StartupPhase::LeaderConnect),
        ("connecting to the shared leader", NextStep::RestartSharedLeader)
    );
    assert_eq!(
        step_advice(ctx, StartupPhase::ManagedPolicy),
        ("checking your organization's managed policy", NextStep::CheckNetworkThenRetry)
    );
    assert_eq!(NextStep::Retry.command("retry"), Some("retry"));
    assert_eq!(NextStep::RestartSharedLeader.command("retry"), Some("grok leader kill"));
}

#[test]
fn a_cancelled_startup() {
    let catalogs = catalogs();
    let failure =
        StartupFailure { context: context(ConnectAttempt::First), reason: Reason::Cancelled };
    assert_eq!(
        render(english(&catalogs), &failure),
        "Startup cancelled while connecting to the local agent.\n\n  Mode:    local agent\n  Version: 0.1.157\n  Log:     /home/u/.grok/logs/startup.log"
    );
    let zh = LocaleContext::new(UiLocale::ZhCn, &catalogs);
    let text = render(zh, &failure);
    assert!(text.starts_with("连接本地代理时已取消启动。\n\n"), "{text}");
    assert_eq!(attempted_agents(zh, &failure.context), "本地代理");
}

#[test]
fn steps_are_listed_in_order() {
    assert_eq!(
        format_steps(&PhaseSnapshot { completed: vec![], open: None, longest_step: None }),
        "none"
    );
    assert_eq!(
        format_steps(&PhaseSnapshot {
            completed: vec![],
            open: Some(step("a", "1s")),
            longest_step: None
        }),
        "a=1s+"
    );
}

#[test]
fn seconds_are_rounded() {
    assert_eq!(whole_seconds(wait(0, 0)), "0s");
    assert_eq!(whole_seconds(wait(1, 499_999_999)), "1s");
    assert_eq!(whole_seconds(wait(1, 500_000_000)), "2s");
    assert_eq!(whole_seconds(wait(29, 999_000_000)), "30s");
    assert_eq!(whole_seconds(wait(u64::MAX, 0)), "18446744073709551615s");
}

#[test]
fn values_hang_under_their_label() {
    let long = "word ".repeat(20);
    let rows = vec![
        ("A".to_string(), long.trim_end().to_string()),
        ("Long".to_string(), "x".to_string()),
    ];
    let text = label_rows(&rows);
    let lines: Vec<&str> = text.lines().collect();
    assert_eq!(lines.len(), 3);
    assert!(lines[0].starts_with("  A:    word"));
    assert!(lines[1].starts_with("        word"));
    assert_eq!(lines[2], "  Long: x");
    assert_eq!(label_rows(&vec![]), "");
}

#[test]
fn the_label_column_counts_bytes() {
    let rows = vec![("日志".to_string(), "x".to_string()), ("A".to_string(), "y".to_string())];
    assert_eq!(label_rows(&rows), "  日志:     x\n  A:      y");
}

#[test]
fn a_message_is_put_together() {
    let catalogs = catalogs();
    assert_eq!(
        open_timeout(english(&catalogs), wait(4, 600_000_000), "  why"),
        "Couldn't start Grok: startup timed out after 5s.\n\n  why"
    );
    assert_eq!(join_message("a".to_string(), "b"), "a\n\nb");
}
