use grok_build::diagnostics::{
    AutomaticRemediation, ClipboardDelivery, ClipboardFacts, ColorFacts, DataControlFact,
    DiagnosticFacts, DiagnosticFinding, DiagnosticReport, DisplayServer, FindingDisposition,
    HostOs, KeyboardFact, NativeClipboardPreflight, NewlineFact, ProbeNote, ProbeStatus,
    Remediation, RuntimeFact, VoiceFacts,
};
use grok_build::doctor_format::format_doctor;
use grok_build::doctor_human;
use grok_build::locale::{english, parse_catalog, Catalog, Catalogs};

fn empty_catalog() -> Catalog {
    parse_catalog("sample", "{}").unwrap()
}

fn catalogs() -> Catalogs {
    Catalogs {
        en_us: empty_catalog(),
        zh_cn: empty_catalog(),
        zh_cn_metadata: empty_catalog(),
        en_to_zh: empty_catalog(),
    }
}

fn plain_report() -> DiagnosticReport {
    DiagnosticReport {
        facts: DiagnosticFacts {
            terminal: "Ghostty".to_string(),
            xtversion: RuntimeFact::NoReply,
            multiplexer: "none".to_string(),
            byobu: None,
            ssh: false,
            color: ColorFacts {
                level: RuntimeFact::Unavailable,
                available_themes: vec![],
                total_themes: 3,
            },
            keyboard: None,
            newline: None,
            clipboard: ClipboardFacts {
                native_preflight: NativeClipboardPreflight::LocalAvailable,
                native_tool: "pbcopy".to_string(),
                container_no_display: false,
                tmux_route: false,
                osc52_route: false,
                osc52_capability: "supported".to_string(),
                wrap_sink: false,
                display_server: DisplayServer::Other,
                data_control: DataControlFact::NotApplicable,
                delivery: ClipboardDelivery::Confirmed,
            },
            voice: None,
        },
        findings: vec![],
        probe_notes: vec![],
        issue_count: 0,
        recommendation_count: 0,
    }
}

fn finding(id: &str, disposition: FindingDisposition) -> DiagnosticFinding {
    DiagnosticFinding {
        id: id.to_string(),
        disposition,
        message: format!("about {id}"),
        automatic_remediation: None,
        remediation: None,
        note: None,
    }
}

fn note(probe: &str, message: Option<&str>, requires_live_tui: bool) -> ProbeNote {
    ProbeNote {
        probe: probe.to_string(),
        status: ProbeStatus::Error,
        message: message.map(str::to_string),
        requires_live_tui,
    }
}

fn full_report() -> DiagnosticReport {
    let mut report = plain_report();
    let facts = &mut report.facts;
    facts.xtversion = RuntimeFact::Available("ghostty 1.2".to_string());
    facts.byobu = Some("screen".to_string());
    facts.ssh = true;
    facts.color.level = RuntimeFact::Available("truecolor".to_string());
    facts.color.available_themes = vec!["Dark".to_string(), "Light".to_string()];
    facts.keyboard = Some(KeyboardFact {
        os: HostOs::Macos,
        modifier_delivery: "kitty".to_string(),
    });
    facts.newline = Some(NewlineFact::XtermJs { terminal: "VS Code".to_string() });
    facts.clipboard.native_preflight = NativeClipboardPreflight::RemoteOnly;
    facts.clipboard.container_no_display = true;
    facts.clipboard.tmux_route = true;
    facts.clipboard.osc52_route = true;
    facts.clipboard.wrap_sink = true;
    facts.clipboard.display_server = DisplayServer::Wayland;
    facts.clipboard.data_control = DataControlFact::Error;
    facts.clipboard.delivery = ClipboardDelivery::Failed;
    facts.voice = Some(VoiceFacts::Missing { error: "no device".to_string() });
    let mut issue = finding("tmux.passthrough", FindingDisposition::Issue);
    issue.automatic_remediation = Some(AutomaticRemediation {
        human_command: None,
        command: "fix tmux".to_string(),
    });
    issue.remediation = Some(Remediation { fix: "set -g x".to_string(), config_path: None });
    issue.note = Some("restart tmux".to_string());
    let mut advice = finding("font.nerd", FindingDisposition::Recommendation);
    advice.remediation = Some(Remediation {
        fix: "font = x".to_string(),
        config_path: Some("~/.config".to_string()),
    });
    report.findings = vec![advice, issue];
    report.probe_notes = vec![
        note("wayland.data-control", Some("timed out"), false),
        note("runtime.mouse", None, true),
        note("host.locale", Some("bad"), false),
    ];
    report.issue_count = 2;
    report.recommendation_count = 1;
    report
}

#[test]
fn a_plain_report_for_a_shell() {
    let catalogs = catalogs();
    assert_eq!(
        doctor_human::format(english(&catalogs), &plain_report()),
        "Grok Doctor\n\nEnvironment\n\
         \x20 · terminal                     Ghostty\n\
         \x20 ? terminal version             no reply\n\
         \x20 · multiplexer                  none\n\
         \x20 · ssh                          no\n\
         \x20 ? color                        unavailable\n\
         \x20 ? themes                       unavailable\n\
         \nClipboard\n\
         \x20 · native                       local (pbcopy)\n\
         \x20 · tmux                         off\n\
         \x20 · osc 52                       off\n\
         \x20 · SSH wrap                     off\n\
         \x20 · status                       confirmed\n\
         \n0 issues, 0 recommendations\n"
    );
}

#[test]
fn a_full_report_for_a_shell() {
    let catalogs = catalogs();
    assert_eq!(
        doctor_human::format(english(&catalogs), &full_report()),
        "Grok Doctor\n\nEnvironment\n\
         \x20 · terminal                     Ghostty\n\
         \x20 · terminal version             ghostty 1.2\n\
         \x20 · multiplexer                  none\n\
         \x20 · byobu                        screen\n\
         \x20 · ssh                          yes\n\
         \x20 · color                        truecolor\n\
         \x20 · themes                       2/3: Dark, Light\n\
         \x20 · keyboard                     kitty (OS rescue active)\n\
         \x20 · newline                      Alt+Enter (VS Code: xterm.js cannot distinguish Shift+Enter)\n\
         \nClipboard\n\
         \x20 · native                       container (pbcopy)\n\
         \x20 · tmux                         on\n\
         \x20 · osc 52                       supported\n\
         \x20 · SSH wrap                     on\n\
         \x20 ? data-control                 error: timed out\n\
         \x20 · status                       unavailable\n\
         \nVoice\n\
         \x20 · microphone                   none detected (no device)\n\
         \nFindings\n\
         \x20 i font.nerd                    about font.nerd\n\
         \x20   → Add `font = x` to ~/.config\n\
         \x20 ! tmux.passthrough             about tmux.passthrough\n\
         \x20   → Automatic setup: `fix tmux`\n\
         \x20   → One-off: `set -g x`\n\
         \x20     restart tmux\n\
         \nChecks not completed\n\
         \x20 ? runtime.mouse                error\n\
         \x20 ? host.locale                  error: bad\n\
         \nNeeds a running session\n\
         \x20 Some checks only run in Grok. Start Grok and run /doctor.\n\
         \n2 issues, 1 recommendation\n"
    );
}

#[test]
fn a_plain_report_inside_the_client() {
    let catalogs = catalogs();
    assert_eq!(
        format_doctor(english(&catalogs), &plain_report()),
        "Environment\n\
         \x20 terminal     Ghostty\n\
         \x20 multiplexer  none\n\
         \x20 ssh          no\n\
         \nClipboard\n\
         \x20 native       local (pbcopy)\n\
         \x20 tmux         off\n\
         \x20 osc 52       off\n\
         \x20 wrap         off\n\
         \x20 status       confirmed\n\
         \nNo issues found.\n"
    );
}

#[test]
fn a_full_report_inside_the_client() {
    let catalogs = catalogs();
    let mut report = full_report();
    report.findings[1].automatic_remediation.as_mut().unwrap().human_command =
        Some("grok doctor fix tmux".to_string());
    assert_eq!(
        format_doctor(english(&catalogs), &report),
        "Environment\n\
         \x20 terminal     Ghostty\n\
         \x20 xtversion    ghostty 1.2\n\
         \x20 multiplexer  none\n\
         \x20 byobu        screen\n\
         \x20 ssh          yes\n\
         \x20 color        truecolor\n\
         \x20 themes       2/3: Dark, Light\n\
         \x20 keyboard     kitty (OS rescue active)\n\
         \x20 newline      Alt+Enter (VS Code: xterm.js can't distinguish Shift+Enter)\n\
         \nClipboard\n\
         \x20 native       container (pbcopy)\n\
         \x20 tmux         on\n\
         \x20 osc 52       supported\n\
         \x20 wrap         on\n\
         \x20 data-control off\n\
         \x20 status       unavailable\n\
         \nVoice\n\
         \x20 microphone   none detected\n\
         \nIssues (1)\n\
         \n  ! tmux.passthrough  about tmux.passthrough\n\
         \x20     Automatic setup: `grok doctor fix tmux`\n\
         \x20     One-off: `set -g x`\n\
         \x20     Note: restart tmux\n\
         \nRecommendations\n\
         \n  i font.nerd  about font.nerd\n\
         \x20     Add `font = x` to ~/.config\n"
    );
}

#[test]
fn an_issue_without_a_finding_is_pointed_to() {
    let catalogs = catalogs();
    let mut report = plain_report();
    report.issue_count = 1;
    let text = format_doctor(english(&catalogs), &report);
    assert!(text.ends_with("\nAn issue is shown in the Clipboard status above.\n"), "{text}");
}

#[test]
fn newline_reasons() {
    let catalogs = catalogs();
    let ctx = english(&catalogs);
    let known = NewlineFact::Vte { version: Some("7800".to_string()) };
    assert_eq!(
        doctor_human::format_newline(ctx, &known),
        "Alt+Enter (VTE 7800; need >= 8200 for Shift+Enter)"
    );
    assert_eq!(
        doctor_human::format_newline(ctx, &NewlineFact::Vte { version: None }),
        "Alt+Enter (legacy VTE; need VTE >= 0.82 for Shift+Enter)"
    );
    assert_eq!(
        doctor_human::format_newline(ctx, &NewlineFact::NoKittyKeyboardProtocol),
        "Alt+Enter (no Kitty keyboard protocol; Shift+Enter equals Enter)"
    );
    let mut report = plain_report();
    report.facts.newline = Some(NewlineFact::NoKittyKeyboardProtocol);
    assert!(format_doctor(ctx, &report).contains(
        "  newline      Alt+Enter (no Kitty keyboard protocol; Shift+Enter == Enter)\n"
    ));
}

#[test]
fn data_control_under_wayland() {
    let catalogs = catalogs();
    let ctx = english(&catalogs);
    let mut report = plain_report();
    report.facts.clipboard.display_server = DisplayServer::Wayland;
    for (fact, row) in [
        (DataControlFact::Available, "  · data-control                 on\n"),
        (DataControlFact::Missing, "  · data-control                 off\n"),
        (DataControlFact::Unavailable, "  ? data-control                 unavailable\n"),
        (DataControlFact::Error, "  ? data-control                 error\n"),
    ] {
        report.facts.clipboard.data_control = fact;
        assert!(doctor_human::format(ctx, &report).contains(row), "{row}");
    }
    report.facts.clipboard.data_control = DataControlFact::NotApplicable;
    assert!(!doctor_human::format(ctx, &report).contains("data-control"));
}

#[test]
fn all_themes_and_devices() {
    let catalogs = catalogs();
    let ctx = english(&catalogs);
    let mut report = plain_report();
    report.facts.color.level = RuntimeFact::Available("256".to_string());
    report.facts.color.total_themes = 0;
    report.facts.voice = Some(VoiceFacts::Device {
        name: "Mic".to_string(),
        detail: "48 kHz".to_string(),
    });
    report.facts.keyboard =
        Some(KeyboardFact { os: HostOs::Other, modifier_delivery: "legacy".to_string() });
    let text = format_doctor(ctx, &report);
    assert!(text.contains("  themes       all\n"));
    assert!(text.contains("  microphone   Mic (48 kHz)\n"));
    assert!(text.contains("  keyboard     legacy (OS rescue unavailable on this platform)\n"));
    assert!(doctor_human::format(ctx, &report).contains("themes                       all\n"));
    assert!(doctor_human::fact_already_shows_probe("terminal.color"));
    assert!(!doctor_human::fact_already_shows_probe("terminal.size"));
}

#[test]
fn native_clipboard_states() {
    let catalogs = catalogs();
    let ctx = english(&catalogs);
    let mut report = plain_report();
    for (state, shown) in [
        (NativeClipboardPreflight::RemoteOnly, "remote (pbcopy)"),
        (NativeClipboardPreflight::Unavailable, "unavailable"),
        (NativeClipboardPreflight::Disabled, "off"),
    ] {
        report.facts.clipboard.native_preflight = state;
        assert!(format_doctor(ctx, &report).contains(&format!("  native       {shown}\n")));
    }
    report.facts.clipboard.delivery = ClipboardDelivery::Unverified;
    assert!(format_doctor(ctx, &report).contains("  status       unverified\n"));
}
