//! The doctor report inside the terminal client.

use crate::diagnostics;
use crate::diagnostics::{
    alt_enter_of, automatic_of, delivery_of, disposition_mark_of, instruction_of, keyboard_of,
    native_of, on_off_text, osc52_of, themes_of, vte_of, yes_no_text, ClipboardFacts, ColorFacts,
    DataControlFact, DiagnosticFacts, DiagnosticFinding, DiagnosticReport, DisplayServer,
    FindingDisposition, KeyboardFact, NewlineFact, RuntimeFact, VoiceFacts,
};
use crate::locale::LocaleContext;
use crate::render;
use crate::render::line_of;
use crate::text;
use crate::text::decimal_text;
use vstd::prelude::*;

verus! {

/// A fact: its label, already padded, and its value.
pub open spec fn fact_text(label: Seq<char>, value: Seq<char>) -> Seq<char> {
    label + value + "\n"@
}

fn fact(label: &str, value: &str) -> (text: String)
    ensures
        text@ == fact_text(label@, value@),
{
    let mut out = label.to_owned();
    out.append(value);
    out.append("\n");
    out
}

/// A section's title, with an empty line before it.
pub open spec fn section_text(title: Seq<char>) -> Seq<char> {
    "\n"@ + title + "\n"@
}

fn section(title: &str) -> (text: String)
    ensures
        text@ == section_text(title@),
{
    let mut out = "\n".to_owned();
    out.append(title);
    out.append("\n");
    out
}

/// The version that the terminal reports; no line where it does not.
pub open spec fn version_line(xtversion: RuntimeFact) -> Seq<char> {
    match xtversion {
        RuntimeFact::Available(value) => fact_text("  xtversion    "@, value@),
        RuntimeFact::NoReply | RuntimeFact::Unavailable => Seq::empty(),
    }
}

fn version_line_of(xtversion: &RuntimeFact) -> (text: String)
    ensures
        text@ == version_line(*xtversion),
{
    match xtversion {
        RuntimeFact::Available(value) => fact("  xtversion    ", value.as_str()),
        RuntimeFact::NoReply | RuntimeFact::Unavailable => String::new(),
    }
}

/// The multiplexer's wrapper; no line without one.
pub open spec fn byobu_line(byobu: Option<String>) -> Seq<char> {
    match byobu {
        Some(shown) => fact_text("  byobu        "@, shown@),
        None => Seq::empty(),
    }
}

fn byobu_line_of(byobu: &Option<String>) -> (text: String)
    ensures
        text@ == byobu_line(*byobu),
{
    match byobu {
        Some(shown) => fact("  byobu        ", shown.as_str()),
        None => String::new(),
    }
}

/// Colors and themes; nothing where the colors are not known.
pub open spec fn color_lines(color: ColorFacts) -> Seq<char> {
    match color.level {
        RuntimeFact::Available(level) => fact_text("  color        "@, level@) + fact_text(
            "  themes       "@,
            diagnostics::themes_text(color),
        ),
        RuntimeFact::NoReply | RuntimeFact::Unavailable => Seq::empty(),
    }
}

fn color_lines_of(color: &ColorFacts) -> (text: String)
    ensures
        text@ == color_lines(*color),
{
    match &color.level {
        RuntimeFact::Available(level) => {
            let mut out = fact("  color        ", level.as_str());
            out.append(fact("  themes       ", themes_of(color).as_str()).as_str());
            out
        },
        RuntimeFact::NoReply | RuntimeFact::Unavailable => String::new(),
    }
}

/// How modified keys arrive.
pub open spec fn keyboard_line(ctx: LocaleContext, keyboard: Option<KeyboardFact>) -> Seq<char> {
    match keyboard {
        Some(known) => fact_text("  keyboard     "@, diagnostics::keyboard_text(ctx, known)),
        None => Seq::empty(),
    }
}

fn keyboard_line_of(ctx: LocaleContext, keyboard: &Option<KeyboardFact>) -> (text: String)
    ensures
        text@ == keyboard_line(ctx, *keyboard),
{
    match keyboard {
        Some(known) => fact("  keyboard     ", keyboard_of(ctx, known).as_str()),
        None => String::new(),
    }
}

/// Why Shift+Enter does not do.
pub open spec fn newline_detail(ctx: LocaleContext, newline: NewlineFact) -> Seq<char> {
    match newline {
        NewlineFact::Vte { version } => diagnostics::vte_text(ctx, version),
        NewlineFact::XtermJs { terminal } => ctx.formatted(
            "doctor_format.newline.xterm_js"@,
            "{terminal}: xterm.js can't distinguish Shift+Enter"@,
            seq![("terminal"@, terminal@)],
        ),
        NewlineFact::NoKittyKeyboardProtocol => ctx.named(
            "doctor_format.newline.no_kitty_protocol"@,
            "no Kitty keyboard protocol; Shift+Enter == Enter"@,
        ),
    }
}

/// How a newline is typed.
pub open spec fn newline_line(ctx: LocaleContext, newline: Option<NewlineFact>) -> Seq<char> {
    match newline {
        Some(known) => fact_text(
            "  newline      "@,
            diagnostics::alt_enter_text(ctx, newline_detail(ctx, known)),
        ),
        None => Seq::empty(),
    }
}

fn newline_line_of(ctx: LocaleContext, newline: &Option<NewlineFact>) -> (text: String)
    ensures
        text@ == newline_line(ctx, *newline),
{
    match newline {
        Some(known) => {
            let detail = match known {
                NewlineFact::Vte { version } => vte_of(ctx, version),
                NewlineFact::XtermJs { terminal } => ctx.format_one(
                    "doctor_format.newline.xterm_js",
                    "{terminal}: xterm.js can't distinguish Shift+Enter",
                    "terminal",
                    terminal.as_str(),
                ),
                NewlineFact::NoKittyKeyboardProtocol => ctx.named_static_text(
                    "doctor_format.newline.no_kitty_protocol",
                    "no Kitty keyboard protocol; Shift+Enter == Enter",
                ).to_owned(),
            };
            fact("  newline      ", alt_enter_of(ctx, detail.as_str()).as_str())
        },
        None => String::new(),
    }
}

/// The environment section.
pub open spec fn environment_text(ctx: LocaleContext, facts: DiagnosticFacts) -> Seq<char> {
    render::line(ctx.named("doctor.section.environment"@, "Environment"@)) + fact_text(
        "  terminal     "@,
        facts.terminal@,
    ) + version_line(facts.xtversion) + fact_text("  multiplexer  "@, facts.multiplexer@)
        + byobu_line(facts.byobu) + fact_text(
        "  ssh          "@,
        diagnostics::yes_no(facts.ssh),
    ) + color_lines(facts.color) + keyboard_line(ctx, facts.keyboard) + newline_line(
        ctx,
        facts.newline,
    )
}

fn environment_of(ctx: LocaleContext, facts: &DiagnosticFacts) -> (text: String)
    ensures
        text@ == environment_text(ctx, *facts),
{
    let mut out = line_of(ctx.named_static_text("doctor.section.environment", "Environment"));
    out.append(fact("  terminal     ", facts.terminal.as_str()).as_str());
    out.append(version_line_of(&facts.xtversion).as_str());
    out.append(fact("  multiplexer  ", facts.multiplexer.as_str()).as_str());
    out.append(byobu_line_of(&facts.byobu).as_str());
    out.append(fact("  ssh          ", yes_no_text(facts.ssh)).as_str());
    out.append(color_lines_of(&facts.color).as_str());
    out.append(keyboard_line_of(ctx, &facts.keyboard).as_str());
    out.append(newline_line_of(ctx, &facts.newline).as_str());
    out
}

/// Data control under Wayland; no line elsewhere.
pub open spec fn data_control_line(clipboard: ClipboardFacts) -> Seq<char> {
    if clipboard.display_server == DisplayServer::Wayland {
        fact_text(
            "  data-control "@,
            diagnostics::on_off(clipboard.data_control == DataControlFact::Available),
        )
    } else {
        Seq::empty()
    }
}

/// The clipboard section.
pub open spec fn clipboard_text(ctx: LocaleContext, clipboard: ClipboardFacts) -> Seq<char> {
    section_text(ctx.named("doctor.section.clipboard"@, "Clipboard"@)) + fact_text(
        "  native       "@,
        diagnostics::native_text(clipboard),
    ) + fact_text("  tmux         "@, diagnostics::on_off(clipboard.tmux_route)) + fact_text(
        "  osc 52       "@,
        diagnostics::osc52_text(clipboard),
    ) + fact_text("  wrap         "@, diagnostics::on_off(clipboard.wrap_sink))
        + data_control_line(clipboard) + fact_text(
        "  status       "@,
        diagnostics::delivery_text(clipboard.delivery),
    )
}

fn clipboard_of(ctx: LocaleContext, clipboard: &ClipboardFacts) -> (text: String)
    ensures
        text@ == clipboard_text(ctx, *clipboard),
{
    let data_control = if clipboard.display_server == DisplayServer::Wayland {
        fact(
            "  data-control ",
            on_off_text(clipboard.data_control == DataControlFact::Available),
        )
    } else {
        String::new()
    };
    let mut out = section(ctx.named_static_text("doctor.section.clipboard", "Clipboard"));
    out.append(fact("  native       ", native_of(clipboard).as_str()).as_str());
    out.append(fact("  tmux         ", on_off_text(clipboard.tmux_route)).as_str());
    out.append(fact("  osc 52       ", osc52_of(clipboard)).as_str());
    out.append(fact("  wrap         ", on_off_text(clipboard.wrap_sink)).as_str());
    out.append(data_control.as_str());
    out.append(fact("  status       ", delivery_of(clipboard.delivery)).as_str());
    out
}

/// The microphone fact.
pub open spec fn microphone_text(voice: VoiceFacts) -> Seq<char> {
    match voice {
        VoiceFacts::Device { name, detail } => name@ + " ("@ + detail@ + ")"@,
        VoiceFacts::Missing { error } => "none detected"@,
    }
}

/// The voice section; none where nothing is known of voice.
pub open spec fn voice_text(ctx: LocaleContext, voice: Option<VoiceFacts>) -> Seq<char> {
    match voice {
        Some(known) => section_text(ctx.named("doctor.section.voice"@, "Voice"@)) + fact_text(
            "  microphone   "@,
            microphone_text(known),
        ),
        None => Seq::empty(),
    }
}

fn voice_of(ctx: LocaleContext, voice: &Option<VoiceFacts>) -> (text: String)
    ensures
        text@ == voice_text(ctx, *voice),
{
    match voice {
        Some(known) => {
            let shown = match known {
                VoiceFacts::Device { name, detail } => {
                    let mut shown = name.as_str().to_owned();
                    shown.append(" (");
                    shown.append(detail.as_str());
                    shown.append(")");
                    shown
                },
                VoiceFacts::Missing { error: _ } => "none detected".to_owned(),
            };
            let mut out = section(ctx.named_static_text("doctor.section.voice", "Voice"));
            out.append(fact("  microphone   ", shown.as_str()).as_str());
            out
        },
        None => String::new(),
    }
}

/// A line below a finding.
pub open spec fn detail_line(s: Seq<char>) -> Seq<char> {
    "      "@ + s + "\n"@
}

fn detail_line_of(s: &str) -> (text: String)
    ensures
        text@ == detail_line(s@),
{
    let mut out = "      ".to_owned();
    out.append(s);
    out.append("\n");
    out
}

/// A finding: its heading, then how it is fixed and what is to be noted, as far as that is
/// known.
pub open spec fn finding_text(ctx: LocaleContext, finding: DiagnosticFinding) -> Seq<char> {
    "\n  "@ + diagnostics::disposition_mark(finding.disposition) + " "@ + finding.id@ + "  "@
        + finding.message@ + "\n"@ + (match finding.automatic_remediation {
        Some(automatic) => detail_line(diagnostics::automatic_text(ctx, automatic)),
        None => Seq::empty(),
    }) + (match finding.remediation {
        Some(remediation) => detail_line(
            diagnostics::instruction_text(
                ctx,
                remediation,
                finding.automatic_remediation is Some,
            ),
        ),
        None => Seq::empty(),
    }) + (match finding.note {
        Some(note) => detail_line(
            ctx.formatted(
                "doctor_format.finding.note"@,
                "Note: {note}"@,
                seq![("note"@, note@)],
            ),
        ),
        None => Seq::empty(),
    })
}

fn format_finding(ctx: LocaleContext, finding: &DiagnosticFinding) -> (text: String)
    ensures
        text@ == finding_text(ctx, *finding),
{
    let automatic = match &finding.automatic_remediation {
        Some(automatic) => detail_line_of(automatic_of(ctx, automatic).as_str()),
        None => String::new(),
    };
    let by_hand = match &finding.remediation {
        Some(remediation) => {
            let has_automatic = match &finding.automatic_remediation {
                Some(_) => true,
                None => false,
            };
            detail_line_of(instruction_of(ctx, remediation, has_automatic).as_str())
        },
        None => String::new(),
    };
    let note = match &finding.note {
        Some(note) => detail_line_of(
            ctx.format_one(
                "doctor_format.finding.note",
                "Note: {note}",
                "note",
                note.as_str(),
            ).as_str(),
        ),
        None => String::new(),
    };
    let mut out = "\n  ".to_owned();
    out.append(disposition_mark_of(finding.disposition));
    out.append(" ");
    out.append(finding.id.as_str());
    out.append("  ");
    out.append(finding.message.as_str());
    out.append("\n");
    out.append(automatic.as_str());
    out.append(by_hand.as_str());
    out.append(note.as_str());
    out
}

/// The findings of one disposition, in order.
pub open spec fn findings_with(
    findings: Seq<DiagnosticFinding>,
    disposition: FindingDisposition,
) -> Seq<DiagnosticFinding> {
    findings.filter(|finding: DiagnosticFinding| finding.disposition == disposition)
}

/// The findings, one after the other.
pub open spec fn finding_blocks(ctx: LocaleContext, findings: Seq<DiagnosticFinding>) -> Seq<char>
    decreases findings.len(),
{
    if findings.len() == 0 {
        Seq::empty()
    } else {
        finding_blocks(ctx, findings.drop_last()) + finding_text(ctx, findings.last())
    }
}

/// The blocks of the findings of one disposition, and how many there are.
fn blocks_with(
    ctx: LocaleContext,
    findings: &Vec<DiagnosticFinding>,
    disposition: FindingDisposition,
) -> (blocks: (String, usize))
    ensures
        blocks.0@ == finding_blocks(ctx, findings_with(findings@, disposition)),
        blocks.1 == findings_with(findings@, disposition).len(),
{
    let ghost wanted = |finding: DiagnosticFinding| finding.disposition == disposition;
    let mut out = String::new();
    let mut count: usize = 0;
    let mut i: usize = 0;
    proof {
        reveal(Seq::filter);
        assert(findings@.take(0).filter(wanted) =~= Seq::empty());
    }
    while i < findings.len()
        invariant
            i <= findings@.len(),
            count <= i,
            wanted == (|finding: DiagnosticFinding| finding.disposition == disposition),
            count == findings@.take(i as int).filter(wanted).len(),
            out@ == finding_blocks(ctx, findings@.take(i as int).filter(wanted)),
        decreases findings@.len() - i,
    {
        let ghost before = findings@.take(i as int).filter(wanted);
        proof {
            reveal(Seq::filter);
            assert(findings@.take(i + 1).drop_last() =~= findings@.take(i as int));
            assert(findings@.take(i + 1).last() == findings@[i as int]);
        }
        if findings[i].disposition == disposition {
            out.append(format_finding(ctx, &findings[i]).as_str());
            count = count + 1;
            assert(before.push(findings@[i as int]).drop_last() =~= before);
        }
        i = i + 1;
    }
    assert(findings@.take(i as int) =~= findings@);
    (out, count)
}

/// The issues: each of them, or that there is none, or that one is shown further up.
pub open spec fn issues_text(ctx: LocaleContext, report: DiagnosticReport) -> Seq<char> {
    let issues = findings_with(report.findings@, FindingDisposition::Issue);
    if issues.len() > 0 {
        section_text(
            ctx.formatted(
                "doctor_format.issues_count"@,
                "Issues ({count})"@,
                seq![("count"@, text::decimal(issues.len()))],
            ),
        ) + finding_blocks(ctx, issues)
    } else if report.issue_count == 0 {
        section_text(ctx.named("doctor_format.no_issues"@, "No issues found."@))
    } else {
        section_text(
            ctx.named(
                "doctor_format.issue_in_clipboard_status"@,
                "An issue is shown in the Clipboard status above."@,
            ),
        )
    }
}

/// The recommendations; nothing where there is none.
pub open spec fn recommendations_text(ctx: LocaleContext, report: DiagnosticReport) -> Seq<char> {
    let recommendations = findings_with(report.findings@, FindingDisposition::Recommendation);
    if recommendations.len() > 0 {
        section_text(ctx.named("doctor.section.recommendations"@, "Recommendations"@))
            + finding_blocks(ctx, recommendations)
    } else {
        Seq::empty()
    }
}

fn format_findings(ctx: LocaleContext, report: &DiagnosticReport) -> (text: String)
    ensures
        text@ == issues_text(ctx, *report) + recommendations_text(ctx, *report),
{
    let issues = blocks_with(ctx, &report.findings, FindingDisposition::Issue);
    let recommendations = blocks_with(ctx, &report.findings, FindingDisposition::Recommendation);
    let mut out = if issues.1 > 0 {
        let count = decimal_text(issues.1 as u128);
        let title = ctx.format_one(
            "doctor_format.issues_count",
            "Issues ({count})",
            "count",
            count.as_str(),
        );
        let mut block = section(title.as_str());
        block.append(issues.0.as_str());
        block
    } else if report.issue_count == 0 {
        section(ctx.named_static_text("doctor_format.no_issues", "No issues found."))
    } else {
        section(
            ctx.named_static_text(
                "doctor_format.issue_in_clipboard_status",
                "An issue is shown in the Clipboard status above.",
            ),
        )
    };
    let rest = if recommendations.1 > 0 {
        let mut block = section(
            ctx.named_static_text("doctor.section.recommendations", "Recommendations"),
        );
        block.append(recommendations.0.as_str());
        block
    } else {
        String::new()
    };
    out.append(rest.as_str());
    out
}

/// The whole report.
pub open spec fn doctor_text(ctx: LocaleContext, report: DiagnosticReport) -> Seq<char> {
    environment_text(ctx, report.facts) + clipboard_text(ctx, report.facts.clipboard)
        + voice_text(ctx, report.facts.voice) + (issues_text(ctx, report)
        + recommendations_text(ctx, report))
}

/// The doctor report inside the terminal client.
pub fn format_doctor(ctx: LocaleContext, report: &DiagnosticReport) -> (text: String)
    ensures
        text@ == doctor_text(ctx, *report),
{
    let mut out = environment_of(ctx, &report.facts);
    out.append(clipboard_of(ctx, &report.facts.clipboard).as_str());
    out.append(voice_of(ctx, &report.facts.voice).as_str());
    out.append(format_findings(ctx, report).as_str());
    out
}

/// Every finding is shown once: the issues and the recommendations together are all of them.
pub proof fn findings_are_all_shown(findings: Seq<DiagnosticFinding>)
    ensures
        findings_with(findings, FindingDisposition::Issue).len() + findings_with(
            findings,
            FindingDisposition::Recommendation,
        ).len() == findings.len(),
    decreases findings.len(),
{
    reveal(Seq::filter);
    if findings.len() > 0 {
        findings_are_all_shown(findings.drop_last());
    }
}

/// The report starts with the terminal.
pub proof fn reports_start_with_the_terminal(ctx: LocaleContext, report: DiagnosticReport)
    ensures
        (ctx.named("doctor.section.environment"@, "Environment"@) + "\n"@ + "  terminal     "@
            + report.facts.terminal@ + "\n"@).is_prefix_of(doctor_text(ctx, report)),
{
    broadcast use text::lemma_starts_with;
    broadcast use text::lemma_starts_with_itself;

    let title = ctx.named("doctor.section.environment"@, "Environment"@) + "\n"@;
    let label = "  terminal     "@;
    text::lemma_regroup(title, label, report.facts.terminal@);
    text::lemma_regroup(title, label + report.facts.terminal@, "\n"@);
}

/// The report states where the client runs: the version of the terminal where it is known, the
/// multiplexer, its wrapper where there is one, and whether the session is remote.
pub proof fn environment_facts_are_stated(ctx: LocaleContext, report: DiagnosticReport)
    ensures
        ({
            let shown = doctor_text(ctx, report);
            let facts = report.facts;
            &&& facts.xtversion is Available ==> text::occurs_in(
                "  xtversion    "@ + facts.xtversion->Available_0@ + "\n"@,
                shown,
            )
            &&& text::occurs_in("  multiplexer  "@ + facts.multiplexer@ + "\n"@, shown)
            &&& facts.byobu is Some ==> text::occurs_in(
                "  byobu        "@ + facts.byobu->0@ + "\n"@,
                shown,
            )
            &&& facts.ssh ==> text::occurs_in("  ssh          "@ + "yes"@ + "\n"@, shown)
            &&& !facts.ssh ==> text::occurs_in("  ssh          "@ + "no"@ + "\n"@, shown)
        }),
{
    broadcast use text::group_occurrences;

}

/// The report states what the terminal shows and takes, as far as it is known: its colors and
/// themes, and how modified keys arrive.
pub proof fn colors_and_keys_are_stated(ctx: LocaleContext, report: DiagnosticReport)
    ensures
        ({
            let shown = doctor_text(ctx, report);
            let facts = report.facts;
            &&& facts.color.level is Available ==> text::occurs_in(
                "  color        "@ + facts.color.level->Available_0@ + "\n"@,
                shown,
            ) && text::occurs_in(
                "  themes       "@ + diagnostics::themes_text(facts.color) + "\n"@,
                shown,
            )
            &&& facts.keyboard is Some ==> text::occurs_in(
                "  keyboard     "@ + diagnostics::keyboard_text(ctx, facts.keyboard->0) + "\n"@,
                shown,
            )
        }),
{
    broadcast use text::group_occurrences;

}

/// A newline that takes Alt+Enter is stated with its reason: an old VTE, a terminal on xterm.js
/// by its name, or the lack of the Kitty protocol.
pub proof fn newlines_are_stated(ctx: LocaleContext, report: DiagnosticReport)
    requires
        report.facts.newline is Some,
    ensures
        ({
            let shown = doctor_text(ctx, report);
            let newline = report.facts.newline->0;
            let reason = match newline {
                NewlineFact::Vte { version } => diagnostics::vte_text(ctx, version),
                NewlineFact::XtermJs { terminal } => ctx.formatted(
                    "doctor_format.newline.xterm_js"@,
                    "{terminal}: xterm.js can't distinguish Shift+Enter"@,
                    seq![("terminal"@, terminal@)],
                ),
                NewlineFact::NoKittyKeyboardProtocol => ctx.named(
                    "doctor_format.newline.no_kitty_protocol"@,
                    "no Kitty keyboard protocol; Shift+Enter == Enter"@,
                ),
            };
            text::occurs_in(
                "  newline      "@ + diagnostics::alt_enter_text(ctx, reason) + "\n"@,
                shown,
            )
        }),
{
    broadcast use text::group_occurrences;

}

/// How long a fact of fifteen characters and a value is.
pub open spec fn fact_length(value: Seq<char>) -> nat {
    value.len() + 16
}

/// Nothing is stated of the environment but these facts, and none that was not found.
pub proof fn no_other_environment_fact_is_stated(ctx: LocaleContext, facts: DiagnosticFacts)
    ensures
        environment_text(ctx, facts).len() == ctx.named(
            "doctor.section.environment"@,
            "Environment"@,
        ).len() + 1 + fact_length(facts.terminal@) + (if facts.xtversion is Available {
            fact_length(facts.xtversion->Available_0@)
        } else {
            0
        }) + fact_length(facts.multiplexer@) + (if facts.byobu is Some {
            fact_length(facts.byobu->0@)
        } else {
            0
        }) + fact_length(diagnostics::yes_no(facts.ssh)) + (if facts.color.level is Available {
            fact_length(facts.color.level->Available_0@) + fact_length(
                diagnostics::themes_text(facts.color),
            )
        } else {
            0
        }) + (if facts.keyboard is Some {
            fact_length(diagnostics::keyboard_text(ctx, facts.keyboard->0))
        } else {
            0
        }) + (if facts.newline is Some {
            fact_length(
                diagnostics::alt_enter_text(ctx, newline_detail(ctx, facts.newline->0)),
            )
        } else {
            0
        }),
{
    reveal_strlit("\n");
    reveal_strlit("  terminal     ");
    reveal_strlit("  xtversion    ");
    reveal_strlit("  multiplexer  ");
    reveal_strlit("  byobu        ");
    reveal_strlit("  ssh          ");
    reveal_strlit("  color        ");
    reveal_strlit("  themes       ");
    reveal_strlit("  keyboard     ");
    reveal_strlit("  newline      ");
}

/// The report states every route that a copy can take, data control only under Wayland, and how
/// sure a copy is to arrive; and nothing else of the clipboard.
pub proof fn clipboard_facts_are_stated(ctx: LocaleContext, report: DiagnosticReport)
    ensures
        ({
            let shown = doctor_text(ctx, report);
            let clipboard = report.facts.clipboard;
            let title = "\n"@ + ctx.named("doctor.section.clipboard"@, "Clipboard"@) + "\n"@;
            let native = diagnostics::native_text(clipboard);
            let osc52 = diagnostics::osc52_text(clipboard);
            let status = diagnostics::delivery_text(clipboard.delivery);
            let tmux = if clipboard.tmux_route {
                "on"@
            } else {
                "off"@
            };
            let wrap = if clipboard.wrap_sink {
                "on"@
            } else {
                "off"@
            };
            let control = if clipboard.data_control == DataControlFact::Available {
                "on"@
            } else {
                "off"@
            };
            &&& text::occurs_in(title, shown)
            &&& text::occurs_in("  native       "@ + native + "\n"@, shown)
            &&& text::occurs_in("  tmux         "@ + tmux + "\n"@, shown)
            &&& text::occurs_in("  osc 52       "@ + osc52 + "\n"@, shown)
            &&& text::occurs_in("  wrap         "@ + wrap + "\n"@, shown)
            &&& text::occurs_in("  status       "@ + status + "\n"@, shown)
            &&& clipboard.display_server == DisplayServer::Wayland ==> text::occurs_in(
                "  data-control "@ + control + "\n"@,
                shown,
            )
            &&& clipboard_text(ctx, clipboard).len() == title.len() + fact_length(native)
                + fact_length(tmux) + fact_length(osc52) + fact_length(wrap) + fact_length(status)
                + (if clipboard.display_server == DisplayServer::Wayland {
                fact_length(control)
            } else {
                0
            })
        }),
{
    broadcast use text::group_occurrences;

    reveal_strlit("\n");
    reveal_strlit("  native       ");
    reveal_strlit("  tmux         ");
    reveal_strlit("  osc 52       ");
    reveal_strlit("  wrap         ");
    reveal_strlit("  status       ");
    reveal_strlit("  data-control ");
}

/// The microphone is named with its detail, or said to be missing; where nothing is known of
/// voice there is no section on it.
pub proof fn microphones_are_named(ctx: LocaleContext, voice: Option<VoiceFacts>)
    ensures
        voice is None ==> voice_text(ctx, voice).len() == 0,
        voice is Some ==> voice_text(ctx, voice) == "\n"@ + ctx.named(
            "doctor.section.voice"@,
            "Voice"@,
        ) + "\n"@ + ("  microphone   "@ + (match voice->0 {
            VoiceFacts::Device { name, detail } => name@ + " ("@ + detail@ + ")"@,
            VoiceFacts::Missing { error } => "none detected"@,
        }) + "\n"@),
{
}

/// A finding is its heading and then, each exactly where it is known, a line on the fix that the
/// client applies, a line on the fix by hand and a note.
pub proof fn findings_are_told_with_their_fixes(ctx: LocaleContext, finding: DiagnosticFinding)
    ensures
        ({
            let shown = finding_text(ctx, finding);
            let mark = if finding.disposition == FindingDisposition::Issue {
                "!"@
            } else {
                "i"@
            };
            let heading = "\n  "@ + mark + " "@ + finding.id@ + "  "@ + finding.message@ + "\n"@;
            let automatic = if finding.automatic_remediation is Some {
                "      "@ + diagnostics::automatic_text(ctx, finding.automatic_remediation->0)
                    + "\n"@
            } else {
                Seq::empty()
            };
            let by_hand = if finding.remediation is Some {
                "      "@ + diagnostics::instruction_text(
                    ctx,
                    finding.remediation->0,
                    finding.automatic_remediation is Some,
                ) + "\n"@
            } else {
                Seq::empty()
            };
            let note = if finding.note is Some {
                "      "@ + ctx.formatted(
                    "doctor_format.finding.note"@,
                    "Note: {note}"@,
                    seq![("note"@, finding.note->0@)],
                ) + "\n"@
            } else {
                Seq::empty()
            };
            &&& heading.is_prefix_of(shown)
            &&& text::occurs_in(automatic, shown)
            &&& text::occurs_in(by_hand, shown)
            &&& note.is_suffix_of(shown)
            &&& shown.len() == heading.len() + automatic.len() + by_hand.len() + note.len()
        }),
{
    broadcast use text::group_occurrences;

    let shown = finding_text(ctx, finding);
    let heading = "\n  "@ + diagnostics::disposition_mark(finding.disposition) + " "@ + finding.id@
        + "  "@ + finding.message@ + "\n"@;
    let note = if finding.note is Some {
        "      "@ + ctx.formatted(
            "doctor_format.finding.note"@,
            "Note: {note}"@,
            seq![("note"@, finding.note->0@)],
        ) + "\n"@
    } else {
        Seq::empty()
    };
    assert(shown.subrange(0, heading.len() as int) =~= heading);
    assert(shown.subrange(shown.len() - note.len(), shown.len() as int) =~= note);
}

/// Findings are sorted by their disposition alone and keep their order: one more finding is one
/// more of its own disposition, at the end, and none of the other.
pub proof fn findings_are_sorted_in_order(
    findings: Seq<DiagnosticFinding>,
    finding: DiagnosticFinding,
    disposition: FindingDisposition,
)
    ensures
        findings_with(Seq::empty(), disposition) == Seq::<DiagnosticFinding>::empty(),
        finding.disposition == disposition ==> findings_with(findings.push(finding), disposition)
            == findings_with(findings, disposition).push(finding),
        finding.disposition != disposition ==> findings_with(findings.push(finding), disposition)
            == findings_with(findings, disposition),
{
    reveal(Seq::filter);
    assert(findings.push(finding).drop_last() =~= findings);
    assert(findings_with(Seq::empty(), disposition) =~= Seq::<DiagnosticFinding>::empty());
}

/// The findings of a section stand one below the other, in order.
pub proof fn findings_stand_in_order(
    ctx: LocaleContext,
    findings: Seq<DiagnosticFinding>,
    finding: DiagnosticFinding,
)
    ensures
        finding_blocks(ctx, Seq::empty()) == Seq::<char>::empty(),
        finding_blocks(ctx, findings.push(finding)) == finding_blocks(ctx, findings) + finding_text(
            ctx,
            finding,
        ),
{
    assert(findings.push(finding).drop_last() =~= findings);
}

/// Where there are issues the report counts them and tells each. Without one it says that there
/// is none, or where it is shown, by the count of the report.
pub proof fn issues_are_counted_and_told(
    ctx: LocaleContext,
    report: DiagnosticReport,
    issues: Seq<DiagnosticFinding>,
)
    requires
        issues == findings_with(report.findings@, FindingDisposition::Issue),
    ensures
        text::occurs_in(issues_text(ctx, report), doctor_text(ctx, report)),
        issues.len() > 0 ==> issues_text(ctx, report) == "\n"@ + ctx.formatted(
            "doctor_format.issues_count"@,
            "Issues ({count})"@,
            seq![("count"@, text::decimal(issues.len()))],
        ) + "\n"@ + finding_blocks(ctx, issues),
        issues.len() == 0 && report.issue_count == 0 ==> issues_text(ctx, report) == "\n"@
            + ctx.named("doctor_format.no_issues"@, "No issues found."@) + "\n"@,
        issues.len() == 0 && report.issue_count > 0 ==> issues_text(ctx, report) == "\n"@
            + ctx.named(
            "doctor_format.issue_in_clipboard_status"@,
            "An issue is shown in the Clipboard status above."@,
        ) + "\n"@,
{
    broadcast use text::group_occurrences;

}

/// Where there are recommendations the report ends in them; without one there is no section.
pub proof fn recommendations_come_last(
    ctx: LocaleContext,
    report: DiagnosticReport,
    recommendations: Seq<DiagnosticFinding>,
)
    requires
        recommendations == findings_with(
            report.findings@,
            FindingDisposition::Recommendation,
        ),
    ensures
        recommendations.len() > 0 ==> ("\n"@ + ctx.named(
            "doctor.section.recommendations"@,
            "Recommendations"@,
        ) + "\n"@ + finding_blocks(ctx, recommendations)).is_suffix_of(doctor_text(ctx, report)),
        recommendations.len() == 0 ==> recommendations_text(ctx, report).len() == 0,
{
    if recommendations.len() > 0 {
        let shown = doctor_text(ctx, report);
        let end = "\n"@ + ctx.named("doctor.section.recommendations"@, "Recommendations"@) + "\n"@
            + finding_blocks(ctx, recommendations);
        assert(shown.subrange(shown.len() - end.len(), shown.len() as int) =~= end);
    }
}

/// The report holds all its sections, each once: what was found out, then what is to be done.
pub proof fn reports_hold_all_their_sections(ctx: LocaleContext, report: DiagnosticReport)
    ensures
        ({
            let shown = doctor_text(ctx, report);
            let start = environment_text(ctx, report.facts) + clipboard_text(
                ctx,
                report.facts.clipboard,
            ) + voice_text(ctx, report.facts.voice);
            let end = issues_text(ctx, report) + recommendations_text(ctx, report);
            &&& start.is_prefix_of(shown)
            &&& end.is_suffix_of(shown)
            &&& shown.len() == start.len() + end.len()
        }),
{
    let shown = doctor_text(ctx, report);
    let start = environment_text(ctx, report.facts) + clipboard_text(ctx, report.facts.clipboard)
        + voice_text(ctx, report.facts.voice);
    let end = issues_text(ctx, report) + recommendations_text(ctx, report);
    assert(shown.subrange(0, start.len() as int) =~= start);
    assert(shown.subrange(shown.len() - end.len(), shown.len() as int) =~= end);
}

} // verus!
