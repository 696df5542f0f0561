//! The doctor report for a shell, with a mark in front of every row.

use crate::diagnostics;
use crate::diagnostics::{
    alt_enter_of, automatic_of, delivery_of, disposition_mark_of, instruction_of, keyboard_of,
    native_of, on_off_text, osc52_of, themes_of, vte_of, yes_no_text, ClipboardFacts, ColorFacts,
    DataControlFact, DiagnosticFacts, DiagnosticFinding, DiagnosticReport, DisplayServer,
    KeyboardFact, NewlineFact, ProbeNote, ProbeStatus, RuntimeFact, VoiceFacts,
};
use crate::locale;
use crate::locale::LocaleContext;
use crate::text;
use crate::text::{decimal_text, left_align, same_text};
use vstd::prelude::*;

verus! {

pub const ROW_LABEL_WIDTH: usize = 28;

/// A row: a mark, a label and a value.
pub open spec fn row_text(marker: Seq<char>, label: Seq<char>, value: Seq<char>) -> Seq<char> {
    "  "@ + marker + " "@ + text::left_aligned(label, ROW_LABEL_WIDTH as nat) + " "@ + value
        + "\n"@
}

/// A row that states a fact.
pub open spec fn fact_text(label: Seq<char>, value: Seq<char>) -> Seq<char> {
    row_text("·"@, label, value)
}

/// A row for what is not known.
pub open spec fn unavailable_text(label: Seq<char>, value: Seq<char>) -> Seq<char> {
    row_text("?"@, label, value)
}

fn row(marker: &str, label: &str, value: &str) -> (text: String)
    ensures
        text@ == row_text(marker@, label@, value@),
{
    let mut out = "  ".to_owned();
    out.append(marker);
    out.append(" ");
    out.append(left_align(label, ROW_LABEL_WIDTH).as_str());
    out.append(" ");
    out.append(value);
    out.append("\n");
    out
}

fn fact(label: &str, value: &str) -> (text: String)
    ensures
        text@ == fact_text(label@, value@),
{
    row("·", label, value)
}

fn unavailable(label: &str, value: &str) -> (text: String)
    ensures
        text@ == unavailable_text(label@, value@),
{
    row("?", label, value)
}

/// A section's title, with an empty line before it.
pub open spec fn section_text(title: Seq<char>) -> Seq<char> {
    "\n"@ + title + "\n"@
}

fn section(title: &str) -> (text: String)
    ensures
        text@ == section_text(title@),
{
    let mut out = "\n".to_owned();
    out.append(title);
    out.append("\n");
    out
}

/// What points to the checks that need a running session.
pub open spec fn live_tui_text(ctx: LocaleContext) -> Seq<char> {
    ctx.named(
        "doctor.live_tui_cta"@,
        "Some checks only run in Grok. Start Grok and run /doctor."@,
    )
}

/// What points to the checks that need a running session.
pub fn live_tui_probe_cta<'c>(ctx: LocaleContext<'c>) -> (text: &'c str)
    ensures
        text@ == live_tui_text(ctx),
{
    ctx.named_static_text(
        "doctor.live_tui_cta",
        "Some checks only run in Grok. Start Grok and run /doctor.",
    )
}

/// The version that the terminal reports.
pub open spec fn version_rows(xtversion: RuntimeFact) -> Seq<char> {
    match xtversion {
        RuntimeFact::Available(value) => fact_text("terminal version"@, value@),
        RuntimeFact::NoReply => unavailable_text("terminal version"@, "no reply"@),
        RuntimeFact::Unavailable => unavailable_text("terminal version"@, "unavailable"@),
    }
}

fn version_rows_of(xtversion: &RuntimeFact) -> (text: String)
    ensures
        text@ == version_rows(*xtversion),
{
    match xtversion {
        RuntimeFact::Available(value) => fact("terminal version", value.as_str()),
        RuntimeFact::NoReply => unavailable("terminal version", "no reply"),
        RuntimeFact::Unavailable => unavailable("terminal version", "unavailable"),
    }
}

/// A fact that may be missing; no row without it.
pub open spec fn optional_fact(label: Seq<char>, value: Option<String>) -> Seq<char> {
    match value {
        Some(shown) => fact_text(label, shown@),
        None => Seq::empty(),
    }
}

fn optional_fact_of(label: &str, value: &Option<String>) -> (text: String)
    ensures
        text@ == optional_fact(label@, *value),
{
    match value {
        Some(shown) => fact(label, shown.as_str()),
        None => String::new(),
    }
}

/// Colors and themes.
pub open spec fn color_rows(color: ColorFacts) -> Seq<char> {
    match color.level {
        RuntimeFact::Available(level) => fact_text("color"@, level@) + fact_text(
            "themes"@,
            diagnostics::themes_text(color),
        ),
        RuntimeFact::NoReply | RuntimeFact::Unavailable => unavailable_text(
            "color"@,
            "unavailable"@,
        ) + unavailable_text("themes"@, "unavailable"@),
    }
}

fn color_rows_of(color: &ColorFacts) -> (text: String)
    ensures
        text@ == color_rows(*color),
{
    match &color.level {
        RuntimeFact::Available(level) => {
            let mut out = fact("color", level.as_str());
            out.append(fact("themes", themes_of(color).as_str()).as_str());
            out
        },
        RuntimeFact::NoReply | RuntimeFact::Unavailable => {
            let mut out = unavailable("color", "unavailable");
            out.append(unavailable("themes", "unavailable").as_str());
            out
        },
    }
}

/// How modified keys arrive.
pub open spec fn keyboard_row(ctx: LocaleContext, keyboard: Option<KeyboardFact>) -> Seq<char> {
    match keyboard {
        Some(known) => fact_text("keyboard"@, diagnostics::keyboard_text(ctx, known)),
        None => Seq::empty(),
    }
}

fn keyboard_row_of(ctx: LocaleContext, keyboard: &Option<KeyboardFact>) -> (text: String)
    ensures
        text@ == keyboard_row(ctx, *keyboard),
{
    match keyboard {
        Some(known) => fact("keyboard", keyboard_of(ctx, known).as_str()),
        None => String::new(),
    }
}

/// Why Shift+Enter does not do.
pub open spec fn newline_detail(ctx: LocaleContext, newline: NewlineFact) -> Seq<char> {
    match newline {
        NewlineFact::Vte { version } => diagnostics::vte_text(ctx, version),
        NewlineFact::XtermJs { terminal } => ctx.formatted(
            "doctor.newline.xterm_js"@,
            "{terminal}: xterm.js cannot distinguish Shift+Enter"@,
            seq![("terminal"@, terminal@)],
        ),
        NewlineFact::NoKittyKeyboardProtocol => ctx.named(
            "doctor.newline.no_kitty_protocol"@,
            "no Kitty keyboard protocol; Shift+Enter equals Enter"@,
        ),
    }
}

/// How a newline is typed.
pub fn format_newline(ctx: LocaleContext, newline: &NewlineFact) -> (text: String)
    ensures
        text@ == diagnostics::alt_enter_text(ctx, newline_detail(ctx, *newline)),
{
    let detail = match newline {
        NewlineFact::Vte { version } => vte_of(ctx, version),
        NewlineFact::XtermJs { terminal } => ctx.format_one(
            "doctor.newline.xterm_js",
            "{terminal}: xterm.js cannot distinguish Shift+Enter",
            "terminal",
            terminal.as_str(),
        ),
        NewlineFact::NoKittyKeyboardProtocol => ctx.named_static_text(
            "doctor.newline.no_kitty_protocol",
            "no Kitty keyboard protocol; Shift+Enter equals Enter",
        ).to_owned(),
    };
    alt_enter_of(ctx, detail.as_str())
}

/// The newline row.
pub open spec fn newline_row(ctx: LocaleContext, newline: Option<NewlineFact>) -> Seq<char> {
    match newline {
        Some(known) => fact_text(
            "newline"@,
            diagnostics::alt_enter_text(ctx, newline_detail(ctx, known)),
        ),
        None => Seq::empty(),
    }
}

fn newline_row_of(ctx: LocaleContext, newline: &Option<NewlineFact>) -> (text: String)
    ensures
        text@ == newline_row(ctx, *newline),
{
    match newline {
        Some(known) => fact("newline", format_newline(ctx, known).as_str()),
        None => String::new(),
    }
}

/// The title and the environment.
pub open spec fn environment_text(ctx: LocaleContext, facts: DiagnosticFacts) -> Seq<char> {
    ctx.named("doctor.title"@, "Grok Doctor"@) + "\n\n"@ + ctx.named(
        "doctor.section.environment"@,
        "Environment"@,
    ) + "\n"@ + fact_text("terminal"@, facts.terminal@) + version_rows(facts.xtversion)
        + fact_text("multiplexer"@, facts.multiplexer@) + optional_fact("byobu"@, facts.byobu)
        + fact_text("ssh"@, diagnostics::yes_no(facts.ssh)) + color_rows(facts.color)
        + keyboard_row(ctx, facts.keyboard) + newline_row(ctx, facts.newline)
}

fn environment_of(ctx: LocaleContext, facts: &DiagnosticFacts) -> (text: String)
    ensures
        text@ == environment_text(ctx, *facts),
{
    let mut out = ctx.named_static_text("doctor.title", "Grok Doctor").to_owned();
    out.append("\n\n");
    out.append(ctx.named_static_text("doctor.section.environment", "Environment"));
    out.append("\n");
    out.append(fact("terminal", facts.terminal.as_str()).as_str());
    out.append(version_rows_of(&facts.xtversion).as_str());
    out.append(fact("multiplexer", facts.multiplexer.as_str()).as_str());
    out.append(optional_fact_of("byobu", &facts.byobu).as_str());
    out.append(fact("ssh", yes_no_text(facts.ssh)).as_str());
    out.append(color_rows_of(&facts.color).as_str());
    out.append(keyboard_row_of(ctx, &facts.keyboard).as_str());
    out.append(newline_row_of(ctx, &facts.newline).as_str());
    out
}

/// The message of the first note on `probe`, if there is one and it has a message.
pub open spec fn first_message(notes: Seq<ProbeNote>, probe: Seq<char>) -> Option<Seq<char>>
    decreases notes.len(),
{
    if notes.len() == 0 {
        None
    } else if notes[0].probe@ == probe {
        text::optional_text(notes[0].message)
    } else {
        first_message(notes.drop_first(), probe)
    }
}

fn first_message_of<'a>(notes: &'a Vec<ProbeNote>, probe: &str) -> (message: Option<&'a str>)
    ensures
        (match message {
            Some(found) => Some(found@),
            None => None,
        }) == first_message(notes@, probe@),
{
    let mut i: usize = 0;
    assert(notes@.skip(0) =~= notes@);
    while i < notes.len()
        invariant
            i <= notes@.len(),
            first_message(notes@, probe@) == first_message(notes@.skip(i as int), probe@),
        decreases notes@.len() - i,
    {
        assert(notes@.skip(i as int).drop_first() =~= notes@.skip(i + 1));
        if same_text(notes[i].probe.as_str(), probe) {
            return match &notes[i].message {
                Some(found) => Some(found.as_str()),
                None => None,
            };
        }
        i = i + 1;
    }
    None
}

/// Data control under Wayland; no row elsewhere.
pub open spec fn data_control_row(clipboard: ClipboardFacts, notes: Seq<ProbeNote>) -> Seq<char> {
    if clipboard.display_server != DisplayServer::Wayland {
        Seq::empty()
    } else {
        match clipboard.data_control {
            DataControlFact::Available => fact_text("data-control"@, "on"@),
            DataControlFact::Missing => fact_text("data-control"@, "off"@),
            DataControlFact::Unavailable => unavailable_text("data-control"@, "unavailable"@),
            DataControlFact::Error => match first_message(notes, "wayland.data-control"@) {
                Some(message) => unavailable_text("data-control"@, "error: "@ + message),
                None => unavailable_text("data-control"@, "error"@),
            },
            DataControlFact::NotApplicable => Seq::empty(),
        }
    }
}

fn data_control_row_of(clipboard: &ClipboardFacts, notes: &Vec<ProbeNote>) -> (text: String)
    ensures
        text@ == data_control_row(*clipboard, notes@),
{
    if clipboard.display_server != DisplayServer::Wayland {
        return String::new();
    }
    match clipboard.data_control {
        DataControlFact::Available => fact("data-control", "on"),
        DataControlFact::Missing => fact("data-control", "off"),
        DataControlFact::Unavailable => unavailable("data-control", "unavailable"),
        DataControlFact::Error => match first_message_of(notes, "wayland.data-control") {
            Some(message) => {
                let mut detail = "error: ".to_owned();
                detail.append(message);
                unavailable("data-control", detail.as_str())
            },
            None => unavailable("data-control", "error"),
        },
        DataControlFact::NotApplicable => String::new(),
    }
}

/// The clipboard section.
pub open spec fn clipboard_text(
    ctx: LocaleContext,
    clipboard: ClipboardFacts,
    notes: Seq<ProbeNote>,
) -> Seq<char> {
    section_text(ctx.named("doctor.section.clipboard"@, "Clipboard"@)) + fact_text(
        "native"@,
        diagnostics::native_text(clipboard),
    ) + fact_text("tmux"@, diagnostics::on_off(clipboard.tmux_route)) + fact_text(
        "osc 52"@,
        diagnostics::osc52_text(clipboard),
    ) + fact_text("SSH wrap"@, diagnostics::on_off(clipboard.wrap_sink)) + data_control_row(
        clipboard,
        notes,
    ) + fact_text("status"@, diagnostics::delivery_text(clipboard.delivery))
}

fn clipboard_of(ctx: LocaleContext, clipboard: &ClipboardFacts, notes: &Vec<ProbeNote>) -> (text:
    String)
    ensures
        text@ == clipboard_text(ctx, *clipboard, notes@),
{
    let mut out = section(ctx.named_static_text("doctor.section.clipboard", "Clipboard"));
    out.append(fact("native", native_of(clipboard).as_str()).as_str());
    out.append(fact("tmux", on_off_text(clipboard.tmux_route)).as_str());
    out.append(fact("osc 52", osc52_of(clipboard)).as_str());
    out.append(fact("SSH wrap", on_off_text(clipboard.wrap_sink)).as_str());
    out.append(data_control_row_of(clipboard, notes).as_str());
    out.append(fact("status", delivery_of(clipboard.delivery)).as_str());
    out
}

/// The microphone fact.
pub open spec fn microphone_text(voice: VoiceFacts) -> Seq<char> {
    match voice {
        VoiceFacts::Device { name, detail } => name@ + " ("@ + detail@ + ")"@,
        VoiceFacts::Missing { error } => "none detected ("@ + error@ + ")"@,
    }
}

/// The voice section; none where nothing is known of voice.
pub open spec fn voice_text(ctx: LocaleContext, voice: Option<VoiceFacts>) -> Seq<char> {
    match voice {
        Some(known) => section_text(ctx.named("doctor.section.voice"@, "Voice"@)) + fact_text(
            "microphone"@,
            microphone_text(known),
        ),
        None => Seq::empty(),
    }
}

fn voice_of(ctx: LocaleContext, voice: &Option<VoiceFacts>) -> (text: String)
    ensures
        text@ == voice_text(ctx, *voice),
{
    match voice {
        Some(known) => {
            let shown = match known {
                VoiceFacts::Device { name, detail } => {
                    let mut shown = name.as_str().to_owned();
                    shown.append(" (");
                    shown.append(detail.as_str());
                    shown.append(")");
                    shown
                },
                VoiceFacts::Missing { error } => {
                    let mut shown = "none detected (".to_owned();
                    shown.append(error.as_str());
                    shown.append(")");
                    shown
                },
            };
            let mut out = section(ctx.named_static_text("doctor.section.voice", "Voice"));
            out.append(fact("microphone", shown.as_str()).as_str());
            out
        },
        None => String::new(),
    }
}

/// A line with an arrow.
pub open spec fn arrow_line(s: Seq<char>) -> Seq<char> {
    "    → "@ + s + "\n"@
}

fn arrow_line_of(s: &str) -> (text: String)
    ensures
        text@ == arrow_line(s@),
{
    let mut out = "    → ".to_owned();
    out.append(s);
    out.append("\n");
    out
}

/// A finding: its row, then how it is fixed and what is to be noted, as far as that is known.
pub open spec fn finding_text(ctx: LocaleContext, finding: DiagnosticFinding) -> Seq<char> {
    row_text(
        diagnostics::disposition_mark(finding.disposition),
        finding.id@,
        finding.message@,
    ) + (match finding.automatic_remediation {
        Some(automatic) => arrow_line(diagnostics::automatic_text(ctx, automatic)),
        None => Seq::empty(),
    }) + (match finding.remediation {
        Some(remediation) => arrow_line(
            diagnostics::instruction_text(
                ctx,
                remediation,
                finding.automatic_remediation is Some,
            ),
        ),
        None => Seq::empty(),
    }) + (match finding.note {
        Some(note) => "      "@ + note@ + "\n"@,
        None => Seq::empty(),
    })
}

fn format_finding(ctx: LocaleContext, finding: &DiagnosticFinding) -> (text: String)
    ensures
        text@ == finding_text(ctx, *finding),
{
    let automatic = match &finding.automatic_remediation {
        Some(automatic) => arrow_line_of(automatic_of(ctx, automatic).as_str()),
        None => String::new(),
    };
    let by_hand = match &finding.remediation {
        Some(remediation) => {
            let has_automatic = match &finding.automatic_remediation {
                Some(_) => true,
                None => false,
            };
            arrow_line_of(instruction_of(ctx, remediation, has_automatic).as_str())
        },
        None => String::new(),
    };
    let note = match &finding.note {
        Some(note) => {
            let mut line = "      ".to_owned();
            line.append(note.as_str());
            line.append("\n");
            line
        },
        None => String::new(),
    };
    let mut out = row(
        disposition_mark_of(finding.disposition),
        finding.id.as_str(),
        finding.message.as_str(),
    );
    out.append(automatic.as_str());
    out.append(by_hand.as_str());
    out.append(note.as_str());
    out
}

/// The findings, one after the other.
pub open spec fn finding_rows(ctx: LocaleContext, findings: Seq<DiagnosticFinding>) -> Seq<char>
    decreases findings.len(),
{
    if findings.len() == 0 {
        Seq::empty()
    } else {
        finding_rows(ctx, findings.drop_last()) + finding_text(ctx, findings.last())
    }
}

/// The findings section; none without findings.
pub open spec fn findings_text(ctx: LocaleContext, findings: Seq<DiagnosticFinding>) -> Seq<char> {
    if findings.len() == 0 {
        Seq::empty()
    } else {
        section_text(ctx.named("doctor.section.findings"@, "Findings"@)) + finding_rows(
            ctx,
            findings,
        )
    }
}

fn findings_of(ctx: LocaleContext, findings: &Vec<DiagnosticFinding>) -> (text: String)
    ensures
        text@ == findings_text(ctx, findings@),
{
    if findings.len() == 0 {
        return String::new();
    }
    let mut rows = String::new();
    let mut i: usize = 0;
    while i < findings.len()
        invariant
            i <= findings@.len(),
            rows@ == finding_rows(ctx, findings@.take(i as int)),
        decreases findings@.len() - i,
    {
        assert(findings@.take(i + 1).drop_last() =~= findings@.take(i as int));
        rows.append(format_finding(ctx, &findings[i]).as_str());
        i = i + 1;
    }
    assert(findings@.take(i as int) =~= findings@);
    let mut out = section(ctx.named_static_text("doctor.section.findings", "Findings"));
    out.append(rows.as_str());
    out
}

/// Whether a fact of the report already says what a note on `probe` would.
pub open spec fn is_shown_as_fact(probe: Seq<char>) -> bool {
    ||| probe == "runtime.xtversion"@
    ||| probe == "terminal.color"@
    ||| probe == "wayland.data-control"@
}

/// Whether a fact of the report already says what a note on `probe` would.
pub fn fact_already_shows_probe(probe: &str) -> (shown: bool)
    ensures
        shown == is_shown_as_fact(probe@),
{
    same_text(probe, "runtime.xtversion") || same_text(probe, "terminal.color") || same_text(
        probe,
        "wayland.data-control",
    )
}

/// The text for a probe's status.
pub open spec fn probe_status_text(status: ProbeStatus) -> Seq<char> {
    match status {
        ProbeStatus::Unsupported => "unsupported"@,
        ProbeStatus::Unavailable => "unavailable"@,
        ProbeStatus::Error => "error"@,
    }
}

fn probe_status(status: ProbeStatus) -> (text: &'static str)
    ensures
        text@ == probe_status_text(status),
{
    match status {
        ProbeStatus::Unsupported => "unsupported",
        ProbeStatus::Unavailable => "unavailable",
        ProbeStatus::Error => "error",
    }
}

/// The row of a check that did not complete.
pub open spec fn note_row(note: ProbeNote) -> Seq<char> {
    row_text(
        "?"@,
        note.probe@,
        match note.message {
            Some(message) => probe_status_text(note.status) + ": "@ + message@,
            None => probe_status_text(note.status),
        },
    )
}

fn note_row_of(note: &ProbeNote) -> (text: String)
    ensures
        text@ == note_row(*note),
{
    let mut shown = probe_status(note.status).to_owned();
    match &note.message {
        Some(message) => {
            shown.append(": ");
            shown.append(message.as_str());
        },
        None => {},
    }
    row("?", note.probe.as_str(), shown.as_str())
}

/// The notes that no fact already shows, in order.
pub open spec fn visible_notes(notes: Seq<ProbeNote>) -> Seq<ProbeNote> {
    notes.filter(|note: ProbeNote| !is_shown_as_fact(note.probe@))
}

/// The rows of the notes.
pub open spec fn note_rows(notes: Seq<ProbeNote>) -> Seq<char>
    decreases notes.len(),
{
    if notes.len() == 0 {
        Seq::empty()
    } else {
        note_rows(notes.drop_last()) + note_row(notes.last())
    }
}

/// The section of checks that did not complete; none where no note is visible.
pub open spec fn notes_text(ctx: LocaleContext, notes: Seq<ProbeNote>) -> Seq<char> {
    if visible_notes(notes).len() == 0 {
        Seq::empty()
    } else {
        section_text(
            ctx.named("doctor.section.checks_not_completed"@, "Checks not completed"@),
        ) + note_rows(visible_notes(notes))
    }
}

fn notes_of(ctx: LocaleContext, notes: &Vec<ProbeNote>) -> (text: String)
    ensures
        text@ == notes_text(ctx, notes@),
{
    let ghost visible = |note: ProbeNote| !is_shown_as_fact(note.probe@);
    let mut rows = String::new();
    let mut shown: usize = 0;
    let mut i: usize = 0;
    proof {
        reveal(Seq::filter);
        assert(notes@.take(0).filter(visible) =~= Seq::empty());
    }
    while i < notes.len()
        invariant
            i <= notes@.len(),
            shown <= i,
            visible == (|note: ProbeNote| !is_shown_as_fact(note.probe@)),
            shown == notes@.take(i as int).filter(visible).len(),
            rows@ == note_rows(notes@.take(i as int).filter(visible)),
        decreases notes@.len() - i,
    {
        let ghost before = notes@.take(i as int).filter(visible);
        proof {
            reveal(Seq::filter);
            assert(notes@.take(i + 1).drop_last() =~= notes@.take(i as int));
            assert(notes@.take(i + 1).last() == notes@[i as int]);
        }
        if !fact_already_shows_probe(notes[i].probe.as_str()) {
            rows.append(note_row_of(&notes[i]).as_str());
            shown = shown + 1;
            assert(before.push(notes@[i as int]).drop_last() =~= before);
        }
        i = i + 1;
    }
    assert(notes@.take(i as int) =~= notes@);
    if shown == 0 {
        return String::new();
    }
    let mut out = section(
        ctx.named_static_text("doctor.section.checks_not_completed", "Checks not completed"),
    );
    out.append(rows.as_str());
    out
}

/// Whether some check needs a running session.
pub open spec fn needs_live_tui(notes: Seq<ProbeNote>) -> bool {
    exists|i: int| 0 <= i < notes.len() && (#[trigger] notes[i]).requires_live_tui
}

fn any_needs_live_tui(notes: &Vec<ProbeNote>) -> (needs: bool)
    ensures
        needs == needs_live_tui(notes@),
{
    let mut i: usize = 0;
    while i < notes.len()
        invariant
            i <= notes@.len(),
            forall|j: int| 0 <= j < i ==> !(#[trigger] notes@[j]).requires_live_tui,
        decreases notes@.len() - i,
    {
        if notes[i].requires_live_tui {
            return true;
        }
        i = i + 1;
    }
    false
}

/// The section that points to a running session; none where no check needs one.
pub open spec fn live_section(ctx: LocaleContext, notes: Seq<ProbeNote>) -> Seq<char> {
    if needs_live_tui(notes) {
        section_text(
            ctx.named("doctor.section.needs_running_session"@, "Needs a running session"@),
        ) + "  "@ + live_tui_text(ctx) + "\n"@
    } else {
        Seq::empty()
    }
}

fn live_section_of(ctx: LocaleContext, notes: &Vec<ProbeNote>) -> (text: String)
    ensures
        text@ == live_section(ctx, notes@),
{
    if !any_needs_live_tui(notes) {
        return String::new();
    }
    let mut out = section(
        ctx.named_static_text("doctor.section.needs_running_session", "Needs a running session"),
    );
    out.append("  ");
    out.append(live_tui_probe_cta(ctx));
    out.append("\n");
    out
}

/// The singular for one, the plural for any other number.
pub open spec fn counted_word(count: usize, one: Seq<char>, more: Seq<char>) -> Seq<char> {
    if count == 1 {
        one
    } else {
        more
    }
}

/// How many issues and recommendations there are.
pub open spec fn counts_text(ctx: LocaleContext, issues: usize, recommendations: usize) -> Seq<
    char,
> {
    "\n"@ + ctx.formatted(
        "doctor.summary.counts"@,
        "{issues} {issue}, {recommendations} {recommendation}"@,
        seq![
            ("issues"@, text::decimal(issues as nat)),
            ("issue"@, counted_word(issues, "issue"@, "issues"@)),
            ("recommendations"@, text::decimal(recommendations as nat)),
            (
                "recommendation"@,
                counted_word(recommendations, "recommendation"@, "recommendations"@),
            ),
        ],
    ) + "\n"@
}

fn counts_of(ctx: LocaleContext, issues: usize, recommendations: usize) -> (text: String)
    ensures
        text@ == counts_text(ctx, issues, recommendations),
{
    let issue_count = decimal_text(issues as u128);
    let recommendation_count = decimal_text(recommendations as u128);
    let issue_word: &str = if issues == 1 {
        "issue"
    } else {
        "issues"
    };
    let recommendation_word: &str = if recommendations == 1 {
        "recommendation"
    } else {
        "recommendations"
    };
    let arguments: [(&str, &str); 4] = [
        ("issues", issue_count.as_str()),
        ("issue", issue_word),
        ("recommendations", recommendation_count.as_str()),
        ("recommendation", recommendation_word),
    ];
    assert(locale::argument_views(arguments@) =~= seq![
        ("issues"@, issue_count@),
        ("issue"@, issue_word@),
        ("recommendations"@, recommendation_count@),
        ("recommendation"@, recommendation_word@),
    ]);
    let counts = ctx.format_named(
        "doctor.summary.counts",
        "{issues} {issue}, {recommendations} {recommendation}",
        &arguments,
    );
    let mut out = "\n".to_owned();
    out.append(counts.as_str());
    out.append("\n");
    out
}

/// The whole report.
pub open spec fn report_text(ctx: LocaleContext, report: DiagnosticReport) -> Seq<char> {
    environment_text(ctx, report.facts) + clipboard_text(
        ctx,
        report.facts.clipboard,
        report.probe_notes@,
    ) + voice_text(ctx, report.facts.voice) + findings_text(ctx, report.findings@) + notes_text(
        ctx,
        report.probe_notes@,
    ) + live_section(ctx, report.probe_notes@) + counts_text(
        ctx,
        report.issue_count,
        report.recommendation_count,
    )
}

/// The doctor report for a shell.
pub fn format(ctx: LocaleContext, report: &DiagnosticReport) -> (text: String)
    ensures
        text@ == report_text(ctx, *report),
{
    let mut out = environment_of(ctx, &report.facts);
    out.append(clipboard_of(ctx, &report.facts.clipboard, &report.probe_notes).as_str());
    out.append(voice_of(ctx, &report.facts.voice).as_str());
    out.append(findings_of(ctx, &report.findings).as_str());
    out.append(notes_of(ctx, &report.probe_notes).as_str());
    out.append(live_section_of(ctx, &report.probe_notes).as_str());
    out.append(counts_of(ctx, report.issue_count, report.recommendation_count).as_str());
    out
}

/// A check whose outcome a fact already shows adds nothing to the checks that did not
/// complete.
pub proof fn shown_checks_are_not_repeated(notes: Seq<ProbeNote>, note: ProbeNote)
    requires
        is_shown_as_fact(note.probe@),
    ensures
        visible_notes(notes.push(note)) == visible_notes(notes),
{
    reveal(Seq::filter);
    assert(notes.push(note).drop_last() =~= notes);
}

/// A row starts with its mark, and where its label has at most 28 characters its value starts at
/// one and the same place, whatever the label.
pub proof fn rows_line_up(marker: Seq<char>, label: Seq<char>, value: Seq<char>)
    ensures
        ("  "@ + marker + " "@ + label).is_prefix_of(row_text(marker, label, value)),
        (" "@ + value + "\n"@).is_suffix_of(row_text(marker, label, value)),
        label.len() <= 28 ==> row_text(marker, label, value).len() == marker.len() + value.len()
            + 33,
        label.len() > 28 ==> row_text(marker, label, value).len() == marker.len() + label.len()
            + value.len() + 5,
{
    reveal_strlit("  ");
    reveal_strlit(" ");
    reveal_strlit("\n");
    let shown = row_text(marker, label, value);
    let start = "  "@ + marker + " "@ + label;
    let end = " "@ + value + "\n"@;
    text::alignment_adds_spaces_only(label, 28);
    assert(shown.subrange(0, start.len() as int) =~= start);
    assert(shown.subrange(shown.len() - end.len(), shown.len() as int) =~= end);
}

/// A fact carries a dot for a mark, and what is not known a question mark.
pub proof fn facts_and_gaps_are_marked(label: Seq<char>, value: Seq<char>)
    ensures
        fact_text(label, value) == row_text("·"@, label, value),
        unavailable_text(label, value) == row_text("?"@, label, value),
{
}

/// The report states where the client runs: the version of the terminal, or why it could not be
/// told, the multiplexer, its wrapper where there is one, and whether the session is remote.
pub proof fn environment_facts_are_stated(ctx: LocaleContext, report: DiagnosticReport)
    ensures
        ({
            let shown = report_text(ctx, report);
            let facts = report.facts;
            &&& facts.xtversion is Available ==> text::occurs_in(
                row_text("·"@, "terminal version"@, facts.xtversion->Available_0@),
                shown,
            )
            &&& facts.xtversion is NoReply ==> text::occurs_in(
                row_text("?"@, "terminal version"@, "no reply"@),
                shown,
            )
            &&& facts.xtversion is Unavailable ==> text::occurs_in(
                row_text("?"@, "terminal version"@, "unavailable"@),
                shown,
            )
            &&& text::occurs_in(row_text("·"@, "multiplexer"@, facts.multiplexer@), shown)
            &&& facts.byobu is Some ==> text::occurs_in(
                row_text("·"@, "byobu"@, facts.byobu->0@),
                shown,
            )
            &&& facts.ssh ==> text::occurs_in(row_text("·"@, "ssh"@, "yes"@), shown)
            &&& !facts.ssh ==> text::occurs_in(row_text("·"@, "ssh"@, "no"@), shown)
        }),
{
    broadcast use text::group_occurrences;

}

/// The report states what the terminal shows and takes: its colors and themes, or that they
/// could not be told, and how modified keys arrive where that is known.
pub proof fn colors_and_keys_are_stated(ctx: LocaleContext, report: DiagnosticReport)
    ensures
        ({
            let shown = report_text(ctx, report);
            let facts = report.facts;
            &&& facts.color.level is Available ==> text::occurs_in(
                row_text("·"@, "color"@, facts.color.level->Available_0@),
                shown,
            ) && text::occurs_in(
                row_text("·"@, "themes"@, diagnostics::themes_text(facts.color)),
                shown,
            )
            &&& !(facts.color.level is Available) ==> text::occurs_in(
                row_text("?"@, "color"@, "unavailable"@),
                shown,
            ) && text::occurs_in(row_text("?"@, "themes"@, "unavailable"@), shown)
            &&& facts.keyboard is Some ==> text::occurs_in(
                row_text("·"@, "keyboard"@, diagnostics::keyboard_text(ctx, facts.keyboard->0)),
                shown,
            )
        }),
{
    broadcast use text::group_occurrences;

}

/// The report starts with its title and the terminal.
pub proof fn reports_start_with_the_terminal(ctx: LocaleContext, report: DiagnosticReport)
    ensures
        (ctx.named("doctor.title"@, "Grok Doctor"@) + "\n\n"@ + ctx.named(
            "doctor.section.environment"@,
            "Environment"@,
        ) + "\n"@ + row_text("·"@, "terminal"@, report.facts.terminal@)).is_prefix_of(
            report_text(ctx, report),
        ),
{
    broadcast use text::lemma_starts_with;
    broadcast use text::lemma_starts_with_itself;

}

/// A newline that takes Alt+Enter is stated with its reason: an old VTE, a terminal on xterm.js
/// by its name, or the lack of the Kitty protocol.
pub proof fn newlines_are_stated(ctx: LocaleContext, report: DiagnosticReport)
    requires
        report.facts.newline is Some,
    ensures
        ({
            let shown = report_text(ctx, report);
            let newline = report.facts.newline->0;
            let reason = match newline {
                NewlineFact::Vte { version } => diagnostics::vte_text(ctx, version),
                NewlineFact::XtermJs { terminal } => ctx.formatted(
                    "doctor.newline.xterm_js"@,
                    "{terminal}: xterm.js cannot distinguish Shift+Enter"@,
                    seq![("terminal"@, terminal@)],
                ),
                NewlineFact::NoKittyKeyboardProtocol => ctx.named(
                    "doctor.newline.no_kitty_protocol"@,
                    "no Kitty keyboard protocol; Shift+Enter equals Enter"@,
                ),
            };
            text::occurs_in(
                row_text("·"@, "newline"@, diagnostics::alt_enter_text(ctx, reason)),
                shown,
            )
        }),
{
    broadcast use text::group_occurrences;

}

/// How long a row is.
pub open spec fn row_length(marker: Seq<char>, label: Seq<char>, value: Seq<char>) -> nat {
    row_text(marker, label, value).len()
}

/// Nothing is stated of the environment but these facts, and none that was not found.
pub proof fn no_other_environment_fact_is_stated(ctx: LocaleContext, facts: DiagnosticFacts)
    ensures
        environment_text(ctx, facts).len() == ctx.named("doctor.title"@, "Grok Doctor"@).len() + 2
            + ctx.named("doctor.section.environment"@, "Environment"@).len() + 1 + row_length(
            "·"@,
            "terminal"@,
            facts.terminal@,
        ) + version_rows(facts.xtversion).len() + row_length(
            "·"@,
            "multiplexer"@,
            facts.multiplexer@,
        ) + (if facts.byobu is Some {
            row_length("·"@, "byobu"@, facts.byobu->0@)
        } else {
            0
        }) + row_length("·"@, "ssh"@, diagnostics::yes_no(facts.ssh)) + color_rows(
            facts.color,
        ).len() + (if facts.keyboard is Some {
            row_length("·"@, "keyboard"@, diagnostics::keyboard_text(ctx, facts.keyboard->0))
        } else {
            0
        }) + newline_row(ctx, facts.newline).len(),
        facts.newline is None ==> newline_row(ctx, facts.newline).len() == 0,
        facts.newline is Some ==> newline_row(ctx, facts.newline).len() == row_length(
            "·"@,
            "newline"@,
            diagnostics::alt_enter_text(ctx, newline_detail(ctx, facts.newline->0)),
        ),
        color_rows(facts.color).len() == (if facts.color.level is Available {
            row_length("·"@, "color"@, facts.color.level->Available_0@) + row_length(
                "·"@,
                "themes"@,
                diagnostics::themes_text(facts.color),
            )
        } else {
            row_length("?"@, "color"@, "unavailable"@) + row_length(
                "?"@,
                "themes"@,
                "unavailable"@,
            )
        }),
        version_rows(facts.xtversion).len() == row_length(
            if facts.xtversion is Available {
                "·"@
            } else {
                "?"@
            },
            "terminal version"@,
            match facts.xtversion {
                RuntimeFact::Available(value) => value@,
                RuntimeFact::NoReply => "no reply"@,
                RuntimeFact::Unavailable => "unavailable"@,
            },
        ),
{
    reveal_strlit("\n\n");
    reveal_strlit("\n");
}

/// The report states every route that a copy can take, and how sure it is to arrive.
pub proof fn clipboard_facts_are_stated(ctx: LocaleContext, report: DiagnosticReport)
    ensures
        ({
            let shown = report_text(ctx, report);
            let clipboard = report.facts.clipboard;
            let control = data_control_row(clipboard, report.probe_notes@);
            &&& text::occurs_in(
                "\n"@ + ctx.named("doctor.section.clipboard"@, "Clipboard"@) + "\n"@,
                shown,
            )
            &&& text::occurs_in(
                row_text("·"@, "native"@, diagnostics::native_text(clipboard)),
                shown,
            )
            &&& text::occurs_in(
                row_text("·"@, "tmux"@, diagnostics::on_off(clipboard.tmux_route)),
                shown,
            )
            &&& text::occurs_in(
                row_text("·"@, "osc 52"@, diagnostics::osc52_text(clipboard)),
                shown,
            )
            &&& text::occurs_in(
                row_text("·"@, "SSH wrap"@, diagnostics::on_off(clipboard.wrap_sink)),
                shown,
            )
            &&& text::occurs_in(
                row_text("·"@, "status"@, diagnostics::delivery_text(clipboard.delivery)),
                shown,
            )
            &&& text::occurs_in(control, shown)
            &&& clipboard_text(ctx, clipboard, report.probe_notes@).len() == ctx.named(
                "doctor.section.clipboard"@,
                "Clipboard"@,
            ).len() + 2 + row_length("·"@, "native"@, diagnostics::native_text(clipboard))
                + row_length("·"@, "tmux"@, diagnostics::on_off(clipboard.tmux_route))
                + row_length("·"@, "osc 52"@, diagnostics::osc52_text(clipboard)) + row_length(
                "·"@,
                "SSH wrap"@,
                diagnostics::on_off(clipboard.wrap_sink),
            ) + control.len() + row_length(
                "·"@,
                "status"@,
                diagnostics::delivery_text(clipboard.delivery),
            )
        }),
{
    broadcast use text::group_occurrences;

    reveal_strlit("\n");
}

/// Data control is a matter of Wayland: elsewhere there is no row on it. An error is explained by
/// the first note on the check, where it has a message.
pub proof fn data_control_is_told_under_wayland(
    clipboard: ClipboardFacts,
    notes: Seq<ProbeNote>,
    i: int,
)
    requires
        0 <= i <= notes.len(),
        forall|j: int| 0 <= j < i ==> (#[trigger] notes[j]).probe@ != "wayland.data-control"@,
        i < notes.len() ==> notes[i].probe@ == "wayland.data-control"@,
    ensures
        clipboard.display_server != DisplayServer::Wayland ==> data_control_row(
            clipboard,
            notes,
        ).len() == 0,
        clipboard.display_server == DisplayServer::Wayland ==> data_control_row(clipboard, notes)
            == (match clipboard.data_control {
            DataControlFact::Available => row_text("·"@, "data-control"@, "on"@),
            DataControlFact::Missing => row_text("·"@, "data-control"@, "off"@),
            DataControlFact::Unavailable => row_text("?"@, "data-control"@, "unavailable"@),
            DataControlFact::Error => if i < notes.len() && notes[i].message is Some {
                row_text("?"@, "data-control"@, "error: "@ + notes[i].message->0@)
            } else {
                row_text("?"@, "data-control"@, "error"@)
            },
            DataControlFact::NotApplicable => Seq::empty(),
        }),
{
    lemma_first_message(notes, "wayland.data-control"@, i);
}

proof fn lemma_first_message(notes: Seq<ProbeNote>, probe: Seq<char>, i: int)
    requires
        0 <= i <= notes.len(),
        forall|j: int| 0 <= j < i ==> (#[trigger] notes[j]).probe@ != probe,
        i < notes.len() ==> notes[i].probe@ == probe,
    ensures
        i < notes.len() ==> first_message(notes, probe) == text::optional_text(notes[i].message),
        i == notes.len() ==> first_message(notes, probe) is None,
    decreases notes.len(),
{
    if notes.len() > 0 && i > 0 {
        let rest = notes.drop_first();
        assert(notes[0].probe@ != probe);
        assert forall|j: int| 0 <= j < i - 1 implies (#[trigger] rest[j]).probe@ != probe by {
            assert(notes[j + 1].probe@ != probe);
        }
        lemma_first_message(rest, probe, i - 1);
    }
}

/// The microphone is named with its detail, or the error that kept it from being found; where
/// nothing is known of voice there is no section on it.
pub proof fn microphones_are_named(ctx: LocaleContext, report: DiagnosticReport)
    ensures
        report.facts.voice is None ==> voice_text(ctx, report.facts.voice).len() == 0,
        report.facts.voice is Some ==> {
            let title = "\n"@ + ctx.named("doctor.section.voice"@, "Voice"@) + "\n"@;
            let fact = match report.facts.voice->0 {
                VoiceFacts::Device { name, detail } => name@ + " ("@ + detail@ + ")"@,
                VoiceFacts::Missing { error } => "none detected ("@ + error@ + ")"@,
            };
            &&& text::occurs_in(title, report_text(ctx, report))
            &&& text::occurs_in(row_text("·"@, "microphone"@, fact), report_text(ctx, report))
            &&& voice_text(ctx, report.facts.voice).len() == title.len() + row_length(
                "·"@,
                "microphone"@,
                fact,
            )
        },
{
    broadcast use text::group_occurrences;

}

/// A finding is its row and then, each exactly where it is known, a line on the fix that the
/// client applies, a line on the fix by hand and a note.
pub proof fn findings_are_told_with_their_fixes(ctx: LocaleContext, finding: DiagnosticFinding)
    ensures
        ({
            let shown = finding_text(ctx, finding);
            let row = row_text(
                if finding.disposition == diagnostics::FindingDisposition::Issue {
                    "!"@
                } else {
                    "i"@
                },
                finding.id@,
                finding.message@,
            );
            let automatic = if finding.automatic_remediation is Some {
                "    → "@ + diagnostics::automatic_text(ctx, finding.automatic_remediation->0)
                    + "\n"@
            } else {
                Seq::empty()
            };
            let by_hand = if finding.remediation is Some {
                "    → "@ + diagnostics::instruction_text(
                    ctx,
                    finding.remediation->0,
                    finding.automatic_remediation is Some,
                ) + "\n"@
            } else {
                Seq::empty()
            };
            let note = if finding.note is Some {
                "      "@ + finding.note->0@ + "\n"@
            } else {
                Seq::empty()
            };
            &&& row.is_prefix_of(shown)
            &&& text::occurs_in(automatic, shown)
            &&& text::occurs_in(by_hand, shown)
            &&& note.is_suffix_of(shown)
            &&& shown.len() == row.len() + automatic.len() + by_hand.len() + note.len()
        }),
{
    broadcast use text::group_occurrences;

    let shown = finding_text(ctx, finding);
    let row = row_text(
        diagnostics::disposition_mark(finding.disposition),
        finding.id@,
        finding.message@,
    );
    let note = if finding.note is Some {
        "      "@ + finding.note->0@ + "\n"@
    } else {
        Seq::empty()
    };
    assert(shown.subrange(0, row.len() as int) =~= row);
    assert(shown.subrange(shown.len() - note.len(), shown.len() as int) =~= note);
}

/// Findings stand one below the other, in order, under a title of their own; without a finding
/// there is no section.
pub proof fn findings_stand_in_order(
    ctx: LocaleContext,
    findings: Seq<DiagnosticFinding>,
    finding: DiagnosticFinding,
)
    ensures
        findings_text(ctx, Seq::empty()) == Seq::<char>::empty(),
        findings_text(ctx, seq![finding]) == "\n"@ + ctx.named(
            "doctor.section.findings"@,
            "Findings"@,
        ) + "\n"@ + finding_text(ctx, finding),
        findings.len() > 0 ==> findings_text(ctx, findings.push(finding)) == findings_text(
            ctx,
            findings,
        ) + finding_text(ctx, finding),
{
    reveal_with_fuel(finding_rows, 2);
    let one = seq![finding];
    assert(one.drop_last() =~= Seq::empty());
    assert(one.last() == finding);
    assert(finding_rows(ctx, one) =~= finding_text(ctx, finding));
    assert(findings.push(finding).drop_last() =~= findings);
    if findings.len() > 0 {
        assert(findings_text(ctx, findings.push(finding)) =~= findings_text(ctx, findings)
            + finding_text(ctx, finding));
    }
}

/// Whether a check is one of the three whose outcome the report states as a fact.
pub open spec fn is_stated(note: ProbeNote) -> bool {
    note.probe@ == "runtime.xtversion"@ || note.probe@ == "terminal.color"@ || note.probe@
        == "wayland.data-control"@
}

/// A check that did not complete has a row, with its status and its message where there is one,
/// unless a fact states its outcome; rows stand in order under a title of their own.
pub proof fn incomplete_checks_stand_in_order(
    ctx: LocaleContext,
    notes: Seq<ProbeNote>,
    note: ProbeNote,
)
    ensures
        ({
            let status = match note.status {
                ProbeStatus::Unsupported => "unsupported"@,
                ProbeStatus::Unavailable => "unavailable"@,
                ProbeStatus::Error => "error"@,
            };
            let row = if note.message is Some {
                row_text("?"@, note.probe@, status + ": "@ + note.message->0@)
            } else {
                row_text("?"@, note.probe@, status)
            };
            let title = "\n"@ + ctx.named(
                "doctor.section.checks_not_completed"@,
                "Checks not completed"@,
            ) + "\n"@;
            let before = notes_text(ctx, notes);
            let after = notes_text(ctx, notes.push(note));
            &&& notes_text(ctx, Seq::empty()) == Seq::<char>::empty()
            &&& is_stated(note) ==> after == before
            &&& !is_stated(note) && before.len() > 0 ==> after == before + row
            &&& !is_stated(note) && before.len() == 0 ==> after == title + row
        }),
{
    reveal(Seq::filter);
    reveal_strlit("\n");
    let seen = visible_notes(notes);
    assert(visible_notes(Seq::empty()) =~= Seq::<ProbeNote>::empty());
    assert(notes.push(note).drop_last() =~= notes);
    let title = section_text(
        ctx.named("doctor.section.checks_not_completed"@, "Checks not completed"@),
    );
    if !is_stated(note) {
        assert(visible_notes(notes.push(note)) == seen.push(note));
        assert(seen.push(note).drop_last() =~= seen);
        text::lemma_regroup(title, note_rows(seen), note_row(note));
        if seen.len() == 0 {
            lemma_nothing_in_front(note_row(note));
        }
    }
}

proof fn lemma_nothing_in_front(s: Seq<char>)
    ensures
        Seq::<char>::empty() + s == s,
{
    assert(Seq::<char>::empty() + s =~= s);
}

/// The report points to a running session exactly where some check needs one.
pub proof fn live_checks_are_pointed_to(ctx: LocaleContext, notes: Seq<ProbeNote>, i: int)
    ensures
        0 <= i < notes.len() && notes[i].requires_live_tui ==> live_section(ctx, notes) == "\n"@
            + ctx.named(
            "doctor.section.needs_running_session"@,
            "Needs a running session"@,
        ) + "\n"@ + "  "@ + ctx.named(
            "doctor.live_tui_cta"@,
            "Some checks only run in Grok. Start Grok and run /doctor."@,
        ) + "\n"@,
        (forall|j: int| 0 <= j < notes.len() ==> !(#[trigger] notes[j]).requires_live_tui)
            ==> live_section(ctx, notes).len() == 0,
{
}

/// The report ends in its counts, each with the singular for one and the plural for any other
/// number.
pub proof fn reports_end_in_their_counts(ctx: LocaleContext, report: DiagnosticReport)
    requires
        ctx.looked_up("doctor.summary.counts"@) is None,
    ensures
        ("\n"@ + text::decimal(report.issue_count as nat) + (if report.issue_count == 1 {
            " issue, "@
        } else {
            " issues, "@
        }) + text::decimal(report.recommendation_count as nat) + (if report.recommendation_count
            == 1 {
            " recommendation\n"@
        } else {
            " recommendations\n"@
        })).is_suffix_of(report_text(ctx, report)),
{
    let issues = report.issue_count;
    let recommendations = report.recommendation_count;
    lemma_counts(
        text::decimal(issues as nat),
        counted_word(issues, "issue"@, "issues"@),
        text::decimal(recommendations as nat),
        counted_word(recommendations, "recommendation"@, "recommendations"@),
    );
    reveal_strlit(" ");
    reveal_strlit(", ");
    reveal_strlit("\n");
    reveal_strlit("issue");
    reveal_strlit("issues");
    reveal_strlit(" issue, ");
    reveal_strlit(" issues, ");
    reveal_strlit("recommendation");
    reveal_strlit("recommendations");
    reveal_strlit(" recommendation\n");
    reveal_strlit(" recommendations\n");
    let first = if issues == 1 {
        " issue, "@
    } else {
        " issues, "@
    };
    let second = if recommendations == 1 {
        " recommendation\n"@
    } else {
        " recommendations\n"@
    };
    assert(first =~= " "@ + counted_word(issues, "issue"@, "issues"@) + ", "@);
    assert(second =~= " "@ + counted_word(recommendations, "recommendation"@, "recommendations"@)
        + "\n"@);
    lemma_seven_parts(
        text::decimal(issues as nat),
        counted_word(issues, "issue"@, "issues"@),
        text::decimal(recommendations as nat),
        counted_word(recommendations, "recommendation"@, "recommendations"@),
    );
    let counts = counts_text(ctx, issues, recommendations);
    let others = environment_text(ctx, report.facts) + clipboard_text(
        ctx,
        report.facts.clipboard,
        report.probe_notes@,
    ) + voice_text(ctx, report.facts.voice) + findings_text(ctx, report.findings@) + notes_text(
        ctx,
        report.probe_notes@,
    ) + live_section(ctx, report.probe_notes@);
    assert(report_text(ctx, report) == others + counts);
    text::lemma_ends_in(others, counts);
}

proof fn lemma_seven_parts(
    issues: Seq<char>,
    issue: Seq<char>,
    recommendations: Seq<char>,
    recommendation: Seq<char>,
)
    ensures
        "\n"@ + (issues + " "@ + issue + ", "@ + recommendations + " "@ + recommendation) + "\n"@
            == "\n"@ + issues + (" "@ + issue + ", "@) + recommendations + (" "@ + recommendation
            + "\n"@),
{
    assert("\n"@ + (issues + " "@ + issue + ", "@ + recommendations + " "@ + recommendation)
        + "\n"@ =~= "\n"@ + issues + (" "@ + issue + ", "@) + recommendations + (" "@
        + recommendation + "\n"@));
}

proof fn lemma_counts(
    issues: Seq<char>,
    issue: Seq<char>,
    recommendations: Seq<char>,
    recommendation: Seq<char>,
)
    ensures
        locale::expanded(
            "{issues} {issue}, {recommendations} {recommendation}"@,
            seq![
                ("issues"@, issues),
                ("issue"@, issue),
                ("recommendations"@, recommendations),
                ("recommendation"@, recommendation),
            ],
        ) == issues + " "@ + issue + ", "@ + recommendations + " "@ + recommendation,
{
    let arguments = seq![
        ("issues"@, issues),
        ("issue"@, issue),
        ("recommendations"@, recommendations),
        ("recommendation"@, recommendation),
    ];
    reveal_strlit("issues");
    reveal_strlit("issue");
    reveal_strlit("recommendations");
    reveal_strlit("recommendation");
    reveal_strlit(" ");
    reveal_strlit(", ");
    reveal_strlit("{issues} {issue}, {recommendations} {recommendation}");
    let none = Seq::<char>::empty();
    let fourth = " "@ + seq!['{'] + "recommendation"@ + seq!['}'] + none;
    let third = ", "@ + seq!['{'] + "recommendations"@ + seq!['}'] + fourth;
    let second = " "@ + seq!['{'] + "issue"@ + seq!['}'] + third;
    let first = none + seq!['{'] + "issues"@ + seq!['}'] + second;
    assert("{issues} {issue}, {recommendations} {recommendation}"@ =~= first);
    locale::expansion_goes_on_behind_a_name(none, "issues"@, second, arguments);
    locale::expansion_goes_on_behind_a_name(" "@, "issue"@, third, arguments);
    locale::expansion_goes_on_behind_a_name(", "@, "recommendations"@, fourth, arguments);
    locale::expansion_goes_on_behind_a_name(" "@, "recommendation"@, none, arguments);
    locale::templates_without_a_closed_brace_stay(none, arguments);
    assert("issues"@.len() != "issue"@.len());
    assert("issues"@.len() != "recommendations"@.len());
    assert("issues"@.len() != "recommendation"@.len());
    assert("issue"@.len() != "recommendations"@.len());
    assert("issue"@.len() != "recommendation"@.len());
    assert("recommendations"@.len() != "recommendation"@.len());
    locale::the_first_argument_of_a_name_counts(arguments, "issues"@, 0);
    locale::the_first_argument_of_a_name_counts(arguments, "issue"@, 1);
    locale::the_first_argument_of_a_name_counts(arguments, "recommendations"@, 2);
    locale::the_first_argument_of_a_name_counts(arguments, "recommendation"@, 3);
    assert(locale::expanded(first, arguments) =~= issues + " "@ + issue + ", "@ + recommendations
        + " "@ + recommendation);
}

/// The report holds all its sections, each once: what was found out, then what is to be done.
pub proof fn reports_hold_all_their_sections(ctx: LocaleContext, report: DiagnosticReport)
    ensures
        ({
            let shown = report_text(ctx, report);
            let notes = report.probe_notes@;
            let start = environment_text(ctx, report.facts) + clipboard_text(
                ctx,
                report.facts.clipboard,
                notes,
            ) + voice_text(ctx, report.facts.voice);
            let end = findings_text(ctx, report.findings@) + notes_text(ctx, notes)
                + live_section(ctx, notes) + counts_text(
                ctx,
                report.issue_count,
                report.recommendation_count,
            );
            &&& start.is_prefix_of(shown)
            &&& end.is_suffix_of(shown)
            &&& text::occurs_in(findings_text(ctx, report.findings@), shown)
            &&& text::occurs_in(notes_text(ctx, notes), shown)
            &&& text::occurs_in(live_section(ctx, notes), shown)
            &&& shown.len() == environment_text(ctx, report.facts).len() + clipboard_text(
                ctx,
                report.facts.clipboard,
                notes,
            ).len() + voice_text(ctx, report.facts.voice).len() + findings_text(
                ctx,
                report.findings@,
            ).len() + notes_text(ctx, notes).len() + live_section(ctx, notes).len() + counts_text(
                ctx,
                report.issue_count,
                report.recommendation_count,
            ).len()
        }),
{
    broadcast use text::group_occurrences;
    broadcast use text::lemma_starts_with;
    broadcast use text::lemma_starts_with_itself;

    let notes = report.probe_notes@;
    let start = environment_text(ctx, report.facts) + clipboard_text(
        ctx,
        report.facts.clipboard,
        notes,
    ) + voice_text(ctx, report.facts.voice);
    let findings = findings_text(ctx, report.findings@);
    let checks = notes_text(ctx, notes);
    let live = live_section(ctx, notes);
    let counts = counts_text(ctx, report.issue_count, report.recommendation_count);
    text::lemma_five_parts(start, findings, checks, live, counts);
    text::lemma_ends_in(start, findings + checks + live + counts);
}

/// In every language the report ends in words that are given both counts, each with its noun in
/// the singular for one and the plural for any other number.
pub proof fn counts_are_given_with_their_nouns(
    ctx: LocaleContext,
    issues: usize,
    recommendations: usize,
)
    ensures
        counts_text(ctx, issues, recommendations) == "\n"@ + ctx.formatted(
            "doctor.summary.counts"@,
            "{issues} {issue}, {recommendations} {recommendation}"@,
            seq![
                ("issues"@, text::decimal(issues as nat)),
                (
                    "issue"@,
                    if issues == 1 {
                        "issue"@
                    } else {
                        "issues"@
                    },
                ),
                ("recommendations"@, text::decimal(recommendations as nat)),
                (
                    "recommendation"@,
                    if recommendations == 1 {
                        "recommendation"@
                    } else {
                        "recommendations"@
                    },
                ),
            ],
        ) + "\n"@,
{
}

} // verus!
