//! Diagnostic facts and findings, and the texts that both renderers of them share.
//!
//! Values that other parts of the client know how to show (a terminal's name, a theme's
//! name, a capability) are held here as they are shown.

use crate::locale::LocaleContext;
use crate::text;
use crate::text::{decimal_text, join_text};
use vstd::prelude::*;

verus! {

/// A value that is known only while the client runs in a terminal.
#[derive(Debug)]
pub enum RuntimeFact {
    Available(String),
    NoReply,
    Unavailable,
}

/// The colors of the terminal and the themes that they allow.
#[derive(Debug)]
pub struct ColorFacts {
    pub level: RuntimeFact,
    pub available_themes: Vec<String>,
    pub total_themes: usize,
}

/// The operating system, as far as the report tells it apart.
#[derive(Debug, Clone, Copy, PartialEq, Eq, Structural)]
pub enum HostOs {
    Macos,
    Other,
}

/// The display server, as far as the report tells it apart.
#[derive(Debug, Clone, Copy, PartialEq, Eq, Structural)]
pub enum DisplayServer {
    Wayland,
    Other,
}

/// How modified keys reach the client.
#[derive(Debug)]
pub struct KeyboardFact {
    pub os: HostOs,
    pub modifier_delivery: String,
}

/// Why a newline needs Alt+Enter.
#[derive(Debug)]
pub enum NewlineFact {
    Vte { version: Option<String> },
    XtermJs { terminal: String },
    NoKittyKeyboardProtocol,
}

/// What was found of a native clipboard before it is used.
#[derive(Debug, Clone, Copy, PartialEq, Eq, Structural)]
pub enum NativeClipboardPreflight {
    LocalAvailable,
    RemoteOnly,
    Unavailable,
    Disabled,
}

/// Whether the compositor offers data control.
#[derive(Debug, Clone, Copy, PartialEq, Eq, Structural)]
pub enum DataControlFact {
    Available,
    Missing,
    Unavailable,
    Error,
    NotApplicable,
}

/// How sure it is that a copy arrives.
#[derive(Debug, Clone, Copy, PartialEq, Eq, Structural)]
pub enum ClipboardDelivery {
    Confirmed,
    Unverified,
    Failed,
}

/// The routes that a copy can take.
#[derive(Debug)]
pub struct ClipboardFacts {
    pub native_preflight: NativeClipboardPreflight,
    pub native_tool: String,
    pub container_no_display: bool,
    pub tmux_route: bool,
    pub osc52_route: bool,
    pub osc52_capability: String,
    pub wrap_sink: bool,
    pub display_server: DisplayServer,
    pub data_control: DataControlFact,
    pub delivery: ClipboardDelivery,
}

/// The microphone that was found, or why none was.
#[derive(Debug)]
pub enum VoiceFacts {
    Device { name: String, detail: String },
    Missing { error: String },
}

/// Everything that the report states as a fact.
#[derive(Debug)]
pub struct DiagnosticFacts {
    pub terminal: String,
    pub xtversion: RuntimeFact,
    pub multiplexer: String,
    pub byobu: Option<String>,
    pub ssh: bool,
    pub color: ColorFacts,
    pub keyboard: Option<KeyboardFact>,
    pub newline: Option<NewlineFact>,
    pub clipboard: ClipboardFacts,
    pub voice: Option<VoiceFacts>,
}

/// Whether a finding is something broken or something to improve.
#[derive(Debug, Clone, Copy, PartialEq, Eq, Structural)]
pub enum FindingDisposition {
    Issue,
    Recommendation,
}

/// A fix that the client can apply by itself. `human_command` is the command as it is shown
/// to people, where there is one.
#[derive(Debug)]
pub struct AutomaticRemediation {
    pub human_command: Option<String>,
    pub command: String,
}

/// A fix to apply by hand.
#[derive(Debug)]
pub struct Remediation {
    pub fix: String,
    pub config_path: Option<String>,
}

/// Something that the report found.
#[derive(Debug)]
pub struct DiagnosticFinding {
    pub id: String,
    pub disposition: FindingDisposition,
    pub message: String,
    pub automatic_remediation: Option<AutomaticRemediation>,
    pub remediation: Option<Remediation>,
    pub note: Option<String>,
}

/// Why a check did not complete.
#[derive(Debug, Clone, Copy, PartialEq, Eq, Structural)]
pub enum ProbeStatus {
    Unsupported,
    Unavailable,
    Error,
}

/// A check that did not complete.
#[derive(Debug)]
pub struct ProbeNote {
    pub probe: String,
    pub status: ProbeStatus,
    pub message: Option<String>,
    pub requires_live_tui: bool,
}

/// The whole report. `issue_count` may count more than the findings hold: a clipboard that
/// fails is an issue too.
#[derive(Debug)]
pub struct DiagnosticReport {
    pub facts: DiagnosticFacts,
    pub findings: Vec<DiagnosticFinding>,
    pub probe_notes: Vec<ProbeNote>,
    pub issue_count: usize,
    pub recommendation_count: usize,
}

/// `yes` or `no`.
pub open spec fn yes_no(value: bool) -> Seq<char> {
    if value {
        "yes"@
    } else {
        "no"@
    }
}

/// `on` or `off`.
pub open spec fn on_off(value: bool) -> Seq<char> {
    if value {
        "on"@
    } else {
        "off"@
    }
}

/// The themes that the colors allow: all of them, or how many of how many and which.
pub open spec fn themes_text(color: ColorFacts) -> Seq<char> {
    if color.available_themes@.len() == color.total_themes {
        "all"@
    } else {
        text::decimal(color.available_themes@.len()) + "/"@ + text::decimal(
            color.total_themes as nat,
        ) + ": "@ + text::joined(text::texts(color.available_themes@), ", "@)
    }
}

/// Whether the operating system rescues modified keys.
pub open spec fn rescue_text(ctx: LocaleContext, os: HostOs) -> Seq<char> {
    match os {
        HostOs::Macos => ctx.named("doctor.keyboard.rescue_active"@, "OS rescue active"@),
        HostOs::Other => ctx.named(
            "doctor.keyboard.rescue_unavailable"@,
            "OS rescue unavailable on this platform"@,
        ),
    }
}

/// The keyboard fact.
pub open spec fn keyboard_text(ctx: LocaleContext, keyboard: KeyboardFact) -> Seq<char> {
    keyboard.modifier_delivery@ + " ("@ + rescue_text(ctx, keyboard.os) + ")"@
}

/// The native clipboard fact.
pub open spec fn native_text(clipboard: ClipboardFacts) -> Seq<char> {
    match clipboard.native_preflight {
        NativeClipboardPreflight::LocalAvailable => "local ("@ + clipboard.native_tool@ + ")"@,
        NativeClipboardPreflight::RemoteOnly => if clipboard.container_no_display {
            "container ("@ + clipboard.native_tool@ + ")"@
        } else {
            "remote ("@ + clipboard.native_tool@ + ")"@
        },
        NativeClipboardPreflight::Unavailable => "unavailable"@,
        NativeClipboardPreflight::Disabled => "off"@,
    }
}

/// The OSC 52 fact.
pub open spec fn osc52_text(clipboard: ClipboardFacts) -> Seq<char> {
    if clipboard.osc52_route {
        clipboard.osc52_capability@
    } else {
        "off"@
    }
}

/// The status of the clipboard.
pub open spec fn delivery_text(delivery: ClipboardDelivery) -> Seq<char> {
    match delivery {
        ClipboardDelivery::Confirmed => "confirmed"@,
        ClipboardDelivery::Unverified => "unverified"@,
        ClipboardDelivery::Failed => "unavailable"@,
    }
}

/// Alt+Enter, with the reason why Shift+Enter does not do.
pub open spec fn alt_enter_text(ctx: LocaleContext, detail: Seq<char>) -> Seq<char> {
    ctx.formatted(
        "doctor.newline.alt_enter"@,
        "Alt+Enter ({detail})"@,
        seq![("detail"@, detail)],
    )
}

/// What an old VTE lacks.
pub open spec fn vte_text(ctx: LocaleContext, version: Option<String>) -> Seq<char> {
    match version {
        Some(known) => ctx.formatted(
            "doctor.newline.vte_version"@,
            "VTE {version}; need >= 8200 for Shift+Enter"@,
            seq![("version"@, known@)],
        ),
        None => ctx.named(
            "doctor.newline.vte_legacy"@,
            "legacy VTE; need VTE >= 0.82 for Shift+Enter"@,
        ),
    }
}

/// The mark of a finding.
pub open spec fn disposition_mark(disposition: FindingDisposition) -> Seq<char> {
    match disposition {
        FindingDisposition::Issue => "!"@,
        FindingDisposition::Recommendation => "i"@,
    }
}

/// The command that applies a fix: the one shown to people where there is one.
pub open spec fn command_text(automatic: AutomaticRemediation) -> Seq<char> {
    match automatic.human_command {
        Some(command) => command@,
        None => automatic.command@,
    }
}

/// How a fix is applied automatically.
pub open spec fn automatic_text(ctx: LocaleContext, automatic: AutomaticRemediation) -> Seq<char> {
    ctx.formatted(
        "doctor.finding.automatic_setup"@,
        "Automatic setup: `{command}`"@,
        seq![("command"@, command_text(automatic))],
    )
}

/// How a fix is applied by hand: in a file where one is named, else as a one-off beside an
/// automatic fix, else as the command to run.
pub open spec fn instruction_text(
    ctx: LocaleContext,
    remediation: Remediation,
    has_automatic: bool,
) -> Seq<char> {
    match remediation.config_path {
        Some(path) => ctx.formatted(
            "doctor.finding.add_to_path"@,
            "Add `{fix}` to {path}"@,
            seq![("fix"@, remediation.fix@), ("path"@, path@)],
        ),
        None => if has_automatic {
            ctx.formatted(
                "doctor.finding.one_off"@,
                "One-off: `{fix}`"@,
                seq![("fix"@, remediation.fix@)],
            )
        } else {
            ctx.formatted(
                "doctor.finding.run"@,
                "Run: `{fix}`"@,
                seq![("fix"@, remediation.fix@)],
            )
        },
    }
}

pub(crate) fn yes_no_text(value: bool) -> (text: &'static str)
    ensures
        text@ == yes_no(value),
{
    if value {
        "yes"
    } else {
        "no"
    }
}

pub(crate) fn on_off_text(value: bool) -> (text: &'static str)
    ensures
        text@ == on_off(value),
{
    if value {
        "on"
    } else {
        "off"
    }
}

pub(crate) fn themes_of(color: &ColorFacts) -> (text: String)
    ensures
        text@ == themes_text(*color),
{
    if color.available_themes.len() == color.total_themes {
        "all".to_owned()
    } else {
        let mut text = decimal_text(color.available_themes.len() as u128);
        text.append("/");
        text.append(decimal_text(color.total_themes as u128).as_str());
        text.append(": ");
        text.append(join_text(&color.available_themes, ", ").as_str());
        text
    }
}

fn rescue_of<'c>(ctx: LocaleContext<'c>, os: HostOs) -> (text: &'c str)
    ensures
        text@ == rescue_text(ctx, os),
{
    match os {
        HostOs::Macos => ctx.named_static_text("doctor.keyboard.rescue_active", "OS rescue active"),
        HostOs::Other => ctx.named_static_text(
            "doctor.keyboard.rescue_unavailable",
            "OS rescue unavailable on this platform",
        ),
    }
}

pub(crate) fn keyboard_of(ctx: LocaleContext, keyboard: &KeyboardFact) -> (text: String)
    ensures
        text@ == keyboard_text(ctx, *keyboard),
{
    let mut text = keyboard.modifier_delivery.as_str().to_owned();
    text.append(" (");
    text.append(rescue_of(ctx, keyboard.os));
    text.append(")");
    text
}

fn tool_text(opening: &str, tool: &str) -> (text: String)
    ensures
        text@ == opening@ + tool@ + ")"@,
{
    let mut text = opening.to_owned();
    text.append(tool);
    text.append(")");
    text
}

pub(crate) fn native_of(clipboard: &ClipboardFacts) -> (text: String)
    ensures
        text@ == native_text(*clipboard),
{
    let tool = clipboard.native_tool.as_str();
    match clipboard.native_preflight {
        NativeClipboardPreflight::LocalAvailable => tool_text("local (", tool),
        NativeClipboardPreflight::RemoteOnly => {
            if clipboard.container_no_display {
                tool_text("container (", tool)
            } else {
                tool_text("remote (", tool)
            }
        },
        NativeClipboardPreflight::Unavailable => "unavailable".to_owned(),
        NativeClipboardPreflight::Disabled => "off".to_owned(),
    }
}

pub(crate) fn osc52_of(clipboard: &ClipboardFacts) -> (text: &str)
    ensures
        text@ == osc52_text(*clipboard),
{
    if clipboard.osc52_route {
        clipboard.osc52_capability.as_str()
    } else {
        "off"
    }
}

pub(crate) fn delivery_of(delivery: ClipboardDelivery) -> (text: &'static str)
    ensures
        text@ == delivery_text(delivery),
{
    match delivery {
        ClipboardDelivery::Confirmed => "confirmed",
        ClipboardDelivery::Unverified => "unverified",
        ClipboardDelivery::Failed => "unavailable",
    }
}

pub(crate) fn alt_enter_of(ctx: LocaleContext, detail: &str) -> (text: String)
    ensures
        text@ == alt_enter_text(ctx, detail@),
{
    ctx.format_one("doctor.newline.alt_enter", "Alt+Enter ({detail})", "detail", detail)
}

pub(crate) fn vte_of(ctx: LocaleContext, version: &Option<String>) -> (text: String)
    ensures
        text@ == vte_text(ctx, *version),
{
    match version {
        Some(known) => ctx.format_one(
            "doctor.newline.vte_version",
            "VTE {version}; need >= 8200 for Shift+Enter",
            "version",
            known.as_str(),
        ),
        None => ctx.named_static_text(
            "doctor.newline.vte_legacy",
            "legacy VTE; need VTE >= 0.82 for Shift+Enter",
        ).to_owned(),
    }
}

pub(crate) fn disposition_mark_of(disposition: FindingDisposition) -> (mark: &'static str)
    ensures
        mark@ == disposition_mark(disposition),
{
    match disposition {
        FindingDisposition::Issue => "!",
        FindingDisposition::Recommendation => "i",
    }
}

pub(crate) fn automatic_of(ctx: LocaleContext, automatic: &AutomaticRemediation) -> (text: String)
    ensures
        text@ == automatic_text(ctx, *automatic),
{
    let command: &str = match &automatic.human_command {
        Some(command) => command.as_str(),
        None => automatic.command.as_str(),
    };
    ctx.format_one(
        "doctor.finding.automatic_setup",
        "Automatic setup: `{command}`",
        "command",
        command,
    )
}

pub(crate) fn instruction_of(
    ctx: LocaleContext,
    remediation: &Remediation,
    has_automatic: bool,
) -> (text: String)
    ensures
        text@ == instruction_text(ctx, *remediation, has_automatic),
{
    match &remediation.config_path {
        Some(path) => ctx.format_two(
            "doctor.finding.add_to_path",
            "Add `{fix}` to {path}",
            ("fix", remediation.fix.as_str()),
            ("path", path.as_str()),
        ),
        None => {
            if has_automatic {
                ctx.format_one(
                    "doctor.finding.one_off",
                    "One-off: `{fix}`",
                    "fix",
                    remediation.fix.as_str(),
                )
            } else {
                ctx.format_one(
                    "doctor.finding.run",
                    "Run: `{fix}`",
                    "fix",
                    remediation.fix.as_str(),
                )
            }
        },
    }
}

/// All themes are shown as such, and where some are missing the counts stand in front and every
/// theme that there is stands behind them.
pub proof fn themes_are_counted_and_named(color: ColorFacts, i: int)
    ensures
        color.available_themes@.len() == color.total_themes ==> themes_text(color) == "all"@,
        color.available_themes@.len() != color.total_themes ==> (text::decimal(
            color.available_themes@.len(),
        ) + "/"@ + text::decimal(color.total_themes as nat) + ": "@).is_prefix_of(
            themes_text(color),
        ),
        color.available_themes@.len() != color.total_themes && 0 <= i
            < color.available_themes@.len() ==> text::occurs_in(
            color.available_themes@[i]@,
            themes_text(color),
        ),
        color.available_themes@.len() != color.total_themes ==> themes_text(color).skip(
            (text::decimal(color.available_themes@.len()) + "/"@ + text::decimal(
                color.total_themes as nat,
            ) + ": "@).len() as int,
        ) == text::joined(text::texts(color.available_themes@), ", "@),
{
    broadcast use text::group_occurrences;

    if color.available_themes@.len() != color.total_themes {
        let lead = text::decimal(color.available_themes@.len()) + "/"@ + text::decimal(
            color.total_themes as nat,
        ) + ": "@;
        let shown = themes_text(color);
        let names = text::texts(color.available_themes@);
        assert(shown.subrange(0, lead.len() as int) =~= lead);
        assert(shown.skip(lead.len() as int) =~= text::joined(names, ", "@));
        if 0 <= i < color.available_themes@.len() {
            text::joining_keeps_every_part(names, ", "@, i);
            assert(names[i] == color.available_themes@[i]@);
        }
    }
}

/// The keyboard fact is the delivery and, in brackets, whether the platform rescues keys, which
/// only macOS does.
pub proof fn keyboards_tell_delivery_and_rescue(ctx: LocaleContext, keyboard: KeyboardFact)
    ensures
        keyboard.os == HostOs::Macos ==> keyboard_text(ctx, keyboard) == keyboard.modifier_delivery@
            + " ("@ + ctx.named("doctor.keyboard.rescue_active"@, "OS rescue active"@) + ")"@,
        keyboard.os != HostOs::Macos ==> keyboard_text(ctx, keyboard) == keyboard.modifier_delivery@
            + " ("@ + ctx.named(
            "doctor.keyboard.rescue_unavailable"@,
            "OS rescue unavailable on this platform"@,
        ) + ")"@,
{
}

/// A clipboard that can be reached is named with its tool and where it is; one that cannot is
/// not named.
pub proof fn clipboards_are_named_where_reached(clipboard: ClipboardFacts)
    ensures
        clipboard.native_preflight == NativeClipboardPreflight::LocalAvailable ==> native_text(
            clipboard,
        ) == "local ("@ + clipboard.native_tool@ + ")"@,
        clipboard.native_preflight == NativeClipboardPreflight::RemoteOnly
            && clipboard.container_no_display ==> native_text(clipboard) == "container ("@
            + clipboard.native_tool@ + ")"@,
        clipboard.native_preflight == NativeClipboardPreflight::RemoteOnly
            && !clipboard.container_no_display ==> native_text(clipboard) == "remote ("@
            + clipboard.native_tool@ + ")"@,
        clipboard.native_preflight == NativeClipboardPreflight::Unavailable ==> native_text(
            clipboard,
        ) == "unavailable"@,
        clipboard.native_preflight == NativeClipboardPreflight::Disabled ==> native_text(clipboard)
            == "off"@,
        clipboard.osc52_route ==> osc52_text(clipboard) == clipboard.osc52_capability@,
        !clipboard.osc52_route ==> osc52_text(clipboard) == "off"@,
{
}

/// The words for what is either so or not, and for how sure it is that a copy arrives.
pub proof fn states_have_their_words()
    ensures
        yes_no(true) == "yes"@ && yes_no(false) == "no"@,
        on_off(true) == "on"@ && on_off(false) == "off"@,
        delivery_text(ClipboardDelivery::Confirmed) == "confirmed"@,
        delivery_text(ClipboardDelivery::Unverified) == "unverified"@,
        delivery_text(ClipboardDelivery::Failed) == "unavailable"@,
        disposition_mark(FindingDisposition::Issue) == "!"@,
        disposition_mark(FindingDisposition::Recommendation) == "i"@,
{
}

/// A newline fact gives its reason, and one on VTE names the version where it is known.
pub proof fn newlines_give_their_reason(
    ctx: LocaleContext,
    version: Option<String>,
    detail: Seq<char>,
)
    ensures
        version is Some ==> vte_text(ctx, version) == ctx.formatted(
            "doctor.newline.vte_version"@,
            "VTE {version}; need >= 8200 for Shift+Enter"@,
            seq![("version"@, version->0@)],
        ),
        version is None ==> vte_text(ctx, version) == ctx.named(
            "doctor.newline.vte_legacy"@,
            "legacy VTE; need VTE >= 0.82 for Shift+Enter"@,
        ),
        alt_enter_text(ctx, detail) == ctx.formatted(
            "doctor.newline.alt_enter"@,
            "Alt+Enter ({detail})"@,
            seq![("detail"@, detail)],
        ),
{
}

/// A fix that the client applies is told by the command for people, or by its own where there is
/// none.
pub proof fn automatic_fixes_show_their_command(
    ctx: LocaleContext,
    automatic: AutomaticRemediation,
)
    ensures
        automatic.human_command is Some ==> automatic_text(ctx, automatic) == ctx.formatted(
            "doctor.finding.automatic_setup"@,
            "Automatic setup: `{command}`"@,
            seq![("command"@, automatic.human_command->0@)],
        ),
        automatic.human_command is None ==> automatic_text(ctx, automatic) == ctx.formatted(
            "doctor.finding.automatic_setup"@,
            "Automatic setup: `{command}`"@,
            seq![("command"@, automatic.command@)],
        ),
{
}

/// A fix by hand is told by the file that it goes into where one is named, whether or not the
/// client could apply a fix; without a file it is a one-off exactly where the client could.
pub proof fn fixes_by_hand_tell_where_they_go(
    ctx: LocaleContext,
    remediation: Remediation,
    has_automatic: bool,
)
    ensures
        remediation.config_path is Some ==> instruction_text(ctx, remediation, has_automatic)
            == ctx.formatted(
            "doctor.finding.add_to_path"@,
            "Add `{fix}` to {path}"@,
            seq![("fix"@, remediation.fix@), ("path"@, remediation.config_path->0@)],
        ),
        remediation.config_path is None ==> instruction_text(ctx, remediation, true)
            == ctx.formatted(
            "doctor.finding.one_off"@,
            "One-off: `{fix}`"@,
            seq![("fix"@, remediation.fix@)],
        ),
        remediation.config_path is None ==> instruction_text(ctx, remediation, false)
            == ctx.formatted(
            "doctor.finding.run"@,
            "Run: `{fix}`"@,
            seq![("fix"@, remediation.fix@)],
        ),
{
}

} // verus!
