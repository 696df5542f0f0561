//! The message shown when the client cannot start.

use crate::locale::LocaleContext;
use crate::render;
use crate::text;
use crate::text::{byte_length, decimal_text, join_text, left_align, spaces_text};
use vstd::prelude::*;

verus! {

pub const WRAP_WIDTH: usize = 76;

/// The agent that the client talks to.
#[derive(Debug, Clone, Copy, PartialEq, Eq, Structural)]
pub enum AgentKind {
    Embedded,
    Leader,
}

/// A step of the startup.
#[derive(Debug, Clone, Copy, PartialEq, Eq, Structural)]
pub enum StartupPhase {
    ConfigLoad,
    ManagedPolicy,
    Bootstrap,
    ModelCatalog,
    WorkerSpawn,
    LeaderConnect,
    AcpInitialize,
    EagerAuth,
    AppInit,
    SessionCreate,
}

/// A span of time: whole seconds and the nanoseconds beyond them.
#[derive(Debug, Clone, Copy, PartialEq, Eq, Structural)]
pub struct Wait {
    pub secs: u64,
    pub subsec_nanos: u32,
}

/// A step by its label, with its time as it is shown.
#[derive(Debug)]
pub struct TimedStep {
    pub label: String,
    pub elapsed: String,
}

/// The steps of a startup: those completed, the one still running, and the phase that took
/// the longest.
#[derive(Debug)]
pub struct PhaseSnapshot {
    pub completed: Vec<TimedStep>,
    pub open: Option<TimedStep>,
    pub longest_step: Option<StartupPhase>,
}

/// An attempt that came before the one that failed. `shaped_the_wait` says that it took a
/// notable part of the wait, `wedged_leader` that it hung on a shared leader.
#[derive(Debug, Clone, Copy, PartialEq, Eq, Structural)]
pub struct EarlierAttempt {
    pub target: AgentKind,
    pub wait: Wait,
    pub shaped_the_wait: bool,
    pub wedged_leader: bool,
}

/// Which attempt failed.
#[derive(Debug, Clone, Copy, PartialEq, Eq, Structural)]
pub enum ConnectAttempt {
    First,
    AfterFallback(EarlierAttempt),
}

/// What was being started. `retry_command` is the command that retries with a larger budget.
#[derive(Debug)]
pub struct Context {
    pub target: AgentKind,
    pub attempt: ConnectAttempt,
    pub version: String,
    pub log_path: String,
    pub retry_command: String,
}

/// Why it failed.
#[derive(Debug)]
pub enum Reason {
    TimedOut { waited: Wait, timings: PhaseSnapshot },
    Cancelled,
}

/// A startup that failed.
#[derive(Debug)]
pub struct StartupFailure {
    pub context: Context,
    pub reason: Reason,
}

/// What to do next.
#[derive(Debug, Clone, Copy, PartialEq, Eq, Structural)]
pub enum NextStep {
    Retry,
    CheckNetworkThenRetry,
    RestartSharedLeader,
}

/// What a failure that timed out is explained by.
#[derive(Debug, Clone, Copy)]
pub struct Advice {
    pub longest_step: Option<StartupPhase>,
    pub earlier: Option<EarlierAttempt>,
    pub next_step: NextStep,
}

/// The name of an agent.
pub open spec fn agent_text(ctx: LocaleContext, agent: AgentKind) -> Seq<char> {
    match agent {
        AgentKind::Embedded => ctx.translated("local agent"@),
        AgentKind::Leader => ctx.translated("shared leader"@),
    }
}

fn agent_name<'c>(ctx: LocaleContext<'c>, agent: AgentKind) -> (name: &'c str)
    ensures
        name@ == agent_text(ctx, agent),
{
    match agent {
        AgentKind::Embedded => ctx.tr_static("local agent"),
        AgentKind::Leader => ctx.tr_static("shared leader"),
    }
}

impl Wait {
    /// The whole milliseconds of the span.
    pub open spec fn millis(self) -> nat {
        self.secs as nat * 1000 + self.subsec_nanos as nat / 1_000_000
    }
}

/// A span in seconds, rounded to the nearest: a truncated total can print smaller than the
/// steps it sums.
pub open spec fn rounded_seconds(wait: Wait) -> nat {
    (wait.millis() + 500) / 1000
}

/// A span in whole seconds.
pub open spec fn seconds_text(wait: Wait) -> Seq<char> {
    text::decimal(rounded_seconds(wait)) + "s"@
}

/// A span in whole seconds, rounded to the nearest.
pub fn whole_seconds(wait: Wait) -> (text: String)
    ensures
        text@ == seconds_text(wait),
{
    let millis: u128 = wait.secs as u128 * 1000 + wait.subsec_nanos as u128 / 1_000_000;
    let mut text = decimal_text((millis + 500) / 1000);
    text.append("s");
    text
}

/// What a phase does, as the object of "The longest step was".
pub open spec fn doing_text(ctx: LocaleContext, phase: StartupPhase) -> Seq<char> {
    match phase {
        StartupPhase::ConfigLoad => ctx.translated("reading your local configuration"@),
        StartupPhase::ManagedPolicy => ctx.translated(
            "checking your organization's managed policy"@,
        ),
        StartupPhase::Bootstrap => ctx.translated("loading your account settings"@),
        StartupPhase::ModelCatalog => ctx.translated("reading the list of available models"@),
        StartupPhase::WorkerSpawn => ctx.translated("starting the local agent"@),
        StartupPhase::LeaderConnect => ctx.translated("connecting to the shared leader"@),
        StartupPhase::AcpInitialize => ctx.translated("waiting for the agent to respond"@),
        StartupPhase::EagerAuth => ctx.translated("refreshing your sign-in"@),
        StartupPhase::AppInit => ctx.translated("preparing the interface"@),
        StartupPhase::SessionCreate => ctx.translated("creating the session"@),
    }
}

/// What to do after a phase that took too long.
pub open spec fn step_after(phase: StartupPhase) -> NextStep {
    match phase {
        StartupPhase::ManagedPolicy
        | StartupPhase::Bootstrap
        | StartupPhase::EagerAuth => NextStep::CheckNetworkThenRetry,
        StartupPhase::LeaderConnect => NextStep::RestartSharedLeader,
        _ => NextStep::Retry,
    }
}

/// What a phase does, and what to do after it took too long.
pub fn step_advice<'c>(ctx: LocaleContext<'c>, phase: StartupPhase) -> (advice: (&'c str, NextStep))
    ensures
        advice.0@ == doing_text(ctx, phase),
        advice.1 == step_after(phase),
{
    match phase {
        StartupPhase::ConfigLoad => (
            ctx.tr_static("reading your local configuration"),
            NextStep::Retry,
        ),
        StartupPhase::ManagedPolicy => (
            ctx.tr_static("checking your organization's managed policy"),
            NextStep::CheckNetworkThenRetry,
        ),
        StartupPhase::Bootstrap => (
            ctx.tr_static("loading your account settings"),
            NextStep::CheckNetworkThenRetry,
        ),
        StartupPhase::ModelCatalog => (
            ctx.tr_static("reading the list of available models"),
            NextStep::Retry,
        ),
        StartupPhase::WorkerSpawn => (ctx.tr_static("starting the local agent"), NextStep::Retry),
        StartupPhase::LeaderConnect => (
            ctx.tr_static("connecting to the shared leader"),
            NextStep::RestartSharedLeader,
        ),
        StartupPhase::AcpInitialize => (
            ctx.tr_static("waiting for the agent to respond"),
            NextStep::Retry,
        ),
        StartupPhase::EagerAuth => (
            ctx.tr_static("refreshing your sign-in"),
            NextStep::CheckNetworkThenRetry,
        ),
        StartupPhase::AppInit => (ctx.tr_static("preparing the interface"), NextStep::Retry),
        StartupPhase::SessionCreate => (ctx.tr_static("creating the session"), NextStep::Retry),
    }
}

impl ConnectAttempt {
    /// The attempt before this one, if any.
    pub open spec fn before(self) -> Option<EarlierAttempt> {
        match self {
            ConnectAttempt::First => None,
            ConnectAttempt::AfterFallback(earlier) => Some(earlier),
        }
    }

    /// The attempt before this one, if any.
    pub fn earlier(self) -> (earlier: Option<EarlierAttempt>)
        ensures
            earlier == self.before(),
    {
        match self {
            ConnectAttempt::First => None,
            ConnectAttempt::AfterFallback(earlier) => Some(earlier),
        }
    }
}

impl NextStep {
    /// The sentence that says what to do.
    pub open spec fn sentence(self, ctx: LocaleContext) -> Seq<char> {
        match self {
            NextStep::Retry => ctx.translated("Start Grok again."@),
            NextStep::CheckNetworkThenRetry => ctx.translated(
                "Check your network connection, then start Grok again."@,
            ),
            NextStep::RestartSharedLeader => ctx.named(
                "startup_failure.next_step.restart_leader"@,
                "Stop it with the command below, which also stops any other Grok session using it, then start Grok again."@,
            ),
        }
    }

    /// The command to type, given the one that retries.
    pub open spec fn typed(self, retry_command: Seq<char>) -> Seq<char> {
        match self {
            NextStep::Retry | NextStep::CheckNetworkThenRetry => retry_command,
            NextStep::RestartSharedLeader => "grok leader kill"@,
        }
    }

    /// The sentence that says what to do.
    pub fn text<'c>(self, ctx: LocaleContext<'c>) -> (text: &'c str)
        ensures
            text@ == self.sentence(ctx),
    {
        match self {
            NextStep::Retry => ctx.tr_static("Start Grok again."),
            NextStep::CheckNetworkThenRetry => ctx.tr_static(
                "Check your network connection, then start Grok again.",
            ),
            NextStep::RestartSharedLeader => ctx.named_static_text(
                "startup_failure.next_step.restart_leader",
                "Stop it with the command below, which also stops any other Grok session using it, then start Grok again.",
            ),
        }
    }

    /// The command to type, kept out of the prose so that wrapping can never split it.
    pub fn command<'a>(self, retry_command: &'a str) -> (command: Option<&'a str>)
        ensures
            command is Some,
            command->0@ == self.typed(retry_command@),
    {
        match self {
            NextStep::Retry | NextStep::CheckNetworkThenRetry => Some(retry_command),
            NextStep::RestartSharedLeader => Some("grok leader kill"),
        }
    }
}

/// What explains a wait with these steps in this attempt. A wedged leader is only ever the
/// earlier attempt, and outranks what the longest step suggests.
pub open spec fn advice(longest_step: Option<StartupPhase>, attempt: ConnectAttempt) -> Advice {
    Advice {
        longest_step,
        earlier: match attempt.before() {
            Some(earlier) => if earlier.shaped_the_wait {
                Some(earlier)
            } else {
                None
            },
            None => None,
        },
        next_step: if attempt.before() is Some && attempt.before()->0.wedged_leader {
            NextStep::RestartSharedLeader
        } else {
            match longest_step {
                Some(phase) => step_after(phase),
                None => NextStep::Retry,
            }
        },
    }
}

/// What explains a wait with these steps in this attempt.
pub fn advice_for(ctx: LocaleContext, timings: &PhaseSnapshot, attempt: ConnectAttempt) -> (found:
    Advice)
    ensures
        found == advice(timings.longest_step, attempt),
{
    let suggested = match timings.longest_step {
        Some(phase) => step_advice(ctx, phase).1,
        None => NextStep::Retry,
    };
    match attempt.earlier() {
        Some(earlier) => Advice {
            longest_step: timings.longest_step,
            earlier: if earlier.shaped_the_wait {
                Some(earlier)
            } else {
                None
            },
            next_step: if earlier.wedged_leader {
                NextStep::RestartSharedLeader
            } else {
                suggested
            },
        },
        None => Advice {
            longest_step: timings.longest_step,
            earlier: None,
            next_step: suggested,
        },
    }
}

/// Whether a larger startup budget may help.
pub open spec fn hints_at_budget(next_step: NextStep) -> bool {
    next_step == NextStep::Retry || next_step == NextStep::CheckNetworkThenRetry
}

/// The prose that explains a wait.
pub open spec fn explanation_text(ctx: LocaleContext, advice: Advice) -> Seq<char> {
    (match advice.longest_step {
        Some(phase) => ctx.translated_format(
            "The longest step was {doing}."@,
            seq![("doing"@, doing_text(ctx, phase))],
        ),
        None => ctx.translated("No startup step had begun."@),
    }) + (match advice.earlier {
        Some(earlier) => " "@ + ctx.translated_format(
            "Grok spent the first {seconds} on the {target}."@,
            seq![
                ("seconds"@, seconds_text(earlier.wait)),
                ("target"@, agent_text(ctx, earlier.target)),
            ],
        ),
        None => Seq::empty(),
    }) + " "@ + advice.next_step.sentence(ctx) + (if hints_at_budget(advice.next_step) {
        " "@ + ctx.named(
            "startup_failure.slow_machine_hint"@,
            "On a slow machine or network filesystem, a larger startup budget can help. Set it with the command below."@,
        )
    } else {
        Seq::empty()
    })
}

impl Advice {
    /// The prose that explains a wait.
    pub fn explanation(&self, ctx: LocaleContext) -> (text: String)
        ensures
            text@ == explanation_text(ctx, *self),
    {
        let mut out = match self.longest_step {
            Some(phase) => ctx.tr_format_one(
                "The longest step was {doing}.",
                "doing",
                step_advice(ctx, phase).0,
            ),
            None => ctx.tr_static("No startup step had begun.").to_owned(),
        };
        let earlier = match self.earlier {
            Some(earlier) => {
                let seconds = whole_seconds(earlier.wait);
                let mut sentence = " ".to_owned();
                sentence.append(
                    ctx.tr_format_two(
                        "Grok spent the first {seconds} on the {target}.",
                        ("seconds", seconds.as_str()),
                        ("target", agent_name(ctx, earlier.target)),
                    ).as_str(),
                );
                sentence
            },
            None => String::new(),
        };
        let hint = match self.next_step {
            NextStep::Retry | NextStep::CheckNetworkThenRetry => {
                let mut sentence = " ".to_owned();
                sentence.append(
                    ctx.named_static_text(
                        "startup_failure.slow_machine_hint",
                        "On a slow machine or network filesystem, a larger startup budget can help. Set it with the command below.",
                    ),
                );
                sentence
            },
            NextStep::RestartSharedLeader => String::new(),
        };
        out.append(earlier.as_str());
        out.append(" ");
        out.append(self.next_step.text(ctx));
        out.append(hint.as_str());
        out
    }
}

/// A step with its time; one still running has a plus sign behind it.
pub open spec fn step_text(step: TimedStep, still_running: Seq<char>) -> Seq<char> {
    step.label@ + "="@ + step.elapsed@ + still_running
}

/// The steps with their times, in order, the one still running last.
pub open spec fn step_texts(timings: PhaseSnapshot) -> Seq<Seq<char>> {
    let completed = timings.completed@.map_values(|step: TimedStep| step_text(step, ""@));
    match timings.open {
        Some(step) => completed.push(step_text(step, "+"@)),
        None => completed,
    }
}

/// The steps as they are shown.
pub open spec fn steps_text(timings: PhaseSnapshot) -> Seq<char> {
    if step_texts(timings).len() == 0 {
        "none"@
    } else {
        text::joined(step_texts(timings), ", "@)
    }
}

fn step_of(step: &TimedStep, still_running: &str) -> (text: String)
    ensures
        text@ == step_text(*step, still_running@),
{
    let mut text = step.label.as_str().to_owned();
    text.append("=");
    text.append(step.elapsed.as_str());
    text.append(still_running);
    text
}

/// The steps as they are shown.
pub fn format_steps(timings: &PhaseSnapshot) -> (text: String)
    ensures
        text@ == steps_text(*timings),
{
    let ghost completed = timings.completed@.map_values(|step: TimedStep| step_text(step, ""@));
    let mut steps: Vec<String> = Vec::new();
    let mut i: usize = 0;
    while i < timings.completed.len()
        invariant
            i <= timings.completed@.len(),
            completed == timings.completed@.map_values(
                |step: TimedStep| step_text(step, ""@),
            ),
            text::texts(steps@) == completed.take(i as int),
        decreases timings.completed@.len() - i,
    {
        let ghost before = steps@;
        steps.push(step_of(&timings.completed[i], ""));
        assert(text::texts(steps@) =~= text::texts(before).push(completed[i as int]));
        assert(text::texts(steps@) =~= completed.take(i + 1));
        i = i + 1;
    }
    assert(text::texts(steps@) =~= completed);
    let ghost before = steps@;
    match &timings.open {
        Some(step) => {
            steps.push(step_of(step, "+"));
            assert(text::texts(steps@) =~= completed.push(step_text(*step, "+"@)));
        },
        None => {},
    }
    assert(text::texts(steps@) == step_texts(*timings));
    assert(text::texts(steps@).len() == steps@.len());
    if steps.len() == 0 {
        return "none".to_owned();
    }
    join_text(&steps, ", ")
}

/// How `textwrap` fills a text to `width` columns by first fit, with these indents, breaking
/// words or not.
pub uninterp spec fn filled(
    content: Seq<char>,
    initial_indent: Seq<char>,
    subsequent_indent: Seq<char>,
    width: usize,
    break_words: bool,
) -> Seq<char>;

/// `textwrap::fill` with the first-fit algorithm and otherwise default options. The result is
/// a function of the arguments alone; where lines break is left to `textwrap`.
#[verifier::external_body]
fn fill(
    content: &str,
    initial_indent: &str,
    subsequent_indent: &str,
    width: usize,
    break_words: bool,
) -> (shown: String)
    ensures
        shown@ == filled(content@, initial_indent@, subsequent_indent@, width, break_words),
{
    textwrap::fill(
        content,
        textwrap::Options::new(width)
            .initial_indent(initial_indent)
            .subsequent_indent(subsequent_indent)
            .break_words(break_words)
            .wrap_algorithm(textwrap::WrapAlgorithm::FirstFit),
    )
}

/// A text wrapped for the message: no word is ever broken.
pub open spec fn wrapped(
    content: Seq<char>,
    initial_indent: Seq<char>,
    subsequent_indent: Seq<char>,
) -> Seq<char> {
    filled(content, initial_indent, subsequent_indent, WRAP_WIDTH, false)
}

fn fill_indented(content: &str, initial_indent: &str, subsequent_indent: &str) -> (shown: String)
    ensures
        shown@ == wrapped(content@, initial_indent@, subsequent_indent@),
{
    fill(content, initial_indent, subsequent_indent, WRAP_WIDTH, false)
}

/// The label and the value of each row.
pub open spec fn row_views(rows: Seq<(String, String)>) -> Seq<(Seq<char>, Seq<char>)> {
    rows.map_values(|row: (String, String)| (row.0@, row.1@))
}

/// The width of the label column, in bytes: the widest label with its colon.
pub open spec fn column_width(rows: Seq<(Seq<char>, Seq<char>)>) -> nat
    decreases rows.len(),
{
    if rows.len() == 0 {
        0
    } else {
        let rest = column_width(rows.drop_last());
        let width = text::utf8_size(rows.last().0 + ":"@);
        if width > rest {
            width
        } else {
            rest
        }
    }
}

/// The label of a row with its colon, indented and padded.
pub open spec fn row_label(label: Seq<char>, width: nat) -> Seq<char> {
    "  "@ + text::left_aligned(label + ":"@, width) + " "@
}

/// A row: the value hangs under its label, so that a wrapped one never reads as a new field.
pub open spec fn row_text(row: (Seq<char>, Seq<char>), width: nat) -> Seq<char> {
    wrapped(
        row.1,
        row_label(row.0, width),
        text::spaces(text::utf8_size(row_label(row.0, width))),
    )
}

/// The rows, one below the other.
pub open spec fn rows_text(rows: Seq<(Seq<char>, Seq<char>)>) -> Seq<char> {
    text::joined(
        rows.map_values(|row: (Seq<char>, Seq<char>)| row_text(row, column_width(rows))),
        "\n"@,
    )
}

fn column_width_of(rows: &Vec<(String, String)>) -> (width: usize)
    ensures
        width == column_width(row_views(rows@)),
{
    let ghost all = row_views(rows@);
    let mut width: usize = 0;
    let mut i: usize = 0;
    while i < rows.len()
        invariant
            i <= rows@.len(),
            all == row_views(rows@),
            width == column_width(all.take(i as int)),
        decreases rows@.len() - i,
    {
        assert(all.take(i + 1).drop_last() =~= all.take(i as int));
        let mut label = rows[i].0.as_str().to_owned();
        label.append(":");
        let taken = byte_length(label.as_str());
        if taken > width {
            width = taken;
        }
        i = i + 1;
    }
    assert(all.take(i as int) =~= all);
    width
}

/// The rows, one below the other, each value hanging under its label.
pub fn label_rows(rows: &Vec<(String, String)>) -> (text: String)
    ensures
        text@ == rows_text(row_views(rows@)),
{
    let width = column_width_of(rows);
    let ghost all = row_views(rows@);
    let ghost shown = all.map_values(
        |row: (Seq<char>, Seq<char>)| row_text(row, column_width(all)),
    );
    let mut parts: Vec<String> = Vec::new();
    let mut i: usize = 0;
    while i < rows.len()
        invariant
            i <= rows@.len(),
            all == row_views(rows@),
            width == column_width(all),
            shown == all.map_values(
                |row: (Seq<char>, Seq<char>)| row_text(row, column_width(all)),
            ),
            text::texts(parts@) == shown.take(i as int),
        decreases rows@.len() - i,
    {
        let mut marked = rows[i].0.as_str().to_owned();
        marked.append(":");
        let mut label = "  ".to_owned();
        label.append(left_align(marked.as_str(), width).as_str());
        label.append(" ");
        let hanging = spaces_text(byte_length(label.as_str()));
        let part = fill_indented(rows[i].1.as_str(), label.as_str(), hanging.as_str());
        assert(part@ == shown[i as int]);
        let ghost before = parts@;
        parts.push(part);
        assert(text::texts(parts@) =~= text::texts(before).push(shown[i as int]));
        assert(text::texts(parts@) =~= shown.take(i + 1));
        i = i + 1;
    }
    assert(text::texts(parts@) =~= shown);
    join_text(&parts, "\n")
}

/// The agents that were tried.
pub open spec fn agents_text(ctx: LocaleContext, context: Context) -> Seq<char> {
    match context.attempt {
        ConnectAttempt::First => agent_text(ctx, context.target),
        ConnectAttempt::AfterFallback(earlier) => ctx.translated_format(
            "{first}, then {target}"@,
            seq![
                ("first"@, agent_text(ctx, earlier.target)),
                ("target"@, agent_text(ctx, context.target)),
            ],
        ),
    }
}

/// The agents that were tried.
pub fn attempted_agents(ctx: LocaleContext, context: &Context) -> (text: String)
    ensures
        text@ == agents_text(ctx, *context),
{
    let target = agent_name(ctx, context.target);
    match context.attempt {
        ConnectAttempt::First => target.to_owned(),
        ConnectAttempt::AfterFallback(earlier) => ctx.tr_format_two(
            "{first}, then {target}",
            ("first", agent_name(ctx, earlier.target)),
            ("target", target),
        ),
    }
}

/// The rows of the message: what was tried, and for a wait that ran out its steps and what to
/// try, then the log.
pub open spec fn failure_rows(ctx: LocaleContext, failure: StartupFailure) -> Seq<
    (Seq<char>, Seq<char>),
> {
    let context = failure.context;
    let first = seq![
        (ctx.translated("Mode"@), agents_text(ctx, context)),
        (ctx.translated("Version"@), context.version@),
    ];
    let middle = match failure.reason {
        Reason::TimedOut { waited, timings } => first.push(
            (ctx.translated("Steps"@), steps_text(timings)),
        ).push(
            (
                ctx.translated("Try"@),
                advice(timings.longest_step, context.attempt).next_step.typed(
                    context.retry_command@,
                ),
            ),
        ),
        Reason::Cancelled => first,
    };
    middle.push((ctx.translated("Log"@), context.log_path@))
}

/// What the message about a timeout opens with, given the wrapped explanation.
pub open spec fn timeout_opening(ctx: LocaleContext, waited: Wait, explanation: Seq<char>) -> Seq<
    char,
> {
    ctx.translated_format(
        "Couldn't start Grok: startup timed out after {seconds}.\n\n{explanation}"@,
        seq![("seconds"@, seconds_text(waited)), ("explanation"@, explanation)],
    )
}

/// What the message opens with.
pub open spec fn opening_text(ctx: LocaleContext, failure: StartupFailure) -> Seq<char> {
    match failure.reason {
        Reason::TimedOut { waited, timings } => timeout_opening(
            ctx,
            waited,
            wrapped(
                explanation_text(ctx, advice(timings.longest_step, failure.context.attempt)),
                "  "@,
                "  "@,
            ),
        ),
        Reason::Cancelled => ctx.translated_format(
            "Startup cancelled while connecting to the {agent}."@,
            seq![("agent"@, agent_text(ctx, failure.context.target))],
        ),
    }
}

/// The message of an opening and the wrapped rows.
pub open spec fn message_text(opening: Seq<char>, rows: Seq<char>) -> Seq<char> {
    opening + "\n\n"@ + rows
}

/// The whole message.
pub open spec fn failure_text(ctx: LocaleContext, failure: StartupFailure) -> Seq<char> {
    message_text(opening_text(ctx, failure), rows_text(failure_rows(ctx, failure)))
}

/// What the message about a timeout opens with, given the wrapped explanation.
pub fn open_timeout(ctx: LocaleContext, waited: Wait, explanation: &str) -> (text: String)
    ensures
        text@ == timeout_opening(ctx, waited, explanation@),
{
    let seconds = whole_seconds(waited);
    ctx.tr_format_two(
        "Couldn't start Grok: startup timed out after {seconds}.\n\n{explanation}",
        ("seconds", seconds.as_str()),
        ("explanation", explanation),
    )
}

/// The message of an opening and the wrapped rows.
pub fn join_message(opening: String, rows: &str) -> (text: String)
    ensures
        text@ == message_text(opening@, rows@),
{
    let mut text = opening;
    text.append("\n\n");
    text.append(rows);
    text
}

/// The message shown when the client cannot start.
pub fn render(ctx: LocaleContext, failure: &StartupFailure) -> (text: String)
    ensures
        text@ == failure_text(ctx, *failure),
{
    let context = &failure.context;
    let mut rows: Vec<(String, String)> = Vec::new();
    rows.push((ctx.tr_static("Mode").to_owned(), attempted_agents(ctx, context)));
    rows.push((ctx.tr_static("Version").to_owned(), context.version.as_str().to_owned()));
    let opening = match &failure.reason {
        Reason::TimedOut { waited, timings } => {
            let advice = advice_for(ctx, timings, context.attempt);
            rows.push((ctx.tr_static("Steps").to_owned(), format_steps(timings)));
            match advice.next_step.command(context.retry_command.as_str()) {
                Some(command) => rows.push((ctx.tr_static("Try").to_owned(), command.to_owned())),
                None => {},
            }
            let explanation = fill_indented(advice.explanation(ctx).as_str(), "  ", "  ");
            open_timeout(ctx, *waited, explanation.as_str())
        },
        Reason::Cancelled => ctx.tr_format_one(
            "Startup cancelled while connecting to the {agent}.",
            "agent",
            agent_name(ctx, context.target),
        ),
    };
    rows.push((ctx.tr_static("Log").to_owned(), context.log_path.as_str().to_owned()));
    assert(row_views(rows@) =~= failure_rows(ctx, *failure));
    join_message(opening, label_rows(&rows).as_str())
}

/// The milliseconds of all spans together.
pub open spec fn total_millis(steps: Seq<Wait>) -> nat
    decreases steps.len(),
{
    if steps.len() == 0 {
        0
    } else {
        total_millis(steps.drop_last()) + steps.last().millis()
    }
}

/// The seconds of all spans together, each cut to whole seconds.
pub open spec fn total_whole_seconds(steps: Seq<Wait>) -> nat
    decreases steps.len(),
{
    if steps.len() == 0 {
        0
    } else {
        total_whole_seconds(steps.drop_last()) + steps.last().millis() / 1000
    }
}

/// A total never prints smaller than the whole seconds of the steps that it sums, and it is
/// within half a second of the span.
pub proof fn total_covers_its_steps(total: Wait, steps: Seq<Wait>)
    requires
        total_millis(steps) <= total.millis(),
    ensures
        total_whole_seconds(steps) <= rounded_seconds(total),
        rounded_seconds(total) * 1000 <= total.millis() + 500 < rounded_seconds(total) * 1000 + 1000,
{
    lemma_whole_seconds(steps);
}

proof fn lemma_whole_seconds(steps: Seq<Wait>)
    ensures
        total_whole_seconds(steps) * 1000 <= total_millis(steps),
    decreases steps.len(),
{
    if steps.len() > 0 {
        lemma_whole_seconds(steps.drop_last());
    }
}

/// A wedged leader outranks whatever the longest step suggests: the advice is to restart it.
pub proof fn wedged_leader_is_restarted(
    longest_step: Option<StartupPhase>,
    earlier: EarlierAttempt,
)
    requires
        earlier.wedged_leader,
    ensures
        advice(longest_step, ConnectAttempt::AfterFallback(earlier)).next_step
            == NextStep::RestartSharedLeader,
{
}

/// The hint at a larger startup budget comes exactly with the command that retries.
pub proof fn budget_hint_comes_with_the_retry_command(next_step: NextStep, retry_command: Seq<char>)
    requires
        retry_command != "grok leader kill"@,
    ensures
        hints_at_budget(next_step) <==> next_step.typed(retry_command) == retry_command,
{
}

/// A span shows its whole seconds, and one more from half a second on.
pub proof fn spans_are_rounded_at_half_a_second(wait: Wait)
    requires
        wait.subsec_nanos < 1_000_000_000,
    ensures
        wait.subsec_nanos < 500_000_000 ==> seconds_text(wait) == text::decimal(wait.secs as nat)
            + "s"@,
        wait.subsec_nanos >= 500_000_000 ==> seconds_text(wait) == text::decimal(
            wait.secs as nat + 1,
        ) + "s"@,
{
    let part: nat = wait.subsec_nanos as nat / 1_000_000;
    assert(part < 1000);
    assert(wait.subsec_nanos >= 500_000_000 <==> part >= 500);
    assert((wait.secs as nat * 1000 + part + 500) / 1000 == wait.secs as nat + (part + 500) / 1000);
}

/// Only phases that go over the network are answered by a check of it, only the connection to
/// the shared leader by a restart of the leader, and every other phase by another start.
pub proof fn phases_have_their_remedy(phase: StartupPhase)
    ensures
        step_after(phase) == NextStep::CheckNetworkThenRetry <==> phase
            == StartupPhase::ManagedPolicy || phase == StartupPhase::Bootstrap || phase
            == StartupPhase::EagerAuth,
        step_after(phase) == NextStep::RestartSharedLeader <==> phase
            == StartupPhase::LeaderConnect,
        phase == StartupPhase::ConfigLoad || phase == StartupPhase::ModelCatalog || phase
            == StartupPhase::WorkerSpawn || phase == StartupPhase::AcpInitialize || phase
            == StartupPhase::AppInit || phase == StartupPhase::SessionCreate ==> step_after(phase)
            == NextStep::Retry,
{
}

/// Where nothing is translated, each phase is told in words of its own.
pub proof fn phases_are_told_in_words(ctx: LocaleContext)
    requires
        forall|english: Seq<char>| #[trigger] ctx.looked_up_english(english) is None,
    ensures
        doing_text(ctx, StartupPhase::ConfigLoad) == "reading your local configuration"@,
        doing_text(ctx, StartupPhase::ManagedPolicy)
            == "checking your organization's managed policy"@,
        doing_text(ctx, StartupPhase::Bootstrap) == "loading your account settings"@,
        doing_text(ctx, StartupPhase::ModelCatalog) == "reading the list of available models"@,
        doing_text(ctx, StartupPhase::WorkerSpawn) == "starting the local agent"@,
        doing_text(ctx, StartupPhase::LeaderConnect) == "connecting to the shared leader"@,
        doing_text(ctx, StartupPhase::AcpInitialize) == "waiting for the agent to respond"@,
        doing_text(ctx, StartupPhase::EagerAuth) == "refreshing your sign-in"@,
        doing_text(ctx, StartupPhase::AppInit) == "preparing the interface"@,
        doing_text(ctx, StartupPhase::SessionCreate) == "creating the session"@,
        agent_text(ctx, AgentKind::Embedded) == "local agent"@,
        agent_text(ctx, AgentKind::Leader) == "shared leader"@,
{
}

/// The advice is about the longest step, mentions the earlier attempt exactly where it shaped the
/// wait, and follows the longest step unless the earlier attempt hung on a shared leader.
pub proof fn advice_follows_the_longest_step(
    longest_step: Option<StartupPhase>,
    earlier: EarlierAttempt,
)
    ensures
        advice(longest_step, ConnectAttempt::First).longest_step == longest_step,
        advice(longest_step, ConnectAttempt::First).earlier is None,
        longest_step is Some ==> advice(longest_step, ConnectAttempt::First).next_step
            == step_after(longest_step->0),
        longest_step is None ==> advice(longest_step, ConnectAttempt::First).next_step
            == NextStep::Retry,
        advice(longest_step, ConnectAttempt::AfterFallback(earlier)).longest_step == longest_step,
        earlier.shaped_the_wait ==> advice(
            longest_step,
            ConnectAttempt::AfterFallback(earlier),
        ).earlier == Some(earlier),
        !earlier.shaped_the_wait ==> advice(
            longest_step,
            ConnectAttempt::AfterFallback(earlier),
        ).earlier is None,
        !earlier.wedged_leader ==> advice(
            longest_step,
            ConnectAttempt::AfterFallback(earlier),
        ).next_step == advice(longest_step, ConnectAttempt::First).next_step,
        earlier.wedged_leader ==> advice(
            longest_step,
            ConnectAttempt::AfterFallback(earlier),
        ).next_step == NextStep::RestartSharedLeader,
{
}

/// Each next step has its sentence, and its command: the one that retries, or the one that stops
/// the shared leader.
pub proof fn next_steps_are_told(ctx: LocaleContext, retry_command: Seq<char>)
    ensures
        NextStep::Retry.sentence(ctx) == ctx.translated("Start Grok again."@),
        NextStep::CheckNetworkThenRetry.sentence(ctx) == ctx.translated(
            "Check your network connection, then start Grok again."@,
        ),
        NextStep::RestartSharedLeader.sentence(ctx) == ctx.named(
            "startup_failure.next_step.restart_leader"@,
            "Stop it with the command below, which also stops any other Grok session using it, then start Grok again."@,
        ),
        NextStep::Retry.typed(retry_command) == retry_command,
        NextStep::CheckNetworkThenRetry.typed(retry_command) == retry_command,
        NextStep::RestartSharedLeader.typed(retry_command) == "grok leader kill"@,
{
}

/// The explanation starts with the longest step, or with there being none. It tells the earlier
/// attempt where there is one and then what to do, and ends in the hint at a larger budget unless
/// the leader is to be restarted.
pub proof fn explanations_tell_step_attempt_and_remedy(ctx: LocaleContext, advice: Advice)
    ensures
        ({
            let shown = explanation_text(ctx, advice);
            let step = if advice.longest_step is Some {
                ctx.translated_format(
                    "The longest step was {doing}."@,
                    seq![("doing"@, doing_text(ctx, advice.longest_step->0))],
                )
            } else {
                ctx.translated("No startup step had begun."@)
            };
            let attempt = if advice.earlier is Some {
                " "@ + ctx.translated_format(
                    "Grok spent the first {seconds} on the {target}."@,
                    seq![
                        ("seconds"@, seconds_text(advice.earlier->0.wait)),
                        ("target"@, agent_text(ctx, advice.earlier->0.target)),
                    ],
                )
            } else {
                Seq::empty()
            };
            let remedy = " "@ + advice.next_step.sentence(ctx);
            let hint = if advice.next_step == NextStep::RestartSharedLeader {
                Seq::empty()
            } else {
                " "@ + ctx.named(
                    "startup_failure.slow_machine_hint"@,
                    "On a slow machine or network filesystem, a larger startup budget can help. Set it with the command below."@,
                )
            };
            &&& step.is_prefix_of(shown)
            &&& text::occurs_in(attempt, shown)
            &&& (remedy + hint).is_suffix_of(shown)
            &&& shown.len() == step.len() + attempt.len() + remedy.len() + hint.len()
        }),
{
    broadcast use text::group_occurrences;

    let shown = explanation_text(ctx, advice);
    let step = if advice.longest_step is Some {
        ctx.translated_format(
            "The longest step was {doing}."@,
            seq![("doing"@, doing_text(ctx, advice.longest_step->0))],
        )
    } else {
        ctx.translated("No startup step had begun."@)
    };
    let hint = if advice.next_step == NextStep::RestartSharedLeader {
        Seq::empty()
    } else {
        " "@ + ctx.named(
            "startup_failure.slow_machine_hint"@,
            "On a slow machine or network filesystem, a larger startup budget can help. Set it with the command below."@,
        )
    };
    let end = " "@ + advice.next_step.sentence(ctx) + hint;
    assert(shown.subrange(0, step.len() as int) =~= step);
    assert(shown.subrange(shown.len() - end.len(), shown.len() as int) =~= end);
}

/// Completed steps are listed in order, each as its label and its time; where no step has begun
/// the list says so.
pub proof fn completed_steps_are_listed(
    shorter: PhaseSnapshot,
    longer: PhaseSnapshot,
    step: TimedStep,
)
    requires
        shorter.open is None,
        longer.open is None,
        longer.completed@ == shorter.completed@.push(step),
    ensures
        shorter.completed@.len() == 0 ==> steps_text(shorter) == "none"@,
        shorter.completed@.len() == 0 ==> steps_text(longer) == step.label@ + "="@ + step.elapsed@,
        shorter.completed@.len() > 0 ==> steps_text(longer) == steps_text(shorter) + ", "@
            + step.label@ + "="@ + step.elapsed@,
{
    reveal_strlit("");
    assert(step.label@ + "="@ + step.elapsed@ + ""@ =~= step.label@ + "="@ + step.elapsed@);
    assert(step_texts(longer) =~= step_texts(shorter).push(step_text(step, ""@)));
    lemma_one_more_step(step_texts(shorter), step_text(step, ""@));
    if shorter.completed@.len() > 0 {
        assert(steps_text(longer) =~= steps_text(shorter) + ", "@ + step.label@ + "="@
            + step.elapsed@);
    }
}

/// The step that still runs comes last, with a plus sign behind its time.
pub proof fn the_running_step_comes_last(
    done: PhaseSnapshot,
    running: PhaseSnapshot,
    step: TimedStep,
)
    requires
        done.open is None,
        running.open == Some(step),
        running.completed@ == done.completed@,
    ensures
        done.completed@.len() == 0 ==> steps_text(running) == step.label@ + "="@ + step.elapsed@
            + "+"@,
        done.completed@.len() > 0 ==> steps_text(running) == steps_text(done) + ", "@ + step.label@
            + "="@ + step.elapsed@ + "+"@,
{
    assert(step_texts(running) =~= step_texts(done).push(step_text(step, "+"@)));
    lemma_one_more_step(step_texts(done), step_text(step, "+"@));
    if done.completed@.len() > 0 {
        assert(steps_text(running) =~= steps_text(done) + ", "@ + step.label@ + "="@ + step.elapsed@
            + "+"@);
    }
}

proof fn lemma_one_more_step(steps: Seq<Seq<char>>, step: Seq<char>)
    ensures
        steps.len() == 0 ==> text::joined(steps.push(step), ", "@) == step,
        steps.len() > 0 ==> text::joined(steps.push(step), ", "@) == text::joined(steps, ", "@)
            + ", "@ + step,
{
    let one = seq![step];
    text::joining_adds_up(one, one, ", "@);
    text::joining_adds_up(steps, one, ", "@);
    assert(steps.push(step) =~= steps + one);
    if steps.len() == 0 {
        assert(steps.push(step) =~= one);
    }
}

/// The label column takes every label with its colon, and is no wider than the widest needs.
pub proof fn label_column_is_as_wide_as_needed(rows: Seq<(Seq<char>, Seq<char>)>, i: int)
    ensures
        0 <= i < rows.len() ==> vstd::utf8::encode_utf8(rows[i].0 + ":"@).len() <= column_width(
            rows,
        ),
        rows.len() > 0 ==> exists|j: int|
            0 <= j < rows.len() && vstd::utf8::encode_utf8((#[trigger] rows[j]).0 + ":"@).len()
                == column_width(rows),
        rows.len() == 0 ==> column_width(rows) == 0,
    decreases rows.len(),
{
    if rows.len() > 0 {
        let rest = rows.drop_last();
        let last = rows.last().0 + ":"@;
        text::sizes_are_encoded_sizes(last);
        label_column_is_as_wide_as_needed(rest, i);
        if rest.len() > 0 && text::utf8_size(last) <= column_width(rest) {
            let j = choose|j: int|
                0 <= j < rest.len() && vstd::utf8::encode_utf8((#[trigger] rest[j]).0 + ":"@).len()
                    == column_width(rest);
            assert(rows[j] == rest[j]);
        } else {
            assert(rows[rows.len() - 1].0 + ":"@ == last);
            assert(vstd::utf8::encode_utf8(rows[rows.len() - 1].0 + ":"@).len() == column_width(
                rows,
            ));
        }
        if 0 <= i < rest.len() {
            assert(rows[i] == rest[i]);
        }
    }
}

/// Every row stands in the message: its value filled behind its label, the label with its colon
/// two spaces in, and the lines below it as far in as the value.
pub proof fn every_row_is_filled(rows: Seq<(Seq<char>, Seq<char>)>, i: int)
    requires
        0 <= i < rows.len(),
    ensures
        ({
            let label = "  "@ + text::left_aligned(rows[i].0 + ":"@, column_width(rows)) + " "@;
            exists|indent: Seq<char>|
                {
                    &&& indent.len() == vstd::utf8::encode_utf8(label).len()
                    &&& forall|k: int| 0 <= k < indent.len() ==> #[trigger] indent[k] == ' '
                    &&& text::occurs_in(
                        #[trigger] filled(rows[i].1, label, indent, 76, false),
                        rows_text(rows),
                    )
                }
        }),
{
    let width = column_width(rows);
    let label = row_label(rows[i].0, width);
    text::sizes_are_encoded_sizes(label);
    let indent = text::spaces(text::utf8_size(label));
    let shown = rows.map_values(|row: (Seq<char>, Seq<char>)| row_text(row, width));
    text::joining_keeps_every_part(shown, "\n"@, i);
    assert(shown[i] == filled(rows[i].1, label, indent, 76, false));
    assert(text::occurs_in(filled(rows[i].1, label, indent, 76, false), rows_text(rows)));
}

/// The message has a row on each of these, in this order: the agents, the version and, for a wait
/// that ran out, its steps and what to type; then the log.
pub proof fn messages_have_their_rows(ctx: LocaleContext, failure: StartupFailure)
    ensures
        ({
            let rows = failure_rows(ctx, failure);
            let context = failure.context;
            &&& rows[0] == (ctx.translated("Mode"@), agents_text(ctx, context))
            &&& rows[1] == (ctx.translated("Version"@), context.version@)
            &&& rows.last() == (ctx.translated("Log"@), context.log_path@)
            &&& failure.reason is Cancelled ==> rows.len() == 3
            &&& failure.reason is TimedOut ==> rows.len() == 5
            &&& failure.reason is TimedOut ==> rows[2] == (
                ctx.translated("Steps"@),
                steps_text(failure.reason->timings),
            )
            &&& failure.reason is TimedOut ==> rows[3].0 == ctx.translated("Try"@)
            &&& failure.reason is TimedOut ==> {
                let next = advice(failure.reason->timings.longest_step, context.attempt).next_step;
                if next == NextStep::RestartSharedLeader {
                    rows[3].1 == "grok leader kill"@
                } else {
                    rows[3].1 == context.retry_command@
                }
            }
        }),
{
}

/// Where nothing is translated, the agents are told in the order in which they were tried.
pub proof fn agents_are_told_in_order(ctx: LocaleContext, context: Context)
    requires
        forall|english: Seq<char>| #[trigger] ctx.looked_up_english(english) is None,
    ensures
        context.attempt is First ==> agents_text(ctx, context) == agent_text(ctx, context.target),
        context.attempt is AfterFallback ==> agents_text(ctx, context) == agent_text(
            ctx,
            context.attempt->AfterFallback_0.target,
        ) + ", then "@ + agent_text(ctx, context.target),
{
    let none = Seq::<char>::empty();
    reveal_strlit("first");
    reveal_strlit("target");
    reveal_strlit(", then ");
    reveal_strlit("{first}, then {target}");
    assert("first"@.len() != "target"@.len());
    match context.attempt {
        ConnectAttempt::First => {},
        ConnectAttempt::AfterFallback(earlier) => {
            let values = (agent_text(ctx, earlier.target), agent_text(ctx, context.target));
            render::lemma_two_values(none, "first"@, ", then "@, "target"@, none, values);
            assert("{first}, then {target}"@ =~= none + seq!['{'] + "first"@ + seq!['}'] + (
            ", then "@ + seq!['{'] + "target"@ + seq!['}'] + none));
            assert(none + values.0 + ", then "@ + values.1 + none =~= values.0 + ", then "@
                + values.1);
        },
    }
}

/// Where nothing is translated, a timeout opens with the wait in seconds and the explanation, and
/// a cancelled start with the agent that was being connected to.
pub proof fn messages_open_with_their_cause(
    ctx: LocaleContext,
    waited: Wait,
    explanation: Seq<char>,
    failure: StartupFailure,
)
    requires
        forall|english: Seq<char>| #[trigger] ctx.looked_up_english(english) is None,
    ensures
        timeout_opening(ctx, waited, explanation)
            == "Couldn't start Grok: startup timed out after "@ + seconds_text(waited) + ".\n\n"@
            + explanation,
        failure.reason is Cancelled ==> opening_text(ctx, failure)
            == "Startup cancelled while connecting to the "@ + agent_text(
            ctx,
            failure.context.target,
        ) + "."@,
        failure.reason is TimedOut ==> opening_text(ctx, failure) == timeout_opening(
            ctx,
            failure.reason->waited,
            filled(
                explanation_text(
                    ctx,
                    advice(failure.reason->timings.longest_step, failure.context.attempt),
                ),
                "  "@,
                "  "@,
                76,
                false,
            ),
        ),
{
    let none = Seq::<char>::empty();
    reveal_strlit("seconds");
    reveal_strlit("explanation");
    reveal_strlit("Couldn't start Grok: startup timed out after {seconds}.\n\n{explanation}");
    reveal_strlit("Couldn't start Grok: startup timed out after ");
    reveal_strlit(".\n\n");
    reveal_strlit("agent");
    reveal_strlit("Startup cancelled while connecting to the {agent}.");
    reveal_strlit("Startup cancelled while connecting to the ");
    reveal_strlit(".");
    assert("seconds"@.len() != "explanation"@.len());
    render::lemma_two_values(
        "Couldn't start Grok: startup timed out after "@,
        "seconds"@,
        ".\n\n"@,
        "explanation"@,
        none,
        (seconds_text(waited), explanation),
    );
    assert("Couldn't start Grok: startup timed out after {seconds}.\n\n{explanation}"@
        =~= "Couldn't start Grok: startup timed out after "@ + seq!['{'] + "seconds"@ + seq!['}']
        + (".\n\n"@ + seq!['{'] + "explanation"@ + seq!['}'] + none));
    assert(timeout_opening(ctx, waited, explanation)
        =~= "Couldn't start Grok: startup timed out after "@ + seconds_text(waited) + ".\n\n"@
        + explanation);
    let agent = agent_text(ctx, failure.context.target);
    render::lemma_one_value("Startup cancelled while connecting to the "@, "agent"@, "."@, agent);
    assert("Startup cancelled while connecting to the {agent}."@
        =~= "Startup cancelled while connecting to the "@ + seq!['{'] + "agent"@ + seq!['}']
        + "."@);
}

/// The message is its opening, an empty line and its rows.
pub proof fn messages_are_opening_and_rows(ctx: LocaleContext, failure: StartupFailure)
    ensures
        (opening_text(ctx, failure) + "\n\n"@).is_prefix_of(failure_text(ctx, failure)),
        rows_text(failure_rows(ctx, failure)).is_suffix_of(failure_text(ctx, failure)),
        failure_text(ctx, failure).len() == opening_text(ctx, failure).len() + 2 + rows_text(
            failure_rows(ctx, failure),
        ).len(),
{
    reveal_strlit("\n\n");
    let shown = failure_text(ctx, failure);
    let start = opening_text(ctx, failure) + "\n\n"@;
    let end = rows_text(failure_rows(ctx, failure));
    assert(shown.subrange(0, start.len() as int) =~= start);
    assert(shown.subrange(shown.len() - end.len(), shown.len() as int) =~= end);
}

/// The rows stand one below the other, in order, each filled on its own, and nothing else stands
/// between them.
pub proof fn rows_stand_in_order(rows: Seq<(Seq<char>, Seq<char>)>)
    ensures
        rows_text(rows) == text::joined(
            Seq::new(
                rows.len(),
                |i: int|
                    {
                        let label = "  "@ + text::left_aligned(
                            rows[i].0 + ":"@,
                            column_width(rows),
                        ) + " "@;
                        filled(
                            rows[i].1,
                            label,
                            Seq::new(vstd::utf8::encode_utf8(label).len(), |k: int| ' '),
                            76,
                            false,
                        )
                    },
            ),
            "\n"@,
        ),
{
    let width = column_width(rows);
    let shown = rows.map_values(|row: (Seq<char>, Seq<char>)| row_text(row, width));
    let filled_rows = Seq::new(
        rows.len(),
        |i: int|
            {
                let label = "  "@ + text::left_aligned(rows[i].0 + ":"@, column_width(rows))
                    + " "@;
                filled(
                    rows[i].1,
                    label,
                    Seq::new(vstd::utf8::encode_utf8(label).len(), |k: int| ' '),
                    76,
                    false,
                )
            },
    );
    assert forall|i: int| 0 <= i < rows.len() implies #[trigger] shown[i] == filled_rows[i] by {
        let label = row_label(rows[i].0, width);
        text::sizes_are_encoded_sizes(label);
        assert(text::spaces(text::utf8_size(label)) =~= Seq::new(
            vstd::utf8::encode_utf8(label).len(),
            |k: int| ' ',
        ));
    }
    assert(shown =~= filled_rows);
}

/// Rows stand for their labels and values, one for one and in order.
pub proof fn rows_stand_for_labels_and_values(rows: Seq<(String, String)>, i: int)
    requires
        0 <= i < rows.len(),
    ensures
        row_views(rows).len() == rows.len(),
        row_views(rows)[i] == (rows[i].0@, rows[i].1@),
{
}

/// In every language each phase and each agent shows the translation of its own words.
pub proof fn phases_show_their_translation(ctx: LocaleContext)
    ensures
        doing_text(ctx, StartupPhase::ConfigLoad) == ctx.translated(
            "reading your local configuration"@,
        ),
        doing_text(ctx, StartupPhase::ManagedPolicy) == ctx.translated(
            "checking your organization's managed policy"@,
        ),
        doing_text(ctx, StartupPhase::Bootstrap) == ctx.translated(
            "loading your account settings"@,
        ),
        doing_text(ctx, StartupPhase::ModelCatalog) == ctx.translated(
            "reading the list of available models"@,
        ),
        doing_text(ctx, StartupPhase::WorkerSpawn) == ctx.translated("starting the local agent"@),
        doing_text(ctx, StartupPhase::LeaderConnect) == ctx.translated(
            "connecting to the shared leader"@,
        ),
        doing_text(ctx, StartupPhase::AcpInitialize) == ctx.translated(
            "waiting for the agent to respond"@,
        ),
        doing_text(ctx, StartupPhase::EagerAuth) == ctx.translated("refreshing your sign-in"@),
        doing_text(ctx, StartupPhase::AppInit) == ctx.translated("preparing the interface"@),
        doing_text(ctx, StartupPhase::SessionCreate) == ctx.translated("creating the session"@),
        agent_text(ctx, AgentKind::Embedded) == ctx.translated("local agent"@),
        agent_text(ctx, AgentKind::Leader) == ctx.translated("shared leader"@),
{
}

/// In every language the message is given the agents in the order in which they were tried, and
/// opens with the wait and the explanation, or with the agent that was being connected to.
pub proof fn messages_are_given_agents_and_wait(
    ctx: LocaleContext,
    context: Context,
    waited: Wait,
    explanation: Seq<char>,
    failure: StartupFailure,
)
    ensures
        context.attempt is First ==> agents_text(ctx, context) == agent_text(ctx, context.target),
        context.attempt is AfterFallback ==> agents_text(ctx, context) == ctx.translated_format(
            "{first}, then {target}"@,
            seq![
                ("first"@, agent_text(ctx, context.attempt->AfterFallback_0.target)),
                ("target"@, agent_text(ctx, context.target)),
            ],
        ),
        timeout_opening(ctx, waited, explanation) == ctx.translated_format(
            "Couldn't start Grok: startup timed out after {seconds}.\n\n{explanation}"@,
            seq![("seconds"@, seconds_text(waited)), ("explanation"@, explanation)],
        ),
        failure.reason is Cancelled ==> opening_text(ctx, failure) == ctx.translated_format(
            "Startup cancelled while connecting to the {agent}."@,
            seq![("agent"@, agent_text(ctx, failure.context.target))],
        ),
        failure.reason is TimedOut ==> opening_text(ctx, failure) == timeout_opening(
            ctx,
            failure.reason->waited,
            filled(
                explanation_text(
                    ctx,
                    advice(failure.reason->timings.longest_step, failure.context.attempt),
                ),
                "  "@,
                "  "@,
                76,
                false,
            ),
        ),
{
}

} // verus!
