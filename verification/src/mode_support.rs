//! Which screen modes a slash command works in, and what is said where it does not.

use crate::locale;
use crate::locale::LocaleContext;
use crate::render;
use vstd::prelude::*;

verus! {

/// The mode that the screen is drawn in.
#[derive(Debug, Clone, Copy, PartialEq, Eq, Structural)]
pub enum ScreenMode {
    Fullscreen,
    Minimal,
}

/// What to tell a user who typed a command the current mode cannot run.
#[derive(Debug, Clone, Copy, PartialEq, Eq)]
pub enum Remedy {
    SwitchMode {
        /// Sentence fragment, parenthesized in the refusal: `"minimal is single-session"`.
        why: &'static str,
    },
    /// Imperative clause naming what to do in this mode instead.
    /// Name arrows, `Tab`, or `Ctrl+<letter>`.
    /// `Ctrl+G` is the external editor in minimal and the tasks pane everywhere else, and a
    /// bare letter resolves only under vim mode (off by default).
    UseInstead(&'static str),
    AlreadyInMode,
}

/// Which render modes a slash command functions in.
#[derive(Debug, Clone, Copy, PartialEq, Eq)]
pub enum ModeSupport {
    Both,
    FullscreenOnly(Remedy),
    MinimalOnly(Remedy),
}

impl ScreenMode {
    /// Whether the mode is minimal.
    pub fn is_minimal(self) -> (minimal: bool)
        ensures
            minimal == (self == ScreenMode::Minimal),
    {
        match self {
            ScreenMode::Minimal => true,
            ScreenMode::Fullscreen => false,
        }
    }
}

/// The refusal of a command in the mode `current`, where the command `switch` leads to the
/// other mode.
pub open spec fn refusal_text(
    ctx: LocaleContext,
    remedy: Remedy,
    token: Seq<char>,
    current: Seq<char>,
    switch: Seq<char>,
) -> Seq<char> {
    match remedy {
        Remedy::SwitchMode { why } => ctx.formatted(
            "slash.mode.error.switch"@,
            "/{token} isn't available in {current} mode ({why}). Run {switch} to switch this session."@,
            seq![
                ("token"@, token),
                ("current"@, current),
                ("why"@, why@),
                ("switch"@, switch),
            ],
        ),
        Remedy::UseInstead(instead) => ctx.formatted(
            "slash.mode.error.use_instead"@,
            "/{token} isn't available in {current} mode: {instead}."@,
            seq![("token"@, token), ("current"@, current), ("instead"@, instead@)],
        ),
        Remedy::AlreadyInMode => ctx.formatted(
            "slash.mode.error.already_in_mode"@,
            "You're already in {current} mode."@,
            seq![("current"@, current)],
        ),
    }
}

impl ModeSupport {
    /// Whether a command with this support works in `mode`.
    pub open spec fn works_in(self, mode: ScreenMode) -> bool {
        match self {
            ModeSupport::Both => true,
            ModeSupport::FullscreenOnly(_) => mode != ScreenMode::Minimal,
            ModeSupport::MinimalOnly(_) => mode == ScreenMode::Minimal,
        }
    }

    /// What is said of a command that does not work in `mode`; nothing of one that does.
    pub open spec fn refused(self, ctx: LocaleContext, token: Seq<char>, mode: ScreenMode) -> Option<
        Seq<char>,
    > {
        if self.works_in(mode) {
            None
        } else {
            match self {
                ModeSupport::Both => None,
                ModeSupport::FullscreenOnly(remedy) => Some(
                    refusal_text(ctx, remedy, token, "minimal"@, "/fullscreen"@),
                ),
                ModeSupport::MinimalOnly(remedy) => Some(
                    refusal_text(ctx, remedy, token, "fullscreen"@, "/minimal"@),
                ),
            }
        }
    }

    /// Whether a command with this support works in `mode`.
    pub fn supports(self, mode: ScreenMode) -> (works: bool)
        ensures
            works == self.works_in(mode),
    {
        match self {
            ModeSupport::Both => true,
            ModeSupport::FullscreenOnly(_) => !mode.is_minimal(),
            ModeSupport::MinimalOnly(_) => mode.is_minimal(),
        }
    }

    /// What is said of a command that does not work in `mode`; nothing of one that does.
    pub fn refusal(self, ctx: LocaleContext, token: &str, mode: ScreenMode) -> (said: Option<String>)
        ensures
            crate::text::optional_text(said) == self.refused(ctx, token@, mode),
    {
        if self.supports(mode) {
            return None;
        }
        match self {
            ModeSupport::Both => None,
            ModeSupport::FullscreenOnly(remedy) => Some(
                refusal_of(ctx, remedy, token, "minimal", "/fullscreen"),
            ),
            ModeSupport::MinimalOnly(remedy) => Some(
                refusal_of(ctx, remedy, token, "fullscreen", "/minimal"),
            ),
        }
    }
}

fn refusal_of(ctx: LocaleContext, remedy: Remedy, token: &str, current: &str, switch: &str) -> (text:
    String)
    ensures
        text@ == refusal_text(ctx, remedy, token@, current@, switch@),
{
    match remedy {
        Remedy::SwitchMode { why } => {
            let arguments: [(&str, &str); 4] = [
                ("token", token),
                ("current", current),
                ("why", why),
                ("switch", switch),
            ];
            assert(locale::argument_views(arguments@) =~= seq![
                ("token"@, token@),
                ("current"@, current@),
                ("why"@, why@),
                ("switch"@, switch@),
            ]);
            ctx.format_named(
                "slash.mode.error.switch",
                "/{token} isn't available in {current} mode ({why}). Run {switch} to switch this session.",
                &arguments,
            )
        },
        Remedy::UseInstead(instead) => {
            let arguments: [(&str, &str); 3] = [
                ("token", token),
                ("current", current),
                ("instead", instead),
            ];
            assert(locale::argument_views(arguments@) =~= seq![
                ("token"@, token@),
                ("current"@, current@),
                ("instead"@, instead@),
            ]);
            ctx.format_named(
                "slash.mode.error.use_instead",
                "/{token} isn't available in {current} mode: {instead}.",
                &arguments,
            )
        },
        Remedy::AlreadyInMode => ctx.format_one(
            "slash.mode.error.already_in_mode",
            "You're already in {current} mode.",
            "current",
            current,
        ),
    }
}

/// A command is refused exactly where it does not work, and there is always a mode in which
/// it works.
pub proof fn refused_exactly_where_unsupported(
    support: ModeSupport,
    ctx: LocaleContext,
    token: Seq<char>,
    mode: ScreenMode,
)
    ensures
        support.refused(ctx, token, mode) is Some <==> !support.works_in(mode),
        support.works_in(ScreenMode::Fullscreen) || support.works_in(ScreenMode::Minimal),
{
}

/// A command for one mode works in that mode alone, and one for both in either.
pub proof fn commands_work_in_their_mode(remedy: Remedy)
    ensures
        ModeSupport::Both.works_in(ScreenMode::Fullscreen),
        ModeSupport::Both.works_in(ScreenMode::Minimal),
        ModeSupport::FullscreenOnly(remedy).works_in(ScreenMode::Fullscreen),
        !ModeSupport::FullscreenOnly(remedy).works_in(ScreenMode::Minimal),
        ModeSupport::MinimalOnly(remedy).works_in(ScreenMode::Minimal),
        !ModeSupport::MinimalOnly(remedy).works_in(ScreenMode::Fullscreen),
{
}

/// Where the context has no words of its own, a refusal names the command, the mode in use, why
/// the mode cannot run it and the command that leads to the other mode.
pub proof fn refusals_name_command_and_mode(
    ctx: LocaleContext,
    token: Seq<char>,
    why: &'static str,
)
    requires
        forall|id: Seq<char>| #[trigger] ctx.looked_up(id) is None,
    ensures
        ModeSupport::FullscreenOnly(Remedy::SwitchMode { why }).refused(
            ctx,
            token,
            ScreenMode::Minimal,
        ) == Some(
            "/"@ + token + " isn't available in minimal mode ("@ + why@
                + "). Run /fullscreen to switch this session."@,
        ),
        ModeSupport::MinimalOnly(Remedy::SwitchMode { why }).refused(
            ctx,
            token,
            ScreenMode::Fullscreen,
        ) == Some(
            "/"@ + token + " isn't available in fullscreen mode ("@ + why@
                + "). Run /minimal to switch this session."@,
        ),
        ModeSupport::FullscreenOnly(Remedy::UseInstead(why)).refused(
            ctx,
            token,
            ScreenMode::Minimal,
        ) == Some("/"@ + token + " isn't available in minimal mode: "@ + why@ + "."@),
        ModeSupport::MinimalOnly(Remedy::UseInstead(why)).refused(
            ctx,
            token,
            ScreenMode::Fullscreen,
        ) == Some("/"@ + token + " isn't available in fullscreen mode: "@ + why@ + "."@),
        ModeSupport::FullscreenOnly(Remedy::AlreadyInMode).refused(ctx, token, ScreenMode::Minimal)
            == Some("You're already in minimal mode."@),
        ModeSupport::MinimalOnly(Remedy::AlreadyInMode).refused(ctx, token, ScreenMode::Fullscreen)
            == Some("You're already in fullscreen mode."@),
{
    lemma_switch_words(token, "minimal"@, why@, "/fullscreen"@);
    lemma_switch_words(token, "fullscreen"@, why@, "/minimal"@);
    lemma_other_words(token, "minimal"@, why@);
    lemma_other_words(token, "fullscreen"@, why@);
    reveal_strlit(" isn't available in ");
    reveal_strlit(" isn't available in minimal mode (");
    reveal_strlit(" isn't available in fullscreen mode (");
    reveal_strlit(" isn't available in minimal mode: ");
    reveal_strlit(" isn't available in fullscreen mode: ");
    reveal_strlit(" mode (");
    reveal_strlit(" mode: ");
    reveal_strlit("). Run ");
    reveal_strlit(" to switch this session.");
    reveal_strlit("). Run /fullscreen to switch this session.");
    reveal_strlit("). Run /minimal to switch this session.");
    reveal_strlit("minimal");
    reveal_strlit("fullscreen");
    reveal_strlit("/minimal");
    reveal_strlit("/fullscreen");
    reveal_strlit("You're already in ");
    reveal_strlit(" mode.");
    reveal_strlit("You're already in minimal mode.");
    reveal_strlit("You're already in fullscreen mode.");
    assert(" isn't available in "@ + "minimal"@ + " mode ("@
        =~= " isn't available in minimal mode ("@);
    assert(" isn't available in "@ + "fullscreen"@ + " mode ("@
        =~= " isn't available in fullscreen mode ("@);
    assert(" isn't available in "@ + "minimal"@ + " mode: "@
        =~= " isn't available in minimal mode: "@);
    assert(" isn't available in "@ + "fullscreen"@ + " mode: "@
        =~= " isn't available in fullscreen mode: "@);
    assert("). Run "@ + "/fullscreen"@ + " to switch this session."@
        =~= "). Run /fullscreen to switch this session."@);
    assert("). Run "@ + "/minimal"@ + " to switch this session."@
        =~= "). Run /minimal to switch this session."@);
    assert("You're already in "@ + "minimal"@ + " mode."@ =~= "You're already in minimal mode."@);
    assert("You're already in "@ + "fullscreen"@ + " mode."@
        =~= "You're already in fullscreen mode."@);
    assert(refusal_text(ctx, Remedy::SwitchMode { why }, token, "minimal"@, "/fullscreen"@)
        =~= "/"@ + token + (" isn't available in "@ + "minimal"@ + " mode ("@) + why@ + ("). Run "@
        + "/fullscreen"@ + " to switch this session."@));
    assert(refusal_text(ctx, Remedy::SwitchMode { why }, token, "fullscreen"@, "/minimal"@)
        =~= "/"@ + token + (" isn't available in "@ + "fullscreen"@ + " mode ("@) + why@ + (
    "). Run "@ + "/minimal"@ + " to switch this session."@));
    assert(refusal_text(ctx, Remedy::UseInstead(why), token, "minimal"@, "/fullscreen"@) =~= "/"@
        + token + (" isn't available in "@ + "minimal"@ + " mode: "@) + why@ + "."@);
    assert(refusal_text(ctx, Remedy::UseInstead(why), token, "fullscreen"@, "/minimal"@) =~= "/"@
        + token + (" isn't available in "@ + "fullscreen"@ + " mode: "@) + why@ + "."@);
}

proof fn lemma_switch_words(
    token: Seq<char>,
    current: Seq<char>,
    why: Seq<char>,
    switch: Seq<char>,
)
    ensures
        locale::expanded(
            "/{token} isn't available in {current} mode ({why}). Run {switch} to switch this session."@,
            seq![("token"@, token), ("current"@, current), ("why"@, why), ("switch"@, switch)],
        ) == "/"@ + token + " isn't available in "@ + current + " mode ("@ + why + "). Run "@
            + switch + " to switch this session."@,
{
    let arguments = seq![
        ("token"@, token),
        ("current"@, current),
        ("why"@, why),
        ("switch"@, switch),
    ];
    reveal_strlit("token");
    reveal_strlit("current");
    reveal_strlit("why");
    reveal_strlit("switch");
    reveal_strlit("/");
    reveal_strlit(" isn't available in ");
    reveal_strlit(" mode (");
    reveal_strlit("). Run ");
    reveal_strlit(" to switch this session.");
    reveal_strlit(
        "/{token} isn't available in {current} mode ({why}). Run {switch} to switch this session.",
    );
    let fourth = "). Run "@ + seq!['{'] + "switch"@ + seq!['}'] + " to switch this session."@;
    let third = " mode ("@ + seq!['{'] + "why"@ + seq!['}'] + fourth;
    let second = " isn't available in "@ + seq!['{'] + "current"@ + seq!['}'] + third;
    let first = "/"@ + seq!['{'] + "token"@ + seq!['}'] + second;
    assert("/{token} isn't available in {current} mode ({why}). Run {switch} to switch this session."@
        =~= first);
    locale::expansion_goes_on_behind_a_name("/"@, "token"@, second, arguments);
    locale::expansion_goes_on_behind_a_name(" isn't available in "@, "current"@, third, arguments);
    locale::expansion_goes_on_behind_a_name(" mode ("@, "why"@, fourth, arguments);
    locale::expansion_goes_on_behind_a_name(
        "). Run "@,
        "switch"@,
        " to switch this session."@,
        arguments,
    );
    locale::templates_without_a_closed_brace_stay(" to switch this session."@, arguments);
    assert("token"@.len() != "current"@.len());
    assert("token"@.len() != "why"@.len());
    assert("token"@.len() != "switch"@.len());
    assert("current"@.len() != "why"@.len());
    assert("current"@.len() != "switch"@.len());
    assert("why"@.len() != "switch"@.len());
    locale::the_first_argument_of_a_name_counts(arguments, "token"@, 0);
    locale::the_first_argument_of_a_name_counts(arguments, "current"@, 1);
    locale::the_first_argument_of_a_name_counts(arguments, "why"@, 2);
    locale::the_first_argument_of_a_name_counts(arguments, "switch"@, 3);
    assert(locale::expanded(first, arguments) =~= "/"@ + token + " isn't available in "@ + current
        + " mode ("@ + why + "). Run "@ + switch + " to switch this session."@);
}

proof fn lemma_other_words(token: Seq<char>, current: Seq<char>, instead: Seq<char>)
    ensures
        locale::expanded(
            "/{token} isn't available in {current} mode: {instead}."@,
            seq![("token"@, token), ("current"@, current), ("instead"@, instead)],
        ) == "/"@ + token + " isn't available in "@ + current + " mode: "@ + instead + "."@,
        locale::expanded("You're already in {current} mode."@, seq![("current"@, current)])
            == "You're already in "@ + current + " mode."@,
{
    let arguments = seq![("token"@, token), ("current"@, current), ("instead"@, instead)];
    reveal_strlit("token");
    reveal_strlit("current");
    reveal_strlit("instead");
    reveal_strlit("/");
    reveal_strlit(".");
    reveal_strlit(" isn't available in ");
    reveal_strlit(" mode: ");
    reveal_strlit("/{token} isn't available in {current} mode: {instead}.");
    reveal_strlit("You're already in {current} mode.");
    reveal_strlit("You're already in ");
    reveal_strlit(" mode.");
    let third = " mode: "@ + seq!['{'] + "instead"@ + seq!['}'] + "."@;
    let second = " isn't available in "@ + seq!['{'] + "current"@ + seq!['}'] + third;
    let first = "/"@ + seq!['{'] + "token"@ + seq!['}'] + second;
    assert("/{token} isn't available in {current} mode: {instead}."@ =~= first);
    locale::expansion_goes_on_behind_a_name("/"@, "token"@, second, arguments);
    locale::expansion_goes_on_behind_a_name(" isn't available in "@, "current"@, third, arguments);
    locale::expansion_goes_on_behind_a_name(" mode: "@, "instead"@, "."@, arguments);
    locale::templates_without_a_closed_brace_stay("."@, arguments);
    assert("token"@.len() != "current"@.len());
    assert("token"@.len() != "instead"@.len());
    assert("current"@[0] != "instead"@[0]);
    locale::the_first_argument_of_a_name_counts(arguments, "token"@, 0);
    locale::the_first_argument_of_a_name_counts(arguments, "current"@, 1);
    locale::the_first_argument_of_a_name_counts(arguments, "instead"@, 2);
    assert(locale::expanded(first, arguments) =~= "/"@ + token + " isn't available in "@ + current
        + " mode: "@ + instead + "."@);
    render::lemma_one_value("You're already in "@, "current"@, " mode."@, current);
    assert("You're already in {current} mode."@ =~= "You're already in "@ + seq!['{'] + "current"@
        + seq!['}'] + " mode."@);
}

/// In every language a refusal is given the command, the mode in use, and why or what to do
/// instead.
pub proof fn refusals_are_given_command_and_mode(
    ctx: LocaleContext,
    token: Seq<char>,
    why: &'static str,
    current: Seq<char>,
    switch: Seq<char>,
)
    ensures
        refusal_text(ctx, Remedy::SwitchMode { why }, token, current, switch) == ctx.formatted(
            "slash.mode.error.switch"@,
            "/{token} isn't available in {current} mode ({why}). Run {switch} to switch this session."@,
            seq![("token"@, token), ("current"@, current), ("why"@, why@), ("switch"@, switch)],
        ),
        refusal_text(ctx, Remedy::UseInstead(why), token, current, switch) == ctx.formatted(
            "slash.mode.error.use_instead"@,
            "/{token} isn't available in {current} mode: {instead}."@,
            seq![("token"@, token), ("current"@, current), ("instead"@, why@)],
        ),
        refusal_text(ctx, Remedy::AlreadyInMode, token, current, switch) == ctx.formatted(
            "slash.mode.error.already_in_mode"@,
            "You're already in {current} mode."@,
            seq![("current"@, current)],
        ),
{
}

/// In every language a command is refused with the mode in use and the command that leads to the
/// other one.
pub proof fn refusals_lead_to_the_other_mode(
    ctx: LocaleContext,
    token: Seq<char>,
    remedy: Remedy,
)
    ensures
        ModeSupport::FullscreenOnly(remedy).refused(ctx, token, ScreenMode::Minimal) == Some(
            refusal_text(ctx, remedy, token, "minimal"@, "/fullscreen"@),
        ),
        ModeSupport::MinimalOnly(remedy).refused(ctx, token, ScreenMode::Fullscreen) == Some(
            refusal_text(ctx, remedy, token, "fullscreen"@, "/minimal"@),
        ),
        ModeSupport::FullscreenOnly(remedy).refused(ctx, token, ScreenMode::Fullscreen) is None,
        ModeSupport::MinimalOnly(remedy).refused(ctx, token, ScreenMode::Minimal) is None,
        ModeSupport::Both.refused(ctx, token, ScreenMode::Minimal) is None,
        ModeSupport::Both.refused(ctx, token, ScreenMode::Fullscreen) is None,
{
}

} // verus!
