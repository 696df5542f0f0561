//! The share command.

use crate::locale::LocaleContext;
use vstd::prelude::*;

verus! {

/// What the share command takes.
#[derive(Debug)]
pub struct ShareArgs {
    /// Session to share.
    pub session_id: String,
}

/// What the share command says while it is disabled.
pub open spec fn disabled_text(ctx: LocaleContext) -> Seq<char> {
    ctx.named("session.share_disabled"@, "Session sharing is temporarily disabled"@)
}

/// Share a session. Sharing is disabled, so that every request is refused.
pub fn run(ctx: LocaleContext, args: &ShareArgs) -> (outcome: Result<(), String>)
    ensures
        outcome is Err,
        outcome->Err_0@ == disabled_text(ctx),
{
    let _ = args;
    Err(
        ctx.named_static_text(
            "session.share_disabled",
            "Session sharing is temporarily disabled",
        ).to_owned(),
    )
}

/// Where the context has no words of its own, the refusal is in English.
pub proof fn sharing_is_refused_in_words(ctx: LocaleContext)
    requires
        ctx.looked_up("session.share_disabled"@) is None,
    ensures
        disabled_text(ctx) == "Session sharing is temporarily disabled"@,
{
}

/// In every language the refusal shows the entry of its own id.
pub proof fn the_refusal_shows_its_entry(ctx: LocaleContext)
    ensures
        disabled_text(ctx) == ctx.named(
            "session.share_disabled"@,
            "Session sharing is temporarily disabled"@,
        ),
{
}

} // verus!
