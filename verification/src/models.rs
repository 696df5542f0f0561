//! Renderers of the models command.

use crate::locale::LocaleContext;
use crate::render;
use crate::render::{line_of, named_line_of};
use crate::text;
use crate::text::same_text;
use vstd::prelude::*;

verus! {

/// How the client is authenticated.
#[derive(Debug)]
pub enum AuthStatus {
    ApiKey,
    LoggedIn(String),
    ModelCredentials(String),
    DeploymentKey,
    NotAuthenticated,
}

/// The line on authentication, with an empty line below it.
pub open spec fn auth_text(ctx: LocaleContext, status: AuthStatus) -> Seq<char> {
    (match status {
        AuthStatus::ApiKey => render::named_line(
            ctx,
            "models.auth.api_key"@,
            "You are using XAI_API_KEY."@,
        ),
        AuthStatus::LoggedIn(host) => render::line(
            ctx.formatted(
                "models.auth.logged_in"@,
                "You are logged in with {host}."@,
                seq![("host"@, host@)],
            ),
        ),
        AuthStatus::ModelCredentials(model) => render::line(
            ctx.formatted(
                "models.auth.model_api_key"@,
                "Model '{model}' is using its own API key."@,
                seq![("model"@, model@)],
            ),
        ),
        AuthStatus::DeploymentKey => render::named_line(
            ctx,
            "models.auth.deployment_key"@,
            "You are authenticated via deployment key."@,
        ),
        AuthStatus::NotAuthenticated => render::named_line(
            ctx,
            "models.auth.not_authenticated"@,
            "You are not authenticated."@,
        ),
    }) + "\n"@
}

/// The line on authentication, with an empty line below it.
pub fn print_auth_status(ctx: LocaleContext, status: &AuthStatus) -> (text: String)
    ensures
        text@ == auth_text(ctx, *status),
{
    let mut out = match status {
        AuthStatus::ApiKey => named_line_of(
            ctx,
            "models.auth.api_key",
            "You are using XAI_API_KEY.",
        ),
        AuthStatus::LoggedIn(host) => line_of(
            ctx.format_one(
                "models.auth.logged_in",
                "You are logged in with {host}.",
                "host",
                host.as_str(),
            ).as_str(),
        ),
        AuthStatus::ModelCredentials(model) => line_of(
            ctx.format_one(
                "models.auth.model_api_key",
                "Model '{model}' is using its own API key.",
                "model",
                model.as_str(),
            ).as_str(),
        ),
        AuthStatus::DeploymentKey => named_line_of(
            ctx,
            "models.auth.deployment_key",
            "You are authenticated via deployment key.",
        ),
        AuthStatus::NotAuthenticated => named_line_of(
            ctx,
            "models.auth.not_authenticated",
            "You are not authenticated.",
        ),
    };
    out.append("\n");
    out
}

/// A model's row; the one in use is marked.
pub open spec fn model_row(ctx: LocaleContext, model: Seq<char>, current: Seq<char>) -> Seq<char> {
    if model == current {
        "  * "@ + model + " "@ + ctx.named("models.default_marker"@, "(default)"@) + "\n"@
    } else {
        "  - "@ + model + "\n"@
    }
}

/// The rows of the models, in order.
pub open spec fn model_rows(ctx: LocaleContext, models: Seq<String>, current: Seq<char>) -> Seq<
    char,
>
    decreases models.len(),
{
    if models.len() == 0 {
        Seq::empty()
    } else {
        model_rows(ctx, models.drop_last(), current) + model_row(ctx, models.last()@, current)
    }
}

/// The default model and the models that there are.
pub open spec fn models_text(ctx: LocaleContext, current: Seq<char>, models: Seq<String>) -> Seq<
    char,
> {
    render::line(
        ctx.formatted(
            "models.default"@,
            "Default model: {model}"@,
            seq![("model"@, current)],
        ),
    ) + "\n"@ + render::named_line(ctx, "models.available"@, "Available models:"@) + model_rows(
        ctx,
        models,
        current,
    )
}

fn model_row_of(ctx: LocaleContext, model: &str, current: &str) -> (text: String)
    ensures
        text@ == model_row(ctx, model@, current@),
{
    if same_text(model, current) {
        let mut out = "  * ".to_owned();
        out.append(model);
        out.append(" ");
        out.append(ctx.named_static_text("models.default_marker", "(default)"));
        out.append("\n");
        out
    } else {
        let mut out = "  - ".to_owned();
        out.append(model);
        out.append("\n");
        out
    }
}

/// The default model and the models that there are.
pub fn list_available_models(ctx: LocaleContext, current: &str, models: &Vec<String>) -> (text:
    String)
    ensures
        text@ == models_text(ctx, current@, models@),
{
    let mut rows = String::new();
    let mut i: usize = 0;
    while i < models.len()
        invariant
            i <= models@.len(),
            rows@ == model_rows(ctx, models@.take(i as int), current@),
        decreases models@.len() - i,
    {
        assert(models@.take(i + 1).drop_last() =~= models@.take(i as int));
        rows.append(model_row_of(ctx, models[i].as_str(), current).as_str());
        i = i + 1;
    }
    assert(models@.take(i as int) =~= models@);
    let title = ctx.format_one("models.default", "Default model: {model}", "model", current);
    let mut out = line_of(title.as_str());
    out.append("\n");
    out.append(named_line_of(ctx, "models.available", "Available models:").as_str());
    out.append(rows.as_str());
    out
}

/// A row carries the mark of the default exactly where the model is the default, letter for
/// letter; the row of any other model is a dash and the model.
pub proof fn only_the_default_is_marked(ctx: LocaleContext, model: Seq<char>, current: Seq<char>)
    ensures
        model_row(ctx, model, current)[2] == '*' <==> model == current,
        model == current ==> model_row(ctx, model, current) == "  * "@ + model + " "@ + ctx.named(
            "models.default_marker"@,
            "(default)"@,
        ) + "\n"@,
        model != current ==> model_row(ctx, model, current) == "  - "@ + model + "\n"@,
{
    reveal_strlit("  * ");
    reveal_strlit("  - ");
}

/// Of two models that differ at most one is marked.
pub proof fn at_most_one_model_is_marked(
    ctx: LocaleContext,
    left: Seq<char>,
    right: Seq<char>,
    current: Seq<char>,
)
    requires
        left != right,
    ensures
        !(model_row(ctx, left, current)[2] == '*' && model_row(ctx, right, current)[2] == '*'),
{
    only_the_default_is_marked(ctx, left, current);
    only_the_default_is_marked(ctx, right, current);
}

/// Models are listed one below the other, in order: one more model is one more row at the end,
/// and nothing of what stands above it changes.
pub proof fn models_are_listed_in_order(
    ctx: LocaleContext,
    current: Seq<char>,
    models: Seq<String>,
    model: String,
)
    ensures
        model@ == current ==> models_text(ctx, current, models.push(model)) == models_text(
            ctx,
            current,
            models,
        ) + ("  * "@ + model@ + " "@ + ctx.named("models.default_marker"@, "(default)"@) + "\n"@),
        model@ != current ==> models_text(ctx, current, models.push(model)) == models_text(
            ctx,
            current,
            models,
        ) + ("  - "@ + model@ + "\n"@),
{
    assert(models.push(model).drop_last() =~= models);
    assert(models_text(ctx, current, models.push(model)) =~= models_text(ctx, current, models)
        + model_row(ctx, model@, current));
}

/// The list starts with the default model and a title, whatever models there are.
pub proof fn lists_start_with_the_default(
    ctx: LocaleContext,
    current: Seq<char>,
    models: Seq<String>,
)
    requires
        ctx.looked_up("models.default"@) is None,
    ensures
        ("Default model: "@ + current + "\n\n"@ + ctx.named(
            "models.available"@,
            "Available models:"@,
        ) + "\n"@).is_prefix_of(models_text(ctx, current, models)),
        models.len() == 0 ==> models_text(ctx, current, models) == "Default model: "@ + current
            + "\n\n"@ + ctx.named("models.available"@, "Available models:"@) + "\n"@,
{
    reveal_strlit("Default model: {model}");
    reveal_strlit("Default model: ");
    reveal_strlit("model");
    reveal_strlit("\n");
    reveal_strlit("\n\n");
    let none = Seq::<char>::empty();
    render::lemma_one_value("Default model: "@, "model"@, none, current);
    assert("Default model: {model}"@ =~= "Default model: "@ + seq!['{'] + "model"@ + seq!['}']
        + none);
    let start = "Default model: "@ + current + "\n\n"@ + ctx.named(
        "models.available"@,
        "Available models:"@,
    ) + "\n"@;
    let shown = models_text(ctx, current, models);
    assert(shown =~= start + model_rows(ctx, models, current));
    assert(shown.subrange(0, start.len() as int) =~= start);
    if models.len() == 0 {
        assert(shown =~= start);
    }
}

/// Where the context has no words of its own, each way of being authenticated is told in
/// English, with the host or the model that it is about, and an empty line follows.
pub proof fn authentication_is_told_in_words(ctx: LocaleContext, name: String)
    requires
        forall|id: Seq<char>| #[trigger] ctx.looked_up(id) is None,
    ensures
        auth_text(ctx, AuthStatus::ApiKey) == "You are using XAI_API_KEY."@ + "\n\n"@,
        auth_text(ctx, AuthStatus::LoggedIn(name)) == "You are logged in with "@ + name@ + "."@
            + "\n\n"@,
        auth_text(ctx, AuthStatus::ModelCredentials(name)) == "Model '"@ + name@
            + "' is using its own API key."@ + "\n\n"@,
        auth_text(ctx, AuthStatus::DeploymentKey) == "You are authenticated via deployment key."@
            + "\n\n"@,
        auth_text(ctx, AuthStatus::NotAuthenticated) == "You are not authenticated."@ + "\n\n"@,
{
    reveal_strlit("\n");
    reveal_strlit("\n\n");
    reveal_strlit("host");
    reveal_strlit("model");
    reveal_strlit("You are logged in with {host}.");
    reveal_strlit("You are logged in with ");
    reveal_strlit(".");
    reveal_strlit("Model '{model}' is using its own API key.");
    reveal_strlit("Model '");
    reveal_strlit("' is using its own API key.");
    render::lemma_one_value("You are logged in with "@, "host"@, "."@, name@);
    assert("You are logged in with {host}."@ =~= "You are logged in with "@ + seq!['{'] + "host"@
        + seq!['}'] + "."@);
    render::lemma_one_value("Model '"@, "model"@, "' is using its own API key."@, name@);
    assert("Model '{model}' is using its own API key."@ =~= "Model '"@ + seq!['{'] + "model"@
        + seq!['}'] + "' is using its own API key."@);
    assert("\n"@ + "\n"@ =~= "\n\n"@);
    assert(auth_text(ctx, AuthStatus::ApiKey) =~= "You are using XAI_API_KEY."@ + "\n\n"@);
    assert(auth_text(ctx, AuthStatus::LoggedIn(name)) =~= "You are logged in with "@ + name@ + "."@
        + "\n\n"@);
    assert(auth_text(ctx, AuthStatus::ModelCredentials(name)) =~= "Model '"@ + name@
        + "' is using its own API key."@ + "\n\n"@);
    assert(auth_text(ctx, AuthStatus::DeploymentKey)
        =~= "You are authenticated via deployment key."@ + "\n\n"@);
    assert(auth_text(ctx, AuthStatus::NotAuthenticated) =~= "You are not authenticated."@
        + "\n\n"@);
}

/// In every language authentication is told in the words of the context, which are given the host
/// or the model, and the list opens in them with the default model.
pub proof fn the_context_words_the_commands(
    ctx: LocaleContext,
    name: String,
    current: Seq<char>,
    models: Seq<String>,
)
    ensures
        auth_text(ctx, AuthStatus::ApiKey) == ctx.named(
            "models.auth.api_key"@,
            "You are using XAI_API_KEY."@,
        ) + "\n"@ + "\n"@,
        auth_text(ctx, AuthStatus::LoggedIn(name)) == ctx.formatted(
            "models.auth.logged_in"@,
            "You are logged in with {host}."@,
            seq![("host"@, name@)],
        ) + "\n"@ + "\n"@,
        auth_text(ctx, AuthStatus::ModelCredentials(name)) == ctx.formatted(
            "models.auth.model_api_key"@,
            "Model '{model}' is using its own API key."@,
            seq![("model"@, name@)],
        ) + "\n"@ + "\n"@,
        auth_text(ctx, AuthStatus::DeploymentKey) == ctx.named(
            "models.auth.deployment_key"@,
            "You are authenticated via deployment key."@,
        ) + "\n"@ + "\n"@,
        auth_text(ctx, AuthStatus::NotAuthenticated) == ctx.named(
            "models.auth.not_authenticated"@,
            "You are not authenticated."@,
        ) + "\n"@ + "\n"@,
        (ctx.formatted("models.default"@, "Default model: {model}"@, seq![("model"@, current)])
            + "\n"@ + "\n"@).is_prefix_of(models_text(ctx, current, models)),
{
    broadcast use text::lemma_starts_with;
    broadcast use text::lemma_starts_with_itself;

}

} // verus!
