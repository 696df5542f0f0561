//! The banner shown when the client and its shared leader differ in version.

use crate::json;
use crate::json::{get_member, parse_json, Json};
use crate::locale;
use crate::locale::LocaleContext;
use crate::render;
use crate::text;
use crate::text::{contains_text, scrub_text, trim_text};
use serde_json::Value;
use vstd::prelude::*;

verus! {

/// What a version stands for in a notice: the text without control characters; nothing where
/// it is missing, no text, or blank.
pub open spec fn usable_version(notice: Json, key: Seq<char>) -> Option<Seq<char>> {
    match json::text_member(notice, key) {
        Some(version) => if text::trimmed(text::scrubbed(version)).len() == 0 {
            None
        } else {
            Some(text::scrubbed(version))
        },
        None => None,
    }
}

/// The banner for two versions.
pub open spec fn banner_text(ctx: LocaleContext, client: Seq<char>, leader: Seq<char>) -> Seq<char> {
    ctx.formatted(
        "acp.version_mismatch"@,
        "⚠ Version mismatch: client {client_version}, leader {leader_version}. Restart grok to match"@,
        seq![("client_version"@, client), ("leader_version"@, leader)],
    )
}

/// The banner for a notice: nothing where one of the versions is not usable. What else the
/// notice says is ignored.
pub open spec fn banner(ctx: LocaleContext, notice: Option<Json>) -> Option<Seq<char>> {
    match notice {
        Some(found) => match (
            usable_version(found, "clientVersion"@),
            usable_version(found, "leaderVersion"@),
        ) {
            (Some(client), Some(leader)) => Some(banner_text(ctx, client, leader)),
            _ => None,
        },
        None => None,
    }
}

fn usable_version_of(notice: &Value, key: &str) -> (version: Option<String>)
    ensures
        text::optional_text(version) == usable_version(json::json_of(*notice), key@),
{
    match get_member(notice, key) {
        Some(found) => match found.as_str() {
            Some(raw) => {
                let version = scrub_text(raw);
                if trim_text(version.as_str()).is_empty() {
                    None
                } else {
                    Some(version)
                }
            },
            None => None,
        },
        None => None,
    }
}

/// The banner for a notice that is already parsed.
pub fn banner_of_notice(ctx: LocaleContext, notice: &Option<Value>) -> (shown: Option<String>)
    ensures
        text::optional_text(shown) == banner(ctx, json::optional_json(*notice)),
{
    match notice {
        Some(found) => {
            let client = usable_version_of(found, "clientVersion");
            let leader = usable_version_of(found, "leaderVersion");
            match (client, leader) {
                (Some(client), Some(leader)) => Some(
                    ctx.format_two(
                        "acp.version_mismatch",
                        "⚠ Version mismatch: client {client_version}, leader {leader_version}. Restart grok to match",
                        ("client_version", client.as_str()),
                        ("leader_version", leader.as_str()),
                    ),
                ),
                _ => None,
            }
        },
        None => None,
    }
}

/// The banner for the parameters of a version notice; nothing where they are not usable.
pub fn version_mismatch_banner(ctx: LocaleContext, params: &str) -> (shown: Option<String>)
    ensures
        text::optional_text(shown) == banner(ctx, json::parsed_json(params@)),
{
    let notice = parse_json(params);
    banner_of_notice(ctx, &notice)
}

/// Whether a message is the banner: it carries the English marker or the translated one.
pub open spec fn is_banner(message: Seq<char>, translated_marker: Seq<char>) -> bool {
    text::occurs_in("Version mismatch:"@, message) || text::occurs_in(translated_marker, message)
}

/// Whether a message is the banner: it carries the English marker or the translated one.
pub fn is_version_mismatch_banner(message: &str, translated_marker: &str) -> (is: bool)
    ensures
        is == is_banner(message@, translated_marker@),
{
    contains_text(message, "Version mismatch:") || contains_text(message, translated_marker)
}

proof fn lemma_opening_kept(template: Seq<char>, arguments: Seq<(Seq<char>, Seq<char>)>, end: int)
    requires
        0 <= end <= template.len(),
        forall|i: int| 0 <= i < end ==> #[trigger] template[i] != '{',
    ensures
        end <= locale::expanded(template, arguments).len(),
        locale::expanded(template, arguments).take(end) == template.take(end),
{
    let open = locale::position_from(template, '{', 0);
    locale::lemma_position_bounds(template, '{', 0);
    if open < end {
        assert(template[open] == '{');
    }
    assert(locale::expanded(template, arguments).take(end) =~= template.take(end));
}

/// A marker that stands in front of the first placeholder of a template survives its
/// expansion, whatever the versions are: a catalog entry that carries the marker there keeps
/// the banner detectable.
pub proof fn marker_survives_expansion(
    template: Seq<char>,
    arguments: Seq<(Seq<char>, Seq<char>)>,
    marker: Seq<char>,
    at: int,
)
    requires
        text::occurs_at(marker, template, at),
        forall|i: int| 0 <= i < at + marker.len() ==> #[trigger] template[i] != '{',
    ensures
        text::occurs_in(marker, locale::expanded(template, arguments)),
{
    let end = at + marker.len() as int;
    lemma_opening_kept(template, arguments, end);
    let shown = locale::expanded(template, arguments);
    assert(shown.subrange(at, end) =~= shown.take(end).subrange(at, end));
    assert(template.subrange(at, end) =~= template.take(end).subrange(at, end));
    assert(text::occurs_at(marker, shown, at));
}

/// Without a catalog entry the banner is always detected.
pub proof fn english_banner_is_detected(
    ctx: LocaleContext,
    client: Seq<char>,
    leader: Seq<char>,
    translated_marker: Seq<char>,
)
    requires
        ctx.looked_up("acp.version_mismatch"@) is None,
    ensures
        is_banner(banner_text(ctx, client, leader), translated_marker),
{
    let template =
        "⚠ Version mismatch: client {client_version}, leader {leader_version}. Restart grok to match"@;
    reveal_strlit(
        "⚠ Version mismatch: client {client_version}, leader {leader_version}. Restart grok to match",
    );
    reveal_strlit("Version mismatch:");
    assert(template.subrange(2, 19) =~= "Version mismatch:"@);
    assert(text::occurs_at("Version mismatch:"@, template, 2));
    marker_survives_expansion(
        template,
        seq![("client_version"@, client), ("leader_version"@, leader)],
        "Version mismatch:"@,
        2,
    );
}

/// Whether a text holds no control character.
pub open spec fn is_clean(s: Seq<char>) -> bool {
    forall|i: int| 0 <= i < s.len() ==> !text::is_control(#[trigger] s[i])
}

proof fn lemma_value_clean(arguments: Seq<(Seq<char>, Seq<char>)>, name: Seq<char>)
    requires
        forall|i: int| 0 <= i < arguments.len() ==> is_clean((#[trigger] arguments[i]).1),
    ensures
        locale::argument_value(arguments, name) matches Some(value) ==> is_clean(value),
    decreases arguments.len(),
{
    if arguments.len() > 0 && arguments.first().0 != name {
        let rest = arguments.drop_first();
        assert forall|i: int| 0 <= i < rest.len() implies is_clean((#[trigger] rest[i]).1) by {
            assert(rest[i] == arguments[i + 1]);
        }
        lemma_value_clean(rest, name);
    }
}

proof fn lemma_expanded_clean(template: Seq<char>, arguments: Seq<(Seq<char>, Seq<char>)>)
    requires
        is_clean(template),
        forall|i: int| 0 <= i < arguments.len() ==> is_clean((#[trigger] arguments[i]).1),
    ensures
        is_clean(locale::expanded(template, arguments)),
    decreases template.len(),
{
    let open = locale::position_from(template, '{', 0);
    let close = locale::position_from(template, '}', open + 1);
    if 0 <= open < close < template.len() {
        let name = template.subrange(open + 1, close);
        let rest = template.skip(close + 1);
        lemma_value_clean(arguments, name);
        assert forall|i: int| 0 <= i < rest.len() implies !text::is_control(#[trigger] rest[i]) by {
            assert(rest[i] == template[close + 1 + i]);
        }
        lemma_expanded_clean(rest, arguments);
        let tail = locale::expanded(rest, arguments);
        let kept = match locale::argument_value(arguments, name) {
            Some(value) => template.take(open) + value,
            None => template.take(close + 1),
        };
        assert(is_clean(kept)) by {
            assert forall|i: int| 0 <= i < kept.len() implies !text::is_control(
                #[trigger] kept[i],
            ) by {
                match locale::argument_value(arguments, name) {
                    Some(value) => {
                        if i < open {
                            assert(kept[i] == template[i]);
                        } else {
                            assert(kept[i] == value[i - open]);
                        }
                    },
                    None => {
                        assert(kept[i] == template[i]);
                    },
                }
            }
        }
        let all = kept + tail;
        assert forall|i: int| 0 <= i < all.len() implies !text::is_control(#[trigger] all[i]) by {
            if i < kept.len() {
                assert(all[i] == kept[i]);
            } else {
                assert(all[i] == tail[i - kept.len()]);
            }
        }
    }
}

/// No control character reaches the banner, whatever the notice says, as long as the template
/// in use holds none.
pub proof fn banner_holds_no_control_character(ctx: LocaleContext, notice: Json)
    requires
        is_clean(
            ctx.named(
                "acp.version_mismatch"@,
                "⚠ Version mismatch: client {client_version}, leader {leader_version}. Restart grok to match"@,
            ),
        ),
    ensures
        banner(ctx, Some(notice)) matches Some(shown) ==> is_clean(shown),
{
    match (
        usable_version(notice, "clientVersion"@),
        usable_version(notice, "leaderVersion"@),
    ) {
        (Some(client), Some(leader)) => {
            assert(is_clean(client));
            assert(is_clean(leader));
            let arguments = seq![("client_version"@, client), ("leader_version"@, leader)];
            lemma_expanded_clean(
                ctx.named(
                    "acp.version_mismatch"@,
                    "⚠ Version mismatch: client {client_version}, leader {leader_version}. Restart grok to match"@,
                ),
                arguments,
            );
        },
        _ => {},
    }
}

/// Whether a notice names `version` under `key`, in characters that a terminal shows as they
/// are, and not with white space alone.
pub open spec fn names_version(notice: Json, key: Seq<char>, version: Seq<char>) -> bool {
    &&& json::member(notice, key) == Some(Json::Text(version))
    &&& is_clean(version)
    &&& !text::all_white(version)
}

proof fn lemma_named_version(notice: Json, key: Seq<char>, version: Seq<char>)
    requires
        names_version(notice, key, version),
    ensures
        usable_version(notice, key) == Some(version),
{
    assert(text::scrubbed(version) =~= version);
    text::only_white_space_trims_to_nothing(version);
}

/// A notice with two versions shows both, each where it belongs, and what else the notice holds
/// does not matter.
pub proof fn banners_name_both_versions(
    ctx: LocaleContext,
    notice: Json,
    client: Seq<char>,
    leader: Seq<char>,
)
    requires
        ctx.looked_up("acp.version_mismatch"@) is None,
        names_version(notice, "clientVersion"@, client),
        names_version(notice, "leaderVersion"@, leader),
    ensures
        banner(ctx, Some(notice)) == Some(
            "⚠ Version mismatch: client "@ + client + ", leader "@ + leader
                + ". Restart grok to match"@,
        ),
{
    lemma_named_version(notice, "clientVersion"@, client);
    lemma_named_version(notice, "leaderVersion"@, leader);
    reveal_strlit(
        "⚠ Version mismatch: client {client_version}, leader {leader_version}. Restart grok to match",
    );
    reveal_strlit("⚠ Version mismatch: client ");
    reveal_strlit(", leader ");
    reveal_strlit(". Restart grok to match");
    reveal_strlit("client_version");
    reveal_strlit("leader_version");
    assert("client_version"@[0] != "leader_version"@[0]);
    render::lemma_two_values(
        "⚠ Version mismatch: client "@,
        "client_version"@,
        ", leader "@,
        "leader_version"@,
        ". Restart grok to match"@,
        (client, leader),
    );
    assert("⚠ Version mismatch: client {client_version}, leader {leader_version}. Restart grok to match"@
        =~= "⚠ Version mismatch: client "@ + seq!['{'] + "client_version"@ + seq!['}'] + (
    ", leader "@ + seq!['{'] + "leader_version"@ + seq!['}'] + ". Restart grok to match"@));
}

/// A notice that lacks one of the two versions shows nothing: where the version is missing, is
/// no text, or holds nothing but white space and control characters.
pub proof fn incomplete_notices_show_nothing(ctx: LocaleContext, notice: Json, key: Seq<char>)
    requires
        key == "clientVersion"@ || key == "leaderVersion"@,
        json::member(notice, key) is None || !(json::member(notice, key)->0 is Text) || forall|
            i: int,
        |
            0 <= i < json::member(notice, key)->0->Text_0.len() ==> (text::is_white_space(
                #[trigger] json::member(notice, key)->0->Text_0[i],
            ) || text::is_control(json::member(notice, key)->0->Text_0[i])),
    ensures
        banner(ctx, Some(notice)) is None,
        banner(ctx, None) is None,
{
    match json::text_member(notice, key) {
        Some(version) => {
            let shown = text::scrubbed(version);
            assert forall|i: int| 0 <= i < shown.len() implies text::is_white_space(
                #[trigger] shown[i],
            ) by {
                assert(text::is_white_space(version[i]) || text::is_control(version[i]));
            }
            text::only_white_space_trims_to_nothing(shown);
        },
        None => {},
    }
}

/// Any version with something to show is shown, its control characters as spaces: a notice whose
/// versions both have a visible character has a banner.
pub proof fn visible_versions_are_shown(ctx: LocaleContext, notice: Json, i: int, j: int)
    requires
        json::text_member(notice, "clientVersion"@) is Some,
        json::text_member(notice, "leaderVersion"@) is Some,
        ({
            let client = json::text_member(notice, "clientVersion"@)->0;
            let leader = json::text_member(notice, "leaderVersion"@)->0;
            &&& 0 <= i < client.len()
            &&& 0 <= j < leader.len()
            &&& !text::is_white_space(client[i]) && !text::is_control(client[i])
            &&& !text::is_white_space(leader[j]) && !text::is_control(leader[j])
        }),
    ensures
        banner(ctx, Some(notice)) is Some,
        banner(ctx, Some(notice)) == Some(
            ctx.formatted(
                "acp.version_mismatch"@,
                "⚠ Version mismatch: client {client_version}, leader {leader_version}. Restart grok to match"@,
                seq![
                    (
                        "client_version"@,
                        text::scrubbed(json::text_member(notice, "clientVersion"@)->0),
                    ),
                    (
                        "leader_version"@,
                        text::scrubbed(json::text_member(notice, "leaderVersion"@)->0),
                    ),
                ],
            ),
        ),
{
    let client = text::scrubbed(json::text_member(notice, "clientVersion"@)->0);
    let leader = text::scrubbed(json::text_member(notice, "leaderVersion"@)->0);
    assert(!text::is_white_space(client[i]));
    assert(!text::is_white_space(leader[j]));
    text::only_white_space_trims_to_nothing(client);
    text::only_white_space_trims_to_nothing(leader);
}

/// A message is taken for the banner exactly where one of the two markers stands in it.
pub proof fn banners_carry_a_marker(
    message: Seq<char>,
    marker: Seq<char>,
    before: Seq<char>,
    behind: Seq<char>,
)
    ensures
        is_banner(before + "Version mismatch:"@ + behind, marker),
        is_banner(before + marker + behind, marker),
        is_banner(message, marker) ==> (exists|lead: Seq<char>, tail: Seq<char>|
            message == #[trigger] (lead + "Version mismatch:"@ + tail)) || (exists|
            lead: Seq<char>,
            tail: Seq<char>,
        | message == #[trigger] (lead + marker + tail)),
{
    text::parts_stand_between("Version mismatch:"@, before, behind, message);
    text::parts_stand_between(marker, before, behind, message);
}

} // verus!
