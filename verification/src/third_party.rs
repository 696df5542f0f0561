//! Third-party payload compatibility.
//!
//! Two unrelated concerns share this module. Request rewrites drop what a strict third-party
//! gateway rejects. Tolerant response handling repairs or screens what a gateway sends
//! before it reaches the strict typed parse; it runs on first-party traffic too.

use crate::json;
use crate::json::{
    float_bits, get_member, get_member_mut, has_member, has_no_member, integer_value, member_is_text,
    member_keys, no_members, null_value, object_value, parse_json, parse_json_bytes, set_member,
    take_member,
};
use crate::json::{Json, JsonNumber};
use crate::number;
use crate::number::integral_value;
use crate::text;
use crate::text::{ascii_lower_text, same_text, trim_text, truncate_bytes};
use serde_json::Value;
use vstd::prelude::*;

verus! {

/// Whether a hosted-tool entry is one that only the first party knows.
pub open spec fn is_first_party_tool(tool: Json) -> bool {
    json::text_member(tool, "type"@) == Some("x_search"@)
}

/// The entries that a strict third-party endpoint accepts, in order.
pub open spec fn accepted_tools(tools: Seq<Json>) -> Seq<Json> {
    tools.filter(|tool: Json| !is_first_party_tool(tool))
}

/// Drop hosted-tool entries that a strict third-party Responses endpoint rejects.
pub fn retain_byok_hosted_tool_entries(entries: &mut Vec<Value>)
    ensures
        json::list_of(final(entries)@) == accepted_tools(json::list_of(old(entries)@)),
{
    let mut original: Vec<Value> = Vec::new();
    std::mem::swap(entries, &mut original);
    let ghost all = json::list_of(original@);
    let ghost keeps = |tool: Json| !is_first_party_tool(tool);
    let mut kept: Vec<Value> = Vec::new();
    proof {
        reveal(Seq::filter);
        assert(json::list_of(kept@) =~= all.take(0).filter(keeps));
    }
    for entry in it: original
        invariant
            it.seq() == original@,
            all == json::list_of(original@),
            keeps == (|tool: Json| !is_first_party_tool(tool)),
            json::list_of(kept@) == all.take(it.index()).filter(keeps),
    {
        proof {
            reveal(Seq::filter);
            let i = it.index();
            assert(all.take(i + 1).drop_last() =~= all.take(i));
            assert(all.take(i + 1).last() == json::json_of(entry));
        }
        let ghost before = kept@;
        if !member_is_text(&entry, "type", "x_search") {
            kept.push(entry);
            assert(json::list_of(kept@) =~= json::list_of(before).push(json::json_of(entry)));
        }
    }
    assert(all.take(all.len() as int) =~= all);
    *entries = kept;
}

/// Whether the body asks for reasoning without an effort.
pub open spec fn has_null_effort(body: Json) -> bool {
    match json::member(body, "reasoning"@) {
        Some(reasoning) => json::member(reasoning, "effort"@) == Some(Json::Null),
        None => false,
    }
}

/// The body without the members that only the first party takes.
pub open spec fn stripped_body(body: Json) -> Json {
    match body {
        Json::Object(members) => if has_null_effort(body) {
            Json::Object(members.remove("reasoning"@).remove("prompt_cache_key"@))
        } else {
            Json::Object(members.remove("prompt_cache_key"@))
        },
        other => other,
    }
}

/// Drop first-party Responses members that a strict third-party implementation rejects:
/// `reasoning` without an effort, and `prompt_cache_key`.
pub fn strip_byok_response_extensions(body: &mut Value)
    ensures
        json::json_of(*final(body)) == stripped_body(json::json_of(*old(body))),
{
    let null_effort = match get_member(body, "reasoning") {
        Some(reasoning) => match get_member(reasoning, "effort") {
            Some(effort) => effort.is_null(),
            None => false,
        },
        None => false,
    };
    match body.as_object_mut() {
        Some(members) => {
            if null_effort {
                let _ = take_member(members, "reasoning");
            }
            let _ = take_member(members, "prompt_cache_key");
        },
        None => {},
    }
}

/// An object with one member, the number zero.
pub open spec fn zero_object(key: Seq<char>) -> Json {
    Json::Object(
        Map::<Seq<char>, Json>::empty().insert(key, Json::Number(JsonNumber::Unsigned(0))),
    )
}

/// The members with `value` under `key` where there is nothing yet.
pub open spec fn with_default(
    members: Map<Seq<char>, Json>,
    key: Seq<char>,
    value: Json,
) -> Map<Seq<char>, Json> {
    if members.contains_key(key) {
        members
    } else {
        members.insert(key, value)
    }
}

/// A usage object with both breakdowns; any other document as it is.
pub open spec fn complete_usage(usage: Json) -> Json {
    match usage {
        Json::Object(members) => Json::Object(
            with_default(
                with_default(members, "input_tokens_details"@, zero_object("cached_tokens"@)),
                "output_tokens_details"@,
                zero_object("reasoning_tokens"@),
            ),
        ),
        other => other,
    }
}

/// A document with its own usage completed.
pub open spec fn with_complete_usage(document: Json) -> Json {
    match json::member(document, "usage"@) {
        Some(usage) => json::with_member(document, "usage"@, complete_usage(usage)),
        None => document,
    }
}

/// A document with the usage of its response and its own usage completed.
pub open spec fn backfilled(document: Json) -> Json {
    with_complete_usage(
        match json::member(document, "response"@) {
            Some(response) => json::with_member(
                document,
                "response"@,
                with_complete_usage(response),
            ),
            None => document,
        },
    )
}

fn zero_value(key: &str) -> (value: Value)
    ensures
        json::json_of(value) == zero_object(key@),
{
    let mut members = no_members();
    set_member(&mut members, key, integer_value(0));
    object_value(members)
}

fn complete_usage_of(document: &mut Value)
    ensures
        json::json_of(*final(document)) == with_complete_usage(json::json_of(*old(document))),
{
    let ghost before = json::json_of(*document);
    match get_member_mut(document, "usage") {
        Some(usage) => match usage.as_object_mut() {
            Some(members) => {
                if !has_member(members, "input_tokens_details") {
                    set_member(members, "input_tokens_details", zero_value("cached_tokens"));
                }
                if !has_member(members, "output_tokens_details") {
                    set_member(members, "output_tokens_details", zero_value("reasoning_tokens"));
                }
            },
            None => {},
        },
        None => {},
    }
}

/// Backfill the usage breakdowns that a standard third-party gateway omits: a missing
/// breakdown means zero, not a broken response.
pub fn backfill_usage_details(value: &mut Value)
    ensures
        json::json_of(*final(value)) == backfilled(json::json_of(*old(value))),
{
    match get_member_mut(value, "response") {
        Some(response) => complete_usage_of(response),
        None => {},
    }
    complete_usage_of(value);
}

/// A choice with an empty finish reason turned into null.
pub open spec fn with_usable_finish_reason(choice: Json) -> Json {
    if json::text_member(choice, "finish_reason"@) == Some(Seq::<char>::empty()) {
        json::with_member(choice, "finish_reason"@, Json::Null)
    } else {
        choice
    }
}

/// A response with every empty finish reason of its choices turned into null.
pub open spec fn with_usable_finish_reasons(response: Json) -> Json {
    match json::member(response, "choices"@) {
        Some(Json::Array(choices)) => json::with_member(
            response,
            "choices"@,
            Json::Array(choices.map_values(|choice: Json| with_usable_finish_reason(choice))),
        ),
        _ => response,
    }
}

fn repair_finish_reason(choice: &mut Value)
    ensures
        json::json_of(*final(choice)) == with_usable_finish_reason(json::json_of(*old(choice))),
{
    proof {
        reveal_strlit("");
        assert(""@ =~= Seq::<char>::empty());
    }
    if member_is_text(choice, "finish_reason", "") {
        match choice.as_object_mut() {
            Some(members) => set_member(members, "finish_reason", null_value()),
            None => {},
        }
    }
}

/// Null out empty finish reasons: an empty string carries no information. Any other unknown
/// reason stays.
pub fn null_out_empty_finish_reasons(value: &mut Value)
    ensures
        json::json_of(*final(value)) == with_usable_finish_reasons(json::json_of(*old(value))),
{
    let ghost before = json::json_of(*value);
    match get_member_mut(value, "choices") {
        Some(found) => match found.as_array_mut() {
            Some(choices) => {
                let ghost all = json::list_of(choices@);
                let ghost repaired = all.map_values(
                    |choice: Json| with_usable_finish_reason(choice),
                );
                let mut i: usize = 0;
                while i < choices.len()
                    invariant
                        i <= choices@.len(),
                        choices@.len() == all.len(),
                        repaired == all.map_values(
                            |choice: Json| with_usable_finish_reason(choice),
                        ),
                        forall|j: int|
                            0 <= j < i ==> json::json_of(#[trigger] choices@[j]) == repaired[j],
                        forall|j: int|
                            i <= j < all.len() ==> json::json_of(#[trigger] choices@[j]) == all[j],
                    decreases choices@.len() - i,
                {
                    repair_finish_reason(&mut choices[i]);
                    i = i + 1;
                }
                assert(json::list_of(choices@) =~= repaired);
            },
            None => {
                proof {
                    json::lemma_member_kept(before, "choices"@, json::json_of(*found));
                }
            },
        },
        None => {},
    }
}

/// A number with an integral float rewritten as the integer it is.
pub open spec fn coerced_number(stored: JsonNumber) -> JsonNumber {
    match stored {
        JsonNumber::Float(bits) => match number::exact_integer(bits) {
            Some(n) => json::integer(n),
            None => stored,
        },
        other => other,
    }
}

/// A document with every integral float in it rewritten as an integer.
pub open spec fn coerced(document: Json) -> Json
    decreases document,
{
    match document {
        Json::Number(stored) => Json::Number(coerced_number(stored)),
        Json::Array(items) => Json::Array(
            Seq::new(
                items.len(),
                |i: int|
                    if 0 <= i < items.len() {
                        coerced(items[i])
                    } else {
                        Json::Null
                    },
            ),
        ),
        Json::Object(members) => Json::Object(
            Map::new(
                |key: Seq<char>| members.contains_key(key),
                |key: Seq<char>|
                    if members.contains_key(key) {
                        coerced(members[key])
                    } else {
                        Json::Null
                    },
            ),
        ),
        other => other,
    }
}

/// Rewrite integral floats such as `1789666913.0` as JSON integers, in place.
///
/// Every integral float within two to the power of 53 is exactly an integer, so the rewrite
/// is lossless. Fractional, non-finite and out-of-range numbers stay untouched, and so do
/// numbers that are integers already.
pub fn coerce_integral_floats_to_ints(value: &mut Value)
    ensures
        json::json_of(*final(value)) == coerced(json::json_of(*old(value))),
    decreases json::json_of(*old(value)),
{
    let ghost before = json::json_of(*value);
    if value.is_f64() {
        match float_bits(value) {
            Some(bits) => match integral_value(bits) {
                Some(n) => {
                    *value = integer_value(n);
                },
                None => {},
            },
            None => {},
        }
        return;
    }
    match value.as_array_mut() {
        Some(items) => {
            let ghost all = json::list_of(items@);
            let mut i: usize = 0;
            while i < items.len()
                invariant
                    i <= items@.len(),
                    items@.len() == all.len(),
                    before == json::json_of(*old(value)),
                    before == Json::Array(all),
                    forall|j: int|
                        0 <= j < i ==> json::json_of(#[trigger] items@[j]) == coerced(all[j]),
                    forall|j: int|
                        i <= j < all.len() ==> json::json_of(#[trigger] items@[j]) == all[j],
                decreases items@.len() - i,
            {
                assert(decreases_to!(before => before->Array_0[i as int]));
                coerce_integral_floats_to_ints(&mut items[i]);
                i = i + 1;
            }
            proof {
                assert(json::list_of(items@) =~= coerced(before)->Array_0);
            }
            return;
        },
        None => {},
    }
    match value.as_object_mut() {
        Some(members) => {
            let ghost all = json::members_of(*members);
            let keys = member_keys(members);
            let ghost names = text::texts(keys@);
            let mut i: usize = 0;
            while i < keys.len()
                invariant
                    i <= keys@.len(),
                    names == text::texts(keys@),
                    names.no_duplicates(),
                    names.to_set() == all.dom(),
                    before == json::json_of(*old(value)),
                    before == Json::Object(all),
                    json::members_of(*members).dom() == all.dom(),
                    forall|j: int|
                        0 <= j < i ==> json::members_of(*members)[#[trigger] names[j]] == coerced(
                            all[names[j]],
                        ),
                    forall|j: int|
                        i <= j < names.len() ==> json::members_of(*members)[#[trigger] names[j]]
                            == all[names[j]],
                decreases keys@.len() - i,
            {
                let ghost here = names[i as int];
                assert(names.to_set().contains(here));
                let ghost now = json::members_of(*members);
                match take_member(members, keys[i].as_str()) {
                    Some(mut held) => {
                        assert(decreases_to!(before => before->Object_0[here]));
                        coerce_integral_floats_to_ints(&mut held);
                        set_member(members, keys[i].as_str(), held);
                        assert(json::members_of(*members) =~= now.insert(
                            here,
                            coerced(all[here]),
                        ));
                        assert(json::members_of(*members).dom() =~= all.dom());
                    },
                    None => {},
                }
                i = i + 1;
            }
            proof {
                let after = json::members_of(*members);
                assert forall|key: Seq<char>| all.contains_key(key) implies after[key] == coerced(
                    all[key],
                ) by {
                    assert(names.to_set().contains(key));
                    let j = choose|j: int| 0 <= j < names.len() && names[j] == key;
                    assert(after[names[j]] == coerced(all[names[j]]));
                }
                assert(after =~= coerced(before)->Object_0);
            }
        },
        None => {},
    }
}

/// A Responses document in the shape that the typed parse accepts.
pub open spec fn repaired_response(document: Json) -> Json {
    coerced(backfilled(document))
}

/// A Chat document in the shape that the typed parse accepts.
pub open spec fn repaired_chat(document: Json) -> Json {
    coerced(with_usable_finish_reasons(document))
}

/// Bring a Responses document into the shape that the typed parse accepts.
pub fn repair_response(value: &mut Value)
    ensures
        json::json_of(*final(value)) == repaired_response(json::json_of(*old(value))),
{
    backfill_usage_details(value);
    coerce_integral_floats_to_ints(value);
}

/// Bring a Chat document into the shape that the typed parse accepts.
pub fn repair_chat(value: &mut Value)
    ensures
        json::json_of(*final(value)) == repaired_chat(json::json_of(*old(value))),
{
    null_out_empty_finish_reasons(value);
    coerce_integral_floats_to_ints(value);
}

/// The document to retry a unary Responses body with, once the strict parse of the bytes
/// failed; nothing where the bytes are not JSON at all.
pub fn recover_response_body(bytes: &[u8]) -> (recovered: Option<Value>)
    ensures
        json::optional_json(recovered) == (match json::parsed_json_bytes(bytes@) {
            Some(document) => Some(repaired_response(document)),
            None => None,
        }),
        recovered matches Some(value) ==> is_settled_response(json::json_of(value)),
{
    match parse_json_bytes(bytes) {
        Some(mut value) => {
            proof {
                repairs_settle_documents(json::json_of(value));
            }
            repair_response(&mut value);
            Some(value)
        },
        None => None,
    }
}

/// The document to retry a Responses stream event with, once the strict parse of it failed.
pub fn recover_response_event(data: &str) -> (recovered: Option<Value>)
    ensures
        json::optional_json(recovered) == (match json::parsed_json(data@) {
            Some(document) => Some(repaired_response(document)),
            None => None,
        }),
        recovered matches Some(value) ==> is_settled_response(json::json_of(value)),
{
    match parse_json(data) {
        Some(mut value) => {
            proof {
                repairs_settle_documents(json::json_of(value));
            }
            repair_response(&mut value);
            Some(value)
        },
        None => None,
    }
}

/// The document to retry a unary Chat body with, once the strict parse of the bytes failed.
pub fn recover_chat_response(bytes: &[u8]) -> (recovered: Option<Value>)
    ensures
        json::optional_json(recovered) == (match json::parsed_json_bytes(bytes@) {
            Some(document) => Some(repaired_chat(document)),
            None => None,
        }),
        recovered matches Some(value) ==> is_settled_chat(json::json_of(value)),
{
    match parse_json_bytes(bytes) {
        Some(mut value) => {
            proof {
                repairs_settle_documents(json::json_of(value));
            }
            repair_chat(&mut value);
            Some(value)
        },
        None => None,
    }
}

/// The document to retry a Chat stream chunk with, once the strict parse of it failed.
pub fn recover_chat_chunk(data: &str) -> (recovered: Option<Value>)
    ensures
        json::optional_json(recovered) == (match json::parsed_json(data@) {
            Some(document) => Some(repaired_chat(document)),
            None => None,
        }),
        recovered matches Some(value) ==> is_settled_chat(json::json_of(value)),
{
    match parse_json(data) {
        Some(mut value) => {
            proof {
                repairs_settle_documents(json::json_of(value));
            }
            repair_chat(&mut value);
            Some(value)
        },
        None => None,
    }
}

/// The outcome of a unary body whose strict parse failed with `first`: that of the retry,
/// or the first failure where there was nothing to retry with.
pub fn settle_body<T, E>(first: E, retry: Option<Result<T, E>>) -> (outcome: Result<T, E>)
    ensures
        outcome == (match retry {
            Some(retried) => retried,
            None => Err(first),
        }),
{
    match retry {
        Some(retried) => retried,
        None => Err(first),
    }
}

/// The outcome of a stream chunk whose strict parse failed with `first`: the value of a
/// retry that succeeded, or the first failure.
pub fn settle_chunk<T, E>(first: E, retry: Option<Result<T, E>>) -> (outcome: Result<T, E>)
    ensures
        outcome == (match retry {
            Some(Ok(value)) => Ok(value),
            _ => Err(first),
        }),
{
    match retry {
        Some(Ok(value)) => Ok(value),
        _ => Err(first),
    }
}

/// A stream failure that the client may retry.
#[derive(Debug)]
pub struct StreamError {
    pub error_type: String,
    pub message: String,
    pub code: Option<String>,
}

/// Outcome of screening a raw Messages stream payload before typed deserialization.
#[derive(Debug)]
pub enum ScreenedMessagePayload {
    /// Hand the payload to the strict parse.
    Parse,
    /// Keep-alive or placeholder frame with no content: skip it.
    Skip,
    /// The upstream reported an error in a frame that the strict parse can never take.
    Error(StreamError),
}

/// The outcome of screening, by its characters.
pub enum Screening {
    Parse,
    Skip,
    Error { error_type: Seq<char>, message: Seq<char>, code: Option<Seq<char>> },
}

impl View for ScreenedMessagePayload {
    type V = Screening;

    open spec fn view(&self) -> Screening {
        match *self {
            ScreenedMessagePayload::Parse => Screening::Parse,
            ScreenedMessagePayload::Skip => Screening::Skip,
            ScreenedMessagePayload::Error(error) => Screening::Error {
                error_type: error.error_type@,
                message: error.message@,
                code: text::optional_text(error.code),
            },
        }
    }
}

/// A retryable failure with the given message.
pub open spec fn retryable(message: Seq<char>) -> Screening {
    Screening::Error { error_type: "api_error"@, message, code: None }
}

/// Whether `event_name` is `name`, whatever the case of its ASCII letters.
pub open spec fn is_event(event_name: Seq<char>, name: Seq<char>) -> bool {
    text::ascii_lowered(event_name) == name
}

/// Whether a payload carries a usable tag: a non-empty text under `type`.
pub open spec fn has_usable_type(payload: Json) -> bool {
    match json::text_member(payload, "type"@) {
        Some(tag) => tag.len() > 0,
        None => false,
    }
}

/// What screening makes of a payload. `content` is the payload without surrounding white
/// space, `parsed` the JSON document in it.
pub open spec fn screened(
    event_name: Seq<char>,
    content: Seq<char>,
    parsed: Option<Json>,
) -> Screening {
    match parsed {
        Some(Json::Object(members)) => if has_usable_type(Json::Object(members)) {
            Screening::Parse
        } else if is_event(event_name, "ping"@) {
            Screening::Skip
        } else if !json::is_memberless(members) {
            retryable(
                "upstream sent a stream event without a type field: "@ + text::byte_limited(content, 200),
            )
        } else if is_event(event_name, "error"@) {
            retryable("upstream sent an empty error event"@)
        } else {
            Screening::Skip
        },
        _ => if is_event(event_name, "ping"@) {
            Screening::Skip
        } else {
            Screening::Parse
        },
    }
}

fn event_is(event_name: &str, name: &str) -> (is: bool)
    ensures
        is == is_event(event_name@, name@),
{
    let lowered = ascii_lower_text(event_name);
    same_text(lowered.as_str(), name)
}

fn retryable_error(message: String) -> (screened: ScreenedMessagePayload)
    ensures
        screened@ == retryable(message@),
{
    ScreenedMessagePayload::Error(
        StreamError { error_type: "api_error".to_owned(), message, code: None },
    )
}

fn value_has_usable_type(payload: &Value) -> (usable: bool)
    ensures
        usable == has_usable_type(json::json_of(*payload)),
{
    match get_member(payload, "type") {
        Some(found) => match found.as_str() {
            Some(tag) => !tag.is_empty(),
            None => false,
        },
        None => false,
    }
}

/// Screen a payload whose JSON document, if any, is already at hand.
pub fn screen_parsed_payload(
    event_name: &str,
    content: &str,
    parsed: &Option<Value>,
) -> (screening: ScreenedMessagePayload)
    ensures
        screening@ == screened(event_name@, content@, json::optional_json(*parsed)),
{
    match parsed {
        Some(payload) => match payload.as_object() {
            Some(members) => {
                if value_has_usable_type(payload) {
                    return ScreenedMessagePayload::Parse;
                }
                if event_is(event_name, "ping") {
                    return ScreenedMessagePayload::Skip;
                }
                if has_no_member(members) {
                    if event_is(event_name, "error") {
                        return retryable_error("upstream sent an empty error event".to_owned());
                    }
                    return ScreenedMessagePayload::Skip;
                }
                let mut message = "upstream sent a stream event without a type field: ".to_owned();
                message.append(truncate_bytes(content, 200));
                return retryable_error(message);
            },
            None => {},
        },
        None => {},
    }
    if event_is(event_name, "ping") {
        ScreenedMessagePayload::Skip
    } else {
        ScreenedMessagePayload::Parse
    }
}

/// Screen a raw Messages stream payload before typed deserialization.
///
/// A payload without a usable `type` fails the strict parse for good, and gateways do send
/// such frames. An empty payload is skipped; one with a usable type, and one that is no JSON
/// object outside a ping frame, goes to the strict parse.
pub fn screen_message_payload(event_name: &str, data: &str) -> (screening: ScreenedMessagePayload)
    ensures
        screening@ == (if text::trimmed(data@).len() == 0 {
            Screening::Skip
        } else {
            screened(event_name@, text::trimmed(data@), json::parsed_json(text::trimmed(data@)))
        }),
        text::all_white(data@) ==> screening@ == Screening::Skip,
{
    proof {
        text::only_white_space_trims_to_nothing(data@);
    }
    let content = trim_text(data);
    if content.is_empty() {
        return ScreenedMessagePayload::Skip;
    }
    let parsed = parse_json(content);
    screen_parsed_payload(event_name, content, &parsed)
}

/// Whether a payload says of itself that it is a keep-alive.
pub open spec fn is_ping_payload(parsed: Option<Json>) -> bool {
    match parsed {
        Some(payload) => json::text_member(payload, "type"@) == Some("ping"@),
        None => false,
    }
}

/// Whether a payload says of itself that it is a keep-alive.
pub fn payload_is_ping(parsed: &Option<Value>) -> (ping: bool)
    ensures
        ping == is_ping_payload(json::optional_json(*parsed)),
{
    match parsed {
        Some(payload) => member_is_text(payload, "type", "ping"),
        None => false,
    }
}

/// Keep-alive events that a third-party Responses implementation may inject. Anything else
/// still goes through strict deserialization.
pub fn is_ignorable_response_event(event_name: &str, data: &str) -> (ignorable: bool)
    ensures
        ignorable == (event_name@ == "ping"@ || is_ping_payload(json::parsed_json(data@))),
{
    if same_text(event_name, "ping") {
        return true;
    }
    let parsed = parse_json(data);
    payload_is_ping(&parsed)
}

/// No entry that only the first party knows is left, and every other entry stays.
pub proof fn retention_drops_first_party_tools_only(tools: Seq<Json>, tool: Json)
    ensures
        accepted_tools(tools).contains(tool) <==> tools.contains(tool) && !is_first_party_tool(tool),
    decreases tools.len(),
{
    reveal(Seq::filter);
    if tools.len() > 0 {
        let rest = tools.drop_last();
        let kept = accepted_tools(rest);
        retention_drops_first_party_tools_only(rest, tool);
        assert(tools =~= rest.push(tools.last()));
        if is_first_party_tool(tools.last()) {
            assert(accepted_tools(tools) == kept);
        } else {
            assert(accepted_tools(tools) == kept.push(tools.last()));
        }
        assert(tools.contains(tool) <==> rest.contains(tool) || tool == tools.last()) by {
            broadcast use vstd::seq_lib::group_seq_properties;

        }
        assert(accepted_tools(tools).contains(tool) <==> kept.contains(tool) || (tool
            == tools.last() && !is_first_party_tool(tools.last()))) by {
            broadcast use vstd::seq_lib::group_seq_properties;

        }
    }
}

/// Stripping a body leaves `prompt_cache_key` out of it, leaves `reasoning` out of it exactly
/// where no effort was asked for, and keeps every other member.
pub proof fn stripping_touches_two_members(members: Map<Seq<char>, Json>, key: Seq<char>)
    ensures
        stripped_body(Json::Object(members)) is Object,
        key == "prompt_cache_key"@ ==> json::member(stripped_body(Json::Object(members)), key)
            is None,
        key == "reasoning"@ && has_null_effort(Json::Object(members)) ==> json::member(
            stripped_body(Json::Object(members)),
            key,
        ) is None,
        key != "prompt_cache_key"@ && (key != "reasoning"@ || !has_null_effort(
            Json::Object(members),
        )) ==> json::member(stripped_body(Json::Object(members)), key) == json::member(
            Json::Object(members),
            key,
        ),
{
}

/// Stripping twice is stripping once.
pub proof fn stripping_is_idempotent(body: Json)
    ensures
        stripped_body(stripped_body(body)) == stripped_body(body),
{
    reveal_strlit("reasoning");
    reveal_strlit("prompt_cache_key");
    match body {
        Json::Object(members) => {
            let once = stripped_body(body)->Object_0;
            assert(stripped_body(stripped_body(body))->Object_0 =~= once);
        },
        _ => {},
    }
}

/// A usage object is only added to: what it holds stays, and afterwards both breakdowns are
/// there.
pub proof fn backfilling_keeps_usage(members: Map<Seq<char>, Json>, key: Seq<char>)
    ensures
        members.contains_key(key) ==> json::member(complete_usage(Json::Object(members)), key)
            == Some(members[key]),
        json::member(complete_usage(Json::Object(members)), "input_tokens_details"@) is Some,
        json::member(complete_usage(Json::Object(members)), "output_tokens_details"@) is Some,
{
}

proof fn lemma_complete_usage_idempotent(usage: Json)
    ensures
        complete_usage(complete_usage(usage)) == complete_usage(usage),
{
}

proof fn lemma_with_complete_usage_idempotent(document: Json)
    ensures
        with_complete_usage(with_complete_usage(document)) == with_complete_usage(document),
{
    match json::member(document, "usage"@) {
        Some(usage) => {
            lemma_complete_usage_idempotent(usage);
            let once = with_complete_usage(document);
            assert(with_complete_usage(once)->Object_0 =~= once->Object_0);
        },
        None => {},
    }
}

/// Backfilling twice is backfilling once.
pub proof fn backfilling_is_idempotent(document: Json)
    ensures
        backfilled(backfilled(document)) == backfilled(document),
{
    reveal_strlit("usage");
    reveal_strlit("response");
    assert("usage"@.len() != "response"@.len());
    let once = backfilled(document);
    match document {
        Json::Object(members) => {
            if members.contains_key("response"@) {
                lemma_with_complete_usage_idempotent(members["response"@]);
                assert(json::member(once, "response"@) == Some(
                    with_complete_usage(members["response"@]),
                ));
                json::lemma_member_kept(once, "response"@, once->Object_0["response"@]);
            }
            let inner = match json::member(document, "response"@) {
                Some(response) => json::with_member(
                    document,
                    "response"@,
                    with_complete_usage(response),
                ),
                None => document,
            };
            lemma_with_complete_usage_idempotent(inner);
        },
        _ => {},
    }
}

/// Repairing finish reasons twice is repairing them once.
pub proof fn finish_reason_repair_is_idempotent(response: Json)
    ensures
        with_usable_finish_reasons(with_usable_finish_reasons(response))
            == with_usable_finish_reasons(response),
{
    let once = with_usable_finish_reasons(response);
    match json::member(response, "choices"@) {
        Some(Json::Array(choices)) => {
            let repaired = choices.map_values(|choice: Json| with_usable_finish_reason(choice));
            assert(json::member(once, "choices"@) == Some(Json::Array(repaired)));
            let again = repaired.map_values(|choice: Json| with_usable_finish_reason(choice));
            assert(again =~= repaired);
            json::lemma_member_kept(once, "choices"@, Json::Array(repaired));
        },
        _ => {},
    }
}

/// A finish reason that says something is kept, known or not.
pub proof fn unknown_finish_reasons_stay(choice: Json)
    requires
        json::text_member(choice, "finish_reason"@) matches Some(reason) ==> reason.len() > 0,
    ensures
        with_usable_finish_reason(choice) == choice,
{
}

/// Coercing twice is coercing once.
pub proof fn coercion_is_idempotent(document: Json)
    ensures
        coerced(coerced(document)) == coerced(document),
    decreases document,
{
    match document {
        Json::Array(items) => {
            let once = coerced(document)->Array_0;
            assert forall|i: int| 0 <= i < items.len() implies coerced(#[trigger] once[i])
                == once[i] by {
                assert(decreases_to!(document => document->Array_0[i]));
                coercion_is_idempotent(items[i]);
            }
            assert(coerced(coerced(document))->Array_0 =~= once);
        },
        Json::Object(members) => {
            let once = coerced(document)->Object_0;
            assert forall|key: Seq<char>| members.contains_key(key) implies coerced(
                #[trigger] once[key],
            ) == once[key] by {
                assert(decreases_to!(document => document->Object_0[key]));
                coercion_is_idempotent(members[key]);
            }
            assert(coerced(coerced(document))->Object_0 =~= once);
        },
        _ => {},
    }
}

/// Coercion loses nothing: a number stays what it is, or it is a float that equals the integer
/// it becomes.
pub proof fn coercion_is_lossless(stored: JsonNumber)
    ensures
        coerced_number(stored) == stored || (stored matches JsonNumber::Float(bits) && exists|
            n: i64,
        | #[trigger]
            number::float_equals(bits, n as int) && coerced_number(stored) == json::integer(n)),
{
    match stored {
        JsonNumber::Float(bits) => match number::exact_integer(bits) {
            Some(n) => {
                assert(number::float_equals(bits, n as int));
            },
            None => {},
        },
        _ => {},
    }
}

/// No integral float is left in a repaired document: coercing it again changes nothing.
pub proof fn repairs_end_coerced(document: Json)
    ensures
        coerced(repaired_response(document)) == repaired_response(document),
        coerced(repaired_chat(document)) == repaired_chat(document),
{
    coercion_is_idempotent(backfilled(document));
    coercion_is_idempotent(with_usable_finish_reasons(document));
}

/// A payload with a usable type reaches the strict parse, whatever its event is called.
pub proof fn typed_payloads_are_parsed(event_name: Seq<char>, content: Seq<char>, payload: Json)
    requires
        has_usable_type(payload),
    ensures
        screened(event_name, content, Some(payload)) == Screening::Parse,
{
}

/// A ping frame is never reported as an error.
pub proof fn pings_are_never_errors(
    event_name: Seq<char>,
    content: Seq<char>,
    parsed: Option<Json>,
)
    requires
        is_event(event_name, "ping"@),
    ensures
        screened(event_name, content, parsed) !is Error,
{
}

/// Nothing with content is dropped: a frame that is skipped is a ping, or an object without
/// members outside an error event.
pub proof fn only_empty_frames_are_skipped(
    event_name: Seq<char>,
    content: Seq<char>,
    parsed: Option<Json>,
)
    requires
        screened(event_name, content, parsed) == Screening::Skip,
    ensures
        is_event(event_name, "ping"@) || (!is_event(event_name, "error"@) && parsed is Some
            && parsed->0 is Object && json::is_memberless(parsed->0->Object_0)),
{
}

/// Entries are judged one by one and keep their order: one more entry is one more kept, unless
/// its type is `x_search`.
pub proof fn entries_are_judged_one_by_one(tools: Seq<Json>, tool: Json)
    ensures
        accepted_tools(Seq::empty()) == Seq::<Json>::empty(),
        json::member(tool, "type"@) == Some(Json::Text("x_search"@)) ==> accepted_tools(
            tools.push(tool),
        ) == accepted_tools(tools),
        json::member(tool, "type"@) != Some(Json::Text("x_search"@)) ==> accepted_tools(
            tools.push(tool),
        ) == accepted_tools(tools).push(tool),
{
    reveal(Seq::filter);
    assert(tools.push(tool).drop_last() =~= tools);
    assert(accepted_tools(Seq::empty()) =~= Seq::<Json>::empty());
}

/// What stands under `key` of what was found.
pub open spec fn below(found: Option<Json>, key: Seq<char>) -> Option<Json> {
    match found {
        Some(document) => json::member(document, key),
        None => None,
    }
}

/// A body loses `prompt_cache_key`, loses `reasoning` exactly where the effort in it is null,
/// and keeps every other member; what is no object stays as it is.
pub proof fn stripping_drops_null_effort_and_the_cache_key(body: Json, key: Seq<char>)
    ensures
        json::member(stripped_body(body), "prompt_cache_key"@) is None,
        below(json::member(body, "reasoning"@), "effort"@) == Some(Json::Null) ==> json::member(
            stripped_body(body),
            "reasoning"@,
        ) is None,
        below(json::member(body, "reasoning"@), "effort"@) != Some(Json::Null) ==> json::member(
            stripped_body(body),
            "reasoning"@,
        ) == json::member(body, "reasoning"@),
        key != "prompt_cache_key"@ && key != "reasoning"@ ==> json::member(stripped_body(body), key)
            == json::member(body, key),
        body is Object == stripped_body(body) is Object,
        !(body is Object) ==> stripped_body(body) == body,
{
    reveal_strlit("reasoning");
    reveal_strlit("prompt_cache_key");
    assert("reasoning"@.len() != "prompt_cache_key"@.len());
}

/// An object with a zero under `key` and nothing else.
pub open spec fn is_zero_count(found: Option<Json>, key: Seq<char>) -> bool {
    found == Some(Json::Object(map![key => Json::Number(JsonNumber::Unsigned(0))]))
}

/// Whether `after` is the usage `before` with both breakdowns: an object keeps what it holds,
/// gets each breakdown that it lacks with a count of zero, and gets nothing else. What is no
/// object stays as it is.
pub open spec fn is_completed(before: Option<Json>, after: Option<Json>) -> bool {
    if before is Some && before->0 is Object {
        &&& after is Some
        &&& after->0 is Object
        &&& forall|key: Seq<char>| #[trigger]
            json::member(before->0, key) is Some ==> json::member(after->0, key) == json::member(
                before->0,
                key,
            )
        &&& json::member(before->0, "input_tokens_details"@) is None ==> is_zero_count(
            json::member(after->0, "input_tokens_details"@),
            "cached_tokens"@,
        )
        &&& json::member(before->0, "output_tokens_details"@) is None ==> is_zero_count(
            json::member(after->0, "output_tokens_details"@),
            "reasoning_tokens"@,
        )
        &&& forall|key: Seq<char>|
            key != "input_tokens_details"@ && key != "output_tokens_details"@ ==> #[trigger]
            json::member(after->0, key) == json::member(before->0, key)
    } else {
        after == before
    }
}

proof fn lemma_complete_usage(usage: Json)
    ensures
        is_completed(Some(usage), Some(complete_usage(usage))),
{
    reveal_strlit("input_tokens_details");
    reveal_strlit("output_tokens_details");
    assert("input_tokens_details"@.len() != "output_tokens_details"@.len());
    let input = zero_object("cached_tokens"@);
    let output = zero_object("reasoning_tokens"@);
    let zero = Json::Number(JsonNumber::Unsigned(0));
    assert(input->Object_0 =~= map!["cached_tokens"@ => zero]);
    assert(output->Object_0 =~= map!["reasoning_tokens"@ => zero]);
}

/// Usage is completed wherever it stands, in the document and in its response: each has both
/// breakdowns afterwards, those that were there as they were and the others zero, and nothing
/// else of the document changes.
pub proof fn usage_is_completed_at_both_places(document: Json, key: Seq<char>)
    ensures
        is_completed(
            json::member(document, "usage"@),
            json::member(backfilled(document), "usage"@),
        ),
        is_completed(
            below(json::member(document, "response"@), "usage"@),
            below(json::member(backfilled(document), "response"@), "usage"@),
        ),
        key != "usage"@ && key != "response"@ ==> json::member(backfilled(document), key)
            == json::member(document, key),
        key != "usage"@ ==> below(json::member(backfilled(document), "response"@), key) == below(
            json::member(document, "response"@),
            key,
        ),
        json::member(document, "response"@) is Some == json::member(
            backfilled(document),
            "response"@,
        ) is Some,
        !(document is Object) ==> backfilled(document) == document,
        json::member(document, "response"@) is Some && !(json::member(document, "response"@)->0
            is Object) ==> json::member(backfilled(document), "response"@) == json::member(
            document,
            "response"@,
        ),
{
    reveal_strlit("usage");
    reveal_strlit("response");
    assert("usage"@.len() != "response"@.len());
    match json::member(document, "usage"@) {
        Some(usage) => lemma_complete_usage(usage),
        None => {},
    }
    match below(json::member(document, "response"@), "usage"@) {
        Some(usage) => lemma_complete_usage(usage),
        None => {},
    }
}

/// The document found, with its integral floats rewritten.
pub open spec fn coerced_if_any(found: Option<Json>) -> Option<Json> {
    match found {
        Some(document) => Some(coerced(document)),
        None => None,
    }
}

/// Coercion keeps the shape of a document: arrays keep their items and objects their members,
/// each coerced on its own, and texts, truth values, nulls and integers stay.
pub proof fn coercion_keeps_the_shape(document: Json, key: Seq<char>, i: int)
    ensures
        json::member(coerced(document), key) == coerced_if_any(json::member(document, key)),
        document is Object == coerced(document) is Object,
        document is Array == coerced(document) is Array,
        document is Array ==> coerced(document)->Array_0.len() == document->Array_0.len(),
        document is Array && 0 <= i < document->Array_0.len() ==> coerced(document)->Array_0[i]
            == coerced(document->Array_0[i]),
        document is Text || document is Bool || document is Null ==> coerced(document) == document,
        document is Number && !(document->Number_0 is Float) ==> coerced(document) == document,
{
}

/// A float that is an integer of at most two to the power of 53 becomes that integer, and every
/// other float stays.
pub proof fn coercion_rewrites_integral_floats(bits: u64, n: i64)
    ensures
        number::float_equals(bits, n as int) && -9007199254740992 <= n <= 9007199254740992 && n >= 0
            ==> coerced(Json::Number(JsonNumber::Float(bits))) == Json::Number(
            JsonNumber::Unsigned(n as u64),
        ),
        number::float_equals(bits, n as int) && -9007199254740992 <= n <= 9007199254740992 && n < 0
            ==> coerced(Json::Number(JsonNumber::Float(bits))) == Json::Number(
            JsonNumber::Negative(n),
        ),
        (forall|m: int|
            -9007199254740992 <= m <= 9007199254740992 ==> !(#[trigger] number::float_equals(
                bits,
                m,
            )))
            ==> coerced(Json::Number(JsonNumber::Float(bits))) == Json::Number(
            JsonNumber::Float(bits),
        ),
{
    match number::exact_integer(bits) {
        Some(found) => {
            assert(number::is_exact_integer(bits, found as int));
            if number::float_equals(bits, n as int) {
                number::float_is_one_integer(bits, found as int, n as int);
            }
        },
        None => {
            assert(!number::is_exact_integer(bits, n as int));
        },
    }
}

/// In a repaired Responses document, too, usage has both breakdowns wherever it stands: what was
/// there is coerced like everything else, and what was not is zero.
pub proof fn repaired_responses_have_complete_usage(document: Json, place: bool)
    ensures
        ({
            let before = if place {
                json::member(document, "usage"@)
            } else {
                below(json::member(document, "response"@), "usage"@)
            };
            let after = if place {
                json::member(repaired_response(document), "usage"@)
            } else {
                below(json::member(repaired_response(document), "response"@), "usage"@)
            };
            before is Some && before->0 is Object ==> {
                let input = below(before, "input_tokens_details"@);
                let output = below(before, "output_tokens_details"@);
                &&& input is Some ==> below(after, "input_tokens_details"@) == Some(
                    coerced(input->0),
                )
                &&& input is None ==> is_zero_count(
                    below(after, "input_tokens_details"@),
                    "cached_tokens"@,
                )
                &&& output is Some ==> below(after, "output_tokens_details"@) == Some(
                    coerced(output->0),
                )
                &&& output is None ==> is_zero_count(
                    below(after, "output_tokens_details"@),
                    "reasoning_tokens"@,
                )
            }
        }),
{
    usage_is_completed_at_both_places(document, "response"@);
    let filled = backfilled(document);
    coercion_keeps_the_shape(filled, "usage"@, 0);
    coercion_keeps_the_shape(filled, "response"@, 0);
    let completed = if place {
        json::member(filled, "usage"@)
    } else {
        below(json::member(filled, "response"@), "usage"@)
    };
    if json::member(filled, "response"@) is Some {
        coercion_keeps_the_shape(json::member(filled, "response"@)->0, "usage"@, 0);
    }
    if completed is Some {
        coercion_keeps_the_shape(completed->0, "input_tokens_details"@, 0);
        coercion_keeps_the_shape(completed->0, "output_tokens_details"@, 0);
    }
    lemma_zero_counts_are_coerced("cached_tokens"@);
    lemma_zero_counts_are_coerced("reasoning_tokens"@);
}

proof fn lemma_zero_counts_are_coerced(key: Seq<char>)
    ensures
        coerced(Json::Object(map![key => Json::Number(JsonNumber::Unsigned(0))])) == Json::Object(
            map![key => Json::Number(JsonNumber::Unsigned(0))],
        ),
{
    let zero = Json::Number(JsonNumber::Unsigned(0));
    let counts = map![key => zero];
    reveal_with_fuel(coerced, 2);
    assert(coerced(Json::Object(counts))->Object_0 =~= counts);
}

/// Repairing a Chat response goes through its choices one by one: an empty finish reason becomes
/// null, every other member of the choice stays, and so does all else of the response.
pub proof fn finish_reasons_are_repaired_in_every_choice(
    response: Json,
    choices: Seq<Json>,
    i: int,
    key: Seq<char>,
)
    requires
        json::member(response, "choices"@) == Some(Json::Array(choices)),
        0 <= i < choices.len(),
    ensures
        ({
            let found = json::member(with_usable_finish_reasons(response), "choices"@);
            let choice = choices[i];
            &&& found is Some && found->0 is Array
            &&& found->0->Array_0.len() == choices.len()
            &&& json::member(choice, "finish_reason"@) == Some(Json::Text(""@)) ==> json::member(
                found->0->Array_0[i],
                "finish_reason"@,
            ) == Some(Json::Null)
            &&& json::member(choice, "finish_reason"@) != Some(Json::Text(""@))
                ==> found->0->Array_0[i] == choice
            &&& key != "finish_reason"@ ==> json::member(found->0->Array_0[i], key)
                == json::member(choice, key)
        }),
        key != "choices"@ ==> json::member(with_usable_finish_reasons(response), key)
            == json::member(response, key),
{
    reveal_strlit("");
    assert(""@ =~= Seq::<char>::empty());
}

/// A response without a list of choices has no finish reason to repair.
pub proof fn responses_without_choices_stay(response: Json)
    requires
        !(json::member(response, "choices"@) is Some && json::member(response, "choices"@)->0
            is Array),
    ensures
        with_usable_finish_reasons(response) == response,
{
}

/// Under each key a repaired document holds what the first repair left there, coerced.
pub proof fn repairs_are_coerced_member_by_member(document: Json, key: Seq<char>)
    ensures
        json::member(repaired_response(document), key) == coerced_if_any(
            json::member(backfilled(document), key),
        ),
        json::member(repaired_chat(document), key) == coerced_if_any(
            json::member(with_usable_finish_reasons(document), key),
        ),
{
    coercion_keeps_the_shape(backfilled(document), key, 0);
    coercion_keeps_the_shape(with_usable_finish_reasons(document), key, 0);
}

/// Whether `name` spells `letters`, each letter small or as its capital.
pub open spec fn spells(name: Seq<char>, letters: Seq<char>) -> bool {
    &&& name.len() == letters.len()
    &&& forall|i: int|
        0 <= i < name.len() ==> (#[trigger] name[i] == letters[i] || name[i] as int + 32
            == letters[i] as int)
}

proof fn lemma_spelled(name: Seq<char>, letters: Seq<char>)
    requires
        forall|i: int| 0 <= i < letters.len() ==> 'a' <= #[trigger] letters[i] <= 'z',
    ensures
        is_event(name, letters) <==> spells(name, letters),
{
    let lowered = text::ascii_lowered(name);
    if is_event(name, letters) {
        assert forall|i: int| 0 <= i < name.len() implies (#[trigger] name[i] == letters[i]
            || name[i] as int + 32 == letters[i] as int) by {
            text::lower_case_changes_capitals_only(name, i);
            assert(lowered[i] == letters[i]);
        }
    }
    if spells(name, letters) {
        assert forall|i: int| 0 <= i < name.len() implies #[trigger] lowered[i] == letters[i] by {
            text::lower_case_changes_capitals_only(name, i);
            assert('a' <= letters[i] <= 'z');
        }
        assert(lowered =~= letters);
    }
}

proof fn lemma_event_names(name: Seq<char>)
    ensures
        is_event(name, "ping"@) <==> spells(name, "ping"@),
        is_event(name, "error"@) <==> spells(name, "error"@),
        spells(name, "ping"@) ==> !spells(name, "error"@),
{
    reveal_strlit("ping");
    reveal_strlit("error");
    lemma_spelled(name, "ping"@);
    lemma_spelled(name, "error"@);
}

/// Whether a document has a text under `type` that is not empty.
pub open spec fn says_its_type(found: Option<Json>) -> bool {
    match below(found, "type"@) {
        Some(Json::Text(tag)) => tag.len() > 0,
        _ => false,
    }
}

/// Ping frames: one with a typed object is parsed, any other is skipped.
pub proof fn ping_frames_are_skipped_unless_typed(
    event_name: Seq<char>,
    content: Seq<char>,
    parsed: Option<Json>,
)
    requires
        spells(event_name, "ping"@),
    ensures
        says_its_type(parsed) ==> screened(event_name, content, parsed) == Screening::Parse,
        !says_its_type(parsed) ==> screened(event_name, content, parsed) == Screening::Skip,
{
    lemma_event_names(event_name);
}

/// Frames that are no ping: what is no object is parsed, an object with a type is parsed, and an
/// object with neither type nor member is skipped, unless it came as an error.
pub proof fn other_frames_are_parsed_or_skipped(
    event_name: Seq<char>,
    content: Seq<char>,
    parsed: Option<Json>,
)
    requires
        !spells(event_name, "ping"@),
    ensures
        !(parsed is Some && parsed->0 is Object) ==> screened(event_name, content, parsed)
            == Screening::Parse,
        says_its_type(parsed) ==> screened(event_name, content, parsed) == Screening::Parse,
        parsed == Some(Json::Object(Map::empty())) && !spells(event_name, "error"@) ==> screened(
            event_name,
            content,
            parsed,
        ) == Screening::Skip,
        parsed == Some(Json::Object(Map::empty())) && spells(event_name, "error"@) ==> screened(
            event_name,
            content,
            parsed,
        ) == (Screening::Error {
            error_type: "api_error"@,
            message: "upstream sent an empty error event"@,
            code: None,
        }),
{
    lemma_event_names(event_name);
}

/// An object that holds something but no usable type is an error outside a ping. Its message
/// quotes the frame: all of it where it takes at most 200 bytes, else the longest beginning
/// that does.
pub proof fn untyped_frames_are_quoted(
    event_name: Seq<char>,
    content: Seq<char>,
    members: Map<Seq<char>, Json>,
    key: Seq<char>,
    length: int,
)
    requires
        !spells(event_name, "ping"@),
        members.contains_key(key),
        !says_its_type(Some(Json::Object(members))),
        0 <= length <= content.len(),
    ensures
        ({
            let outcome = screened(event_name, content, Some(Json::Object(members)));
            let lead = "upstream sent a stream event without a type field: "@;
            &&& outcome is Error
            &&& outcome->error_type == "api_error"@
            &&& outcome->code is None
            &&& lead.is_prefix_of(outcome->message)
            &&& {
                let quoted = outcome->message.skip(lead.len() as int);
                &&& quoted.is_prefix_of(content)
                &&& vstd::utf8::encode_utf8(quoted).len() <= 200
                &&& vstd::utf8::encode_utf8(content).len() <= 200 ==> quoted == content
                &&& length > quoted.len() ==> vstd::utf8::encode_utf8(content.take(length)).len()
                    > 200
            }
        }),
{
    lemma_event_names(event_name);
    assert(!json::is_memberless(members)) by {
        assert(!Map::<Seq<char>, Json>::empty().contains_key(key));
    }
    let lead = "upstream sent a stream event without a type field: "@;
    let message = lead + text::byte_limited(content, 200);
    assert(message.skip(lead.len() as int) =~= text::byte_limited(content, 200));
    assert(message.subrange(0, lead.len() as int) =~= lead);
    text::truncation_keeps_what_fits(content, 200, length);
    text::truncation_keeps_what_fits(content, 200, content.len() as int);
    assert(content.take(content.len() as int) =~= content);
    if vstd::utf8::encode_utf8(content).len() <= 200 {
        assert(text::byte_limited(content, 200) =~= content);
    }
}

/// A keep-alive payload is one whose type is `ping`, and nothing else is.
pub proof fn keep_alives_are_typed_ping(parsed: Option<Json>)
    ensures
        is_ping_payload(parsed) <==> below(parsed, "type"@) == Some(Json::Text("ping"@)),
{
}

/// Whether usage has both breakdowns, where it is an object.
pub open spec fn has_both_breakdowns(usage: Option<Json>) -> bool {
    usage is Some && usage->0 is Object ==> below(usage, "input_tokens_details"@) is Some && below(
        usage,
        "output_tokens_details"@,
    ) is Some
}

/// Whether a Responses document is ready for the typed parse: no integral float is left in it,
/// and usage has both breakdowns wherever it stands.
pub open spec fn is_settled_response(document: Json) -> bool {
    &&& coerced(document) == document
    &&& has_both_breakdowns(json::member(document, "usage"@))
    &&& has_both_breakdowns(below(json::member(document, "response"@), "usage"@))
}

/// Whether a Chat document is ready for the typed parse: no integral float is left in it, and no
/// choice has an empty finish reason.
pub open spec fn is_settled_chat(document: Json) -> bool {
    &&& coerced(document) == document
    &&& forall|choices: Seq<Json>, i: int|
        json::member(document, "choices"@) == Some(Json::Array(choices)) && 0 <= i < choices.len()
            ==> json::member(#[trigger] choices[i], "finish_reason"@) != Some(
            Json::Text(Seq::empty()),
        )
}

/// Every repaired document is ready for the typed parse.
pub proof fn repairs_settle_documents(document: Json)
    ensures
        is_settled_response(repaired_response(document)),
        is_settled_chat(repaired_chat(document)),
{
    repairs_end_coerced(document);
    usage_is_completed_at_both_places(document, "usage"@);
    let filled = backfilled(document);
    repairs_are_coerced_member_by_member(document, "usage"@);
    repairs_are_coerced_member_by_member(document, "response"@);
    repairs_are_coerced_member_by_member(document, "choices"@);
    lemma_breakdowns_stay(json::member(filled, "usage"@));
    if json::member(filled, "response"@) is Some {
        coercion_keeps_the_shape(json::member(filled, "response"@)->0, "usage"@, 0);
    }
    lemma_breakdowns_stay(below(json::member(filled, "response"@), "usage"@));
    let chat = with_usable_finish_reasons(document);
    assert forall|choices: Seq<Json>, i: int|
        json::member(repaired_chat(document), "choices"@) == Some(Json::Array(choices)) && 0 <= i
            < choices.len() implies json::member(#[trigger] choices[i], "finish_reason"@) != Some(
        Json::Text(Seq::empty()),
    ) by {
        let before = json::member(chat, "choices"@)->0;
        coercion_keeps_the_shape(before, "finish_reason"@, i);
        let choice = before->Array_0[i];
        coercion_keeps_the_shape(choice, "finish_reason"@, 0);
        match json::member(choice, "finish_reason"@) {
            Some(reason) => coercion_keeps_the_shape(reason, "finish_reason"@, 0),
            None => {},
        }
        let first = json::member(document, "choices"@)->0->Array_0;
        assert(choice == with_usable_finish_reason(first[i]));
    }
}

proof fn lemma_breakdowns_stay(usage: Option<Json>)
    requires
        has_both_breakdowns(usage),
    ensures
        has_both_breakdowns(coerced_if_any(usage)),
{
    if usage is Some {
        coercion_keeps_the_shape(usage->0, "input_tokens_details"@, 0);
        coercion_keeps_the_shape(usage->0, "output_tokens_details"@, 0);
    }
}

} // verus!
