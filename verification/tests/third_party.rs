use grok_build::chat_messages::normalize_byok_chat_message_content;
use grok_build::third_party::{
    backfill_usage_details, coerce_integral_floats_to_ints, is_ignorable_response_event,
    null_out_empty_finish_reasons, recover_chat_chunk, recover_chat_response,
    recover_response_body, recover_response_event, repair_chat, repair_response,
    retain_byok_hosted_tool_entries, screen_message_payload, screen_parsed_payload, settle_body,
    settle_chunk, strip_byok_response_extensions, ScreenedMessagePayload,
};
use grok_build::text::truncate_bytes;
use serde_json::Value;

fn json(source: &str) -> Value {
    serde_json::from_str(source).unwrap()
}

#[test]
fn tool_block_content_moves_images_to_a_following_user_message() {
    let mut body = json(
        r#"{
        "messages": [
            {"role": "user", "content": "read the screenshot"},
            {"role": "assistant", "content": "", "tool_calls": [
                {"id": "call-1", "type": "function", "function": {"name": "read_file", "arguments": "{}"}}
            ]},
            {"role": "tool", "tool_call_id": "call-1", "content": [
                {"type": "text", "text": "file contents"},
                {"type": "image_url", "image_url": {"url": "data:image/png;base64,AAAA"}}
            ]},
            {"role": "assistant", "content": "here is what I saw"}
        ]
    }"#,
    );
    normalize_byok_chat_message_content(&mut body);
    assert_eq!(body["messages"][2]["content"], "file contents");
    assert_eq!(body["messages"][3]["role"], "user");
    let parts = body["messages"][3]["content"].as_array().unwrap();
    assert_eq!(parts.len(), 2);
    assert_eq!(parts[0]["text"], "Attached image(s) from tool result:");
    assert_eq!(parts[1]["type"], "image_url");
    assert_eq!(body["messages"][4]["role"], "assistant");
}

#[test]
fn image_only_tool_result_keeps_caption_text_and_relocates() {
    let mut body = json(
        r#"{
        "messages": [
            {"role": "tool", "tool_call_id": "call-1", "content": [
                {"type": "image_url", "image_url": {"url": "data:image/png;base64,AAAA"}}
            ]}
        ]
    }"#,
    );
    normalize_byok_chat_message_content(&mut body);
    assert_eq!(body["messages"][0]["content"], "(see attached image)");
    let parts = body["messages"][1]["content"].as_array().unwrap();
    assert_eq!(parts[0]["text"], "Attached image(s) from tool result:");
    assert_eq!(parts[1]["type"], "image_url");
}

#[test]
fn string_tool_results_and_image_bearing_user_messages_are_untouched() {
    let mut body = json(
        r#"{
        "messages": [
            {"role": "tool", "tool_call_id": "call-1", "content": "plain result"},
            {"role": "user", "content": [
                {"type": "text", "text": "look at this"},
                {"type": "image_url", "image_url": {"url": "data:image/png;base64,AAAA"}}
            ]}
        ]
    }"#,
    );
    let before = body.clone();
    normalize_byok_chat_message_content(&mut body);
    assert_eq!(body, before);
}

#[test]
fn text_only_arrays_flatten_and_missing_messages_is_noop() {
    let mut body = json(
        r#"{
        "messages": [
            {"role": "user", "content": [
                {"type": "text", "text": "part one"},
                {"type": "text", "text": "part two"}
            ]},
            {"role": "tool", "tool_call_id": "call-2", "content": []}
        ]
    }"#,
    );
    normalize_byok_chat_message_content(&mut body);
    assert_eq!(body["messages"][0]["content"], "part one\npart two");
    assert_eq!(body["messages"][1]["content"], "(no tool output)");

    let mut no_messages = json(r#"{"model": "glm-5.3-flash"}"#);
    normalize_byok_chat_message_content(&mut no_messages);
    assert_eq!(no_messages, json(r#"{"model": "glm-5.3-flash"}"#));
}

#[test]
fn arrays_with_other_blocks_stay_whole() {
    let mut body = json(
        r#"{"messages":[{"role":"user","content":[{"type":"text","text":"a"},{"type":"input_audio","input_audio":{"data":"AA","format":"wav"}}]}]}"#,
    );
    let before = body.clone();
    normalize_byok_chat_message_content(&mut body);
    assert_eq!(body, before);

    let mut odd = json(
        r#"{"messages":[
            {"role":"assistant","content":[{"type":"refusal","refusal":"no"}]},
            {"role":"user","content":["bare"]},
            {"role":"user","content":[]},
            {"role":"tool","content":[{"type":"text","text":"a"},{"type":"input_audio"}]}
        ]}"#,
    );
    normalize_byok_chat_message_content(&mut odd);
    assert_eq!(
        odd,
        json(
            r#"{"messages":[
                {"role":"assistant","content":[{"type":"refusal","refusal":"no"}]},
                {"role":"user","content":["bare"]},
                {"role":"user","content":""},
                {"role":"tool","content":"a"}
            ]}"#
        )
    );
}

#[test]
fn messages_stay_in_order_around_relocated_images() {
    let mut body = json(
        r#"{"messages":[
            {"role":"tool","id":1,"content":[{"type":"image_url","n":1}]},
            {"role":"tool","id":2,"content":[{"type":"text","text":"t"},{"type":"image_url","n":2}]},
            {"role":"user","id":3,"content":"u"},
            {"role":"tool","id":4,"content":[{"type":"image_url","n":3}]}
        ]}"#,
    );
    normalize_byok_chat_message_content(&mut body);
    let messages = body["messages"].as_array().unwrap();
    let ids: Vec<Option<u64>> = messages.iter().map(|m| m["id"].as_u64()).collect();
    assert_eq!(ids, vec![Some(1), Some(2), None, Some(3), Some(4), None]);
    assert_eq!(messages[2]["content"][1]["n"].as_u64(), Some(1));
    assert_eq!(messages[2]["content"][2]["n"].as_u64(), Some(2));
    assert_eq!(messages[5]["content"][1]["n"].as_u64(), Some(3));
}

#[test]
fn normalizing_twice_is_normalizing_once() {
    let mut body = json(
        r#"{"messages": [
            {"role": "tool", "content": [{"type": "image_url", "image_url": {"url": "x"}}]},
            {"role": "tool", "content": [{"type": "text", "text": "a"}]}
        ]}"#,
    );
    normalize_byok_chat_message_content(&mut body);
    let once = body.clone();
    normalize_byok_chat_message_content(&mut body);
    assert_eq!(body, once);
}

fn assert_retryable_error(screened: ScreenedMessagePayload, expected_message: &str) {
    match screened {
        ScreenedMessagePayload::Error(err) => {
            assert_eq!(err.error_type, "api_error");
            assert_eq!(err.message, expected_message);
            assert_eq!(err.code, None);
        }
        other => panic!("expected Error, got {other:?}"),
    }
}

#[test]
fn empty_object_on_error_event_becomes_retryable_stream_error() {
    assert_retryable_error(
        screen_message_payload("error", "{}"),
        "upstream sent an empty error event",
    );
    assert_retryable_error(
        screen_message_payload("ERROR", "  {}  "),
        "upstream sent an empty error event",
    );
}

#[test]
fn typeless_payload_with_members_becomes_retryable_stream_error() {
    assert_retryable_error(
        screen_message_payload("", r#"{"message":"boom"}"#),
        r#"upstream sent a stream event without a type field: {"message":"boom"}"#,
    );
    assert_retryable_error(
        screen_message_payload("", r#"{"type":null,"index":0}"#),
        r#"upstream sent a stream event without a type field: {"type":null,"index":0}"#,
    );
    assert_retryable_error(
        screen_message_payload("", r#"{"type":""}"#),
        r#"upstream sent a stream event without a type field: {"type":""}"#,
    );
}

#[test]
fn empty_and_placeholder_payloads_are_skipped() {
    assert!(matches!(screen_message_payload("", ""), ScreenedMessagePayload::Skip));
    assert!(matches!(screen_message_payload("ping", " \r\n"), ScreenedMessagePayload::Skip));
    assert!(matches!(screen_message_payload("ping", "{}"), ScreenedMessagePayload::Skip));
    assert!(matches!(screen_message_payload("keepalive", "{}"), ScreenedMessagePayload::Skip));
}

#[test]
fn typed_events_pass_through_to_the_strict_parse() {
    for data in [
        r#"{"type":"ping"}"#,
        r#"{"type":"message_start","message":{}}"#,
        r#"{"type":"content_block_delta","index":0,"delta":{"type":"text_delta","text":"hi"}}"#,
        r#"{"type":"error","error":{"type":"overloaded_error","message":"slow down"}}"#,
    ] {
        assert!(matches!(
            screen_message_payload("content_block_delta", data),
            ScreenedMessagePayload::Parse
        ));
    }
}

#[test]
fn non_object_and_invalid_payloads_stay_strict_outside_ping() {
    assert!(matches!(screen_message_payload("", "[1,2]"), ScreenedMessagePayload::Parse));
    assert!(matches!(screen_message_payload("", "{oops"), ScreenedMessagePayload::Parse));
}

#[test]
fn ping_frames_with_unparseable_payloads_are_skipped() {
    assert!(matches!(screen_message_payload("ping", "alive"), ScreenedMessagePayload::Skip));
    assert!(matches!(
        screen_message_payload("ping", r#"{"error":"x"}"#),
        ScreenedMessagePayload::Skip
    ));
}

#[test]
fn a_long_payload_is_quoted_in_part() {
    let data = format!(r#"{{"message":"{}"}}"#, "é".repeat(200));
    let shown = truncate_bytes(&data, 200);
    assert_eq!(shown.len(), 200);
    assert_retryable_error(
        screen_message_payload("", &data),
        &format!("upstream sent a stream event without a type field: {shown}"),
    );
    assert_eq!(truncate_bytes("aé", 2), "a");
    assert_eq!(truncate_bytes("aé", 3), "aé");
    assert_eq!(truncate_bytes("日本", 0), "");
    assert_eq!(truncate_bytes("🙂x", 4), "🙂");
}

#[test]
fn a_parsed_payload_is_screened_alike() {
    assert_retryable_error(
        screen_parsed_payload("Error", "{}", &Some(json("{}"))),
        "upstream sent an empty error event",
    );
    assert!(matches!(
        screen_parsed_payload("", "x", &None),
        ScreenedMessagePayload::Parse
    ));
}

#[test]
fn integral_floats_become_integers_and_other_numbers_are_untouched() {
    let mut value = json(
        r#"{
        "created_at": 1789666913.0,
        "items": [{ "duration": 2.0 }, { "duration": 0.5 }],
        "huge": 18446744073709551615,
        "text": "1789666913.0"
    }"#,
    );
    coerce_integral_floats_to_ints(&mut value);

    assert_eq!(value["created_at"].as_u64(), Some(1_789_666_913));
    assert_eq!(value["items"][0]["duration"].as_u64(), Some(2));
    assert!(value["items"][1]["duration"].is_f64());
    assert_eq!(value["huge"].as_u64(), Some(u64::MAX));
    assert!(value["text"].is_string());
    let duration: f64 = serde_json::from_value(value["items"][0]["duration"].clone()).unwrap();
    assert_eq!(duration, 2.0);
}

#[test]
fn coercion_keeps_to_the_exact_range() {
    let mut value = json(
        "[-2.0, -0.0, 9007199254740992.0, 18014398509481984.0, 1e300, -0.5, 9007199254740993, -7]",
    );
    coerce_integral_floats_to_ints(&mut value);
    assert_eq!(value[0].as_i64(), Some(-2));
    assert_eq!(value[1].as_i64(), Some(0));
    assert_eq!(value[2].as_u64(), Some(9_007_199_254_740_992));
    assert!(value[3].is_f64());
    assert!(value[4].is_f64());
    assert!(value[5].is_f64());
    assert_eq!(value[6].as_u64(), Some(9_007_199_254_740_993));
    assert_eq!(value[7].as_i64(), Some(-7));
    let once = value.clone();
    coerce_integral_floats_to_ints(&mut value);
    assert_eq!(value, once);
}

#[test]
fn float_timestamps_no_longer_kill_responses_events() {
    let created = r#"{
        "type": "response.created",
        "sequence_number": 0,
        "response": {
            "id": "resp_944c9f15ab5f4ec291feb4a67dee8ed6",
            "object": "response",
            "created_at": 1789666913.0,
            "model": "deepseek-v4.1-flash",
            "status": "in_progress",
            "output": []
        }
    }"#;
    let event = recover_response_event(created).expect("created parses");
    assert_eq!(event["type"], "response.created");
    assert_eq!(event["response"]["created_at"].as_u64(), Some(1_789_666_913));

    let completed = r#"{
        "type": "response.completed",
        "sequence_number": 1,
        "response": {
            "id": "resp_944c9f15ab5f4ec291feb4a67dee8ed6",
            "object": "response",
            "created_at": 1789666913.0,
            "completed_at": 1789666914.0,
            "model": "deepseek-v4.1-flash",
            "status": "completed",
            "output": [],
            "usage": {
                "input_tokens": 10,
                "output_tokens": 5,
                "total_tokens": 15
            }
        }
    }"#;
    let event = recover_response_event(completed).expect("completed parses");
    assert_eq!(event["type"], "response.completed");
    assert_eq!(event["response"]["created_at"].as_u64(), Some(1_789_666_913));
    assert_eq!(event["response"]["completed_at"].as_u64(), Some(1_789_666_914));
    assert_eq!(
        event["response"]["usage"]["input_tokens_details"],
        json(r#"{"cached_tokens": 0}"#)
    );
}

#[test]
fn first_party_tools_are_dropped() {
    let mut entries = vec![
        json(r#"{"type": "web_search"}"#),
        json(r#"{"type": "x_search", "from": "x"}"#),
        json(r#"{"name": "x_search"}"#),
        json(r#""x_search""#),
    ];
    retain_byok_hosted_tool_entries(&mut entries);
    assert_eq!(
        entries,
        vec![
            json(r#"{"type": "web_search"}"#),
            json(r#"{"name": "x_search"}"#),
            json(r#""x_search""#),
        ]
    );
}

#[test]
fn first_party_members_are_stripped() {
    let mut body = json(
        r#"{"model": "m", "reasoning": {"effort": null}, "prompt_cache_key": "k"}"#,
    );
    strip_byok_response_extensions(&mut body);
    assert_eq!(body, json(r#"{"model": "m"}"#));

    let mut effort = json(r#"{"reasoning": {"effort": "high"}, "prompt_cache_key": "k"}"#);
    strip_byok_response_extensions(&mut effort);
    assert_eq!(effort, json(r#"{"reasoning": {"effort": "high"}}"#));

    let mut without = json(r#"{"reasoning": {"summary": "auto"}}"#);
    strip_byok_response_extensions(&mut without);
    assert_eq!(without, json(r#"{"reasoning": {"summary": "auto"}}"#));

    let mut list = json("[1]");
    strip_byok_response_extensions(&mut list);
    assert_eq!(list, json("[1]"));
}

#[test]
fn usage_breakdowns_are_backfilled() {
    let mut body = json(
        r#"{"usage": {"input_tokens": 1, "input_tokens_details": {"cached_tokens": 7}},
            "response": {"usage": {"input_tokens": 2}}}"#,
    );
    backfill_usage_details(&mut body);
    assert_eq!(body["usage"]["input_tokens_details"], json(r#"{"cached_tokens": 7}"#));
    assert_eq!(body["usage"]["output_tokens_details"], json(r#"{"reasoning_tokens": 0}"#));
    assert_eq!(
        body["response"]["usage"]["input_tokens_details"],
        json(r#"{"cached_tokens": 0}"#)
    );
    let once = body.clone();
    backfill_usage_details(&mut body);
    assert_eq!(body, once);

    let mut null_usage = json(r#"{"usage": null}"#);
    backfill_usage_details(&mut null_usage);
    assert_eq!(null_usage, json(r#"{"usage": null}"#));
}

#[test]
fn empty_finish_reasons_become_null() {
    let mut value = json(
        r#"{"choices": [{"finish_reason": ""}, {"finish_reason": "odd"}, {"index": 2}, 3]}"#,
    );
    null_out_empty_finish_reasons(&mut value);
    assert_eq!(
        value,
        json(r#"{"choices": [{"finish_reason": null}, {"finish_reason": "odd"}, {"index": 2}, 3]}"#)
    );
}

#[test]
fn bodies_are_recovered_or_given_up() {
    assert_eq!(
        recover_response_body(br#"{"created_at": 3.0, "usage": {}}"#),
        Some(json(
            r#"{"created_at": 3, "usage": {"input_tokens_details": {"cached_tokens": 0},
                "output_tokens_details": {"reasoning_tokens": 0}}}"#
        ))
    );
    assert_eq!(recover_response_body(b"<html>"), None);
    assert_eq!(
        recover_chat_response(br#"{"created": 3.0, "choices": [{"finish_reason": ""}]}"#),
        Some(json(r#"{"created": 3, "choices": [{"finish_reason": null}]}"#))
    );
    assert_eq!(recover_chat_response(&[0xff]), None);
    assert_eq!(
        recover_chat_chunk(r#"{"choices": [{"finish_reason": "", "index": 0.0}]}"#),
        Some(json(r#"{"choices": [{"finish_reason": null, "index": 0}]}"#))
    );
    assert_eq!(recover_chat_chunk("[DONE]"), None);
    assert_eq!(recover_response_event("nope"), None);
}

#[test]
fn repairs_combine_their_steps() {
    let mut response = json(r#"{"usage": {"n": 1.0}}"#);
    repair_response(&mut response);
    assert_eq!(response["usage"]["n"].as_u64(), Some(1));
    let mut chat = json(r#"{"choices": [{"finish_reason": "", "n": 1.0}]}"#);
    repair_chat(&mut chat);
    assert_eq!(chat, json(r#"{"choices": [{"finish_reason": null, "n": 1}]}"#));
}

#[test]
fn a_retry_settles_the_outcome() {
    assert_eq!(settle_body::<u8, &str>("first", None), Err("first"));
    assert_eq!(settle_body::<u8, &str>("first", Some(Err("second"))), Err("second"));
    assert_eq!(settle_body::<u8, &str>("first", Some(Ok(1))), Ok(1));
    assert_eq!(settle_chunk::<u8, &str>("first", None), Err("first"));
    assert_eq!(settle_chunk::<u8, &str>("first", Some(Err("second"))), Err("first"));
    assert_eq!(settle_chunk::<u8, &str>("first", Some(Ok(1))), Ok(1));
}

#[test]
fn keep_alives_are_ignorable() {
    assert!(is_ignorable_response_event("ping", "anything"));
    assert!(is_ignorable_response_event("", r#"{"type": "ping"}"#));
    assert!(!is_ignorable_response_event("PING", "{}"));
    assert!(!is_ignorable_response_event("", r#"{"type": "response.created"}"#));
    assert!(!is_ignorable_response_event("", "ping"));
}
