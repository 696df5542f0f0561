//! Chat Completions message shapes for third-party validators.
//!
//! A relay may route a stable base URL to upstreams that take message content as a plain
//! string only, so the standard shapes are sent unconditionally: tool results become
//! strings, their images move to a user message that follows, and text-only block arrays
//! are joined.

use crate::json;
use crate::json::Json;
use crate::json::{
    array_value, get_member, get_member_mut, member_is_text, no_members, object_value, set_member,
    take_member, text_value,
};
use crate::text;
use crate::text::join_text;
use serde_json::Value;
use vstd::prelude::*;

verus! {

/// Whether a message reports the result of a tool.
pub open spec fn is_tool_message(message: Json) -> bool {
    json::text_member(message, "role"@) == Some("tool"@)
}

/// The content blocks of a message whose content is a block array.
pub open spec fn content_blocks(message: Json) -> Option<Seq<Json>> {
    match json::member(message, "content"@) {
        Some(Json::Array(blocks)) => Some(blocks),
        _ => None,
    }
}

/// Whether a content block is an image.
pub open spec fn is_image(block: Json) -> bool {
    json::text_member(block, "type"@) == Some("image_url"@)
}

/// Whether a content block is text.
pub open spec fn is_text(block: Json) -> bool {
    json::text_member(block, "type"@) == Some("text"@)
}

/// Whether every block is text.
pub open spec fn all_text(blocks: Seq<Json>) -> bool {
    forall|i: int| 0 <= i < blocks.len() ==> is_text(#[trigger] blocks[i])
}

/// The text of a text block.
pub open spec fn block_text(block: Json) -> Option<Seq<char>> {
    if is_text(block) {
        json::text_member(block, "text"@)
    } else {
        None
    }
}

/// The texts of the text blocks, in order.
pub open spec fn block_texts(blocks: Seq<Json>) -> Seq<Seq<char>>
    decreases blocks.len(),
{
    if blocks.len() == 0 {
        Seq::empty()
    } else {
        match block_text(blocks.last()) {
            Some(content) => block_texts(blocks.drop_last()).push(content),
            None => block_texts(blocks.drop_last()),
        }
    }
}

/// The image blocks, in order.
pub open spec fn block_images(blocks: Seq<Json>) -> Seq<Json>
    decreases blocks.len(),
{
    if blocks.len() == 0 {
        Seq::empty()
    } else if is_image(blocks.last()) {
        block_images(blocks.drop_last()).push(blocks.last())
    } else {
        block_images(blocks.drop_last())
    }
}

/// The text blocks as one string, one line break between neighbours.
pub open spec fn joined_blocks(blocks: Seq<Json>) -> Seq<char> {
    text::joined(block_texts(blocks), "\n"@)
}

/// The string that stands for the blocks of a tool result.
pub open spec fn tool_text(blocks: Seq<Json>) -> Seq<char> {
    if joined_blocks(blocks).len() > 0 {
        joined_blocks(blocks)
    } else if block_images(blocks).len() > 0 {
        "(see attached image)"@
    } else {
        "(no tool output)"@
    }
}

/// A tool message with its block array replaced by a string.
pub open spec fn flat_tool_message(message: Json) -> Json {
    match content_blocks(message) {
        Some(blocks) => json::with_member(message, "content"@, Json::Text(tool_text(blocks))),
        None => message,
    }
}

/// Any other message with a text-only block array replaced by a string. An array with a block
/// of another kind, an image or anything else, stays as it is.
pub open spec fn flat_message(message: Json) -> Json {
    match content_blocks(message) {
        Some(blocks) => if all_text(blocks) {
            json::with_member(message, "content"@, Json::Text(joined_blocks(blocks)))
        } else {
            message
        },
        None => message,
    }
}

/// The images that a message carries.
pub open spec fn message_images(message: Json) -> Seq<Json> {
    match content_blocks(message) {
        Some(blocks) => block_images(blocks),
        None => Seq::empty(),
    }
}

/// The block that introduces relocated images.
pub open spec fn caption_block() -> Json {
    Json::Object(
        Map::<Seq<char>, Json>::empty().insert("type"@, Json::Text("text"@)).insert(
            "text"@,
            Json::Text("Attached image(s) from tool result:"@),
        ),
    )
}

/// The user message that carries images relocated out of tool results.
pub open spec fn image_message(images: Seq<Json>) -> Json {
    Json::Object(
        Map::<Seq<char>, Json>::empty().insert("role"@, Json::Text("user"@)).insert(
            "content"@,
            Json::Array(seq![caption_block()] + images),
        ),
    )
}

/// The message for pending images: none where nothing is pending.
pub open spec fn image_messages(images: Seq<Json>) -> Seq<Json> {
    if images.len() == 0 {
        Seq::empty()
    } else {
        seq![image_message(images)]
    }
}

/// The normalized form of `messages`, with `pending` images of preceding tool messages still
/// to be attached: they go out in front of the next message that is no tool result, or at
/// the end.
pub open spec fn normalized_messages(messages: Seq<Json>, pending: Seq<Json>) -> Seq<Json>
    decreases messages.len(),
{
    if messages.len() == 0 {
        image_messages(pending)
    } else if is_tool_message(messages.first()) {
        seq![flat_tool_message(messages.first())] + normalized_messages(
            messages.drop_first(),
            pending + message_images(messages.first()),
        )
    } else {
        image_messages(pending) + seq![flat_message(messages.first())] + normalized_messages(
            messages.drop_first(),
            Seq::empty(),
        )
    }
}

/// The normalized form of a request body: its messages, where it has any.
pub open spec fn normalized_body(body: Json) -> Json {
    match json::member(body, "messages"@) {
        Some(Json::Array(messages)) => json::with_member(
            body,
            "messages"@,
            Json::Array(normalized_messages(messages, Seq::empty())),
        ),
        _ => body,
    }
}

fn owned_block_text(block: &Value) -> (content: Option<String>)
    ensures
        match content {
            Some(content) => block_text(json::json_of(*block)) == Some(content@),
            None => block_text(json::json_of(*block)) is None,
        },
{
    if !member_is_text(block, "type", "text") {
        return None;
    }
    match get_member(block, "text") {
        Some(found) => match found.as_str() {
            Some(content) => Some(content.to_owned()),
            None => None,
        },
        None => None,
    }
}

/// The texts of the text blocks, and whether there is no other block.
fn read_blocks(blocks: &Vec<Value>) -> (read: (Vec<String>, bool))
    ensures
        text::texts(read.0@) == block_texts(json::list_of(blocks@)),
        read.1 == all_text(json::list_of(blocks@)),
{
    let mut contents: Vec<String> = Vec::new();
    let mut text_only = true;
    let mut i: usize = 0;
    while i < blocks.len()
        invariant
            i <= blocks@.len(),
            text::texts(contents@) == block_texts(json::list_of(blocks@).take(i as int)),
            text_only == all_text(json::list_of(blocks@).take(i as int)),
        decreases blocks@.len() - i,
    {
        proof {
            let next = json::list_of(blocks@).take(i + 1);
            assert(next.drop_last() =~= json::list_of(blocks@).take(i as int));
            assert(next.last() == json::json_of(blocks@[i as int]));
            lemma_all_text_step(next);
        }
        let ghost before = contents@;
        match owned_block_text(&blocks[i]) {
            Some(content) => {
                contents.push(content);
                assert(text::texts(contents@) =~= text::texts(before).push(content@));
            },
            None => {},
        }
        if !member_is_text(&blocks[i], "type", "text") {
            text_only = false;
        }
        i = i + 1;
    }
    assert(json::list_of(blocks@).take(i as int) =~= json::list_of(blocks@));
    (contents, text_only)
}

proof fn lemma_all_text_step(blocks: Seq<Json>)
    requires
        blocks.len() > 0,
    ensures
        all_text(blocks) == (all_text(blocks.drop_last()) && is_text(blocks.last())),
{
    let rest = blocks.drop_last();
    if all_text(blocks) {
        assert forall|i: int| 0 <= i < rest.len() implies is_text(#[trigger] rest[i]) by {
            assert(is_text(blocks[i]));
        }
        assert(is_text(blocks[blocks.len() - 1]));
    }
    if all_text(rest) && is_text(blocks.last()) {
        assert forall|i: int| 0 <= i < blocks.len() implies is_text(#[trigger] blocks[i]) by {
            if i < rest.len() {
                assert(is_text(rest[i]));
            }
        }
    }
}

/// The texts of the text blocks; the images go to the end of `pending`.
fn split_blocks(blocks: Vec<Value>, pending: &mut Vec<Value>) -> (contents: Vec<String>)
    ensures
        text::texts(contents@) == block_texts(json::list_of(blocks@)),
        json::list_of(final(pending)@) == json::list_of(old(pending)@) + block_images(
            json::list_of(blocks@),
        ),
{
    let mut contents: Vec<String> = Vec::new();
    let ghost all = json::list_of(blocks@);
    let ghost held = json::list_of(pending@);
    assert(json::list_of(pending@) =~= held + block_images(all.take(0)));
    assert(text::texts(contents@) =~= block_texts(all.take(0)));
    for block in it: blocks
        invariant
            it.seq() == blocks@,
            all == json::list_of(blocks@),
            text::texts(contents@) == block_texts(all.take(it.index())),
            json::list_of(pending@) == held + block_images(all.take(it.index())),
    {
        let ghost i = it.index();
        proof {
            assert(all.take(i + 1).drop_last() =~= all.take(i));
            assert(all.take(i + 1).last() == json::json_of(block));
        }
        let ghost before = contents@;
        let ghost pending_before = pending@;
        match owned_block_text(&block) {
            Some(content) => {
                contents.push(content);
                assert(text::texts(contents@) =~= text::texts(before).push(content@));
            },
            None => {},
        }
        if member_is_text(&block, "type", "image_url") {
            pending.push(block);
            assert(json::list_of(pending@) =~= json::list_of(pending_before).push(
                json::json_of(block),
            ));
            assert(json::list_of(pending@) =~= held + block_images(all.take(i + 1)));
        }
    }
    assert(all.take(all.len() as int) =~= all);
    contents
}

/// A tool message with its block array replaced by a string; the images go to `pending`.
fn flatten_tool_message(message: &mut Value, pending: &mut Vec<Value>)
    ensures
        json::json_of(*final(message)) == flat_tool_message(json::json_of(*old(message))),
        json::list_of(final(pending)@) == json::list_of(old(pending)@) + message_images(
            json::json_of(*old(message)),
        ),
{
    assert(json::list_of(pending@) + Seq::<Json>::empty() =~= json::list_of(pending@));
    match message.as_object_mut() {
        Some(members) => {
            let ghost before = json::members_of(*members);
            match take_member(members, "content") {
                Some(mut content) => {
                    match content.as_array_mut() {
                        Some(items) => {
                            let mut blocks: Vec<Value> = Vec::new();
                            std::mem::swap(items, &mut blocks);
                            let held = pending.len();
                            assert(json::list_of(pending@).len() == held);
                            let contents = split_blocks(blocks, pending);
                            assert(json::list_of(pending@).len() == pending@.len());
                            let joined = join_text(&contents, "\n");
                            let replacement = if !joined.as_str().is_empty() {
                                joined
                            } else if pending.len() > held {
                                "(see attached image)".to_owned()
                            } else {
                                "(no tool output)".to_owned()
                            };
                            set_member(members, "content", text_value(replacement));
                            assert(json::members_of(*members) =~= before.insert(
                                "content"@,
                                Json::Text(replacement@),
                            ));
                        },
                        None => {
                            set_member(members, "content", content);
                            assert(json::members_of(*members) =~= before);
                        },
                    }
                },
                None => {
                    assert(json::members_of(*members) =~= before);
                },
            }
        },
        None => {},
    }
}

/// Any other message with a text-only block array replaced by a string.
fn flatten_message(message: &mut Value)
    ensures
        json::json_of(*final(message)) == flat_message(json::json_of(*old(message))),
{
    let replacement: Option<String> = match get_member(message, "content") {
        Some(content) => match content.as_array() {
            Some(blocks) => {
                let (contents, text_only) = read_blocks(blocks);
                if text_only {
                    Some(join_text(&contents, "\n"))
                } else {
                    None
                }
            },
            None => None,
        },
        None => None,
    };
    match replacement {
        Some(joined) => match message.as_object_mut() {
            Some(members) => {
                set_member(members, "content", text_value(joined));
            },
            None => {},
        },
        None => {},
    }
}

fn caption_value() -> (value: Value)
    ensures
        json::json_of(value) == caption_block(),
{
    let mut members = no_members();
    set_member(&mut members, "type", text_value("text".to_owned()));
    set_member(
        &mut members,
        "text",
        text_value("Attached image(s) from tool result:".to_owned()),
    );
    object_value(members)
}

/// Send the pending images out as a user message of their own.
fn flush_pending_images(out: &mut Vec<Value>, pending: &mut Vec<Value>)
    ensures
        json::list_of(final(out)@) == json::list_of(old(out)@) + image_messages(
            json::list_of(old(pending)@),
        ),
        final(pending)@ == Seq::<Value>::empty(),
{
    if pending.is_empty() {
        assert(json::list_of(out@) + Seq::<Json>::empty() =~= json::list_of(out@));
        return;
    }
    let ghost images = json::list_of(pending@);
    let ghost before = out@;
    assert(images.len() > 0);
    let mut content: Vec<Value> = Vec::new();
    content.push(caption_value());
    content.append(pending);
    assert(json::list_of(content@) =~= seq![caption_block()] + images);
    let mut members = no_members();
    set_member(&mut members, "role", text_value("user".to_owned()));
    set_member(&mut members, "content", array_value(content));
    out.push(object_value(members));
    assert(json::list_of(out@) =~= json::list_of(before) + seq![image_message(images)]);
}

/// The normalized form of a conversation.
fn normalize_messages(messages: Vec<Value>) -> (out: Vec<Value>)
    ensures
        json::list_of(out@) == normalized_messages(json::list_of(messages@), Seq::empty()),
{
    let mut out: Vec<Value> = Vec::new();
    let mut pending: Vec<Value> = Vec::new();
    let ghost all = json::list_of(messages@);
    proof {
        assert(all.skip(0) =~= all);
        assert(json::list_of(pending@) =~= Seq::empty());
        assert(json::list_of(out@) + normalized_messages(all, Seq::empty())
            =~= normalized_messages(all, Seq::empty()));
    }
    for received in it: messages
        invariant
            it.seq() == messages@,
            all == json::list_of(messages@),
            json::list_of(out@) + normalized_messages(
                all.skip(it.index()),
                json::list_of(pending@),
            ) == normalized_messages(all, Seq::empty()),
    {
        let ghost rest = all.skip(it.index());
        let ghost sent = json::list_of(out@);
        let ghost held = json::list_of(pending@);
        assert(rest.first() == json::json_of(received));
        assert(rest.drop_first() =~= all.skip(it.index() + 1));
        let mut message = received;
        if member_is_text(&message, "role", "tool") {
            flatten_tool_message(&mut message, &mut pending);
            let ghost before = out@;
            out.push(message);
            proof {
                assert(json::list_of(out@) =~= json::list_of(before).push(json::json_of(message)));
                assert(json::list_of(out@) + normalized_messages(
                    rest.drop_first(),
                    json::list_of(pending@),
                ) =~= sent + normalized_messages(rest, held));
            }
        } else {
            flatten_message(&mut message);
            flush_pending_images(&mut out, &mut pending);
            let ghost before = out@;
            out.push(message);
            proof {
                assert(json::list_of(pending@) =~= Seq::empty());
                assert(json::list_of(out@) =~= json::list_of(before).push(json::json_of(message)));
                assert(json::list_of(out@) + normalized_messages(rest.drop_first(), Seq::empty())
                    =~= sent + normalized_messages(rest, held));
            }
        }
    }
    assert(all.skip(all.len() as int) =~= Seq::empty());
    flush_pending_images(&mut out, &mut pending);
    out
}

/// Normalize the message shapes of a Chat Completions body for third-party validators.
///
/// The content of a tool message becomes the joined text of its text blocks. Images taken
/// out of tool messages are re-attached as a following user message. Text-only block arrays
/// of other messages are joined into one string; a message with a block of any other kind, an
/// image among them, keeps its blocks.
pub fn normalize_byok_chat_message_content(body: &mut Value)
    ensures
        json::json_of(*final(body)) == normalized_body(json::json_of(*old(body))),
{
    let ghost before = json::json_of(*body);
    match get_member_mut(body, "messages") {
        Some(found) => match found.as_array_mut() {
            Some(messages) => {
                let mut original: Vec<Value> = Vec::new();
                std::mem::swap(messages, &mut original);
                *messages = normalize_messages(original);
            },
            None => {
                proof {
                    json::lemma_member_kept(before, "messages"@, json::json_of(*found));
                }
            },
        },
        None => {},
    }
}

/// The images of a conversation, in order.
pub open spec fn conversation_images(messages: Seq<Json>) -> Seq<Json>
    decreases messages.len(),
{
    if messages.len() == 0 {
        Seq::empty()
    } else {
        message_images(messages.first()) + conversation_images(messages.drop_first())
    }
}

/// Whether every block is an image.
pub open spec fn all_images(blocks: Seq<Json>) -> bool {
    forall|i: int| 0 <= i < blocks.len() ==> is_image(#[trigger] blocks[i])
}

/// Whether a message is in the shape that third-party validators accept: the content of a
/// tool message is no block array, and a block array of any other message is not text-only.
pub open spec fn is_normal_message(message: Json) -> bool {
    match content_blocks(message) {
        Some(blocks) => !is_tool_message(message) && !all_text(blocks),
        None => true,
    }
}

/// Whether every message is in that shape.
pub open spec fn all_normal(messages: Seq<Json>) -> bool {
    forall|i: int| 0 <= i < messages.len() ==> is_normal_message(#[trigger] messages[i])
}

proof fn lemma_block_images_are_images(blocks: Seq<Json>)
    ensures
        all_images(block_images(blocks)),
    decreases blocks.len(),
{
    if blocks.len() > 0 {
        lemma_block_images_are_images(blocks.drop_last());
    }
}

proof fn lemma_no_image_in_text(blocks: Seq<Json>)
    requires
        all_text(blocks),
    ensures
        block_images(blocks) == Seq::<Json>::empty(),
    decreases blocks.len(),
{
    if blocks.len() > 0 {
        reveal_strlit("text");
        reveal_strlit("image_url");
        assert("text"@.len() != "image_url"@.len());
        lemma_all_text_step(blocks);
        lemma_no_image_in_text(blocks.drop_last());
    }
}

proof fn lemma_images_of_images(blocks: Seq<Json>)
    requires
        all_images(blocks),
    ensures
        block_images(blocks) == blocks,
    decreases blocks.len(),
{
    if blocks.len() > 0 {
        assert(all_images(blocks.drop_last())) by {
            assert forall|i: int| 0 <= i < blocks.len() - 1 implies is_image(
                #[trigger] blocks.drop_last()[i],
            ) by {
                assert(is_image(blocks[i]));
            }
        }
        lemma_images_of_images(blocks.drop_last());
        assert(is_image(blocks[blocks.len() - 1]));
        assert(blocks.drop_last().push(blocks.last()) =~= blocks);
    } else {
        assert(blocks =~= Seq::empty());
    }
}

proof fn lemma_block_images_concat(left: Seq<Json>, right: Seq<Json>)
    ensures
        block_images(left + right) == block_images(left) + block_images(right),
    decreases right.len(),
{
    if right.len() == 0 {
        assert(left + right =~= left);
        assert(block_images(left) + block_images(right) =~= block_images(left));
    } else {
        lemma_block_images_concat(left, right.drop_last());
        assert((left + right).drop_last() =~= left + right.drop_last());
        assert(block_images(left + right) =~= block_images(left) + block_images(right));
    }
}

proof fn lemma_image_message(images: Seq<Json>)
    requires
        all_images(images),
        images.len() > 0,
    ensures
        !is_tool_message(image_message(images)),
        content_blocks(image_message(images)) == Some(seq![caption_block()] + images),
        message_images(image_message(images)) == images,
        is_normal_message(image_message(images)),
        flat_message(image_message(images)) == image_message(images),
{
    reveal_strlit("role");
    reveal_strlit("content");
    reveal_strlit("user");
    reveal_strlit("tool");
    reveal_strlit("type");
    reveal_strlit("text");
    reveal_strlit("image_url");
    assert("role"@.len() != "content"@.len());
    assert("user"@[0] != "tool"@[0]);
    assert("text"@[1] != "type"@[1]);
    assert("text"@.len() != "image_url"@.len());
    let caption = seq![caption_block()];
    assert(!is_image(caption_block()));
    assert(block_images(caption) =~= Seq::empty()) by {
        reveal_with_fuel(block_images, 2);
        assert(caption.drop_last() =~= Seq::empty());
        assert(caption.last() == caption_block());
    }
    lemma_images_of_images(images);
    lemma_block_images_concat(caption, images);
    assert(block_images(caption + images) =~= images);
    assert((caption + images)[1] == images[0]);
    assert(is_image(images[0]));
    assert(!is_text((caption + images)[1]));
}

proof fn lemma_flat_tool_message(message: Json)
    requires
        is_tool_message(message),
    ensures
        is_tool_message(flat_tool_message(message)),
        content_blocks(flat_tool_message(message)) is None,
{
    reveal_strlit("role");
    reveal_strlit("content");
    assert("role"@.len() != "content"@.len());
}

proof fn lemma_flat_message(message: Json)
    requires
        !is_tool_message(message),
    ensures
        !is_tool_message(flat_message(message)),
        is_normal_message(flat_message(message)),
        message_images(flat_message(message)) == message_images(message),
{
    reveal_strlit("role");
    reveal_strlit("content");
    assert("role"@.len() != "content"@.len());
    match content_blocks(message) {
        Some(blocks) => if all_text(blocks) {
            lemma_no_image_in_text(blocks);
        },
        None => {},
    }
    assert(message_images(flat_message(message)) =~= message_images(message));
}

proof fn lemma_conversation_images_concat(left: Seq<Json>, right: Seq<Json>)
    ensures
        conversation_images(left + right) == conversation_images(left) + conversation_images(right),
    decreases left.len(),
{
    if left.len() == 0 {
        assert(left + right =~= right);
        assert(conversation_images(left) + conversation_images(right) =~= conversation_images(
            right,
        ));
    } else {
        lemma_conversation_images_concat(left.drop_first(), right);
        assert((left + right).drop_first() =~= left.drop_first() + right);
        assert(conversation_images(left + right) =~= conversation_images(left)
            + conversation_images(right));
    }
}

proof fn lemma_one_message_images(message: Json)
    ensures
        conversation_images(seq![message]) == message_images(message),
{
    let one = seq![message];
    assert(one.drop_first() =~= Seq::empty());
    assert(one.first() == message);
    assert(message_images(message) + conversation_images(Seq::empty()) =~= message_images(message));
}

proof fn lemma_images_conserved(messages: Seq<Json>, pending: Seq<Json>)
    requires
        all_images(pending),
    ensures
        conversation_images(normalized_messages(messages, pending)) == pending
            + conversation_images(messages),
    decreases messages.len(),
{
    if pending.len() > 0 {
        lemma_image_message(pending);
        lemma_one_message_images(image_message(pending));
    }
    assert(conversation_images(image_messages(pending)) =~= pending);
    if messages.len() == 0 {
        assert(pending + conversation_images(messages) =~= pending);
    } else {
        let message = messages.first();
        let rest = messages.drop_first();
        if is_tool_message(message) {
            let held = pending + message_images(message);
            assert(all_images(held)) by {
                match content_blocks(message) {
                    Some(blocks) => lemma_block_images_are_images(blocks),
                    None => {},
                }
            }
            lemma_images_conserved(rest, held);
            lemma_flat_tool_message(message);
            lemma_one_message_images(flat_tool_message(message));
            lemma_conversation_images_concat(
                seq![flat_tool_message(message)],
                normalized_messages(rest, held),
            );
            assert(conversation_images(normalized_messages(messages, pending)) =~= pending
                + conversation_images(messages));
        } else {
            lemma_images_conserved(rest, Seq::empty());
            lemma_flat_message(message);
            lemma_one_message_images(flat_message(message));
            let lead = image_messages(pending) + seq![flat_message(message)];
            lemma_conversation_images_concat(image_messages(pending), seq![flat_message(message)]);
            lemma_conversation_images_concat(lead, normalized_messages(rest, Seq::empty()));
            assert(conversation_images(normalized_messages(messages, pending)) =~= pending
                + conversation_images(messages));
        }
    }
}

proof fn lemma_normalized_is_normal(messages: Seq<Json>, pending: Seq<Json>)
    requires
        all_images(pending),
    ensures
        all_normal(normalized_messages(messages, pending)),
    decreases messages.len(),
{
    if pending.len() > 0 {
        lemma_image_message(pending);
    }
    if messages.len() > 0 {
        let message = messages.first();
        let rest = messages.drop_first();
        if is_tool_message(message) {
            let held = pending + message_images(message);
            assert(all_images(held)) by {
                match content_blocks(message) {
                    Some(blocks) => lemma_block_images_are_images(blocks),
                    None => {},
                }
            }
            lemma_normalized_is_normal(rest, held);
            lemma_flat_tool_message(message);
        } else {
            lemma_normalized_is_normal(rest, Seq::empty());
            lemma_flat_message(message);
        }
    }
}

proof fn lemma_normal_is_kept(messages: Seq<Json>)
    requires
        all_normal(messages),
    ensures
        normalized_messages(messages, Seq::empty()) == messages,
    decreases messages.len(),
{
    if messages.len() == 0 {
        assert(messages =~= Seq::empty());
    } else {
        let message = messages.first();
        let rest = messages.drop_first();
        assert(is_normal_message(messages[0]));
        assert(all_normal(rest)) by {
            assert forall|i: int| 0 <= i < rest.len() implies is_normal_message(
                #[trigger] rest[i],
            ) by {
                assert(is_normal_message(messages[i + 1]));
            }
        }
        lemma_normal_is_kept(rest);
        assert(Seq::<Json>::empty() + message_images(message) =~= message_images(message));
        assert(seq![message] + rest =~= messages);
        assert(Seq::<Json>::empty() + seq![message] + rest =~= messages);
    }
}

/// Relocated images are not dropped: the images of a conversation survive normalization,
/// all of them and in order.
pub proof fn normalization_conserves_images(messages: Seq<Json>)
    ensures
        conversation_images(normalized_messages(messages, Seq::empty())) == conversation_images(
            messages,
        ),
{
    lemma_images_conserved(messages, Seq::empty());
    assert(Seq::<Json>::empty() + conversation_images(messages) =~= conversation_images(messages));
}

/// After normalization no tool message has a block array for content, and no other message a
/// text-only one.
pub proof fn normalization_reaches_the_accepted_shape(messages: Seq<Json>)
    ensures
        all_normal(normalized_messages(messages, Seq::empty())),
{
    lemma_normalized_is_normal(messages, Seq::empty());
}

/// A conversation in the accepted shape is left alone, so normalizing twice is normalizing
/// once.
pub proof fn normalization_is_idempotent(messages: Seq<Json>)
    ensures
        all_normal(messages) ==> normalized_messages(messages, Seq::empty()) == messages,
        normalized_messages(normalized_messages(messages, Seq::empty()), Seq::empty())
            == normalized_messages(messages, Seq::empty()),
{
    if all_normal(messages) {
        lemma_normal_is_kept(messages);
    }
    lemma_normalized_is_normal(messages, Seq::empty());
    lemma_normal_is_kept(normalized_messages(messages, Seq::empty()));
}

/// A request body whose messages are in the accepted shape goes out as it is.
pub proof fn accepted_bodies_are_untouched(body: Json, messages: Seq<Json>)
    requires
        json::member(body, "messages"@) == Some(Json::Array(messages)),
        all_normal(messages),
    ensures
        normalized_body(body) == body,
{
    lemma_normal_is_kept(messages);
    json::lemma_member_kept(body, "messages"@, Json::Array(messages));
}

/// Every member of a request body but its messages is untouched by normalization.
pub proof fn normalization_touches_only_messages(body: Json, key: Seq<char>)
    requires
        key != "messages"@,
    ensures
        json::member(normalized_body(body), key) == json::member(body, key),
{
}

/// The form in which a message goes out.
pub open spec fn flattened(message: Json) -> Json {
    if is_tool_message(message) {
        flat_tool_message(message)
    } else {
        flat_message(message)
    }
}

/// A message keeps every member but its content.
pub proof fn flattening_touches_only_content(message: Json, key: Seq<char>)
    requires
        key != "content"@,
    ensures
        json::member(flattened(message), key) == json::member(message, key),
{
}

/// Whether a message was made to carry relocated images.
pub open spec fn carries_images(message: Json) -> bool {
    exists|images: Seq<Json>|
        images.len() > 0 && all_images(images) && message == #[trigger] image_message(images)
}

/// For each message of the normalized form, whether it was inserted.
pub open spec fn insertions(messages: Seq<Json>, pending: Seq<Json>) -> Seq<bool>
    decreases messages.len(),
{
    let lead = if pending.len() == 0 {
        Seq::empty()
    } else {
        seq![true]
    };
    if messages.len() == 0 {
        lead
    } else if is_tool_message(messages.first()) {
        seq![false] + insertions(
            messages.drop_first(),
            pending + message_images(messages.first()),
        )
    } else {
        lead + seq![false] + insertions(messages.drop_first(), Seq::empty())
    }
}

/// The messages that are not marked, in order.
pub open spec fn unmarked(messages: Seq<Json>, marks: Seq<bool>) -> Seq<Json>
    decreases messages.len(),
{
    if messages.len() == 0 || marks.len() == 0 {
        Seq::empty()
    } else if marks.first() {
        unmarked(messages.drop_first(), marks.drop_first())
    } else {
        seq![messages.first()] + unmarked(messages.drop_first(), marks.drop_first())
    }
}

/// The messages in the form in which they go out, in order.
pub open spec fn all_flattened(messages: Seq<Json>) -> Seq<Json> {
    messages.map_values(|message: Json| flattened(message))
}

proof fn lemma_unmarked_after(marked: bool, message: Json, messages: Seq<Json>, marks: Seq<bool>)
    ensures
        unmarked(seq![message] + messages, seq![marked] + marks) == if marked {
            unmarked(messages, marks)
        } else {
            seq![message] + unmarked(messages, marks)
        },
{
    assert((seq![message] + messages).drop_first() =~= messages);
    assert((seq![marked] + marks).drop_first() =~= marks);
}

proof fn lemma_insertions(messages: Seq<Json>, pending: Seq<Json>)
    requires
        all_images(pending),
    ensures
        insertions(messages, pending).len() == normalized_messages(messages, pending).len(),
        unmarked(normalized_messages(messages, pending), insertions(messages, pending))
            == all_flattened(messages),
        forall|i: int|
            0 <= i < insertions(messages, pending).len() && #[trigger] insertions(
                messages,
                pending,
            )[i] ==> carries_images(normalized_messages(messages, pending)[i]),
    decreases messages.len(),
{
    let out = normalized_messages(messages, pending);
    let marks = insertions(messages, pending);
    if messages.len() == 0 {
        assert(all_flattened(messages) =~= Seq::empty());
        if pending.len() > 0 {
            assert(out =~= seq![image_message(pending)] + Seq::<Json>::empty());
            assert(marks =~= seq![true] + Seq::<bool>::empty());
            lemma_unmarked_after(true, image_message(pending), Seq::empty(), Seq::empty());
            assert(carries_images(out[0]));
        }
    } else {
        let first = messages.first();
        let rest = messages.drop_first();
        let held = pending + message_images(first);
        let later = if is_tool_message(first) {
            held
        } else {
            Seq::empty()
        };
        assert(all_images(later)) by {
            match content_blocks(first) {
                Some(blocks) => lemma_block_images_are_images(blocks),
                None => {},
            }
        }
        lemma_insertions(rest, later);
        let tail = normalized_messages(rest, later);
        let tail_marks = insertions(rest, later);
        let core = seq![flattened(first)] + tail;
        let core_marks = seq![false] + tail_marks;
        lemma_unmarked_after(false, flattened(first), tail, tail_marks);
        assert(all_flattened(messages) =~= seq![flattened(first)] + all_flattened(rest));
        assert forall|i: int| 0 <= i < core_marks.len() && core_marks[i] implies carries_images(
            #[trigger] core[i],
        ) by {
            assert(core_marks[i] == tail_marks[i - 1]);
            assert(core[i] == tail[i - 1]);
        }
        if is_tool_message(first) || pending.len() == 0 {
            assert(out =~= core);
            assert(marks =~= core_marks);
            assert forall|i: int| 0 <= i < marks.len() && #[trigger] marks[i] implies
                carries_images(out[i]) by {
                assert(carries_images(core[i]));
            }
        } else {
            assert(out =~= seq![image_message(pending)] + core);
            assert(marks =~= seq![true] + core_marks);
            lemma_unmarked_after(true, image_message(pending), core, core_marks);
            assert forall|i: int| 0 <= i < marks.len() && #[trigger] marks[i] implies
                carries_images(out[i]) by {
                if i == 0 {
                    assert(out[0] == image_message(pending));
                } else {
                    assert(core_marks[i - 1]);
                    assert(carries_images(core[i - 1]));
                }
            }
        }
    }
}

/// Messages are neither dropped nor reordered: what was inserted are messages that carry
/// relocated images, and without those the messages are the old ones, each in the form in
/// which it goes out, in order.
pub proof fn messages_keep_their_order(messages: Seq<Json>)
    ensures
        insertions(messages, Seq::empty()).len() == normalized_messages(
            messages,
            Seq::empty(),
        ).len(),
        unmarked(
            normalized_messages(messages, Seq::empty()),
            insertions(messages, Seq::empty()),
        ) == all_flattened(messages),
        forall|i: int|
            0 <= i < insertions(messages, Seq::empty()).len() && #[trigger] insertions(
                messages,
                Seq::empty(),
            )[i] ==> carries_images(normalized_messages(messages, Seq::empty())[i]),
{
    lemma_insertions(messages, Seq::empty());
}

/// A message with a block that is not text goes out as it is, unless it is a tool result.
pub proof fn other_blocks_keep_a_message_whole(message: Json, blocks: Seq<Json>, i: int)
    requires
        !is_tool_message(message),
        content_blocks(message) == Some(blocks),
        0 <= i < blocks.len(),
        !is_text(blocks[i]),
    ensures
        flattened(message) == message,
{
    assert(!all_text(blocks));
}

/// What a message on its own goes out as.
pub open spec fn sent(message: Json) -> Json {
    normalized_messages(seq![message], Seq::empty())[0]
}

/// The string that a message on its own goes out with for content.
pub open spec fn sent_content(message: Json) -> Option<Seq<char>> {
    json::text_member(sent(message), "content"@)
}

/// Whether the content of a message is the block array `blocks`.
pub open spec fn holds_blocks(message: Json, blocks: Seq<Json>) -> bool {
    json::member(message, "content"@) == Some(Json::Array(blocks))
}

/// Whether a block is of the kind `kind`.
pub open spec fn is_of_kind(block: Json, kind: Seq<char>) -> bool {
    json::member(block, "type"@) == Some(Json::Text(kind))
}

/// Whether a block is a text block with the text `content`.
pub open spec fn reads(block: Json, content: Seq<char>) -> bool {
    is_of_kind(block, "text"@) && json::member(block, "text"@) == Some(Json::Text(content))
}

/// Whether some block is a text block with a text, be it empty.
pub open spec fn has_text(blocks: Seq<Json>) -> bool {
    exists|i: int, content: Seq<char>| 0 <= i < blocks.len() && #[trigger] reads(blocks[i], content)
}

/// Whether some block is a text block with a text that is not empty.
pub open spec fn says_something(blocks: Seq<Json>) -> bool {
    exists|i: int, content: Seq<char>|
        0 <= i < blocks.len() && content.len() > 0 && #[trigger] reads(blocks[i], content)
}

proof fn lemma_reads(block: Json)
    ensures
        forall|content: Seq<char>| #[trigger] reads(block, content) <==> block_text(block) == Some(
            content,
        ),
{
}

proof fn lemma_block_texts_concat(left: Seq<Json>, right: Seq<Json>)
    ensures
        block_texts(left + right) == block_texts(left) + block_texts(right),
    decreases right.len(),
{
    if right.len() == 0 {
        assert(left + right =~= left);
        assert(block_texts(left) + block_texts(right) =~= block_texts(left));
    } else {
        lemma_block_texts_concat(left, right.drop_last());
        assert((left + right).drop_last() =~= left + right.drop_last());
        assert((left + right).last() == right.last());
        assert(block_texts(left + right) =~= block_texts(left) + block_texts(right));
    }
}

proof fn lemma_one_block(block: Json)
    ensures
        block_texts(seq![block]) == (match block_text(block) {
            Some(content) => seq![content],
            None => Seq::empty(),
        }),
        block_images(seq![block]) == if is_image(block) {
            seq![block]
        } else {
            Seq::empty()
        },
{
    let one = seq![block];
    reveal_with_fuel(block_texts, 2);
    reveal_with_fuel(block_images, 2);
    assert(one.drop_last() =~= Seq::empty());
    assert(one.last() == block);
    assert(block_texts(one) =~= match block_text(block) {
        Some(content) => seq![content],
        None => Seq::empty(),
    });
    assert(block_images(one) =~= if is_image(block) {
        seq![block]
    } else {
        Seq::empty()
    });
}

proof fn lemma_has_text(blocks: Seq<Json>)
    ensures
        has_text(blocks) <==> block_texts(blocks).len() > 0,
    decreases blocks.len(),
{
    if blocks.len() > 0 {
        let front = blocks.drop_last();
        lemma_has_text(front);
        lemma_reads(blocks.last());
        if has_text(blocks) {
            let (i, content) = choose|i: int, content: Seq<char>|
                0 <= i < blocks.len() && #[trigger] reads(blocks[i], content);
            if i < front.len() {
                assert(reads(front[i], content));
            }
        }
        if has_text(front) {
            let (i, content) = choose|i: int, content: Seq<char>|
                0 <= i < front.len() && #[trigger] reads(front[i], content);
            assert(reads(blocks[i], content));
        }
        if block_text(blocks.last()) is Some {
            assert(reads(blocks[blocks.len() - 1], block_text(blocks.last())->0));
        }
    }
}

proof fn lemma_joined_grows(parts: Seq<Seq<char>>, separator: Seq<char>, i: int)
    requires
        0 <= i < parts.len(),
    ensures
        text::joined(parts, separator).len() >= parts[i].len(),
{
    text::joining_keeps_every_part(parts, separator, i);
    let whole = text::joined(parts, separator);
    let at = choose|at: int| #[trigger] text::occurs_at(parts[i], whole, at);
    assert(text::occurs_at(parts[i], whole, at));
}

proof fn lemma_block_text_is_among(blocks: Seq<Json>, i: int)
    requires
        0 <= i < blocks.len(),
        block_text(blocks[i]) is Some,
    ensures
        exists|k: int|
            0 <= k < block_texts(blocks).len() && #[trigger] block_texts(blocks)[k] == block_text(
                blocks[i],
            )->0,
    decreases blocks.len(),
{
    let found = block_texts(blocks);
    if i == blocks.len() - 1 {
        assert(found[found.len() - 1] == block_text(blocks[i])->0);
    } else {
        lemma_block_text_is_among(blocks.drop_last(), i);
        let rest = block_texts(blocks.drop_last());
        let k = choose|k: int|
            0 <= k < rest.len() && #[trigger] rest[k] == block_text(blocks.drop_last()[i])->0;
        assert(found[k] == rest[k]);
    }
}

proof fn lemma_says_something(blocks: Seq<Json>)
    requires
        says_something(blocks),
    ensures
        has_text(blocks),
        joined_blocks(blocks).len() > 0,
{
    let (i, content) = choose|i: int, content: Seq<char>|
        0 <= i < blocks.len() && content.len() > 0 && #[trigger] reads(blocks[i], content);
    assert(reads(blocks[i], content));
    lemma_reads(blocks[i]);
    lemma_block_text_is_among(blocks, i);
    let k = choose|k: int|
        0 <= k < block_texts(blocks).len() && #[trigger] block_texts(blocks)[k] == block_text(
            blocks[i],
        )->0;
    lemma_joined_grows(block_texts(blocks), "\n"@, k);
}

proof fn lemma_sent(message: Json)
    ensures
        sent(message) == flattened(message),
{
    let one = seq![message];
    assert(one.drop_first() =~= Seq::empty());
    assert(one.first() == message);
}

proof fn lemma_tool_content(message: Json, blocks: Seq<Json>)
    requires
        json::text_member(message, "role"@) == Some("tool"@),
        holds_blocks(message, blocks),
    ensures
        sent_content(message) == Some(tool_text(blocks)),
        says_something(blocks) ==> sent_content(message) == Some(joined_blocks(blocks)),
{
    lemma_sent(message);
    if says_something(blocks) {
        lemma_says_something(blocks);
    }
}

/// A tool result with one text block goes out as that text.
pub proof fn one_text_is_the_tool_result(message: Json, block: Json, content: Seq<char>)
    requires
        json::text_member(message, "role"@) == Some("tool"@),
        holds_blocks(message, seq![block]),
        reads(block, content),
        content.len() > 0,
    ensures
        sent_content(message) == Some(content),
{
    assert(reads(seq![block][0], content));
    lemma_tool_content(message, seq![block]);
    lemma_one_block(block);
    lemma_reads(block);
    text::joining_adds_up(seq![content], seq![content], "\n"@);
}

/// No text of a tool result is lost: a tool result whose blocks are those of two tool results
/// that both say something goes out as what the first goes out as, a line break and what the
/// second goes out as.
pub proof fn tool_results_add_up(
    whole: Json,
    first: Json,
    second: Json,
    left: Seq<Json>,
    right: Seq<Json>,
)
    requires
        json::text_member(whole, "role"@) == Some("tool"@),
        json::text_member(first, "role"@) == Some("tool"@),
        json::text_member(second, "role"@) == Some("tool"@),
        holds_blocks(whole, left + right),
        holds_blocks(first, left),
        holds_blocks(second, right),
        says_something(left),
        says_something(right),
    ensures
        sent_content(first) is Some,
        sent_content(second) is Some,
        sent_content(whole) == Some(sent_content(first)->0 + "\n"@ + sent_content(second)->0),
{
    let (i, content) = choose|i: int, content: Seq<char>|
        0 <= i < left.len() && content.len() > 0 && #[trigger] reads(left[i], content);
    assert(reads((left + right)[i], content));
    lemma_tool_content(whole, left + right);
    lemma_tool_content(first, left);
    lemma_tool_content(second, right);
    lemma_says_something(left);
    lemma_says_something(right);
    lemma_has_text(left);
    lemma_has_text(right);
    lemma_block_texts_concat(left, right);
    text::joining_adds_up(block_texts(left), block_texts(right), "\n"@);
}

/// A tool result of two text blocks goes out as the two texts with a line break between them.
pub proof fn two_texts_are_joined(
    message: Json,
    first: Json,
    second: Json,
    left: Seq<char>,
    right: Seq<char>,
)
    requires
        json::text_member(message, "role"@) == Some("tool"@),
        holds_blocks(message, seq![first, second]),
        reads(first, left),
        reads(second, right),
    ensures
        sent_content(message) == Some(left + "\n"@ + right),
{
    let blocks = seq![first, second];
    lemma_tool_content(message, blocks);
    assert(blocks =~= seq![first] + seq![second]);
    lemma_block_texts_concat(seq![first], seq![second]);
    lemma_one_block(first);
    lemma_one_block(second);
    lemma_reads(first);
    lemma_reads(second);
    text::joining_adds_up(seq![left], seq![right], "\n"@);
    text::joining_adds_up(seq![right], seq![right], "\n"@);
    reveal_strlit("\n");
    assert(joined_blocks(blocks).len() > 0);
}

/// A text block at either end of a tool result adds its text and one line break, and a block
/// with no text, an image or anything else, changes nothing of what the others say.
pub proof fn every_block_adds_its_text(
    longer: Json,
    shorter: Json,
    blocks: Seq<Json>,
    block: Json,
    content: Seq<char>,
)
    requires
        json::text_member(longer, "role"@) == Some("tool"@),
        json::text_member(shorter, "role"@) == Some("tool"@),
        holds_blocks(shorter, blocks),
        says_something(blocks),
    ensures
        sent_content(shorter) is Some,
        holds_blocks(longer, blocks.push(block)) && reads(block, content) ==> sent_content(longer)
            == Some(sent_content(shorter)->0 + "\n"@ + content),
        holds_blocks(longer, seq![block] + blocks) && reads(block, content) ==> sent_content(longer)
            == Some(content + "\n"@ + sent_content(shorter)->0),
        holds_blocks(longer, blocks.push(block)) && !has_text(seq![block]) ==> sent_content(longer)
            == sent_content(shorter),
        holds_blocks(longer, seq![block] + blocks) && !has_text(seq![block]) ==> sent_content(
            longer,
        ) == sent_content(shorter),
{
    let (i, something) = choose|i: int, content: Seq<char>|
        0 <= i < blocks.len() && content.len() > 0 && #[trigger] reads(blocks[i], content);
    let behind = blocks.push(block);
    let ahead = seq![block] + blocks;
    assert(reads(behind[i], something));
    assert(reads(ahead[i + 1], something));
    assert(behind =~= blocks + seq![block]);
    lemma_tool_content(shorter, blocks);
    lemma_says_something(blocks);
    lemma_has_text(blocks);
    lemma_has_text(seq![block]);
    lemma_one_block(block);
    lemma_reads(block);
    lemma_block_texts_concat(blocks, seq![block]);
    lemma_block_texts_concat(seq![block], blocks);
    text::joining_adds_up(block_texts(blocks), block_texts(seq![block]), "\n"@);
    text::joining_adds_up(block_texts(seq![block]), block_texts(blocks), "\n"@);
    assert(block_texts(blocks) + Seq::<Seq<char>>::empty() =~= block_texts(blocks));
    assert(Seq::<Seq<char>>::empty() + block_texts(blocks) =~= block_texts(blocks));
    if holds_blocks(longer, behind) {
        lemma_tool_content(longer, behind);
    }
    if holds_blocks(longer, ahead) {
        lemma_tool_content(longer, ahead);
    }
}

/// Every text of a tool result stands in what the result goes out as.
pub proof fn every_text_goes_out(message: Json, blocks: Seq<Json>, i: int, content: Seq<char>)
    requires
        json::text_member(message, "role"@) == Some("tool"@),
        holds_blocks(message, blocks),
        0 <= i < blocks.len(),
        reads(blocks[i], content),
        content.len() > 0,
    ensures
        sent_content(message) is Some,
        text::occurs_in(content, sent_content(message)->0),
{
    lemma_tool_content(message, blocks);
    lemma_reads(blocks[i]);
    lemma_block_text_is_among(blocks, i);
    let k = choose|k: int|
        0 <= k < block_texts(blocks).len() && #[trigger] block_texts(blocks)[k] == block_text(
            blocks[i],
        )->0;
    text::joining_keeps_every_part(block_texts(blocks), "\n"@, k);
}

proof fn lemma_no_image(blocks: Seq<Json>)
    ensures
        block_images(blocks).len() > 0 <==> exists|i: int|
            0 <= i < blocks.len() && #[trigger] is_of_kind(blocks[i], "image_url"@),
    decreases blocks.len(),
{
    if blocks.len() > 0 {
        let front = blocks.drop_last();
        lemma_no_image(front);
        if is_image(blocks.last()) {
            assert(is_of_kind(blocks[blocks.len() - 1], "image_url"@));
        }
        if block_images(front).len() > 0 {
            let i = choose|i: int|
                0 <= i < front.len() && #[trigger] is_of_kind(front[i], "image_url"@);
            assert(is_of_kind(blocks[i], "image_url"@));
        }
        if exists|i: int| 0 <= i < blocks.len() && #[trigger] is_of_kind(blocks[i], "image_url"@) {
            let i = choose|i: int|
                0 <= i < blocks.len() && #[trigger] is_of_kind(blocks[i], "image_url"@);
            if i < front.len() {
                assert(is_of_kind(front[i], "image_url"@));
            }
        }
    }
}

/// A tool result without a text says whether an image is attached.
pub proof fn wordless_results_get_a_caption(message: Json, blocks: Seq<Json>)
    requires
        json::text_member(message, "role"@) == Some("tool"@),
        holds_blocks(message, blocks),
        !has_text(blocks),
    ensures
        (exists|i: int| 0 <= i < blocks.len() && #[trigger] is_of_kind(blocks[i], "image_url"@))
            ==> sent_content(message) == Some("(see attached image)"@),
        (forall|i: int|
            0 <= i < blocks.len() ==> !(#[trigger] is_of_kind(blocks[i], "image_url"@)))
            ==> sent_content(message) == Some("(no tool output)"@),
{
    lemma_tool_content(message, blocks);
    lemma_has_text(blocks);
    lemma_no_image(blocks);
    text::joining_adds_up(Seq::empty(), Seq::empty(), "\n"@);
    assert(block_texts(blocks) =~= Seq::empty());
}

/// A message that is no tool result and has text blocks only goes out as their texts: no block
/// as the empty string, and each further block adds its text, behind a line break where a text
/// precedes it.
pub proof fn text_only_messages_are_joined(
    longer: Json,
    shorter: Json,
    blocks: Seq<Json>,
    block: Json,
    content: Seq<char>,
)
    requires
        json::text_member(longer, "role"@) != Some("tool"@),
        json::text_member(shorter, "role"@) != Some("tool"@),
        holds_blocks(shorter, blocks),
        holds_blocks(longer, blocks.push(block)),
        forall|i: int| 0 <= i < blocks.len() ==> #[trigger] is_of_kind(blocks[i], "text"@),
        is_of_kind(block, "text"@),
    ensures
        sent_content(shorter) is Some,
        blocks.len() == 0 ==> sent_content(shorter) == Some(Seq::<char>::empty()),
        reads(block, content) && has_text(blocks) ==> sent_content(longer) == Some(
            sent_content(shorter)->0 + "\n"@ + content,
        ),
        reads(block, content) && !has_text(blocks) ==> sent_content(longer) == Some(content),
        !has_text(seq![block]) ==> sent_content(longer) == sent_content(shorter),
{
    let behind = blocks.push(block);
    assert(all_text(blocks)) by {
        assert forall|i: int| 0 <= i < blocks.len() implies is_text(#[trigger] blocks[i]) by {
            assert(is_of_kind(blocks[i], "text"@));
        }
    }
    assert(behind.drop_last() =~= blocks);
    assert(behind =~= blocks + seq![block]);
    lemma_all_text_step(behind);
    lemma_sent(longer);
    lemma_sent(shorter);
    lemma_has_text(blocks);
    lemma_has_text(seq![block]);
    lemma_one_block(block);
    lemma_reads(block);
    lemma_block_texts_concat(blocks, seq![block]);
    text::joining_adds_up(block_texts(blocks), block_texts(seq![block]), "\n"@);
    text::joining_adds_up(block_texts(seq![block]), block_texts(blocks), "\n"@);
    assert(block_texts(blocks) + Seq::<Seq<char>>::empty() =~= block_texts(blocks));
    if !has_text(blocks) {
        assert(block_texts(blocks) =~= Seq::empty());
        assert(Seq::<Seq<char>>::empty() + block_texts(seq![block]) =~= block_texts(seq![block]));
    }
}

/// A message goes out as it is where its content is no block array, and, unless it is a tool
/// result, where some block is not text.
pub proof fn other_messages_go_out_as_they_are(message: Json)
    ensures
        !(json::member(message, "content"@) is Some && json::member(message, "content"@)->0
            is Array) ==> sent(message) == message,
        json::text_member(message, "role"@) != Some("tool"@) && (exists|blocks: Seq<Json>, i: int|
            #[trigger] holds_blocks(message, blocks) && 0 <= i < blocks.len() && !is_of_kind(
                #[trigger] blocks[i],
                "text"@,
            )) ==> sent(message) == message,
{
    lemma_sent(message);
    if exists|blocks: Seq<Json>, i: int|
        #[trigger] holds_blocks(message, blocks) && 0 <= i < blocks.len() && !is_of_kind(
            #[trigger] blocks[i],
            "text"@,
        ) {
        let (blocks, i) = choose|blocks: Seq<Json>, i: int|
            #[trigger] holds_blocks(message, blocks) && 0 <= i < blocks.len() && !is_of_kind(
                #[trigger] blocks[i],
                "text"@,
            );
        assert(!is_text(blocks[i]));
        assert(!all_text(blocks));
    }
}

proof fn lemma_split(left: Seq<Json>, message: Json, right: Seq<Json>, pending: Seq<Json>)
    requires
        !is_tool_message(message),
    ensures
        normalized_messages(left + seq![message] + right, pending) == normalized_messages(
            left,
            pending,
        ) + seq![flattened(message)] + normalized_messages(right, Seq::empty()),
    decreases left.len(),
{
    let whole = left + seq![message] + right;
    if left.len() == 0 {
        assert(whole.first() == message);
        assert(whole.drop_first() =~= right);
    } else {
        assert(whole.first() == left.first());
        assert(whole.drop_first() =~= left.drop_first() + seq![message] + right);
        let held = if is_tool_message(left.first()) {
            pending + message_images(left.first())
        } else {
            Seq::empty()
        };
        lemma_split(left.drop_first(), message, right, held);
        assert(normalized_messages(whole, pending) =~= normalized_messages(left, pending) + seq![
            flattened(message),
        ] + normalized_messages(right, Seq::empty()));
    }
}

/// A message that is no tool result parts a conversation in two: what precedes it goes out in
/// full, its images too, then the message, then what follows as if nothing preceded it.
pub proof fn other_messages_part_a_conversation(
    left: Seq<Json>,
    message: Json,
    right: Seq<Json>,
)
    requires
        json::text_member(message, "role"@) != Some("tool"@),
    ensures
        normalized_messages(left + seq![message] + right, Seq::empty()) == normalized_messages(
            left,
            Seq::empty(),
        ) + seq![sent(message)] + normalized_messages(right, Seq::empty()),
{
    lemma_split(left, message, right, Seq::empty());
    lemma_sent(message);
}

proof fn lemma_run(run: Seq<Json>, pending: Seq<Json>)
    requires
        forall|i: int| 0 <= i < run.len() ==> is_tool_message(#[trigger] run[i]),
    ensures
        normalized_messages(run, pending) == all_flattened(run) + image_messages(
            pending + conversation_images(run),
        ),
    decreases run.len(),
{
    if run.len() == 0 {
        assert(pending + conversation_images(run) =~= pending);
        assert(all_flattened(run) + image_messages(pending) =~= image_messages(pending));
    } else {
        let rest = run.drop_first();
        assert(is_tool_message(run[0]));
        assert forall|i: int| 0 <= i < rest.len() implies is_tool_message(#[trigger] rest[i]) by {
            assert(is_tool_message(run[i + 1]));
        }
        let held = pending + message_images(run.first());
        lemma_run(rest, held);
        assert(held + conversation_images(rest) =~= pending + conversation_images(run));
        assert(seq![flattened(run.first())] + all_flattened(rest) =~= all_flattened(run));
        assert(normalized_messages(run, pending) =~= all_flattened(run) + image_messages(
            pending + conversation_images(run),
        ));
    }
}

/// A run of tool results goes out result by result, each as it would on its own, and then,
/// where the results carry images, one user message: a line that introduces them and the
/// images themselves.
pub proof fn images_follow_their_run(run: Seq<Json>)
    requires
        forall|i: int|
            0 <= i < run.len() ==> json::text_member(#[trigger] run[i], "role"@) == Some("tool"@),
    ensures
        ({
            let out = normalized_messages(run, Seq::empty());
            let images = conversation_images(run);
            &&& out.len() == run.len() + (if images.len() > 0 {
                1int
            } else {
                0
            })
            &&& forall|i: int| 0 <= i < run.len() ==> #[trigger] out[i] == sent(run[i])
            &&& images.len() > 0 ==> {
                let added = out.last();
                &&& json::text_member(added, "role"@) == Some("user"@)
                &&& json::member(added, "content"@) is Some
                &&& json::member(added, "content"@)->0 is Array
                &&& json::member(added, "content"@)->0->Array_0.len() == images.len() + 1
                &&& reads(
                    json::member(added, "content"@)->0->Array_0[0],
                    "Attached image(s) from tool result:"@,
                )
                &&& json::member(added, "content"@)->0->Array_0.drop_first() == images
                &&& forall|key: Seq<char>| #[trigger]
                    json::member(added, key) is Some ==> key == "role"@ || key == "content"@
            }
        }),
{
    assert forall|i: int| 0 <= i < run.len() implies is_tool_message(#[trigger] run[i]) by {
        assert(json::text_member(run[i], "role"@) == Some("tool"@));
    }
    lemma_run(run, Seq::empty());
    let images = conversation_images(run);
    assert(Seq::<Json>::empty() + images =~= images);
    let out = normalized_messages(run, Seq::empty());
    assert forall|i: int| 0 <= i < run.len() implies #[trigger] out[i] == sent(run[i]) by {
        lemma_sent(run[i]);
    }
    if images.len() > 0 {
        let added = out.last();
        assert(added == image_message(images));
        reveal_strlit("role");
        reveal_strlit("content");
        reveal_strlit("type");
        reveal_strlit("text");
        assert("role"@.len() != "content"@.len());
        assert("type"@[1] != "text"@[1]);
        assert((seq![caption_block()] + images).drop_first() =~= images);
    }
}

/// The images of a conversation are the image blocks of its messages, message by message and
/// block by block.
pub proof fn images_are_the_image_blocks(
    left: Seq<Json>,
    right: Seq<Json>,
    longer: Json,
    shorter: Json,
    blocks: Seq<Json>,
    block: Json,
)
    requires
        holds_blocks(shorter, blocks),
        holds_blocks(longer, blocks.push(block)),
    ensures
        conversation_images(Seq::empty()) == Seq::<Json>::empty(),
        conversation_images(left + right) == conversation_images(left) + conversation_images(right),
        blocks.len() == 0 ==> conversation_images(seq![shorter]) == Seq::<Json>::empty(),
        conversation_images(seq![longer]) == conversation_images(seq![shorter]) + (if is_of_kind(
            block,
            "image_url"@,
        ) {
            seq![block]
        } else {
            Seq::empty()
        }),
{
    lemma_conversation_images_concat(left, right);
    lemma_one_message_images(shorter);
    lemma_one_message_images(longer);
    assert(blocks.push(block) =~= blocks + seq![block]);
    lemma_block_images_concat(blocks, seq![block]);
    lemma_one_block(block);
}

/// The messages of a body are normalized as one conversation, and a body without a list of
/// messages stays as it is.
pub proof fn bodies_are_conversations(body: Json)
    ensures
        match json::member(body, "messages"@) {
            Some(Json::Array(messages)) => json::member(normalized_body(body), "messages"@) == Some(
                Json::Array(normalized_messages(messages, Seq::empty())),
            ),
            _ => normalized_body(body) == body,
        },
{
}

/// A single empty text says nothing: a tool result with no other text gets the caption that it
/// would get without it.
pub proof fn one_empty_text_gets_a_caption(
    message: Json,
    left: Seq<Json>,
    block: Json,
    right: Seq<Json>,
)
    requires
        json::text_member(message, "role"@) == Some("tool"@),
        holds_blocks(message, left + seq![block] + right),
        !has_text(left),
        !has_text(right),
        reads(block, Seq::empty()),
    ensures
        ({
            let blocks = left + seq![block] + right;
            &&& (exists|i: int|
                0 <= i < blocks.len() && #[trigger] is_of_kind(blocks[i], "image_url"@))
                ==> sent_content(message) == Some("(see attached image)"@)
            &&& (forall|i: int|
                0 <= i < blocks.len() ==> !(#[trigger] is_of_kind(blocks[i], "image_url"@)))
                ==> sent_content(message) == Some("(no tool output)"@)
        }),
{
    let blocks = left + seq![block] + right;
    lemma_tool_content(message, blocks);
    lemma_has_text(left);
    lemma_has_text(right);
    lemma_one_block(block);
    lemma_reads(block);
    lemma_block_texts_concat(left, seq![block]);
    lemma_block_texts_concat(left + seq![block], right);
    assert(block_texts(blocks) =~= seq![Seq::<char>::empty()]);
    text::joining_adds_up(block_texts(blocks), block_texts(blocks), "\n"@);
    lemma_no_image(blocks);
}

} // verus!
