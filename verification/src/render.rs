//! Lines that the command renderers are built of.

use crate::locale;
use crate::locale::LocaleContext;
use crate::text;
use crate::text::decimal_text;
use vstd::prelude::*;

verus! {

/// A text as a line of its own.
pub open spec fn line(s: Seq<char>) -> Seq<char> {
    s + "\n"@
}

/// A line indented by two spaces.
pub open spec fn indented_line(s: Seq<char>) -> Seq<char> {
    "  "@ + s + "\n"@
}

/// The line of a named text.
pub open spec fn named_line(ctx: LocaleContext, id: Seq<char>, english: Seq<char>) -> Seq<char> {
    line(ctx.named(id, english))
}

/// The indented line of a named text.
pub open spec fn named_note(ctx: LocaleContext, id: Seq<char>, english: Seq<char>) -> Seq<char> {
    indented_line(ctx.named(id, english))
}

/// The line of a named template with one value in it.
pub open spec fn value_line(
    ctx: LocaleContext,
    id: Seq<char>,
    english: Seq<char>,
    value: Seq<char>,
) -> Seq<char> {
    line(ctx.formatted(id, english, seq![("value"@, value)]))
}

/// The line of a named template with a value in it that may be missing; no line without one.
pub open spec fn optional_value_line(
    ctx: LocaleContext,
    id: Seq<char>,
    english: Seq<char>,
    value: Option<Seq<char>>,
) -> Seq<char> {
    match value {
        Some(shown) => value_line(ctx, id, english, shown),
        None => Seq::empty(),
    }
}

/// The line of a named template with a count in it.
pub open spec fn count_line(
    ctx: LocaleContext,
    id: Seq<char>,
    english: Seq<char>,
    count: nat,
) -> Seq<char> {
    line(ctx.formatted(id, english, seq![("count"@, text::decimal(count))]))
}

/// A count line, or no line where there is nothing to count.
pub open spec fn positive_count_line(
    ctx: LocaleContext,
    id: Seq<char>,
    english: Seq<char>,
    count: nat,
) -> Seq<char> {
    if count > 0 {
        count_line(ctx, id, english, count)
    } else {
        Seq::empty()
    }
}

/// The id and the English template of a message.
#[derive(Clone, Copy)]
pub struct Message<'a> {
    pub id: &'a str,
    pub english: &'a str,
}

/// The note on a count: no line for none, one template for one and another for more.
pub open spec fn plural_note(
    ctx: LocaleContext,
    one: Message,
    more: Message,
    count: nat,
) -> Seq<char> {
    if count == 0 {
        Seq::empty()
    } else if count == 1 {
        indented_line(
            ctx.formatted(one.id@, one.english@, seq![("count"@, text::decimal(count))]),
        )
    } else {
        indented_line(
            ctx.formatted(more.id@, more.english@, seq![("count"@, text::decimal(count))]),
        )
    }
}

pub(crate) fn line_of(s: &str) -> (text: String)
    ensures
        text@ == line(s@),
{
    let mut text = s.to_owned();
    text.append("\n");
    text
}

pub(crate) fn indented_line_of(s: &str) -> (text: String)
    ensures
        text@ == indented_line(s@),
{
    let mut text = "  ".to_owned();
    text.append(s);
    text.append("\n");
    text
}

pub(crate) fn named_line_of<'c>(ctx: LocaleContext<'c>, id: &str, english: &'c str) -> (text: String)
    ensures
        text@ == named_line(ctx, id@, english@),
{
    line_of(ctx.named_static_text(id, english))
}

pub(crate) fn named_note_of<'c>(ctx: LocaleContext<'c>, id: &str, english: &'c str) -> (text: String)
    ensures
        text@ == named_note(ctx, id@, english@),
{
    indented_line_of(ctx.named_static_text(id, english))
}

pub(crate) fn value_line_of(ctx: LocaleContext, id: &str, english: &str, value: &str) -> (text:
    String)
    ensures
        text@ == value_line(ctx, id@, english@, value@),
{
    line_of(ctx.format_one(id, english, "value", value).as_str())
}

pub(crate) fn optional_value_line_of(
    ctx: LocaleContext,
    id: &str,
    english: &str,
    value: &Option<String>,
) -> (text: String)
    ensures
        text@ == optional_value_line(ctx, id@, english@, text::optional_text(*value)),
{
    match value {
        Some(shown) => value_line_of(ctx, id, english, shown.as_str()),
        None => String::new(),
    }
}

pub(crate) fn count_line_of(ctx: LocaleContext, id: &str, english: &str, count: u64) -> (text:
    String)
    ensures
        text@ == count_line(ctx, id@, english@, count as nat),
{
    let shown = decimal_text(count as u128);
    line_of(ctx.format_one(id, english, "count", shown.as_str()).as_str())
}

pub(crate) fn positive_count_line_of(
    ctx: LocaleContext,
    id: &str,
    english: &str,
    count: u64,
) -> (text: String)
    ensures
        text@ == positive_count_line(ctx, id@, english@, count as nat),
{
    if count > 0 {
        count_line_of(ctx, id, english, count)
    } else {
        String::new()
    }
}

pub(crate) fn plural_note_of(
    ctx: LocaleContext,
    one: Message,
    more: Message,
    count: u64,
) -> (text: String)
    ensures
        text@ == plural_note(ctx, one, more, count as nat),
{
    if count == 0 {
        return String::new();
    }
    let shown = decimal_text(count as u128);
    let message = if count == 1 {
        one
    } else {
        more
    };
    let note = ctx.format_one(message.id, message.english, "count", shown.as_str());
    indented_line_of(note.as_str())
}

/// A line is its text and one line break; an indented line has two spaces in front.
pub proof fn lines_end_in_a_break(s: Seq<char>)
    ensures
        line(s).len() == s.len() + 1,
        s.is_prefix_of(line(s)),
        line(s).last() == '\n',
        indented_line(s).len() == s.len() + 3,
        indented_line(s)[0] == ' ',
        indented_line(s)[1] == ' ',
        indented_line(s).subrange(2, indented_line(s).len() - 1) == s,
        indented_line(s).last() == '\n',
{
    reveal_strlit("\n");
    reveal_strlit("  ");
    assert(line(s).subrange(0, s.len() as int) =~= s);
    assert(indented_line(s).subrange(2, indented_line(s).len() - 1) =~= s);
}

/// A line shows its text in the words of the context, and hands its value or its count over to
/// them.
pub proof fn lines_are_in_the_words_of_the_context(
    ctx: LocaleContext,
    id: Seq<char>,
    english: Seq<char>,
    value: Seq<char>,
    count: nat,
)
    ensures
        named_line(ctx, id, english) == line(ctx.named(id, english)),
        named_note(ctx, id, english) == indented_line(ctx.named(id, english)),
        value_line(ctx, id, english, value) == line(
            ctx.formatted(id, english, seq![("value"@, value)]),
        ),
        count_line(ctx, id, english, count) == line(
            ctx.formatted(id, english, seq![("count"@, text::decimal(count))]),
        ),
{
}

/// Where the context has no words of its own, a line shows the English template with the value
/// in place of `{value}`, and a count line the numeral in place of `{count}`.
pub proof fn values_stand_in_their_line(
    ctx: LocaleContext,
    id: Seq<char>,
    lead: Seq<char>,
    tail: Seq<char>,
    value: Seq<char>,
    count: nat,
)
    requires
        ctx.looked_up(id) is None,
        !lead.contains('{'),
        !tail.contains('{'),
    ensures
        value_line(ctx, id, lead + "{value}"@ + tail, value) == lead + value + tail + "\n"@,
        count_line(ctx, id, lead + "{count}"@ + tail, count) == lead + text::decimal(count) + tail
            + "\n"@,
{
    reveal_strlit("{value}");
    reveal_strlit("{count}");
    reveal_strlit("value");
    reveal_strlit("count");
    lemma_one_value(lead, "value"@, tail, value);
    lemma_one_value(lead, "count"@, tail, text::decimal(count));
    assert(lead + "{value}"@ + tail =~= lead + seq!['{'] + "value"@ + seq!['}'] + tail);
    assert(lead + "{count}"@ + tail =~= lead + seq!['{'] + "count"@ + seq!['}'] + tail);
}

/// A template with one placeholder shows the value in its place.
pub(crate) proof fn lemma_one_value(
    lead: Seq<char>,
    name: Seq<char>,
    tail: Seq<char>,
    value: Seq<char>,
)
    requires
        !lead.contains('{'),
        !name.contains('}'),
        !tail.contains('{'),
    ensures
        locale::expanded(lead + seq!['{'] + name + seq!['}'] + tail, seq![(name, value)]) == lead
            + value + tail,
{
    let other = name.push('x');
    assert(other.len() != name.len());
    locale::names_are_replaced_by_their_value(lead, name, tail, value, other);
    locale::templates_without_a_closed_brace_stay(tail, seq![(name, value)]);
}

/// A value that is missing has no line, and a count of none has no line; any other has the line
/// that it would have on its own.
pub proof fn nothing_has_no_line(
    ctx: LocaleContext,
    id: Seq<char>,
    english: Seq<char>,
    value: Seq<char>,
    count: nat,
)
    ensures
        optional_value_line(ctx, id, english, None) == Seq::<char>::empty(),
        optional_value_line(ctx, id, english, Some(value)) == value_line(ctx, id, english, value),
        count == 0 ==> positive_count_line(ctx, id, english, count) == Seq::<char>::empty(),
        count > 0 ==> positive_count_line(ctx, id, english, count) == count_line(
            ctx,
            id,
            english,
            count,
        ),
{
}

/// A note on a count goes by the number: none has no note, one its own words, and more than one
/// the words for many. The numeral is what the words are given.
pub proof fn notes_go_by_number(ctx: LocaleContext, one: Message, more: Message, count: nat)
    ensures
        count == 0 ==> plural_note(ctx, one, more, count) == Seq::<char>::empty(),
        count == 1 ==> plural_note(ctx, one, more, count) == indented_line(
            ctx.formatted(one.id@, one.english@, seq![("count"@, text::decimal(1))]),
        ),
        count >= 2 ==> plural_note(ctx, one, more, count) == indented_line(
            ctx.formatted(more.id@, more.english@, seq![("count"@, text::decimal(count))]),
        ),
{
}

/// A template with two placeholders shows each value in its place.
pub(crate) proof fn lemma_two_values(
    lead: Seq<char>,
    first: Seq<char>,
    between: Seq<char>,
    second: Seq<char>,
    tail: Seq<char>,
    values: (Seq<char>, Seq<char>),
)
    requires
        !lead.contains('{'),
        !first.contains('}'),
        !between.contains('{'),
        !second.contains('}'),
        !tail.contains('{'),
        first != second,
    ensures
        locale::expanded(
            lead + seq!['{'] + first + seq!['}'] + (between + seq!['{'] + second + seq!['}']
                + tail),
            seq![(first, values.0), (second, values.1)],
        ) == lead + values.0 + between + values.1 + tail,
{
    let arguments = seq![(first, values.0), (second, values.1)];
    let rest = between + seq!['{'] + second + seq!['}'] + tail;
    locale::expansion_goes_on_behind_a_name(lead, first, rest, arguments);
    locale::expansion_goes_on_behind_a_name(between, second, tail, arguments);
    locale::the_first_argument_of_a_name_counts(arguments, first, 0);
    locale::the_first_argument_of_a_name_counts(arguments, second, 1);
    locale::templates_without_a_closed_brace_stay(tail, arguments);
    assert(lead + values.0 + (between + values.1 + tail) =~= lead + values.0 + between + values.1
        + tail);
}

} // verus!
