//! Text building blocks shared by the renderers.
//!
//! Every renderer states its output as a sequence of characters. This module holds the
//! pieces those sequences are made of: decimal numbers, joined lists, padding by character
//! count and padding by display width.

use vstd::prelude::*;

verus! {

/// `String::push` of std: appends one character at the end.
pub assume_specification[ String::push ](s: &mut String, c: char)
    ensures
        final(s)@ == old(s)@.push(c),
;

/// The digit character of a value below ten.
pub open spec fn digit(d: nat) -> char {
    (48 + d) as char
}

/// The decimal numeral of `n`, without leading zeros.
pub open spec fn decimal(n: nat) -> Seq<char>
    decreases n,
{
    if n < 10 {
        seq![digit(n)]
    } else {
        decimal(n / 10).push(digit(n % 10))
    }
}

/// The decimal numeral of a signed value: a minus sign in front of a negative one.
pub open spec fn signed_decimal(n: int) -> Seq<char> {
    if n < 0 {
        seq!['-'] + decimal((-n) as nat)
    } else {
        decimal(n as nat)
    }
}

/// `n` spaces.
pub open spec fn spaces(n: nat) -> Seq<char> {
    Seq::new(n, |i: int| ' ')
}

/// `left` minus `right`, or zero where `right` is larger.
pub open spec fn monus(left: nat, right: nat) -> nat {
    if left >= right {
        (left - right) as nat
    } else {
        0
    }
}

/// `s` followed by as many spaces as it lacks to `width` characters.
pub open spec fn left_aligned(s: Seq<char>, width: nat) -> Seq<char> {
    s + spaces(monus(width, s.len()))
}

/// `s` preceded by as many spaces as it lacks to `width` characters.
pub open spec fn right_aligned(s: Seq<char>, width: nat) -> Seq<char> {
    spaces(monus(width, s.len())) + s
}

/// The characters of each string.
pub open spec fn texts(strings: Seq<String>) -> Seq<Seq<char>> {
    strings.map_values(|s: String| s@)
}

/// The characters of a string, where there is one.
pub open spec fn optional_text(s: Option<String>) -> Option<Seq<char>> {
    match s {
        Some(found) => Some(found@),
        None => None,
    }
}

/// The parts in order, with `separator` between neighbours.
pub open spec fn joined(parts: Seq<Seq<char>>, separator: Seq<char>) -> Seq<char>
    decreases parts.len(),
{
    if parts.len() == 0 {
        Seq::empty()
    } else if parts.len() == 1 {
        parts[0]
    } else {
        joined(parts.drop_last(), separator) + separator + parts.last()
    }
}

/// The characters with Unicode's `White_Space` property.
pub open spec fn is_white_space(c: char) -> bool {
    let point = c as u32;
    ||| 0x9 <= point <= 0xd
    ||| point == 0x20
    ||| point == 0x85
    ||| point == 0xa0
    ||| point == 0x1680
    ||| 0x2000 <= point <= 0x200a
    ||| point == 0x2028
    ||| point == 0x2029
    ||| point == 0x202f
    ||| point == 0x205f
    ||| point == 0x3000
}

/// `s` without its leading and trailing white space.
pub open spec fn trimmed(s: Seq<char>) -> Seq<char>
    decreases s.len(),
{
    if s.len() > 0 && is_white_space(s.first()) {
        trimmed(s.drop_first())
    } else if s.len() > 0 && is_white_space(s.last()) {
        trimmed(s.drop_last())
    } else {
        s
    }
}

/// The lower-case letter of an ASCII capital; any other character itself.
pub open spec fn ascii_lower(c: char) -> char {
    if 'A' <= c <= 'Z' {
        (c as u8 + 32) as char
    } else {
        c
    }
}

/// `s` with every ASCII capital in lower case.
pub open spec fn ascii_lowered(s: Seq<char>) -> Seq<char> {
    s.map_values(|c: char| ascii_lower(c))
}

/// The control characters of Unicode.
pub open spec fn is_control(c: char) -> bool {
    c <= '\u{1f}' || '\u{7f}' <= c <= '\u{9f}'
}

/// `s` with a space in place of every control character.
pub open spec fn scrubbed(s: Seq<char>) -> Seq<char> {
    s.map_values(
        |c: char|
            if is_control(c) {
                ' '
            } else {
                c
            },
    )
}

/// Whether `part` stands somewhere in `s`.
pub open spec fn occurs_in(part: Seq<char>, s: Seq<char>) -> bool {
    exists|i: int| #[trigger] occurs_at(part, s, i)
}

/// Whether `part` stands at position `i` of `s`.
pub open spec fn occurs_at(part: Seq<char>, s: Seq<char>, i: int) -> bool {
    0 <= i && i + part.len() <= s.len() && s.subrange(i, i + part.len()) == part
}

/// Scrubbed text holds no control character and is as long as before.
pub proof fn scrubbing_leaves_no_control_character(s: Seq<char>, i: int)
    requires
        0 <= i < s.len(),
    ensures
        scrubbed(s).len() == s.len(),
        !is_control(scrubbed(s)[i]),
        !is_control(s[i]) ==> scrubbed(s)[i] == s[i],
{
}

/// Trimming twice is trimming once.
pub proof fn trimming_is_idempotent(s: Seq<char>)
    ensures
        trimmed(trimmed(s)) == trimmed(s),
    decreases s.len(),
{
    if s.len() > 0 && is_white_space(s.first()) {
        trimming_is_idempotent(s.drop_first());
    } else if s.len() > 0 && is_white_space(s.last()) {
        trimming_is_idempotent(s.drop_last());
    }
}

/// Whether `c` has Unicode's `White_Space` property.
pub fn char_is_white_space(c: char) -> (white: bool)
    ensures
        white == is_white_space(c),
{
    let point = c as u32;
    (0x9 <= point && point <= 0xd) || point == 0x20 || point == 0x85 || point == 0xa0 || point
        == 0x1680 || (0x2000 <= point && point <= 0x200a) || point == 0x2028 || point == 0x2029
        || point == 0x202f || point == 0x205f || point == 0x3000
}

/// `s` without its leading and trailing white space.
pub fn trim_text(s: &str) -> (text: &str)
    ensures
        text@ == trimmed(s@),
{
    let chars = chars_of(s);
    let mut start: usize = 0;
    let mut end: usize = chars.len();
    assert(s@.subrange(0, end as int) =~= s@);
    while start < end && char_is_white_space(chars[start])
        invariant
            start <= end == chars.len(),
            chars@ == s@,
            trimmed(s@.subrange(start as int, end as int)) == trimmed(s@),
        decreases end - start,
    {
        assert(s@.subrange(start as int, end as int).drop_first() =~= s@.subrange(
            start + 1,
            end as int,
        ));
        start = start + 1;
    }
    while start < end && char_is_white_space(chars[end - 1])
        invariant
            start <= end <= chars.len(),
            chars@ == s@,
            start < end ==> !is_white_space(chars@[start as int]),
            trimmed(s@.subrange(start as int, end as int)) == trimmed(s@),
        decreases end - start,
    {
        assert(s@.subrange(start as int, end as int).drop_last() =~= s@.subrange(
            start as int,
            end - 1,
        ));
        end = end - 1;
    }
    s.substring_char(start, end)
}

/// `s` with every ASCII capital in lower case.
pub fn ascii_lower_text(s: &str) -> (text: String)
    ensures
        text@ == ascii_lowered(s@),
{
    let mut text = String::new();
    for c in it: s.chars()
        invariant
            it.seq() == s@,
            text@ == ascii_lowered(s@).take(it.index()),
    {
        if 'A' <= c && c <= 'Z' {
            text.push((c as u8 + 32) as char);
        } else {
            text.push(c);
        }
    }
    assert(ascii_lowered(s@).take(s@.len() as int) =~= ascii_lowered(s@));
    text
}

/// Decimal numeral of an unsigned value.
pub fn decimal_text(n: u128) -> (text: String)
    ensures
        text@ == decimal(n as nat),
    decreases n,
{
    if n < 10 {
        let mut text = String::new();
        text.push((48 + n as u8) as char);
        assert(text@ =~= seq![digit(n as nat)]);
        text
    } else {
        let mut text = decimal_text(n / 10);
        text.push((48 + (n % 10) as u8) as char);
        text
    }
}

/// Decimal numeral of a signed value.
pub fn signed_decimal_text(n: i64) -> (text: String)
    ensures
        text@ == signed_decimal(n as int),
{
    if n < 0 {
        let mut text = String::new();
        text.push('-');
        assert(text@ =~= seq!['-']);
        let magnitude = decimal_text((-(n as i128)) as u128);
        text.append(magnitude.as_str());
        text
    } else {
        decimal_text(n as u128)
    }
}

/// A run of `count` spaces.
pub fn spaces_text(count: usize) -> (text: String)
    ensures
        text@ == spaces(count as nat),
{
    let mut text = String::new();
    let mut i: usize = 0;
    while i < count
        invariant
            i <= count,
            text@ == spaces(i as nat),
        decreases count - i,
    {
        text.push(' ');
        i = i + 1;
    }
    text
}

/// The characters of `s`, one per element.
pub fn chars_of(s: &str) -> (chars: Vec<char>)
    ensures
        chars@ == s@,
{
    let mut chars: Vec<char> = Vec::new();
    for c in it: s.chars()
        invariant
            it.seq() == s@,
            chars@ == s@.take(it.index()),
    {
        chars.push(c);
    }
    chars
}

/// Whether two strings hold the same characters.
pub fn same_text(left: &str, right: &str) -> (same: bool)
    ensures
        same == (left@ == right@),
{
    left.to_owned() == right.to_owned()
}

/// `s` with a space in place of every control character.
pub fn scrub_text(s: &str) -> (text: String)
    ensures
        text@ == scrubbed(s@),
{
    let mut text = String::new();
    for c in it: s.chars()
        invariant
            it.seq() == s@,
            text@ == scrubbed(s@).take(it.index()),
    {
        if c <= '\u{1f}' || ('\u{7f}' <= c && c <= '\u{9f}') {
            text.push(' ');
        } else {
            text.push(c);
        }
    }
    assert(scrubbed(s@).take(s@.len() as int) =~= scrubbed(s@));
    text
}

/// Whether `part` stands somewhere in `s`.
pub fn contains_text(s: &str, part: &str) -> (contains: bool)
    ensures
        contains == occurs_in(part@, s@),
{
    let length = s.unicode_len();
    let wanted = part.unicode_len();
    if wanted > length {
        assert forall|i: int| !occurs_at(part@, s@, i) by {}
        return false;
    }
    let mut i: usize = 0;
    while i <= length - wanted
        invariant
            length == s@.len(),
            wanted == part@.len(),
            wanted <= length,
            i <= length - wanted + 1,
            forall|j: int| 0 <= j < i ==> !occurs_at(part@, s@, j),
        decreases length - wanted + 1 - i,
    {
        if same_text(s.substring_char(i, i + wanted), part) {
            assert(occurs_at(part@, s@, i as int));
            return true;
        }
        assert(!occurs_at(part@, s@, i as int));
        if i == length - wanted {
            assert forall|j: int| !occurs_at(part@, s@, j) by {
                assert(0 <= j < i ==> !occurs_at(part@, s@, j));
            }
            return false;
        }
        i = i + 1;
    }
    false
}

/// The parts in order, with `separator` between neighbours.
pub fn join_text(parts: &Vec<String>, separator: &str) -> (text: String)
    ensures
        text@ == joined(texts(parts@), separator@),
{
    let mut text = String::new();
    let mut i: usize = 0;
    while i < parts.len()
        invariant
            i <= parts.len(),
            text@ == joined(texts(parts@).take(i as int), separator@),
        decreases parts.len() - i,
    {
        proof {
            let next = texts(parts@).take(i + 1);
            assert(next.drop_last() =~= texts(parts@).take(i as int));
            assert(next.last() == parts@[i as int]@);
        }
        if i > 0 {
            text.append(separator);
        }
        text.append(parts[i].as_str());
        assert(text@ =~= joined(texts(parts@).take(i + 1), separator@));
        i = i + 1;
    }
    assert(texts(parts@).take(i as int) =~= texts(parts@));
    text
}

/// The number of terminal columns that `unicode_width` gives to a text.
pub uninterp spec fn display_width(s: Seq<char>) -> usize;

/// Whether every character is a printable ASCII one.
pub open spec fn is_plain(s: Seq<char>) -> bool {
    forall|i: int| 0 <= i < s.len() ==> ' ' <= #[trigger] s[i] <= '~'
}

/// `unicode_width::UnicodeWidthStr::width`: the columns that a text takes on a terminal. The
/// result is a function of the text alone; what it is follows Unicode's width tables and is
/// left to that crate. Claimed besides: a printable ASCII character takes one column, so that
/// a text of nothing else takes as many as it has characters; a space at the end adds one
/// column to what stands before it; and no sequence reaches across a space, so that the widths
/// of what stands before and behind it and one column for itself add up.
#[verifier::external_body]
pub(crate) fn width_of(s: &str) -> (width: usize)
    ensures
        width == display_width(s@),
        is_plain(s@) ==> width == s@.len(),
        s@.len() > 0 && s@.last() == ' ' ==> width == display_width(s@.drop_last()) + 1,
        forall|i: int|
            0 <= i < s@.len() && #[trigger] s@[i] == ' ' ==> width == display_width(s@.take(i)) + 1
                + display_width(s@.skip(i + 1)),
{
    unicode_width::UnicodeWidthStr::width(s)
}

/// `s` followed by as many spaces as it lacks to `width` columns.
pub open spec fn padded(s: Seq<char>, width: nat) -> Seq<char> {
    s + spaces(monus(width, display_width(s) as nat))
}

/// The longest beginning of `s` that takes at most `width` columns.
pub open spec fn clipped(s: Seq<char>, width: nat) -> Seq<char>
    decreases s.len(),
{
    if s.len() == 0 || display_width(s) <= width {
        s
    } else {
        clipped(s.drop_last(), width)
    }
}

/// `s` followed by as many spaces as it lacks to `width` columns. A text that is not wider
/// then takes exactly `width` columns.
pub fn pad_to_width(s: &str, width: usize) -> (text: String)
    ensures
        text@ == padded(s@, width as nat),
        display_width(s@) <= width ==> display_width(text@) == width,
{
    let mut text = s.to_owned();
    let mut taken: usize = width_of(text.as_str());
    let ghost mut added: nat = 0;
    assert(text@ =~= s@ + spaces(0));
    while taken < width
        invariant
            text@ == s@ + spaces(added),
            taken == display_width(text@),
            taken == display_width(s@) + added,
            display_width(s@) <= width ==> taken <= width,
            added > 0 ==> taken <= width,
        decreases width - taken,
    {
        let ghost before = text@;
        text.push(' ');
        assert(text@.drop_last() =~= before);
        taken = width_of(text.as_str());
        proof {
            added = added + 1;
            assert(text@ =~= s@ + spaces(added));
        }
    }
    text
}

/// The longest beginning of `s` that takes at most `width` columns.
pub fn truncate_to_width(s: &str, width: usize) -> (kept: &str)
    ensures
        kept@ == clipped(s@, width as nat),
        display_width(kept@) <= width,
{
    let mut kept = s;
    let mut length: usize = s.unicode_len();
    while length > 0 && width_of(kept) > width
        invariant
            length == kept@.len(),
            clipped(kept@, width as nat) == clipped(s@, width as nat),
        decreases length,
    {
        let ghost before = kept@;
        length = length - 1;
        kept = kept.substring_char(0, length);
        assert(kept@ =~= before.drop_last());
    }
    let taken = width_of(kept);
    assert(kept@.len() == 0 ==> is_plain(kept@));
    assert(taken <= width);
    kept
}

/// A text clipped and then padded to `width` columns.
pub open spec fn cell_text(s: Seq<char>, width: nat) -> Seq<char> {
    padded(clipped(s, width), width)
}

/// Clip, then pad, to exactly `width` columns; headers and data share it so that the two stay
/// aligned.
pub fn cell(s: &str, width: usize) -> (text: String)
    ensures
        text@ == cell_text(s@, width as nat),
        display_width(text@) == width,
{
    pad_to_width(truncate_to_width(s, width), width)
}

/// Put a cell behind a line, one space apart. The widths add up.
pub fn push_cell(line: &mut String, cell: &str)
    ensures
        final(line)@ == old(line)@ + " "@ + cell@,
        display_width(final(line)@) == display_width(old(line)@) + 1 + display_width(cell@),
{
    let ghost before = line@;
    line.append(" ");
    line.append(cell);
    let _measured = width_of(line.as_str());
    proof {
        reveal_strlit(" ");
        let i = before.len() as int;
        assert(line@[i] == ' ');
        assert(line@.take(i) =~= before);
        assert(line@.skip(i + 1) =~= cell@);
    }
}

/// What is clipped is a beginning of the text, and the whole text where that fits.
pub proof fn clipping_keeps_a_beginning(s: Seq<char>, width: nat)
    ensures
        clipped(s, width).is_prefix_of(s),
        display_width(s) <= width ==> clipped(s, width) == s,
    decreases s.len(),
{
    if s.len() > 0 && display_width(s) > width {
        clipping_keeps_a_beginning(s.drop_last(), width);
    }
}

/// Whether every character of a text takes one column, as far as its width tells.
pub open spec fn is_even(s: Seq<char>) -> bool {
    display_width(s) == s.len()
}

/// `s` followed by as many spaces as it lacks to `width` characters. A text that is not longer
/// and takes one column for each character then takes exactly `width` columns; a text of
/// printable ASCII characters is such a text.
pub fn left_align(s: &str, width: usize) -> (text: String)
    ensures
        text@ == left_aligned(s@, width as nat),
        is_plain(s@) ==> is_even(s@),
        is_even(s@) && s@.len() <= width ==> display_width(text@) == width,
{
    let mut text = s.to_owned();
    let mut columns: usize = width_of(s);
    let mut count: usize = s.unicode_len();
    let ghost mut added: nat = 0;
    assert(text@ =~= s@ + spaces(0));
    while count < width
        invariant
            text@ == s@ + spaces(added),
            count == s@.len() + added,
            added > 0 ==> count <= width,
            columns == display_width(text@),
            columns == display_width(s@) + added,
        decreases width - count,
    {
        let ghost before = text@;
        text.push(' ');
        assert(text@.drop_last() =~= before);
        columns = width_of(text.as_str());
        count = count + 1;
        proof {
            added = added + 1;
            assert(text@ =~= s@ + spaces(added));
        }
    }
    text
}

/// `s` preceded by as many spaces as it lacks to `width` characters.
pub fn right_align(s: &str, width: usize) -> (text: String)
    ensures
        text@ == right_aligned(s@, width as nat),
{
    let taken = s.unicode_len();
    let missing: usize = if width >= taken {
        width - taken
    } else {
        0
    };
    let mut text = spaces_text(missing);
    text.append(s);
    text
}

/// The number of bytes that UTF-8 takes for `c`.
pub open spec fn utf8_length(c: char) -> nat {
    if c as u32 <= 0x7f {
        1
    } else if c as u32 <= 0x7ff {
        2
    } else if c as u32 <= 0xffff {
        3
    } else {
        4
    }
}

/// The number of bytes that UTF-8 takes for `s`.
pub open spec fn utf8_size(s: Seq<char>) -> nat
    decreases s.len(),
{
    if s.len() == 0 {
        0
    } else {
        utf8_size(s.drop_last()) + utf8_length(s.last())
    }
}

/// The longest beginning of `s` that takes at most `limit` bytes.
pub open spec fn byte_limited(s: Seq<char>, limit: nat) -> Seq<char>
    decreases s.len(),
{
    if utf8_size(s) <= limit {
        s
    } else {
        byte_limited(s.drop_last(), limit)
    }
}

proof fn lemma_utf8_size_of_first(s: Seq<char>)
    requires
        s.len() > 0,
    ensures
        utf8_size(s) == utf8_length(s[0]) + utf8_size(s.drop_first()),
    decreases s.len(),
{
    if s.len() == 1 {
        reveal_with_fuel(utf8_size, 2);
        assert(s.drop_last() =~= Seq::empty());
        assert(s.drop_first() =~= Seq::empty());
    } else {
        lemma_utf8_size_of_first(s.drop_last());
        assert(s.drop_last().drop_first() =~= s.drop_first().drop_last());
    }
}

proof fn lemma_utf8_size_is_encoded_size(s: Seq<char>)
    ensures
        utf8_size(s) == vstd::utf8::encode_utf8(s).len(),
    decreases s.len(),
{
    if s.len() > 0 {
        lemma_utf8_size_of_first(s);
        lemma_utf8_size_is_encoded_size(s.drop_first());
        vstd::utf8::char_is_scalar(s[0]);
    }
}

/// The number of bytes that UTF-8 takes for `s`.
pub fn byte_length(s: &str) -> (length: usize)
    ensures
        length == utf8_size(s@),
{
    proof {
        lemma_utf8_size_is_encoded_size(s@);
    }
    s.as_bytes().len()
}

/// Whether `s` can be cut to at most `limit` bytes without cutting into a character.
pub open spec fn cuts_cleanly(s: Seq<char>, limit: nat) -> bool {
    utf8_size(s) <= limit || utf8_size(byte_limited(s, limit)) == limit
}

proof fn lemma_utf8_size_grows(s: Seq<char>, shorter: int)
    requires
        0 <= shorter <= s.len(),
    ensures
        utf8_size(s.take(shorter)) <= utf8_size(s),
    decreases s.len(),
{
    if shorter < s.len() {
        lemma_utf8_size_grows(s.drop_last(), shorter);
        assert(s.drop_last().take(shorter) =~= s.take(shorter));
    } else {
        assert(s.take(shorter) =~= s);
    }
}

proof fn lemma_byte_limited(s: Seq<char>, limit: nat, end: int)
    requires
        0 <= end <= s.len(),
        utf8_size(s.take(end)) <= limit,
        end < s.len() ==> utf8_size(s.take(end + 1)) > limit,
    ensures
        byte_limited(s, limit) == s.take(end),
    decreases s.len(),
{
    if end == s.len() {
        assert(s.take(end) =~= s);
    } else {
        lemma_utf8_size_grows(s, end + 1);
        let shorter = s.drop_last();
        assert(shorter.take(end) =~= s.take(end));
        if end < shorter.len() {
            assert(shorter.take(end + 1) =~= s.take(end + 1));
        }
        lemma_byte_limited(shorter, limit, end);
    }
}

/// The longest beginning of `s` that takes at most `limit` bytes.
pub fn truncate_bytes(s: &str, limit: usize) -> (kept: &str)
    ensures
        kept@ == byte_limited(s@, limit as nat),
{
    let chars = chars_of(s);
    let mut end: usize = 0;
    let mut room: usize = limit;
    assert(s@.take(0) =~= Seq::empty());
    while end < chars.len()
        invariant
            chars@ == s@,
            end <= chars@.len(),
            room <= limit,
            utf8_size(s@.take(end as int)) + room == limit,
        decreases chars@.len() - end,
    {
        let point = chars[end] as u32;
        let length: usize = if point <= 0x7f {
            1
        } else if point <= 0x7ff {
            2
        } else if point <= 0xffff {
            3
        } else {
            4
        };
        assert(s@.take(end + 1).drop_last() =~= s@.take(end as int));
        assert(s@.take(end + 1).last() == s@[end as int]);
        if length > room {
            proof {
                lemma_byte_limited(s@, limit as nat, end as int);
            }
            assert(s@.subrange(0, end as int) =~= s@.take(end as int));
            return s.substring_char(0, end);
        }
        room = room - length;
        end = end + 1;
    }
    proof {
        lemma_byte_limited(s@, limit as nat, end as int);
    }
    s
}

/// What is kept never takes more than the limit, and it is a beginning of the text.
pub proof fn truncation_is_a_bounded_beginning(s: Seq<char>, limit: nat)
    ensures
        utf8_size(byte_limited(s, limit)) <= limit,
        byte_limited(s, limit).is_prefix_of(s),
        utf8_size(s) <= limit ==> byte_limited(s, limit) == s,
    decreases s.len(),
{
    if utf8_size(s) > limit {
        truncation_is_a_bounded_beginning(s.drop_last(), limit);
        assert(byte_limited(s, limit) == byte_limited(s.drop_last(), limit));
    }
}

/// Joining adds up: nothing joins to nothing, one part to itself, and two lists that are not
/// empty to what each joins to with one separator between them.
pub proof fn joining_adds_up(
    left: Seq<Seq<char>>,
    right: Seq<Seq<char>>,
    separator: Seq<char>,
)
    ensures
        joined(Seq::empty(), separator) == Seq::<char>::empty(),
        left.len() == 1 ==> joined(left, separator) == left[0],
        left.len() > 0 && right.len() > 0 ==> joined(left + right, separator) == joined(
            left,
            separator,
        ) + separator + joined(right, separator),
    decreases right.len(),
{
    if left.len() > 0 && right.len() == 1 {
        assert((left + right).drop_last() =~= left);
        assert((left + right).last() == right[0]);
    } else if left.len() > 0 && right.len() > 1 {
        joining_adds_up(left, right.drop_last(), separator);
        assert((left + right).drop_last() =~= left + right.drop_last());
        assert((left + right).last() == right.last());
        assert(joined(left + right, separator) =~= joined(left, separator) + separator + joined(
            right,
            separator,
        ));
    }
}

/// Every part stands in what the parts join to.
pub proof fn joining_keeps_every_part(parts: Seq<Seq<char>>, separator: Seq<char>, i: int)
    requires
        0 <= i < parts.len(),
    ensures
        occurs_in(parts[i], joined(parts, separator)),
    decreases parts.len(),
{
    let whole = joined(parts, separator);
    if parts.len() == 1 {
        assert(whole.subrange(0, whole.len() as int) =~= parts[i]);
        assert(occurs_at(parts[i], whole, 0));
    } else if i == parts.len() - 1 {
        let at = whole.len() - parts[i].len();
        assert(whole.subrange(at, at + parts[i].len()) =~= parts[i]);
        assert(occurs_at(parts[i], whole, at));
    } else {
        let front = parts.drop_last();
        joining_keeps_every_part(front, separator, i);
        let lead = joined(front, separator);
        let at = choose|at: int| #[trigger] occurs_at(front[i], lead, at);
        assert(whole.subrange(at, at + parts[i].len()) =~= lead.subrange(
            at,
            at + parts[i].len(),
        ));
        assert(occurs_at(parts[i], whole, at));
    }
}

/// A part stands in a text exactly where the text is something, the part and something.
pub proof fn parts_stand_between(
    part: Seq<char>,
    before: Seq<char>,
    behind: Seq<char>,
    s: Seq<char>,
)
    ensures
        occurs_in(part, before + part + behind),
        occurs_in(part, s) ==> exists|lead: Seq<char>, tail: Seq<char>|
            s == #[trigger] (lead + part + tail),
{
    let whole = before + part + behind;
    let at = before.len() as int;
    assert(whole.subrange(at, at + part.len()) =~= part);
    assert(occurs_at(part, whole, at));
    if occurs_in(part, s) {
        let i = choose|i: int| #[trigger] occurs_at(part, s, i);
        let lead = s.take(i);
        let tail = s.skip(i + part.len());
        assert(s =~= lead + part + tail);
    }
}

/// Alignment keeps the text and adds nothing but spaces, up to the width and never beyond.
pub proof fn alignment_adds_spaces_only(s: Seq<char>, width: nat)
    ensures
        left_aligned(s, width).len() == (if s.len() < width {
            width
        } else {
            s.len()
        }),
        right_aligned(s, width).len() == left_aligned(s, width).len(),
        s.is_prefix_of(left_aligned(s, width)),
        s.is_suffix_of(right_aligned(s, width)),
        forall|i: int|
            s.len() <= i < left_aligned(s, width).len() ==> #[trigger] left_aligned(s, width)[i]
                == ' ',
        forall|i: int|
            0 <= i < right_aligned(s, width).len() - s.len() ==> #[trigger] right_aligned(
                s,
                width,
            )[i] == ' ',
{
    assert(right_aligned(s, width).subrange(
        right_aligned(s, width).len() - s.len(),
        right_aligned(s, width).len() as int,
    ) =~= s);
    assert(left_aligned(s, width).subrange(0, s.len() as int) =~= s);
}

/// Padding keeps the text and adds a space for each column that it lacks.
pub proof fn padding_adds_spaces_only(s: Seq<char>, width: nat)
    ensures
        s.is_prefix_of(padded(s, width)),
        display_width(s) <= width ==> padded(s, width).len() == s.len() + width - display_width(s),
        display_width(s) >= width ==> padded(s, width) == s,
        forall|i: int|
            s.len() <= i < padded(s, width).len() ==> #[trigger] padded(s, width)[i] == ' ',
{
    assert(padded(s, width).subrange(0, s.len() as int) =~= s);
    if display_width(s) >= width {
        assert(padded(s, width) =~= s);
    }
}

/// No more is clipped than must be: every longer beginning is too wide.
pub proof fn clipping_is_no_shorter_than_needed(s: Seq<char>, width: nat, length: int)
    requires
        clipped(s, width).len() < length <= s.len(),
    ensures
        display_width(s.take(length)) > width,
    decreases s.len(),
{
    if s.len() > 0 && display_width(s) > width {
        clipping_keeps_a_beginning(s.drop_last(), width);
        if length < s.len() {
            clipping_is_no_shorter_than_needed(s.drop_last(), width, length);
            assert(s.drop_last().take(length) =~= s.take(length));
        } else {
            assert(s.take(length) =~= s);
        }
    }
}

/// Sizes are those of the UTF-8 encoding.
pub proof fn sizes_are_encoded_sizes(s: Seq<char>)
    ensures
        utf8_size(s) == vstd::utf8::encode_utf8(s).len(),
{
    lemma_utf8_size_is_encoded_size(s);
}

/// Truncation keeps as much as fits: what is kept takes at most the limit in UTF-8, and every
/// longer beginning takes more.
pub proof fn truncation_keeps_what_fits(s: Seq<char>, limit: nat, length: int)
    requires
        0 <= length <= s.len(),
    ensures
        vstd::utf8::encode_utf8(byte_limited(s, limit)).len() <= limit,
        byte_limited(s, limit).is_prefix_of(s),
        length > byte_limited(s, limit).len() ==> vstd::utf8::encode_utf8(s.take(length)).len()
            > limit,
    decreases s.len(),
{
    truncation_is_a_bounded_beginning(s, limit);
    sizes_are_encoded_sizes(byte_limited(s, limit));
    if length > byte_limited(s, limit).len() && utf8_size(s) > limit {
        if length < s.len() {
            truncation_keeps_what_fits(s.drop_last(), limit, length);
            assert(s.drop_last().take(length) =~= s.take(length));
        } else {
            assert(s.take(length) =~= s);
            sizes_are_encoded_sizes(s);
        }
    }
}

/// Whether every character is white space.
pub open spec fn all_white(s: Seq<char>) -> bool {
    forall|i: int| 0 <= i < s.len() ==> is_white_space(#[trigger] s[i])
}

/// Trimming takes white space off both ends, all of it and nothing else.
pub proof fn trimming_takes_the_ends(lead: Seq<char>, core: Seq<char>, tail: Seq<char>)
    requires
        all_white(lead),
        all_white(tail),
        core.len() > 0 ==> !is_white_space(core.first()) && !is_white_space(core.last()),
    ensures
        trimmed(lead + core + tail) == core,
    decreases lead.len() + tail.len(),
{
    let whole = lead + core + tail;
    if lead.len() > 0 {
        assert(is_white_space(lead[0]));
        let rest = lead.drop_first();
        assert forall|i: int| 0 <= i < rest.len() implies is_white_space(#[trigger] rest[i]) by {
            assert(is_white_space(lead[i + 1]));
        }
        assert(whole.drop_first() =~= rest + core + tail);
        trimming_takes_the_ends(rest, core, tail);
    } else if tail.len() > 0 {
        assert(is_white_space(tail[tail.len() - 1]));
        let rest = tail.drop_last();
        assert forall|i: int| 0 <= i < rest.len() implies is_white_space(#[trigger] rest[i]) by {
            assert(is_white_space(tail[i]));
        }
        assert(whole.drop_last() =~= lead + core + rest);
        assert(whole.last() == tail.last());
        if core.len() == 0 {
            assert(whole =~= tail);
            assert(is_white_space(tail[0]));
            let inner = tail.drop_first();
            assert forall|i: int| 0 <= i < inner.len() implies is_white_space(
                #[trigger] inner[i],
            ) by {
                assert(is_white_space(tail[i + 1]));
            }
            assert(whole.drop_first() =~= Seq::<char>::empty() + core + inner);
            trimming_takes_the_ends(Seq::empty(), core, inner);
        } else {
            assert(whole.first() == core.first());
            trimming_takes_the_ends(lead, core, rest);
        }
    } else {
        assert(whole =~= core);
    }
}

/// The ASCII white space is white space, and no other printable ASCII character is.
pub proof fn ascii_white_space(c: char)
    requires
        c <= '~',
    ensures
        is_white_space(c) <==> c == ' ' || '\t' <= c <= '\r',
{
}

/// Lower case keeps the length and changes the ASCII capitals only, each into its small letter.
pub proof fn lower_case_changes_capitals_only(s: Seq<char>, i: int)
    requires
        0 <= i < s.len(),
    ensures
        ascii_lowered(s).len() == s.len(),
        'A' <= s[i] <= 'Z' ==> ascii_lowered(s)[i] as u32 == s[i] as u32 + 32,
        !('A' <= s[i] <= 'Z') ==> ascii_lowered(s)[i] == s[i],
{
}

/// The number that a row of digits stands for.
pub open spec fn value_of(digits: Seq<char>) -> nat
    decreases digits.len(),
{
    if digits.len() == 0 {
        0
    } else {
        10 * value_of(digits.drop_last()) + (digits.last() as int - '0' as int) as nat
    }
}

/// A numeral is made of digits, has no leading zero, and stands for its number.
pub proof fn numerals_stand_for_their_number(n: nat)
    ensures
        value_of(decimal(n)) == n,
        decimal(n).len() > 0,
        forall|i: int| 0 <= i < decimal(n).len() ==> '0' <= #[trigger] decimal(n)[i] <= '9',
        n > 0 ==> decimal(n)[0] != '0',
        n == 0 ==> decimal(n).len() == 1,
    decreases n,
{
    if n < 10 {
        reveal_with_fuel(value_of, 2);
        assert(decimal(n).drop_last() =~= Seq::empty());
    } else {
        numerals_stand_for_their_number(n / 10);
        assert(decimal(n).drop_last() =~= decimal(n / 10));
        assert(decimal(n)[0] == decimal(n / 10)[0]);
    }
}

/// A negative number is a minus sign and the numeral of its magnitude; any other is its
/// numeral.
pub proof fn signs_stand_in_front(n: int)
    ensures
        n < 0 ==> signed_decimal(n).first() == '-' && value_of(signed_decimal(n).drop_first())
            == -n,
        n < 0 ==> signed_decimal(n) == seq!['-'] + decimal((-n) as nat),
        n >= 0 ==> value_of(signed_decimal(n)) == n,
        n >= 0 ==> signed_decimal(n) == decimal(n as nat),
{
    if n < 0 {
        numerals_stand_for_their_number((-n) as nat);
        reveal_strlit("-");
        assert(signed_decimal(n).drop_first() =~= decimal((-n) as nat));
        assert(signed_decimal(n) =~= seq!['-'] + decimal((-n) as nat));
    } else {
        numerals_stand_for_their_number(n as nat);
    }
}

/// Trimming leaves nothing exactly where there is nothing but white space.
pub proof fn only_white_space_trims_to_nothing(s: Seq<char>)
    ensures
        trimmed(s).len() == 0 <==> all_white(s),
    decreases s.len(),
{
    if s.len() > 0 {
        if is_white_space(s.first()) {
            let rest = s.drop_first();
            only_white_space_trims_to_nothing(rest);
            if all_white(s) {
                assert forall|i: int| 0 <= i < rest.len() implies is_white_space(
                    #[trigger] rest[i],
                ) by {
                    assert(is_white_space(s[i + 1]));
                }
            }
            if all_white(rest) {
                assert forall|i: int| 0 <= i < s.len() implies is_white_space(#[trigger] s[i]) by {
                    if i > 0 {
                        assert(is_white_space(rest[i - 1]));
                    }
                }
            }
        } else {
            assert(!is_white_space(s[0]));
            if is_white_space(s.last()) {
                let rest = s.drop_last();
                only_white_space_trims_to_nothing(rest);
                assert(s.len() > 1);
                assert(!is_white_space(rest[0]));
            }
        }
    }
}

/// What stands in the first of two texts stands in the two together.
pub broadcast proof fn lemma_occurs_in_first(part: Seq<char>, left: Seq<char>, right: Seq<char>)
    ensures
        occurs_in(part, left) ==> #[trigger] occurs_in(part, left + right),
{
    if occurs_in(part, left) {
        let i = choose|i: int| #[trigger] occurs_at(part, left, i);
        assert((left + right).subrange(i, i + part.len()) =~= left.subrange(i, i + part.len()));
        assert(occurs_at(part, left + right, i));
    }
}

/// What stands in the second of two texts stands in the two together.
pub broadcast proof fn lemma_occurs_in_second(part: Seq<char>, left: Seq<char>, right: Seq<char>)
    ensures
        occurs_in(part, right) ==> #[trigger] occurs_in(part, left + right),
{
    if occurs_in(part, right) {
        let i = choose|i: int| #[trigger] occurs_at(part, right, i);
        let at = left.len() + i;
        assert((left + right).subrange(at, at + part.len()) =~= right.subrange(i, i + part.len()));
        assert(occurs_at(part, left + right, at));
    }
}

/// A text stands in itself.
pub broadcast proof fn lemma_occurs_in_itself(part: Seq<char>, s: Seq<char>)
    ensures
        part == s ==> #[trigger] occurs_in(part, s),
{
    if part == s {
        assert(s.subrange(0, s.len() as int) =~= part);
        assert(occurs_at(part, s, 0));
    }
}

pub broadcast group group_occurrences {
    lemma_occurs_in_first,
    lemma_occurs_in_second,
    lemma_occurs_in_itself,
}

/// A cell holds the text whole where it fits, else the longest beginning that does, and fills up
/// with spaces.
pub proof fn cells_hold_what_fits(s: Seq<char>, width: nat, length: int)
    ensures
        display_width(s) <= width ==> s.is_prefix_of(cell_text(s, width)),
        clipped(s, width).is_prefix_of(s),
        clipped(s, width).is_prefix_of(cell_text(s, width)),
        clipped(s, width).len() < length <= s.len() ==> display_width(s.take(length)) > width,
        forall|i: int|
            clipped(s, width).len() <= i < cell_text(s, width).len() ==> #[trigger] cell_text(
                s,
                width,
            )[i] == ' ',
{
    clipping_keeps_a_beginning(s, width);
    padding_adds_spaces_only(clipped(s, width), width);
    if clipped(s, width).len() < length <= s.len() {
        clipping_is_no_shorter_than_needed(s, width, length);
    }
}

/// Scrubbing judges each character on its own: a control character, one below the space or from
/// delete to the end of the second control block, becomes a space, and every other stays.
pub proof fn scrubbing_replaces_control_characters_only(s: Seq<char>, i: int)
    requires
        0 <= i < s.len(),
    ensures
        scrubbed(s).len() == s.len(),
        (s[i] as int) < 32 || 127 <= s[i] as int <= 159 ==> scrubbed(s)[i] == ' ',
        !((s[i] as int) < 32 || 127 <= s[i] as int <= 159) ==> scrubbed(s)[i] == s[i],
{
}

/// Beyond ASCII the white space is the next line, the no-break spaces, the spaces of fixed
/// widths, the two separators and the ideographic space.
pub proof fn white_space_beyond_ascii(c: char)
    requires
        c > '~',
    ensures
        is_white_space(c) <==> c == '\u{85}' || c == '\u{a0}' || c == '\u{1680}' || '\u{2000}' <= c
            <= '\u{200a}' || c == '\u{2028}' || c == '\u{2029}' || c == '\u{202f}' || c
            == '\u{205f}' || c == '\u{3000}',
{
}

/// Texts can be put together in any grouping.
pub proof fn lemma_regroup(first: Seq<char>, second: Seq<char>, third: Seq<char>)
    ensures
        first + second + third == first + (second + third),
{
    assert(first + second + third =~= first + (second + third));
}

/// A text starts with what its first part starts with.
pub broadcast proof fn lemma_starts_with(start: Seq<char>, left: Seq<char>, right: Seq<char>)
    ensures
        start.is_prefix_of(left) ==> #[trigger] start.is_prefix_of(left + right),
{
    if start.is_prefix_of(left) {
        assert((left + right).subrange(0, start.len() as int) =~= left.subrange(
            0,
            start.len() as int,
        ));
    }
}

/// A text starts with itself.
pub broadcast proof fn lemma_starts_with_itself(start: Seq<char>, s: Seq<char>)
    ensures
        start == s ==> #[trigger] start.is_prefix_of(s),
{
    if start == s {
        assert(s.subrange(0, s.len() as int) =~= s);
    }
}

/// A text ends in its second part.
pub proof fn lemma_ends_in(left: Seq<char>, right: Seq<char>)
    ensures
        right.is_suffix_of(left + right),
{
    let s = left + right;
    assert(s.subrange(s.len() - right.len(), s.len() as int) =~= right);
}

/// What follows the first of five texts can be put together beforehand.
pub proof fn lemma_five_parts(
    first: Seq<char>,
    second: Seq<char>,
    third: Seq<char>,
    fourth: Seq<char>,
    fifth: Seq<char>,
)
    ensures
        first + second + third + fourth + fifth == first + (second + third + fourth + fifth),
{
    assert(first + second + third + fourth + fifth =~= first + (second + third + fourth + fifth));
}

/// Whether `first` and then `second` stand in `s`, the one ending before the other starts.
pub open spec fn stands_before(first: Seq<char>, second: Seq<char>, s: Seq<char>) -> bool {
    exists|lead: Seq<char>, tail: Seq<char>|
        s == #[trigger] (lead + tail) && occurs_in(first, lead) && occurs_in(second, tail)
}

/// What stands in the first of two texts stands before what stands in the second.
pub broadcast proof fn lemma_stands_across(
    first: Seq<char>,
    second: Seq<char>,
    left: Seq<char>,
    right: Seq<char>,
)
    ensures
        occurs_in(first, left) && occurs_in(second, right) ==> #[trigger] stands_before(
            first,
            second,
            left + right,
        ),
{
}

/// What stands in order in the first of two texts does so in the two together.
pub broadcast proof fn lemma_stands_in_first(
    first: Seq<char>,
    second: Seq<char>,
    left: Seq<char>,
    right: Seq<char>,
)
    ensures
        stands_before(first, second, left) ==> #[trigger] stands_before(
            first,
            second,
            left + right,
        ),
{
    if stands_before(first, second, left) {
        let (lead, tail) = choose|lead: Seq<char>, tail: Seq<char>|
            left == #[trigger] (lead + tail) && occurs_in(first, lead) && occurs_in(second, tail);
        lemma_regroup(lead, tail, right);
        lemma_occurs_in_first(second, tail, right);
        assert(left + right == lead + (tail + right));
    }
}

pub broadcast group group_order {
    lemma_occurs_in_first,
    lemma_occurs_in_second,
    lemma_occurs_in_itself,
    lemma_stands_across,
    lemma_stands_in_first,
}

/// A list of strings stands for their characters, one for one and in order, and an optional
/// string for its characters where there is one.
pub proof fn strings_stand_for_their_characters(strings: Seq<String>, s: String, i: int)
    requires
        0 <= i < strings.len(),
    ensures
        texts(strings).len() == strings.len(),
        texts(strings)[i] == strings[i]@,
        optional_text(Some(s)) == Some(s@),
        optional_text(None) is None,
{
}

} // verus!
