//! Centralized UI localization.
//!
//! Four catalogs back the interface, reached through two lookup paths. The id-keyed path
//! resolves a stable id: in Chinese against the metadata catalog first and then the typed
//! one, in English against the English one. The English-keyed path looks the English
//! literal itself up, and only in Chinese. Both take the English literal as an explicit
//! fallback, so a missing entry renders English instead of blank.

use crate::text;
use crate::text::{ascii_lower_text, chars_of, same_text, trim_text};
use std::borrow::Cow;
use std::collections::BTreeMap;
use vstd::prelude::*;

verus! {

/// What `serde_json::from_str` makes of a text that is to hold a JSON object of strings:
/// the map, or the message of its error.
pub uninterp spec fn json_string_map(source: Seq<char>) -> Result<
    Map<Seq<char>, Seq<char>>,
    Seq<char>,
>;

/// `serde_json::from_str` into a `BTreeMap<String, String>`, handed on as a list of pairs.
/// The contract names the outcome: the map that the pairs spell, or the error's message.
#[verifier::external_body]
fn parse_string_map(source: &str) -> (parsed: Result<Vec<(String, String)>, String>)
    ensures
        match parsed {
            Ok(entries) => json_string_map(source@) == Ok::<_, Seq<char>>(entry_map(entries@)),
            Err(message) => json_string_map(source@) == Err::<Map<Seq<char>, Seq<char>>, _>(
                message@,
            ),
        },
{
    serde_json::from_str::<BTreeMap<String, String>>(source)
        .map(|members| members.into_iter().collect())
        .map_err(|error| error.to_string())
}

/// The map that a list of pairs spells; of two pairs with one key the later counts.
pub open spec fn entry_map(entries: Seq<(String, String)>) -> Map<Seq<char>, Seq<char>>
    decreases entries.len(),
{
    if entries.len() == 0 {
        Map::empty()
    } else {
        entry_map(entries.drop_last()).insert(entries.last().0@, entries.last().1@)
    }
}

/// A catalog: display texts by key.
#[derive(Debug)]
pub struct Catalog {
    entries: Vec<(String, String)>,
}

impl View for Catalog {
    type V = Map<Seq<char>, Seq<char>>;

    closed spec fn view(&self) -> Map<Seq<char>, Seq<char>> {
        entry_map(self.entries@)
    }
}

impl Catalog {
    /// The catalog of the given pairs; of two with one key the later counts.
    pub fn from_entries(entries: Vec<(String, String)>) -> (catalog: Catalog)
        ensures
            catalog@ == entry_map(entries@),
    {
        Catalog { entries }
    }

    /// The pairs the catalog was made of.
    pub fn entries(&self) -> (entries: &Vec<(String, String)>)
        ensures
            entry_map(entries@) == self@,
    {
        &self.entries
    }

    /// The text under `key`, if any.
    pub fn get<'c>(&'c self, key: &str) -> (found: Option<&'c str>)
        ensures
            match found {
                Some(text) => self@.contains_key(key@) && text@ == self@[key@],
                None => !self@.contains_key(key@),
            },
    {
        let wanted = key.to_owned();
        let mut left: usize = self.entries.len();
        assert(self.entries@.take(left as int) =~= self.entries@);
        while left > 0
            invariant
                left <= self.entries@.len(),
                wanted@ == key@,
                entry_map(self.entries@.take(left as int)).contains_key(key@) == self@.contains_key(
                    key@,
                ),
                self@.contains_key(key@) ==> entry_map(self.entries@.take(left as int))[key@]
                    == self@[key@],
            decreases left,
        {
            proof {
                let seen = self.entries@.take(left as int);
                assert(seen.drop_last() =~= self.entries@.take(left - 1));
                assert(seen.last() == self.entries@[left - 1]);
            }
            left = left - 1;
            if self.entries[left].0 == wanted {
                return Some(self.entries[left].1.as_str());
            }
        }
        None
    }
}

/// The catalog of a JSON object of strings. `name` only labels the error.
pub fn parse_catalog(name: &str, source: &str) -> (parsed: Result<Catalog, String>)
    ensures
        match json_string_map(source@) {
            Ok(map) => parsed matches Ok(catalog) && catalog@ == map,
            Err(error) => parsed matches Err(message) && message@ == invalid_catalog(name@, error),
        },
{
    match parse_string_map(source) {
        Ok(entries) => Ok(Catalog::from_entries(entries)),
        Err(error) => Err(invalid_catalog_text(name, error.as_str())),
    }
}

/// The complaint about a catalog that does not parse.
pub open spec fn invalid_catalog(name: Seq<char>, error: Seq<char>) -> Seq<char> {
    "invalid built-in "@ + name + " locale catalog: "@ + error
}

/// The complaint about a catalog that does not parse.
pub fn invalid_catalog_text(name: &str, error: &str) -> (message: String)
    ensures
        message@ == invalid_catalog(name@, error@),
{
    let mut message = "invalid built-in ".to_owned();
    message.append(name);
    message.append(" locale catalog: ");
    message.append(error);
    message
}

/// UI locales shipped by the build.
#[derive(Clone, Copy, Debug, PartialEq, Eq, Structural, Hash)]
pub enum UiLocale {
    EnUs,
    ZhCn,
}

impl Default for UiLocale {
    fn default() -> (locale: UiLocale)
        ensures
            locale == UiLocale::EnUs,
    {
        UiLocale::EnUs
    }
}

/// Whether `c` ends the primary subtag of a BCP-47 or POSIX locale name.
pub open spec fn ends_subtag(c: char) -> bool {
    c == '-' || c == '_' || c == '.' || c == '@'
}

/// The characters in front of the first one that ends a subtag.
pub open spec fn leading_subtag(name: Seq<char>) -> Seq<char>
    decreases name.len(),
{
    if name.len() == 0 || ends_subtag(name.first()) {
        Seq::empty()
    } else {
        seq![name.first()] + leading_subtag(name.drop_first())
    }
}

/// The primary subtag of a locale name, without surrounding white space, in lower case.
pub open spec fn primary_subtag(raw: Seq<char>) -> Seq<char> {
    text::ascii_lowered(leading_subtag(text::trimmed(raw)))
}

/// The locale that a name selects: by its primary subtag alone.
pub open spec fn locale_of_name(raw: Seq<char>) -> Option<UiLocale> {
    if primary_subtag(raw) == "en"@ {
        Some(UiLocale::EnUs)
    } else if primary_subtag(raw) == "zh"@ {
        Some(UiLocale::ZhCn)
    } else {
        None
    }
}

/// The locale that a configuration value selects; English where it selects none.
pub open spec fn configured_locale(configured: Option<Seq<char>>) -> UiLocale {
    match configured {
        Some(raw) => match locale_of_name(raw) {
            Some(locale) => locale,
            None => UiLocale::EnUs,
        },
        None => UiLocale::EnUs,
    }
}

proof fn lemma_leading_subtag(name: Seq<char>, end: int)
    requires
        0 <= end <= name.len(),
        forall|i: int| 0 <= i < end ==> !ends_subtag(#[trigger] name[i]),
        end < name.len() ==> ends_subtag(name[end]),
    ensures
        leading_subtag(name) == name.take(end),
    decreases name.len(),
{
    if end == 0 {
        assert(name.take(0) =~= Seq::empty());
    } else {
        lemma_leading_subtag(name.drop_first(), end - 1);
        assert(seq![name.first()] + name.drop_first().take(end - 1) =~= name.take(end));
    }
}

impl UiLocale {
    /// Canonicalize common BCP-47 and POSIX spellings.
    pub fn parse(raw: &str) -> (locale: Option<UiLocale>)
        ensures
            locale == locale_of_name(raw@),
    {
        let name = trim_text(raw);
        let chars = chars_of(name);
        let mut end: usize = 0;
        while end < chars.len() && chars[end] != '-' && chars[end] != '_' && chars[end] != '.'
            && chars[end] != '@'
            invariant
                end <= chars.len(),
                chars@ == name@,
                forall|i: int| 0 <= i < end ==> !ends_subtag(#[trigger] name@[i]),
            decreases chars.len() - end,
        {
            end = end + 1;
        }
        proof {
            lemma_leading_subtag(name@, end as int);
        }
        let primary = ascii_lower_text(name.substring_char(0, end));
        assert(name@.subrange(0, end as int) =~= name@.take(end as int));
        if same_text(primary.as_str(), "en") {
            Some(UiLocale::EnUs)
        } else if same_text(primary.as_str(), "zh") {
            Some(UiLocale::ZhCn)
        } else {
            None
        }
    }

    /// The locale that the configured value selects. A blank value counts as none, and a
    /// value outside the supported families leaves English in place.
    pub fn from_configured(configured: Option<&str>) -> (locale: UiLocale)
        ensures
            locale == configured_locale(
                match configured {
                    Some(raw) => Some(raw@),
                    None => None,
                },
            ),
    {
        match configured {
            Some(raw) => {
                let value = trim_text(raw);
                proof {
                    text::trimming_is_idempotent(raw@);
                }
                if value.is_empty() {
                    proof {
                        reveal_strlit("en");
                        reveal_strlit("zh");
                        assert(primary_subtag(raw@).len() == 0);
                    }
                    return UiLocale::EnUs;
                }
                match UiLocale::parse(value) {
                    Some(locale) => locale,
                    None => UiLocale::EnUs,
                }
            },
            None => UiLocale::EnUs,
        }
    }
}

/// The four built-in catalogs.
#[derive(Debug)]
pub struct Catalogs {
    /// Typed English catalog, by id.
    pub en_us: Catalog,
    /// Typed Chinese catalog, by id; its keys are those of `en_us`.
    pub zh_cn: Catalog,
    /// Large Chinese catalog, by id; it shares no key with `zh_cn`.
    pub zh_cn_metadata: Catalog,
    /// Chinese catalog by the English text itself.
    pub en_to_zh: Catalog,
}

/// Immutable localization context resolved once at the composition root.
#[derive(Clone, Copy, Debug)]
pub struct LocaleContext<'c> {
    locale: UiLocale,
    catalogs: &'c Catalogs,
}

/// The text under `key` of a map, if any.
pub open spec fn entry(map: Map<Seq<char>, Seq<char>>, key: Seq<char>) -> Option<Seq<char>> {
    if map.contains_key(key) {
        Some(map[key])
    } else {
        None
    }
}

/// `found`, or `fallback` where nothing was found.
pub open spec fn or_fallback(found: Option<Seq<char>>, fallback: Seq<char>) -> Seq<char> {
    match found {
        Some(text) => text,
        None => fallback,
    }
}

/// The characters of each argument's name and value.
pub open spec fn argument_views(arguments: Seq<(&str, &str)>) -> Seq<(Seq<char>, Seq<char>)> {
    arguments.map_values(|argument: (&str, &str)| (argument.0@, argument.1@))
}

/// The value of the first argument named `name`.
pub open spec fn argument_value(
    arguments: Seq<(Seq<char>, Seq<char>)>,
    name: Seq<char>,
) -> Option<Seq<char>>
    decreases arguments.len(),
{
    if arguments.len() == 0 {
        None
    } else if arguments.first().0 == name {
        Some(arguments.first().1)
    } else {
        argument_value(arguments.drop_first(), name)
    }
}

/// The position of the first `c` at or after `from`; the length of `s` where there is none.
pub open spec fn position_from(s: Seq<char>, c: char, from: int) -> int
    decreases s.len() - from,
{
    if from >= s.len() || s[from] == c {
        from
    } else {
        position_from(s, c, from + 1)
    }
}

/// `template` with each `{name}` that names an argument replaced by the argument's value.
///
/// The scan goes on behind the replaced text, so a value is never scanned itself. A name
/// that no argument has stays as it is, and so does everything from an unclosed brace on.
pub open spec fn expanded(
    template: Seq<char>,
    arguments: Seq<(Seq<char>, Seq<char>)>,
) -> Seq<char>
    decreases template.len(),
{
    let open = position_from(template, '{', 0);
    let close = position_from(template, '}', open + 1);
    if 0 <= open < close < template.len() {
        let name = template.subrange(open + 1, close);
        let kept = match argument_value(arguments, name) {
            Some(value) => template.take(open) + value,
            None => template.take(close + 1),
        };
        kept + expanded(template.skip(close + 1), arguments)
    } else {
        template
    }
}

proof fn lemma_position_from(s: Seq<char>, c: char, from: int, at: int)
    requires
        0 <= from <= at <= s.len(),
        forall|i: int| from <= i < at ==> #[trigger] s[i] != c,
        at < s.len() ==> s[at] == c,
    ensures
        position_from(s, c, from) == at,
    decreases at - from,
{
    if from < at {
        lemma_position_from(s, c, from + 1, at);
    }
}

/// A position that is found lies in the text and holds the character.
pub proof fn lemma_position_bounds(s: Seq<char>, c: char, from: int)
    requires
        0 <= from <= s.len(),
    ensures
        from <= position_from(s, c, from) <= s.len(),
        position_from(s, c, from) < s.len() ==> s[position_from(s, c, from)] == c,
    decreases s.len() - from,
{
    if from < s.len() && s[from] != c {
        lemma_position_bounds(s, c, from + 1);
    }
}

/// The position of the first `c` at or after `from`; the length where there is none.
fn find_from(chars: &Vec<char>, c: char, from: usize) -> (at: usize)
    requires
        from <= chars@.len(),
    ensures
        from <= at <= chars@.len(),
        at == position_from(chars@, c, from as int),
        at < chars@.len() ==> chars@[at as int] == c,
        forall|i: int| from <= i < at ==> #[trigger] chars@[i] != c,
{
    let mut at: usize = from;
    while at < chars.len() && chars[at] != c
        invariant
            from <= at <= chars@.len(),
            forall|i: int| from <= i < at ==> #[trigger] chars@[i] != c,
        decreases chars@.len() - at,
    {
        at = at + 1;
    }
    proof {
        lemma_position_from(chars@, c, from as int, at as int);
    }
    at
}

/// The value of the first argument named `name`.
fn find_argument<'a>(arguments: &[(&'a str, &'a str)], name: &str) -> (found: Option<&'a str>)
    ensures
        match found {
            Some(value) => argument_value(argument_views(arguments@), name@) == Some(value@),
            None => argument_value(argument_views(arguments@), name@) is None,
        },
{
    let ghost views = argument_views(arguments@);
    assert(views.skip(0) =~= views);
    let mut i: usize = 0;
    while i < arguments.len()
        invariant
            i <= arguments@.len(),
            views == argument_views(arguments@),
            argument_value(views, name@) == argument_value(views.skip(i as int), name@),
        decreases arguments@.len() - i,
    {
        assert(views.skip(i as int).drop_first() =~= views.skip(i + 1));
        if same_text(arguments[i].0, name) {
            return Some(arguments[i].1);
        }
        i = i + 1;
    }
    None
}

/// Shared `{placeholder}` substitution.
pub fn expand(template: &str, arguments: &[(&str, &str)]) -> (output: String)
    ensures
        output@ == expanded(template@, argument_views(arguments@)),
{
    let chars = chars_of(template);
    let ghost args = argument_views(arguments@);
    let mut output = String::new();
    let mut done: usize = 0;
    assert(template@.skip(0) =~= template@);
    loop
        invariant
            chars@ == template@,
            done <= chars@.len(),
            args == argument_views(arguments@),
            output@ + expanded(template@.skip(done as int), args) == expanded(template@, args),
        decreases chars@.len() - done,
    {
        let ghost rest = template@.skip(done as int);
        let open = find_from(&chars, '{', done);
        proof {
            lemma_position_from(rest, '{', 0, open - done);
        }
        if open == chars.len() {
            output.append(template.substring_char(done, chars.len()));
            assert(template@.subrange(done as int, chars@.len() as int) =~= rest);
            return output;
        }
        let close = find_from(&chars, '}', open + 1);
        proof {
            lemma_position_from(rest, '}', open - done + 1, close - done);
        }
        if close == chars.len() {
            output.append(template.substring_char(done, chars.len()));
            assert(template@.subrange(done as int, chars@.len() as int) =~= rest);
            return output;
        }
        let name = template.substring_char(open + 1, close);
        let ghost before = output@;
        assert(name@ =~= rest.subrange(open - done + 1, close - done));
        assert(rest.skip(close - done + 1) =~= template@.skip(close + 1));
        match find_argument(arguments, name) {
            Some(value) => {
                output.append(template.substring_char(done, open));
                output.append(value);
                assert(template@.subrange(done as int, open as int) =~= rest.take(open - done));
                assert(output@ =~= before + (rest.take(open - done) + value@));
            },
            None => {
                output.append(template.substring_char(done, close + 1));
                assert(template@.subrange(done as int, close + 1) =~= rest.take(close - done + 1));
            },
        }
        done = close + 1;
        assert(output@ + expanded(template@.skip(done as int), args) =~= before + expanded(
            rest,
            args,
        ));
    }
}

impl<'c> LocaleContext<'c> {
    /// The locale that the context serves.
    pub closed spec fn chosen(self) -> UiLocale {
        self.locale
    }

    /// The catalogs that the context draws on.
    pub closed spec fn source(self) -> Catalogs {
        *self.catalogs
    }

    /// Catalog value for `id` in the active locale, if any.
    pub open spec fn looked_up(self, id: Seq<char>) -> Option<Seq<char>> {
        if self.chosen() == UiLocale::ZhCn {
            match entry(self.source().zh_cn_metadata@, id) {
                Some(text) => Some(text),
                None => entry(self.source().zh_cn@, id),
            }
        } else {
            entry(self.source().en_us@, id)
        }
    }

    /// English-keyed catalog value, if any; under English there is nothing to look up.
    pub open spec fn looked_up_english(self, english: Seq<char>) -> Option<Seq<char>> {
        if self.chosen() == UiLocale::ZhCn {
            entry(self.source().en_to_zh@, english)
        } else {
            None
        }
    }

    /// The text shown for an id, with its English fallback.
    pub open spec fn named(self, id: Seq<char>, english: Seq<char>) -> Seq<char> {
        or_fallback(self.looked_up(id), english)
    }

    /// The text shown for an English literal.
    pub open spec fn translated(self, english: Seq<char>) -> Seq<char> {
        or_fallback(self.looked_up_english(english), english)
    }

    /// The template shown for an id, expanded.
    pub open spec fn formatted(
        self,
        id: Seq<char>,
        english: Seq<char>,
        arguments: Seq<(Seq<char>, Seq<char>)>,
    ) -> Seq<char> {
        expanded(self.named(id, english), arguments)
    }

    /// The template shown for an English literal, expanded.
    pub open spec fn translated_format(
        self,
        english: Seq<char>,
        arguments: Seq<(Seq<char>, Seq<char>)>,
    ) -> Seq<char> {
        expanded(self.translated(english), arguments)
    }

    /// A context that serves `locale` out of `catalogs`.
    pub fn new(locale: UiLocale, catalogs: &'c Catalogs) -> (context: LocaleContext<'c>)
        ensures
            context.chosen() == locale,
            context.source() == *catalogs,
    {
        LocaleContext { locale, catalogs }
    }

    pub fn locale(&self) -> (locale: UiLocale)
        ensures
            locale == self.chosen(),
    {
        self.locale
    }

    /// True when UI copy should come from the Chinese catalogs.
    pub fn is_zh_cn(&self) -> (chinese: bool)
        ensures
            chinese == (self.chosen() == UiLocale::ZhCn),
    {
        match self.locale {
            UiLocale::ZhCn => true,
            UiLocale::EnUs => false,
        }
    }

    /// Catalog value for `id` in the active locale, if any.
    fn lookup(&self, id: &str) -> (found: Option<&'c str>)
        ensures
            match found {
                Some(text) => self.looked_up(id@) == Some(text@),
                None => self.looked_up(id@) is None,
            },
    {
        if self.is_zh_cn() {
            match self.catalogs.zh_cn_metadata.get(id) {
                Some(text) => Some(text),
                None => self.catalogs.zh_cn.get(id),
            }
        } else {
            self.catalogs.en_us.get(id)
        }
    }

    /// English-keyed catalog value, if any.
    fn en_text(&self, english: &str) -> (found: Option<&'c str>)
        ensures
            match found {
                Some(text) => self.looked_up_english(english@) == Some(text@),
                None => self.looked_up_english(english@) is None,
            },
    {
        if self.is_zh_cn() {
            self.catalogs.en_to_zh.get(english)
        } else {
            None
        }
    }

    /// Localized display label for a stable setting key. The key itself remains the
    /// canonical identifier and is never translated.
    pub fn setting_label<'a>(&self, setting_key: &str, english: &'a str) -> (text: Cow<'a, str>)
        where 'c: 'a
        ensures
            text@ == self.named(setting_id(setting_key@, ".label"@), english@),
    {
        let id = setting_id_text(setting_key, ".label");
        self.named_text(id.as_str(), english)
    }

    /// Localized help text for a stable setting key.
    pub fn setting_description<'a>(&self, setting_key: &str, english: &'a str) -> (text: Cow<
        'a,
        str,
    >) where 'c: 'a
        ensures
            text@ == self.named(setting_id(setting_key@, ".description"@), english@),
    {
        let id = setting_id_text(setting_key, ".description");
        self.named_text(id.as_str(), english)
    }

    /// Localized display label for a setting choice. `canonical` is still the persisted
    /// value; unknown runtime values fall back to their original display text.
    pub fn setting_choice_label<'a>(
        &self,
        setting_key: &str,
        canonical: &str,
        english: &'a str,
    ) -> (text: Cow<'a, str>) where 'c: 'a
        ensures
            text@ == self.named(choice_id(setting_key@, canonical@, ".label"@), english@),
    {
        let id = choice_id_text(setting_key, canonical, ".label");
        self.named_text(id.as_str(), english)
    }

    /// Localized explanatory text for a setting choice.
    pub fn setting_choice_description<'a>(
        &self,
        setting_key: &str,
        canonical: &str,
        english: &'a str,
    ) -> (text: Cow<'a, str>) where 'c: 'a
        ensures
            text@ == self.named(choice_id(setting_key@, canonical@, ".description"@), english@),
    {
        let id = choice_id_text(setting_key, canonical, ".description");
        self.named_text(id.as_str(), english)
    }

    /// Look up a catalog entry while retaining an explicit English fallback at the call
    /// site; falls back to `english` when the id is absent from every catalog.
    pub fn named_text<'a>(&self, id: &str, english: &'a str) -> (text: Cow<'a, str>) where 'c: 'a
        ensures
            text@ == self.named(id@, english@),
    {
        match self.lookup(id) {
            Some(found) => Cow::Borrowed(found),
            None => Cow::Borrowed(english),
        }
    }

    /// Variant for labels stored in structures that borrow them for as long as the
    /// catalogs live.
    pub fn named_static_text(&self, id: &str, english: &'c str) -> (text: &'c str)
        ensures
            text@ == self.named(id@, english@),
    {
        match self.lookup(id) {
            Some(found) => found,
            None => english,
        }
    }

    /// Format a metadata-backed template using named placeholders such as `{provider}`.
    ///
    /// Unknown arguments are ignored. Missing arguments remain visible in the returned
    /// string. A bare `{}` stays literal.
    pub fn format_named(
        &self,
        id: &str,
        english: &str,
        arguments: &[(&str, &str)],
    ) -> (text: String)
        ensures
            text@ == self.formatted(id@, english@, argument_views(arguments@)),
    {
        match self.lookup(id) {
            Some(found) => expand(found, arguments),
            None => expand(english, arguments),
        }
    }

    /// English-keyed lookup: a literal that the catalog lacks stays as it is.
    pub fn tr<'a>(&self, english: &'a str) -> (text: Cow<'a, str>) where 'c: 'a
        ensures
            text@ == self.translated(english@),
    {
        match self.en_text(english) {
            Some(found) => Cow::Borrowed(found),
            None => Cow::Borrowed(english),
        }
    }

    /// Variant of [`Self::tr`] for labels stored in borrowed structures.
    pub fn tr_static(&self, english: &'c str) -> (text: &'c str)
        ensures
            text@ == self.translated(english@),
    {
        match self.en_text(english) {
            Some(found) => found,
            None => english,
        }
    }

    /// English-keyed format with named `{placeholder}` substitution.
    /// Unknown arguments are ignored; missing ones stay visible.
    pub fn tr_format(&self, english: &str, arguments: &[(&str, &str)]) -> (text: String)
        ensures
            text@ == self.translated_format(english@, argument_views(arguments@)),
    {
        match self.en_text(english) {
            Some(found) => expand(found, arguments),
            None => expand(english, arguments),
        }
    }

    /// [`Self::format_named`] with one argument.
    pub(crate) fn format_one(&self, id: &str, english: &str, name: &str, value: &str) -> (text:
        String)
        ensures
            text@ == self.formatted(id@, english@, seq![(name@, value@)]),
    {
        let arguments: [(&str, &str); 1] = [(name, value)];
        assert(argument_views(arguments@) =~= seq![(name@, value@)]);
        self.format_named(id, english, &arguments)
    }

    /// [`Self::tr_format`] with one argument.
    pub(crate) fn tr_format_one(&self, english: &str, name: &str, value: &str) -> (text: String)
        ensures
            text@ == self.translated_format(english@, seq![(name@, value@)]),
    {
        let arguments: [(&str, &str); 1] = [(name, value)];
        assert(argument_views(arguments@) =~= seq![(name@, value@)]);
        self.tr_format(english, &arguments)
    }

    /// [`Self::tr_format`] with two arguments.
    pub(crate) fn tr_format_two(
        &self,
        english: &str,
        first: (&str, &str),
        second: (&str, &str),
    ) -> (text: String)
        ensures
            text@ == self.translated_format(
                english@,
                seq![(first.0@, first.1@), (second.0@, second.1@)],
            ),
    {
        let arguments: [(&str, &str); 2] = [first, second];
        assert(argument_views(arguments@) =~= seq![
            (first.0@, first.1@),
            (second.0@, second.1@),
        ]);
        self.tr_format(english, &arguments)
    }

    /// [`Self::format_named`] with two arguments.
    pub(crate) fn format_two(
        &self,
        id: &str,
        english: &str,
        first: (&str, &str),
        second: (&str, &str),
    ) -> (text: String)
        ensures
            text@ == self.formatted(
                id@,
                english@,
                seq![(first.0@, first.1@), (second.0@, second.1@)],
            ),
    {
        let arguments: [(&str, &str); 2] = [first, second];
        assert(argument_views(arguments@) =~= seq![
            (first.0@, first.1@),
            (second.0@, second.1@),
        ]);
        self.format_named(id, english, &arguments)
    }
}

/// The id of a text about a setting.
pub open spec fn setting_id(setting_key: Seq<char>, ending: Seq<char>) -> Seq<char> {
    "settings.setting."@ + setting_key + ending
}

/// The setting under which the catalogs file the choices of `setting_key`.
pub open spec fn choice_catalog_key(setting_key: Seq<char>) -> Seq<char> {
    if setting_key == "auto_dark_theme"@ || setting_key == "auto_light_theme"@ {
        "theme"@
    } else if setting_key == "fork_secondary_model"@ {
        "default_model"@
    } else {
        setting_key
    }
}

/// The id of a text about a choice of a setting; the empty choice is filed as `_none`.
pub open spec fn choice_id(
    setting_key: Seq<char>,
    canonical: Seq<char>,
    ending: Seq<char>,
) -> Seq<char> {
    let choice = if canonical.len() == 0 {
        "_none"@
    } else {
        canonical
    };
    "settings.setting."@ + choice_catalog_key(setting_key) + ".choice."@ + choice + ending
}

fn setting_id_text(setting_key: &str, ending: &str) -> (id: String)
    ensures
        id@ == setting_id(setting_key@, ending@),
{
    let mut id = "settings.setting.".to_owned();
    id.append(setting_key);
    id.append(ending);
    id
}

fn choice_id_text(setting_key: &str, canonical: &str, ending: &str) -> (id: String)
    ensures
        id@ == choice_id(setting_key@, canonical@, ending@),
{
    let mut id = "settings.setting.".to_owned();
    id.append(setting_choice_catalog_key(setting_key));
    id.append(".choice.");
    id.append(
        if canonical.is_empty() {
            "_none"
        } else {
            canonical
        },
    );
    id.append(ending);
    id
}

/// The setting under which the catalogs file the choices of `setting_key`.
pub fn setting_choice_catalog_key(setting_key: &str) -> (key: &str)
    ensures
        key@ == choice_catalog_key(setting_key@),
{
    if same_text(setting_key, "auto_dark_theme") || same_text(setting_key, "auto_light_theme") {
        "theme"
    } else if same_text(setting_key, "fork_secondary_model") {
        "default_model"
    } else {
        setting_key
    }
}

/// The place that holds the context of a process.
#[derive(Debug)]
pub struct ContextSlot<'c> {
    installed: Option<LocaleContext<'c>>,
    catalogs: &'c Catalogs,
}

impl<'c> ContextSlot<'c> {
    /// The context that was published, if any.
    pub closed spec fn published(self) -> Option<LocaleContext<'c>> {
        self.installed
    }

    /// The catalogs behind the context that is served before any was published.
    pub closed spec fn source(self) -> Catalogs {
        *self.catalogs
    }

    /// Whether `context` is what the slot serves: the published context, or English.
    pub open spec fn serves(self, context: LocaleContext<'c>) -> bool {
        match self.published() {
            Some(published) => context == published,
            None => context.chosen() == UiLocale::EnUs && context.source() == self.source(),
        }
    }

    /// A slot with nothing published.
    pub fn new(catalogs: &'c Catalogs) -> (slot: ContextSlot<'c>)
        ensures
            slot.published() is None,
            slot.source() == *catalogs,
    {
        ContextSlot { installed: None, catalogs }
    }
}

/// What is published once `context` was offered to a slot that held `before`.
pub open spec fn published_after<'c>(
    before: Option<LocaleContext<'c>>,
    context: LocaleContext<'c>,
) -> LocaleContext<'c> {
    match before {
        Some(published) => published,
        None => context,
    }
}

/// Publish the process-wide locale context. Only the first call wins; later calls are
/// ignored. Returns `true` when this call installed the context.
pub fn init<'c>(slot: &mut ContextSlot<'c>, context: LocaleContext<'c>) -> (installed: bool)
    ensures
        installed == old(slot).published() is None,
        final(slot).published() == Some(published_after(old(slot).published(), context)),
        final(slot).source() == old(slot).source(),
{
    match slot.installed {
        Some(_) => false,
        None => {
            slot.installed = Some(context);
            true
        },
    }
}

/// Resolve the locale from the configured value and publish it process-wide. Values outside
/// the supported families fall back to English. Returns `true` when this call installed it.
pub fn init_locale_from_config<'c>(slot: &mut ContextSlot<'c>, configured: Option<&str>) -> (installed:
    bool)
    ensures
        installed == old(slot).published() is None,
        final(slot).source() == old(slot).source(),
        match old(slot).published() {
            Some(published) => final(slot).published() == Some(published),
            None => final(slot).published() is Some && final(slot).published()->0.chosen()
                == configured_locale(
                match configured {
                    Some(raw) => Some(raw@),
                    None => None,
                },
            ) && final(slot).published()->0.source() == old(slot).source(),
        },
{
    let context = LocaleContext::new(UiLocale::from_configured(configured), slot.catalogs);
    init(slot, context)
}

/// Process-wide localization context. Falls back to English when [`init`] was never called.
pub fn ctx<'c>(slot: &ContextSlot<'c>) -> (context: LocaleContext<'c>)
    ensures
        slot.serves(context),
{
    match slot.installed {
        Some(context) => context,
        None => english(slot.catalogs),
    }
}

/// The English context, for a surface that must not follow the UI locale.
pub fn english<'c>(catalogs: &'c Catalogs) -> (context: LocaleContext<'c>)
    ensures
        context.chosen() == UiLocale::EnUs,
        context.source() == *catalogs,
{
    LocaleContext::new(UiLocale::EnUs, catalogs)
}

/// What stands between the braces of a template, by the scan that expands it.
pub open spec fn brace_names(template: Seq<char>) -> Set<Seq<char>>
    decreases template.len(),
{
    let open = position_from(template, '{', 0);
    let close = position_from(template, '}', open + 1);
    if 0 <= open < close < template.len() {
        brace_names(template.skip(close + 1)).insert(template.subrange(open + 1, close))
    } else {
        Set::empty()
    }
}

/// Whether `c` may stand in the name of a placeholder.
pub open spec fn is_name_char(c: char) -> bool {
    ('a' <= c <= 'z') || ('A' <= c <= 'Z') || ('0' <= c <= '9') || c == '_'
}

/// Whether `name` names a placeholder: letters, digits and underscores, at least one.
pub open spec fn is_placeholder_name(name: Seq<char>) -> bool {
    name.len() > 0 && forall|i: int| 0 <= i < name.len() ==> is_name_char(#[trigger] name[i])
}

/// The placeholders of a template.
pub open spec fn placeholder_names(template: Seq<char>) -> Set<Seq<char>> {
    brace_names(template).filter(|name: Seq<char>| is_placeholder_name(name))
}

fn names_placeholder(name: &str) -> (named: bool)
    ensures
        named == is_placeholder_name(name@),
{
    let chars = chars_of(name);
    let mut i: usize = 0;
    while i < chars.len()
        invariant
            i <= chars@.len(),
            chars@ == name@,
            forall|j: int| 0 <= j < i ==> is_name_char(#[trigger] name@[j]),
        decreases chars@.len() - i,
    {
        let c = chars[i];
        let accepted = ('a' <= c && c <= 'z') || ('A' <= c && c <= 'Z') || ('0' <= c && c <= '9')
            || c == '_';
        if !accepted {
            assert(!is_name_char(name@[i as int]));
            return false;
        }
        i = i + 1;
    }
    !name.is_empty()
}

fn holds_text(names: &Vec<String>, name: &str) -> (held: bool)
    ensures
        held == text::texts(names@).contains(name@),
{
    let mut i: usize = 0;
    while i < names.len()
        invariant
            i <= names@.len(),
            forall|j: int| 0 <= j < i ==> text::texts(names@)[j] != name@,
        decreases names@.len() - i,
    {
        if same_text(names[i].as_str(), name) {
            assert(text::texts(names@)[i as int] == name@);
            return true;
        }
        i = i + 1;
    }
    false
}

/// The placeholders of a template, each once.
pub fn placeholders(template: &str) -> (names: Vec<String>)
    ensures
        text::texts(names@).to_set() == placeholder_names(template@),
        text::texts(names@).no_duplicates(),
{
    let chars = chars_of(template);
    let mut names: Vec<String> = Vec::new();
    let mut done: usize = 0;
    assert(template@.skip(0) =~= template@);
    assert(text::texts(names@).to_set() =~= Set::empty());
    loop
        invariant
            chars@ == template@,
            done <= chars@.len(),
            text::texts(names@).no_duplicates(),
            text::texts(names@).to_set().union(placeholder_names(template@.skip(done as int)))
                == placeholder_names(template@),
        decreases chars@.len() - done,
    {
        let ghost rest = template@.skip(done as int);
        let open = find_from(&chars, '{', done);
        proof {
            lemma_position_from(rest, '{', 0, open - done);
        }
        if open == chars.len() {
            assert(text::texts(names@).to_set() =~= placeholder_names(template@));
            return names;
        }
        let close = find_from(&chars, '}', open + 1);
        proof {
            lemma_position_from(rest, '}', open - done + 1, close - done);
        }
        if close == chars.len() {
            assert(text::texts(names@).to_set() =~= placeholder_names(template@));
            return names;
        }
        let name = template.substring_char(open + 1, close);
        assert(name@ =~= rest.subrange(open - done + 1, close - done));
        assert(rest.skip(close - done + 1) =~= template@.skip(close + 1));
        let ghost before = names@;
        if names_placeholder(name) && !holds_text(&names, name) {
            names.push(name.to_owned());
            assert(text::texts(names@) =~= text::texts(before).push(name@));
            assert(text::texts(names@).to_set() =~= text::texts(before).to_set().insert(name@)) by {
                assert(text::texts(names@)[before.len() as int] == name@);
                assert forall|t: Seq<char>| text::texts(before).contains(t) implies text::texts(
                    names@,
                ).contains(t) by {
                    let k = choose|k: int| 0 <= k < before.len() && text::texts(before)[k] == t;
                    assert(text::texts(names@)[k] == t);
                }
            }
        }
        done = close + 1;
        assert(text::texts(names@).to_set().union(placeholder_names(template@.skip(done as int)))
            =~= text::texts(before).to_set().union(placeholder_names(rest)));
    }
}

/// The one metadata entry that is blank on purpose: English pluralizes a count noun with a
/// suffix, Chinese does not.
pub const BLANK_METADATA_ID: &'static str = "turn.watcher.plural";

/// Whether the typed catalogs have the same keys.
pub open spec fn keys_match(catalogs: Catalogs) -> bool {
    catalogs.en_us@.dom() == catalogs.zh_cn@.dom()
}

/// Whether an id has the same placeholders in both typed catalogs, where it stands in both.
pub open spec fn has_matching_placeholders(catalogs: Catalogs, id: Seq<char>) -> bool {
    catalogs.en_us@.contains_key(id) && catalogs.zh_cn@.contains_key(id) ==> placeholder_names(
        catalogs.en_us@[id],
    ) == placeholder_names(catalogs.zh_cn@[id])
}

/// Whether every id has the same placeholders in both typed catalogs.
pub open spec fn placeholders_match(catalogs: Catalogs) -> bool {
    forall|id: Seq<char>| #[trigger] has_matching_placeholders(catalogs, id)
}

/// Whether no id stands in both Chinese id catalogs.
pub open spec fn ids_are_disjoint(catalogs: Catalogs) -> bool {
    catalogs.zh_cn@.dom().disjoint(catalogs.zh_cn_metadata@.dom())
}

/// Whether a text holds nothing but white space.
pub open spec fn is_blank(s: Seq<char>) -> bool {
    text::trimmed(s).len() == 0
}

/// Whether a metadata entry is as it should be: its id is not blank, and its text is blank
/// exactly by design.
pub open spec fn is_usable_entry(id: Seq<char>, shown: Seq<char>) -> bool {
    &&& !is_blank(id)
    &&& if id == BLANK_METADATA_ID@ {
        shown.len() == 0
    } else {
        !is_blank(shown)
    }
}

/// Whether a metadata catalog has entries and each is as it should be.
pub open spec fn metadata_is_usable(metadata: Map<Seq<char>, Seq<char>>) -> bool {
    &&& metadata.dom() != Set::<Seq<char>>::empty()
    &&& forall|id: Seq<char>| #[trigger]
        metadata.contains_key(id) ==> is_usable_entry(id, metadata[id])
}

/// Whether the built-in catalogs fit together.
pub open spec fn are_sound(catalogs: Catalogs) -> bool {
    &&& keys_match(catalogs)
    &&& placeholders_match(catalogs)
    &&& ids_are_disjoint(catalogs)
    &&& metadata_is_usable(catalogs.zh_cn_metadata@)
}

proof fn lemma_entry_keys(entries: Seq<(String, String)>, key: Seq<char>)
    ensures
        entry_map(entries).contains_key(key) <==> exists|i: int|
            0 <= i < entries.len() && (#[trigger] entries[i]).0@ == key,
    decreases entries.len(),
{
    if entries.len() > 0 {
        let rest = entries.drop_last();
        lemma_entry_keys(rest, key);
        if entry_map(rest).contains_key(key) {
            let i = choose|i: int| 0 <= i < rest.len() && (#[trigger] rest[i]).0@ == key;
            assert(entries[i].0@ == key);
        }
        if entries.last().0@ == key {
            assert(entries[entries.len() - 1].0@ == key);
        }
        if exists|i: int| 0 <= i < entries.len() && (#[trigger] entries[i]).0@ == key {
            let i = choose|i: int| 0 <= i < entries.len() && (#[trigger] entries[i]).0@ == key;
            if i < rest.len() {
                assert(rest[i].0@ == key);
            }
        }
    }
}

/// Whether every key of `left` is a key of `right`.
fn keys_lie_in(left: &Catalog, right: &Catalog) -> (inside: bool)
    ensures
        inside == left@.dom().subset_of(right@.dom()),
{
    let mut i: usize = 0;
    while i < left.entries.len()
        invariant
            i <= left.entries@.len(),
            forall|j: int|
                0 <= j < i ==> right@.contains_key((#[trigger] left.entries@[j]).0@),
        decreases left.entries@.len() - i,
    {
        let id = left.entries[i].0.as_str();
        if right.get(id).is_none() {
            proof {
                lemma_entry_keys(left.entries@, id@);
                assert(left.entries@[i as int].0@ == id@);
                assert(left@.dom().contains(id@));
            }
            return false;
        }
        i = i + 1;
    }
    assert forall|id: Seq<char>| left@.dom().contains(id) implies right@.dom().contains(id) by {
        lemma_entry_keys(left.entries@, id);
    }
    true
}

/// Whether no key of `left` is a key of `right`.
fn keys_lie_apart(left: &Catalog, right: &Catalog) -> (apart: bool)
    ensures
        apart == left@.dom().disjoint(right@.dom()),
{
    let mut i: usize = 0;
    while i < left.entries.len()
        invariant
            i <= left.entries@.len(),
            forall|j: int|
                0 <= j < i ==> !right@.contains_key((#[trigger] left.entries@[j]).0@),
        decreases left.entries@.len() - i,
    {
        let id = left.entries[i].0.as_str();
        if right.get(id).is_some() {
            proof {
                lemma_entry_keys(left.entries@, id@);
                assert(left.entries@[i as int].0@ == id@);
                assert(left@.dom().contains(id@) && right@.dom().contains(id@));
            }
            return false;
        }
        i = i + 1;
    }
    assert forall|id: Seq<char>| left@.dom().contains(id) implies !right@.dom().contains(id) by {
        lemma_entry_keys(left.entries@, id);
    }
    true
}

/// Whether every text of `left` is one of `right`.
fn texts_lie_in(left: &Vec<String>, right: &Vec<String>) -> (inside: bool)
    ensures
        inside == text::texts(left@).to_set().subset_of(text::texts(right@).to_set()),
{
    let mut i: usize = 0;
    while i < left.len()
        invariant
            i <= left@.len(),
            forall|j: int|
                0 <= j < i ==> text::texts(right@).contains(#[trigger] text::texts(left@)[j]),
        decreases left@.len() - i,
    {
        if !holds_text(right, left[i].as_str()) {
            assert(text::texts(left@)[i as int] == left@[i as int]@);
            assert(text::texts(left@).to_set().contains(left@[i as int]@));
            return false;
        }
        assert(text::texts(left@)[i as int] == left@[i as int]@);
        i = i + 1;
    }
    assert forall|t: Seq<char>| text::texts(left@).to_set().contains(t) implies text::texts(
        right@,
    ).to_set().contains(t) by {
        let j = choose|j: int| 0 <= j < text::texts(left@).len() && text::texts(left@)[j] == t;
        assert(text::texts(right@).contains(text::texts(left@)[j]));
    }
    true
}

/// Whether two templates have the same placeholders.
pub fn same_placeholders(left: &str, right: &str) -> (same: bool)
    ensures
        same == (placeholder_names(left@) == placeholder_names(right@)),
{
    let of_left = placeholders(left);
    let of_right = placeholders(right);
    let same = texts_lie_in(&of_left, &of_right) && texts_lie_in(&of_right, &of_left);
    proof {
        let these = placeholder_names(left@);
        let those = placeholder_names(right@);
        if same {
            assert(these =~= those);
        }
    }
    same
}

fn all_placeholders_match(catalogs: &Catalogs) -> (all: bool)
    ensures
        all == placeholders_match(*catalogs),
{
    let english = &catalogs.en_us;
    let mut i: usize = 0;
    while i < english.entries.len()
        invariant
            i <= english.entries@.len(),
            *english == catalogs.en_us,
            forall|j: int|
                0 <= j < i ==> has_matching_placeholders(
                    *catalogs,
                    (#[trigger] english.entries@[j]).0@,
                ),
        decreases english.entries@.len() - i,
    {
        let id = english.entries[i].0.as_str();
        match (english.get(id), catalogs.zh_cn.get(id)) {
            (Some(left), Some(right)) => {
                if !same_placeholders(left, right) {
                    assert(!has_matching_placeholders(*catalogs, id@));
                    return false;
                }
            },
            _ => {},
        }
        assert(has_matching_placeholders(*catalogs, english.entries@[i as int].0@));
        i = i + 1;
    }
    assert forall|id: Seq<char>| #[trigger] has_matching_placeholders(*catalogs, id) by {
        if catalogs.en_us@.contains_key(id) {
            lemma_entry_keys(english.entries@, id);
            let j = choose|j: int|
                0 <= j < english.entries@.len() && (#[trigger] english.entries@[j]).0@ == id;
            assert(has_matching_placeholders(*catalogs, english.entries@[j].0@));
        }
    }
    true
}

fn entry_is_usable(id: &str, shown: &str) -> (usable: bool)
    ensures
        usable == is_usable_entry(id@, shown@),
{
    if trim_text(id).is_empty() {
        return false;
    }
    if same_text(id, BLANK_METADATA_ID) {
        shown.is_empty()
    } else {
        !trim_text(shown).is_empty()
    }
}

fn all_metadata_usable(metadata: &Catalog) -> (usable: bool)
    ensures
        usable == metadata_is_usable(metadata@),
{
    if metadata.entries.len() == 0 {
        assert(metadata@.dom() =~= Set::<Seq<char>>::empty());
        return false;
    }
    let mut i: usize = 0;
    while i < metadata.entries.len()
        invariant
            i <= metadata.entries@.len(),
            forall|j: int|
                0 <= j < i ==> is_usable_entry(
                    (#[trigger] metadata.entries@[j]).0@,
                    metadata@[metadata.entries@[j].0@],
                ),
        decreases metadata.entries@.len() - i,
    {
        let id = metadata.entries[i].0.as_str();
        proof {
            lemma_entry_keys(metadata.entries@, id@);
            assert(metadata.entries@[i as int].0@ == id@);
            assert(metadata@.contains_key(id@));
        }
        match metadata.get(id) {
            Some(shown) => {
                if !entry_is_usable(id, shown) {
                    return false;
                }
            },
            None => {},
        }
        i = i + 1;
    }
    proof {
        lemma_entry_keys(metadata.entries@, metadata.entries@[0].0@);
        assert(metadata.entries@[0].0@ == metadata.entries@[0].0@);
        assert(metadata@.dom().contains(metadata.entries@[0].0@));
        assert forall|id: Seq<char>| #[trigger] metadata@.contains_key(id) implies is_usable_entry(
            id,
            metadata@[id],
        ) by {
            lemma_entry_keys(metadata.entries@, id);
            let j = choose|j: int|
                0 <= j < metadata.entries@.len() && (#[trigger] metadata.entries@[j]).0@ == id;
            assert(is_usable_entry(metadata.entries@[j].0@, metadata@[metadata.entries@[j].0@]));
        }
    }
    true
}

/// Whether the built-in catalogs fit together: the typed ones have the same keys and
/// placeholders, the two Chinese id catalogs share no id, and no metadata entry is blank but
/// the one that is meant to be.
pub fn catalogs_are_sound(catalogs: &Catalogs) -> (sound: bool)
    ensures
        sound == are_sound(*catalogs),
{
    let sound = keys_lie_in(&catalogs.en_us, &catalogs.zh_cn) && keys_lie_in(
        &catalogs.zh_cn,
        &catalogs.en_us,
    ) && all_placeholders_match(catalogs) && keys_lie_apart(
        &catalogs.zh_cn,
        &catalogs.zh_cn_metadata,
    ) && all_metadata_usable(&catalogs.zh_cn_metadata);
    proof {
        if catalogs.en_us@.dom().subset_of(catalogs.zh_cn@.dom())
            && catalogs.zh_cn@.dom().subset_of(catalogs.en_us@.dom()) {
            assert(catalogs.en_us@.dom() =~= catalogs.zh_cn@.dom());
        }
    }
    sound
}

/// With sound catalogs the two locales know the same typed ids, and a text that English finds
/// Chinese finds too, with the same placeholders.
pub proof fn sound_catalogs_agree(english: LocaleContext, chinese: LocaleContext, id: Seq<char>)
    requires
        english.chosen() == UiLocale::EnUs,
        chinese.chosen() == UiLocale::ZhCn,
        english.source() == chinese.source(),
        are_sound(chinese.source()),
    ensures
        chinese.source().en_us@.contains_key(id) <==> chinese.source().zh_cn@.contains_key(id),
        english.looked_up(id) matches Some(left) ==> chinese.looked_up(id) is Some
            && placeholder_names(chinese.looked_up(id)->0) == placeholder_names(left),
{
    let catalogs = chinese.source();
    assert(catalogs.en_us@.dom().contains(id) == catalogs.zh_cn@.dom().contains(id));
    assert(has_matching_placeholders(catalogs, id));
    if catalogs.zh_cn@.contains_key(id) {
        typed_entries_are_never_hidden(chinese, id);
    }
}

/// With sound catalogs every typed entry is found: the metadata, which is asked first, never
/// hides one.
pub proof fn sound_catalogs_hide_nothing(chinese: LocaleContext, id: Seq<char>)
    requires
        chinese.chosen() == UiLocale::ZhCn,
        are_sound(chinese.source()),
        chinese.source().zh_cn@.contains_key(id),
    ensures
        chinese.looked_up(id) == Some(chinese.source().zh_cn@[id]),
{
    typed_entries_are_never_hidden(chinese, id);
}

/// With sound catalogs no metadata id is blank, and what it shows is blank only by design.
pub proof fn metadata_is_blank_only_by_design(chinese: LocaleContext, id: Seq<char>)
    requires
        chinese.chosen() == UiLocale::ZhCn,
        are_sound(chinese.source()),
        chinese.source().zh_cn_metadata@.contains_key(id),
    ensures
        !is_blank(id),
        chinese.looked_up(id) is Some,
        id == BLANK_METADATA_ID@ ==> chinese.looked_up(id)->0.len() == 0,
        id != BLANK_METADATA_ID@ ==> !is_blank(chinese.looked_up(id)->0),
{
    let metadata = chinese.source().zh_cn_metadata@;
    assert(is_usable_entry(id, metadata[id]));
}

/// An English context shows every English-keyed literal as it is.
pub proof fn english_is_never_translated(context: LocaleContext, english: Seq<char>)
    requires
        context.chosen() == UiLocale::EnUs,
    ensures
        context.translated(english) == english,
{
}

/// A missing entry renders the English original, on both lookup paths.
pub proof fn missing_entries_render_english(
    context: LocaleContext,
    id: Seq<char>,
    english: Seq<char>,
)
    ensures
        context.looked_up(id) is None ==> context.named(id, english) == english,
        context.looked_up_english(english) is None ==> context.translated(english) == english,
{
}

/// Where the typed catalogs have the same keys, an id that Chinese lacks English lacks too.
pub proof fn chinese_needs_no_english_lookup(
    chinese: LocaleContext,
    english: LocaleContext,
    id: Seq<char>,
)
    requires
        chinese.chosen() == UiLocale::ZhCn,
        english.chosen() == UiLocale::EnUs,
        chinese.source() == english.source(),
        chinese.source().zh_cn@.dom() == chinese.source().en_us@.dom(),
    ensures
        chinese.looked_up(id) is None ==> english.looked_up(id) is None,
{
    assert(chinese.source().zh_cn@.dom().contains(id) == english.source().en_us@.dom().contains(
        id,
    ));
}

/// Where the two Chinese id catalogs share no key, it does not matter which is asked first.
pub proof fn disjoint_catalogs_have_no_order(context: LocaleContext, id: Seq<char>)
    requires
        context.chosen() == UiLocale::ZhCn,
        context.source().zh_cn@.dom().disjoint(context.source().zh_cn_metadata@.dom()),
    ensures
        context.looked_up(id) == (match entry(context.source().zh_cn@, id) {
            Some(text) => Some(text),
            None => entry(context.source().zh_cn_metadata@, id),
        }),
{
    let typed = context.source().zh_cn@;
    let metadata = context.source().zh_cn_metadata@;
    assert(typed.dom().contains(id) ==> !metadata.dom().contains(id));
}

/// Without arguments a template stays as it is: a missing argument remains visible.
pub proof fn missing_arguments_stay_visible(template: Seq<char>)
    ensures
        expanded(template, Seq::empty()) == template,
    decreases template.len(),
{
    let open = position_from(template, '{', 0);
    let close = position_from(template, '}', open + 1);
    if 0 <= open < close < template.len() {
        missing_arguments_stay_visible(template.skip(close + 1));
        assert(template.take(close + 1) + template.skip(close + 1) =~= template);
    }
}

/// Only the arguments that a template names matter: any other is ignored.
pub proof fn unnamed_arguments_are_ignored(
    template: Seq<char>,
    left: Seq<(Seq<char>, Seq<char>)>,
    right: Seq<(Seq<char>, Seq<char>)>,
)
    requires
        forall|name: Seq<char>| #[trigger]
            brace_names(template).contains(name) ==> argument_value(left, name) == argument_value(
                right,
                name,
            ),
    ensures
        expanded(template, left) == expanded(template, right),
    decreases template.len(),
{
    let open = position_from(template, '{', 0);
    let close = position_from(template, '}', open + 1);
    if 0 <= open < close < template.len() {
        assert(brace_names(template).contains(template.subrange(open + 1, close)));
        assert forall|name: Seq<char>| #[trigger]
            brace_names(template.skip(close + 1)).contains(name) implies argument_value(left, name)
            == argument_value(right, name) by {
            assert(brace_names(template).contains(name));
        }
        unnamed_arguments_are_ignored(template.skip(close + 1), left, right);
    }
}

/// What a `{name}` becomes: the value of the first argument of that name, or itself.
pub open spec fn substituted(name: Seq<char>, arguments: Seq<(Seq<char>, Seq<char>)>) -> Seq<char> {
    match argument_value(arguments, name) {
        Some(value) => value,
        None => seq!['{'] + name + seq!['}'],
    }
}

/// A `{name}` is substituted once and the scan continues behind it: a value goes in verbatim,
/// whatever placeholders it seems to hold, and a name without an argument stays literal.
pub proof fn expansion_goes_on_behind_a_name(
    lead: Seq<char>,
    name: Seq<char>,
    rest: Seq<char>,
    arguments: Seq<(Seq<char>, Seq<char>)>,
)
    requires
        !lead.contains('{'),
        !name.contains('}'),
    ensures
        expanded(lead + seq!['{'] + name + seq!['}'] + rest, arguments) == lead + substituted(
            name,
            arguments,
        ) + expanded(rest, arguments),
{
    let template = lead + seq!['{'] + name + seq!['}'] + rest;
    let open = lead.len() as int;
    let close = open + 1 + name.len();
    assert forall|i: int| 0 <= i < open implies #[trigger] template[i] != '{' by {
        assert(template[i] == lead[i]);
    }
    assert forall|i: int| open + 1 <= i < close implies #[trigger] template[i] != '}' by {
        assert(template[i] == name[i - open - 1]);
    }
    lemma_position_from(template, '{', 0, open);
    lemma_position_from(template, '}', open + 1, close);
    assert(template.subrange(open + 1, close) =~= name);
    assert(template.take(open) =~= lead);
    assert(template.take(close + 1) =~= lead + (seq!['{'] + name + seq!['}']));
    assert(template.skip(close + 1) =~= rest);
}

/// A template without an opening brace, or without a closing one behind the first opening one,
/// stays as it is.
pub proof fn templates_without_a_closed_brace_stay(
    template: Seq<char>,
    arguments: Seq<(Seq<char>, Seq<char>)>,
)
    requires
        forall|i: int, j: int|
            0 <= i < j < template.len() && #[trigger] template[i] == '{' ==> #[trigger] template[j]
                != '}',
    ensures
        expanded(template, arguments) == template,
{
    let open = position_from(template, '{', 0);
    lemma_position_bounds(template, '{', 0);
    if open < template.len() {
        lemma_position_bounds(template, '}', open + 1);
    }
}

/// Where the two Chinese id catalogs share no key, asking the metadata first never hides a
/// typed entry.
pub proof fn typed_entries_are_never_hidden(context: LocaleContext, id: Seq<char>)
    requires
        context.chosen() == UiLocale::ZhCn,
        context.source().zh_cn@.dom().disjoint(context.source().zh_cn_metadata@.dom()),
        context.source().zh_cn@.contains_key(id),
    ensures
        context.looked_up(id) == Some(context.source().zh_cn@[id]),
{
    disjoint_catalogs_have_no_order(context, id);
}

/// The first published context is served from then on, whatever is offered later.
pub proof fn first_publication_wins<'c>(first: LocaleContext<'c>, later: LocaleContext<'c>)
    ensures
        published_after(Some(published_after(None, first)), later) == first,
{
}

/// A locale is selected by the primary subtag alone: region, script and encoding do not count.
pub proof fn only_the_primary_subtag_counts(left: Seq<char>, right: Seq<char>)
    requires
        primary_subtag(left) == primary_subtag(right),
    ensures
        locale_of_name(left) == locale_of_name(right),
{
}

/// No value, and any value outside the two families, keeps the English interface.
pub proof fn unsupported_values_keep_english(raw: Seq<char>)
    requires
        primary_subtag(raw) != "zh"@,
    ensures
        configured_locale(None) == UiLocale::EnUs,
        configured_locale(Some(raw)) == UiLocale::EnUs,
{
}

/// Whether a name starts with the two letters of a language, small or capital, and ends there
/// or goes on with a hyphen, an underscore, a full stop or an at sign.
pub open spec fn starts_with_language(
    name: Seq<char>,
    small_first: char,
    capital_first: char,
    small_second: char,
    capital_second: char,
) -> bool {
    &&& name.len() >= 2
    &&& name[0] == small_first || name[0] == capital_first
    &&& name[1] == small_second || name[1] == capital_second
    &&& name.len() == 2 || name[2] == '-' || name[2] == '_' || name[2] == '.' || name[2] == '@'
}

proof fn lemma_two_letter_subtag(name: Seq<char>, first: char, second: char)
    requires
        'a' <= first <= 'z',
        'a' <= second <= 'z',
    ensures
        text::ascii_lowered(leading_subtag(name)) == seq![first, second] <==> (name.len() >= 2 && (
        name[0] == first || name[0] as int + 32 == first as int) && (name[1] == second || name[1]
            as int + 32 == second as int) && (name.len() == 2 || ends_subtag(name[2]))),
{
    let subtag = leading_subtag(name);
    let lowered = text::ascii_lowered(subtag);
    lemma_leading_subtag_end(name);
    if lowered == seq![first, second] {
        assert(lowered.len() == subtag.len());
        assert(lowered[0] == first);
        assert(lowered[1] == second);
        text::lower_case_changes_capitals_only(subtag, 0);
        text::lower_case_changes_capitals_only(subtag, 1);
        assert(name[0] == subtag[0]);
        assert(name[1] == subtag[1]);
    }
    if name.len() >= 2 && (name[0] == first || name[0] as int + 32 == first as int) && (name[1]
        == second || name[1] as int + 32 == second as int) && (name.len() == 2 || ends_subtag(
        name[2],
    )) {
        lemma_leading_subtag(name, 2);
        text::lower_case_changes_capitals_only(subtag, 0);
        text::lower_case_changes_capitals_only(subtag, 1);
        assert(lowered =~= seq![first, second]);
    }
}

proof fn lemma_leading_subtag_end(name: Seq<char>)
    ensures
        leading_subtag(name).len() <= name.len(),
        leading_subtag(name) == name.take(leading_subtag(name).len() as int),
        leading_subtag(name).len() < name.len() ==> ends_subtag(
            name[leading_subtag(name).len() as int],
        ),
    decreases name.len(),
{
    if name.len() == 0 || ends_subtag(name.first()) {
        assert(name.take(0) =~= Seq::empty());
    } else {
        let rest = name.drop_first();
        lemma_leading_subtag_end(rest);
        let length = leading_subtag(rest).len() as int;
        assert(seq![name.first()] + rest.take(length) =~= name.take(length + 1));
    }
}

/// A name selects Chinese exactly where, white space around it aside, it is `zh`, in any case,
/// followed by nothing or by a separator and anything; and English likewise for `en`. Any other
/// name selects nothing, and a value that selects nothing leaves English in place.
pub proof fn two_letters_select_the_locale(raw: Seq<char>)
    ensures
        locale_of_name(raw) == Some(UiLocale::ZhCn) <==> starts_with_language(
            text::trimmed(raw),
            'z',
            'Z',
            'h',
            'H',
        ),
        locale_of_name(raw) == Some(UiLocale::EnUs) <==> starts_with_language(
            text::trimmed(raw),
            'e',
            'E',
            'n',
            'N',
        ),
        configured_locale(Some(raw)) == UiLocale::ZhCn <==> starts_with_language(
            text::trimmed(raw),
            'z',
            'Z',
            'h',
            'H',
        ),
        configured_locale(None) == UiLocale::EnUs,
{
    reveal_strlit("en");
    reveal_strlit("zh");
    assert("en"@ =~= seq!['e', 'n']);
    assert("zh"@ =~= seq!['z', 'h']);
    assert("en"@[0] != "zh"@[0]);
    lemma_two_letter_subtag(text::trimmed(raw), 'e', 'n');
    lemma_two_letter_subtag(text::trimmed(raw), 'z', 'h');
}

/// White space around a name does not count, and neither does what follows a separator.
pub proof fn only_the_leading_letters_count(
    lead: Seq<char>,
    first: char,
    second: char,
    separator: char,
    rest: Seq<char>,
    tail: Seq<char>,
)
    requires
        text::all_white(lead),
        text::all_white(tail),
        separator == '-' || separator == '_' || separator == '.' || separator == '@',
        !text::is_white_space(first),
        !text::is_white_space(second),
        rest.len() > 0 ==> !text::is_white_space(rest.last()),
    ensures
        locale_of_name(lead + (seq![first, second, separator] + rest) + tail) == locale_of_name(
            seq![first, second],
        ),
        locale_of_name(lead + seq![first, second] + tail) == locale_of_name(seq![first, second]),
{
    let bare = seq![first, second];
    let long = seq![first, second, separator] + rest;
    text::trimming_takes_the_ends(lead, long, tail);
    text::trimming_takes_the_ends(lead, bare, tail);
    text::trimming_takes_the_ends(Seq::empty(), bare, Seq::empty());
    assert(Seq::<char>::empty() + bare + Seq::<char>::empty() =~= bare);
    two_letters_select_the_locale(lead + long + tail);
    two_letters_select_the_locale(lead + bare + tail);
    two_letters_select_the_locale(bare);
}

/// In Chinese an id shows its metadata, else its typed entry, else the English text that comes
/// with it; in English its English entry, else that text.
pub proof fn ids_show_their_entry(context: LocaleContext, id: Seq<char>, english: Seq<char>)
    ensures
        context.chosen() == UiLocale::ZhCn && context.source().zh_cn_metadata@.contains_key(id)
            ==> context.named(id, english) == context.source().zh_cn_metadata@[id],
        context.chosen() == UiLocale::ZhCn && !context.source().zh_cn_metadata@.contains_key(id)
            && context.source().zh_cn@.contains_key(id) ==> context.named(id, english)
            == context.source().zh_cn@[id],
        context.chosen() == UiLocale::ZhCn && !context.source().zh_cn_metadata@.contains_key(id)
            && !context.source().zh_cn@.contains_key(id) ==> context.named(id, english) == english,
        context.chosen() == UiLocale::EnUs && context.source().en_us@.contains_key(id)
            ==> context.named(id, english) == context.source().en_us@[id],
        context.chosen() == UiLocale::EnUs && !context.source().en_us@.contains_key(id)
            ==> context.named(id, english) == english,
{
}

/// An English literal shows its translation in Chinese where there is one, and itself otherwise.
pub proof fn literals_show_their_translation(context: LocaleContext, english: Seq<char>)
    ensures
        context.chosen() == UiLocale::ZhCn && context.source().en_to_zh@.contains_key(english)
            ==> context.translated(english) == context.source().en_to_zh@[english],
        context.chosen() == UiLocale::EnUs || !context.source().en_to_zh@.contains_key(english)
            ==> context.translated(english) == english,
{
}

/// A text with arguments is the text without them, expanded: where the text holds no brace the
/// arguments change nothing, and without arguments the text is shown as it stands.
pub proof fn formats_are_shown_texts(
    context: LocaleContext,
    id: Seq<char>,
    english: Seq<char>,
    arguments: Seq<(Seq<char>, Seq<char>)>,
)
    ensures
        context.formatted(id, english, Seq::empty()) == context.named(id, english),
        context.translated_format(english, Seq::empty()) == context.translated(english),
        !context.named(id, english).contains('{') ==> context.formatted(id, english, arguments)
            == context.named(id, english),
        !context.translated(english).contains('{') ==> context.translated_format(english, arguments)
            == context.translated(english),
        context.formatted(id, english, arguments) == expanded(
            context.named(id, english),
            arguments,
        ),
        context.translated_format(english, arguments) == expanded(
            context.translated(english),
            arguments,
        ),
{
    missing_arguments_stay_visible(context.named(id, english));
    missing_arguments_stay_visible(context.translated(english));
    if !context.named(id, english).contains('{') {
        templates_without_a_closed_brace_stay(context.named(id, english), arguments);
    }
    if !context.translated(english).contains('{') {
        templates_without_a_closed_brace_stay(context.translated(english), arguments);
    }
}

/// Of several arguments with one name the first counts, and a name that no argument has stands
/// for nothing.
pub proof fn the_first_argument_of_a_name_counts(
    arguments: Seq<(Seq<char>, Seq<char>)>,
    name: Seq<char>,
    i: int,
)
    requires
        0 <= i <= arguments.len(),
        forall|j: int| 0 <= j < i ==> (#[trigger] arguments[j]).0 != name,
        i < arguments.len() ==> arguments[i].0 == name,
    ensures
        i < arguments.len() ==> argument_value(arguments, name) == Some(arguments[i].1),
        i == arguments.len() ==> argument_value(arguments, name) is None,
    decreases arguments.len(),
{
    if arguments.len() > 0 && i > 0 {
        let rest = arguments.drop_first();
        assert forall|j: int| 0 <= j < i - 1 implies (#[trigger] rest[j]).0 != name by {
            assert(arguments[j + 1].0 != name);
        }
        assert(arguments[0].0 != name);
        the_first_argument_of_a_name_counts(rest, name, i - 1);
    }
}

/// A `{name}` with an argument is replaced by the argument's value, and one without stays.
pub proof fn names_are_replaced_by_their_value(
    lead: Seq<char>,
    name: Seq<char>,
    rest: Seq<char>,
    value: Seq<char>,
    other: Seq<char>,
)
    requires
        !lead.contains('{'),
        !name.contains('}'),
        other != name,
    ensures
        expanded(lead + seq!['{'] + name + seq!['}'] + rest, seq![(name, value)]) == lead + value
            + expanded(rest, seq![(name, value)]),
        expanded(lead + seq!['{'] + name + seq!['}'] + rest, seq![(other, value)]) == lead + seq![
            '{',
        ] + name + seq!['}'] + expanded(rest, seq![(other, value)]),
{
    expansion_goes_on_behind_a_name(lead, name, rest, seq![(name, value)]);
    expansion_goes_on_behind_a_name(lead, name, rest, seq![(other, value)]);
    the_first_argument_of_a_name_counts(seq![(name, value)], name, 0);
    the_first_argument_of_a_name_counts(seq![(other, value)], name, 1);
    assert(lead + (seq!['{'] + name + seq!['}']) =~= lead + seq!['{'] + name + seq!['}']);
}

/// A template has the placeholders of its first `{name}` and of what follows it; without a
/// closed brace it has none.
pub proof fn placeholders_stand_in_braces(lead: Seq<char>, name: Seq<char>, rest: Seq<char>)
    requires
        !lead.contains('{'),
        !name.contains('}'),
    ensures
        placeholder_names(lead) == Set::<Seq<char>>::empty(),
        (name.len() > 0 && forall|i: int|
            0 <= i < name.len() ==> (('a' <= #[trigger] name[i] <= 'z') || ('A' <= name[i] <= 'Z')
                || ('0' <= name[i] <= '9') || name[i] == '_')) ==> placeholder_names(
            lead + seq!['{'] + name + seq!['}'] + rest,
        ) == placeholder_names(rest).insert(name),
        !(name.len() > 0 && forall|i: int|
            0 <= i < name.len() ==> (('a' <= #[trigger] name[i] <= 'z') || ('A' <= name[i] <= 'Z')
                || ('0' <= name[i] <= '9') || name[i] == '_')) ==> placeholder_names(
            lead + seq!['{'] + name + seq!['}'] + rest,
        ) == placeholder_names(rest),
{
    let template = lead + seq!['{'] + name + seq!['}'] + rest;
    let open = lead.len() as int;
    let close = open + 1 + name.len();
    assert forall|i: int| 0 <= i < open implies #[trigger] template[i] != '{' by {
        assert(template[i] == lead[i]);
    }
    assert forall|i: int| open + 1 <= i < close implies #[trigger] template[i] != '}' by {
        assert(template[i] == name[i - open - 1]);
    }
    lemma_position_from(template, '{', 0, open);
    lemma_position_from(template, '}', open + 1, close);
    lemma_position_from(lead, '{', 0, open);
    assert(template.subrange(open + 1, close) =~= name);
    assert(template.skip(close + 1) =~= rest);
    assert(placeholder_names(lead) =~= Set::<Seq<char>>::empty());
    let usable = name.len() > 0 && forall|i: int|
        0 <= i < name.len() ==> (('a' <= #[trigger] name[i] <= 'z') || ('A' <= name[i] <= 'Z') || (
        '0' <= name[i] <= '9') || name[i] == '_');
    if usable {
        assert forall|i: int| 0 <= i < name.len() implies is_name_char(#[trigger] name[i]) by {}
        assert(is_placeholder_name(name));
        assert(placeholder_names(template) =~= placeholder_names(rest).insert(name));
    } else {
        if is_placeholder_name(name) {
            assert forall|i: int| 0 <= i < name.len() implies (('a' <= #[trigger] name[i] <= 'z')
                || ('A' <= name[i] <= 'Z') || ('0' <= name[i] <= '9') || name[i] == '_') by {
                assert(is_name_char(name[i]));
            }
        }
        assert(placeholder_names(template) =~= placeholder_names(rest));
    }
}

/// Of two pairs with one key the later counts, and a pair changes no other key.
pub proof fn later_pairs_count(
    entries: Seq<(String, String)>,
    pair: (String, String),
    key: Seq<char>,
)
    ensures
        entry_map(Seq::empty()) == Map::<Seq<char>, Seq<char>>::empty(),
        entry(entry_map(entries.push(pair)), pair.0@) == Some(pair.1@),
        key != pair.0@ ==> entry(entry_map(entries.push(pair)), key) == entry(
            entry_map(entries),
            key,
        ),
{
    assert(entries.push(pair).drop_last() =~= entries);
}

/// Catalogs fit together exactly where the typed ones have the same ids with the same
/// placeholders, the metadata is not empty and shares no id with them, and no metadata entry has
/// a blank id or a blank text, but for the one that is empty by design.
pub proof fn soundness_is_all_of_this(catalogs: Catalogs)
    ensures
        are_sound(catalogs) <==> {
            &&& forall|id: Seq<char>| #[trigger]
                catalogs.en_us@.contains_key(id) <==> catalogs.zh_cn@.contains_key(id)
            &&& forall|id: Seq<char>| #[trigger]
                catalogs.en_us@.contains_key(id) && catalogs.zh_cn@.contains_key(id)
                    ==> placeholder_names(catalogs.en_us@[id]) == placeholder_names(
                    catalogs.zh_cn@[id],
                )
            &&& forall|id: Seq<char>| #[trigger]
                catalogs.zh_cn@.contains_key(id) ==> !catalogs.zh_cn_metadata@.contains_key(id)
            &&& exists|id: Seq<char>| #[trigger] catalogs.zh_cn_metadata@.contains_key(id)
            &&& forall|id: Seq<char>| #[trigger]
                catalogs.zh_cn_metadata@.contains_key(id) ==> !text::all_white(id)
            &&& forall|id: Seq<char>| #[trigger]
                catalogs.zh_cn_metadata@.contains_key(id) && id != "turn.watcher.plural"@
                    ==> !text::all_white(catalogs.zh_cn_metadata@[id])
            &&& catalogs.zh_cn_metadata@.contains_key("turn.watcher.plural"@)
                ==> catalogs.zh_cn_metadata@["turn.watcher.plural"@].len() == 0
        },
{
    let english = catalogs.en_us@;
    let chinese = catalogs.zh_cn@;
    let metadata = catalogs.zh_cn_metadata@;
    assert forall|id: Seq<char>| #[trigger] metadata.contains_key(id) implies is_blank(id)
        == text::all_white(id) && is_blank(metadata[id]) == text::all_white(metadata[id]) by {
        text::only_white_space_trims_to_nothing(id);
        text::only_white_space_trims_to_nothing(metadata[id]);
    }
    if are_sound(catalogs) {
        assert forall|id: Seq<char>| #[trigger] english.contains_key(id) <==> chinese.contains_key(
            id,
        ) by {
            assert(english.dom().contains(id) == chinese.dom().contains(id));
        }
        assert forall|id: Seq<char>| #[trigger]
            english.contains_key(id) && chinese.contains_key(id) implies placeholder_names(
            english[id],
        ) == placeholder_names(chinese[id]) by {
            assert(has_matching_placeholders(catalogs, id));
        }
        assert forall|id: Seq<char>| #[trigger]
            chinese.contains_key(id) implies !metadata.contains_key(id) by {
            assert(chinese.dom().contains(id));
        }
        assert(exists|id: Seq<char>| #[trigger] metadata.contains_key(id)) by {
            if forall|id: Seq<char>| !(#[trigger] metadata.contains_key(id)) {
                assert(metadata.dom() =~= Set::<Seq<char>>::empty());
            }
        }
    } else {
        if (forall|id: Seq<char>| #[trigger]
            english.contains_key(id) <==> chinese.contains_key(id)) {
            assert(english.dom() =~= chinese.dom());
        }
        if (forall|id: Seq<char>| #[trigger]
            chinese.contains_key(id) ==> !metadata.contains_key(id)) {
            assert(ids_are_disjoint(catalogs));
        }
        if (forall|id: Seq<char>| #[trigger]
            english.contains_key(id) && chinese.contains_key(id) ==> placeholder_names(english[id])
                == placeholder_names(chinese[id])) {
            assert(placeholders_match(catalogs));
        }
        if (exists|id: Seq<char>| #[trigger] metadata.contains_key(id)) {
            let id = choose|id: Seq<char>| #[trigger] metadata.contains_key(id);
            assert(metadata.dom().contains(id));
            assert(metadata.dom() != Set::<Seq<char>>::empty());
        }
    }
}

/// The id of a text about a setting is the setting's key in a fixed frame, so the texts of two
/// settings never share an id.
pub proof fn setting_ids_frame_the_key(left: Seq<char>, right: Seq<char>, ending: Seq<char>)
    ensures
        "settings.setting."@.is_prefix_of(setting_id(left, ending)),
        (left + ending).is_suffix_of(setting_id(left, ending)),
        setting_id(left, ending).len() == "settings.setting."@.len() + left.len() + ending.len(),
        setting_id(left, ending) == setting_id(right, ending) ==> left == right,
{
    let lead = "settings.setting."@;
    let id = setting_id(left, ending);
    assert(id.subrange(0, lead.len() as int) =~= lead);
    assert(id.subrange(id.len() - (left + ending).len(), id.len() as int) =~= left + ending);
    if setting_id(left, ending) == setting_id(right, ending) {
        let other = setting_id(right, ending);
        assert(left.len() == right.len());
        assert(id.subrange(lead.len() as int, (lead.len() + left.len()) as int) =~= left);
        assert(other.subrange(lead.len() as int, (lead.len() + left.len()) as int) =~= right);
    }
}

/// The choices of a setting are filed under its own key, but for the two automatic themes, which
/// share those of the theme, and the model of a fork, which shares those of the default model.
pub proof fn choices_are_filed_by_setting(
    setting_key: Seq<char>,
    canonical: Seq<char>,
    ending: Seq<char>,
)
    ensures
        choice_id("auto_dark_theme"@, canonical, ending) == choice_id("theme"@, canonical, ending),
        choice_id("auto_light_theme"@, canonical, ending) == choice_id("theme"@, canonical, ending),
        choice_id("fork_secondary_model"@, canonical, ending) == choice_id(
            "default_model"@,
            canonical,
            ending,
        ),
        setting_key != "auto_dark_theme"@ && setting_key != "auto_light_theme"@ && setting_key
            != "fork_secondary_model"@ && canonical.len() > 0 ==> choice_id(
            setting_key,
            canonical,
            ending,
        ) == setting_id(setting_key, ".choice."@ + canonical + ending),
        choice_id(setting_key, Seq::empty(), ending) == choice_id(setting_key, "_none"@, ending),
{
    reveal_strlit("theme");
    reveal_strlit("auto_dark_theme");
    reveal_strlit("auto_light_theme");
    reveal_strlit("default_model");
    reveal_strlit("fork_secondary_model");
    reveal_strlit("_none");
    assert("theme"@.len() != "auto_dark_theme"@.len());
    assert("theme"@.len() != "auto_light_theme"@.len());
    assert("theme"@.len() != "fork_secondary_model"@.len());
    assert("default_model"@.len() != "auto_dark_theme"@.len());
    assert("default_model"@.len() != "auto_light_theme"@.len());
    assert("default_model"@.len() != "fork_secondary_model"@.len());
    assert("fork_secondary_model"@.len() != "auto_light_theme"@.len());
    assert("fork_secondary_model"@.len() != "auto_dark_theme"@.len());
    if setting_key != "auto_dark_theme"@ && setting_key != "auto_light_theme"@ && setting_key
        != "fork_secondary_model"@ && canonical.len() > 0 {
        assert(choice_id(setting_key, canonical, ending) =~= setting_id(
            setting_key,
            ".choice."@ + canonical + ending,
        ));
    }
}

/// The complaint about a catalog names the catalog and quotes the error.
pub proof fn complaints_name_the_catalog(name: Seq<char>, error: Seq<char>)
    ensures
        ("invalid built-in "@ + name).is_prefix_of(invalid_catalog(name, error)),
        (" locale catalog: "@ + error).is_suffix_of(invalid_catalog(name, error)),
        invalid_catalog(name, error).len() == ("invalid built-in "@ + name).len() + (
        " locale catalog: "@ + error).len(),
{
    let message = invalid_catalog(name, error);
    let lead = "invalid built-in "@ + name;
    let tail = " locale catalog: "@ + error;
    assert(message =~= lead + tail);
    assert(message.subrange(0, lead.len() as int) =~= lead);
    assert(message.subrange(message.len() - tail.len(), message.len() as int) =~= tail);
}

/// Before anything is published English is served, and afterwards what was published.
pub proof fn english_is_served_first<'c>(slot: ContextSlot<'c>, context: LocaleContext<'c>)
    requires
        slot.serves(context),
    ensures
        slot.published() is None ==> context.chosen() == UiLocale::EnUs,
        slot.published() is None ==> context.source() == slot.source(),
        slot.published() is Some ==> context == slot.published()->0,
{
}

/// Arguments stand for their names and values, one for one and in order.
pub proof fn arguments_stand_for_names_and_values(arguments: Seq<(&str, &str)>, i: int)
    requires
        0 <= i < arguments.len(),
    ensures
        argument_views(arguments).len() == arguments.len(),
        argument_views(arguments)[i] == (arguments[i].0@, arguments[i].1@),
{
}

} // verus!
