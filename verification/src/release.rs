//! The source line that stamps a release tag into the binary as its update identity.

use vstd::prelude::*;

verus! {

/// A text as a Rust string literal, as std's `Debug` writes it.
pub uninterp spec fn quoted(s: Seq<char>) -> Seq<char>;

/// `<str as std::fmt::Debug>::fmt`, through `format!("{:?}")`: the text in double quotes, with
/// what cannot stand in a literal escaped. The result is a function of the text alone; which
/// characters are escaped, and how, is left to std.
#[verifier::external_body]
fn quote(s: &str) -> (literal: String)
    ensures
        literal@ == quoted(s@),
{
    format!("{:?}", s)
}

/// The declaration that carries a tag, given the tag as a literal.
pub open spec fn declaration(literal: Option<Seq<char>>) -> Seq<char> {
    match literal {
        Some(shown) => "pub const RELEASE: Option<&str> = Some("@ + shown + ");"@,
        None => "pub const RELEASE: Option<&str> = None;"@,
    }
}

/// The literal of a tag; an empty tag counts as none.
pub open spec fn tag_literal(tag: Option<&str>) -> Option<Seq<char>> {
    match tag {
        Some(found) => if found@.len() == 0 {
            None
        } else {
            Some(quoted(found@))
        },
        None => None,
    }
}

/// The declaration that carries a tag, given the tag as a literal.
pub fn declare_release(literal: Option<&str>) -> (source: String)
    ensures
        source@ == declaration(
            match literal {
                Some(shown) => Some(shown@),
                None => None,
            },
        ),
{
    match literal {
        Some(shown) => {
            let mut source = "pub const RELEASE: Option<&str> = Some(".to_owned();
            source.append(shown);
            source.append(");");
            source
        },
        None => "pub const RELEASE: Option<&str> = None;".to_owned(),
    }
}

/// The declaration that carries a tag; one without a tag where it is missing or empty.
pub fn release_declaration(tag: Option<&str>) -> (source: String)
    ensures
        source@ == declaration(tag_literal(tag)),
{
    match tag {
        Some(found) => {
            if found.is_empty() {
                declare_release(None)
            } else {
                let literal = quote(found);
                declare_release(Some(literal.as_str()))
            }
        },
        None => declare_release(None),
    }
}

/// A tag that is not empty stands in the declaration as its literal, and a missing or an empty
/// one declares none.
pub proof fn declarations_carry_the_tag(tag: &str)
    ensures
        tag@.len() > 0 ==> declaration(tag_literal(Some(tag)))
            == "pub const RELEASE: Option<&str> = Some("@ + quoted(tag@) + ");"@,
        tag@.len() == 0 ==> declaration(tag_literal(Some(tag)))
            == "pub const RELEASE: Option<&str> = None;"@,
        declaration(tag_literal(None)) == "pub const RELEASE: Option<&str> = None;"@,
{
}

} // verus!
