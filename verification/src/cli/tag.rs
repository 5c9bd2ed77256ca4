//! Tags of signed events.

use vstd::prelude::*;
use vstd::string::*;

use crate::cli::error::{CliError, cli_fault_of};
use crate::text::{Id, hyphenated, id_text};

verus! {

/// `nostr::Tag`: a list of strings, as it stands in a signed event.
#[verifier::external_type_specification]
#[verifier::external_body]
pub struct ExTag(nostr::Tag);

/// `nostr::event::tag::Error`: why a list of strings makes no tag.
#[verifier::external_type_specification]
#[verifier::external_body]
pub struct ExTagError(nostr::event::tag::Error);

/// The strings that a tag holds.
pub uninterp spec fn tag_parts(tag: nostr::Tag) -> Seq<Seq<char>>;

/// The strings of a tag with a name and one value.
pub open spec fn named(name: Seq<char>, value: Seq<char>) -> Seq<Seq<char>> {
    seq![name, value]
}

/// The strings that each tag of a list holds.
pub open spec fn tags_parts(tags: Seq<nostr::Tag>) -> Seq<Seq<Seq<char>>> {
    tags.map_values(|tag: nostr::Tag| tag_parts(tag))
}

/// Calls `nostr::Tag::parse` on a name and a value. It fails on an empty list only, so it
/// gives a tag that holds the two strings as they are.
#[verifier::external_body]
fn parse_tag(name: &str, value: &str) -> (result: Result<nostr::Tag, nostr::event::tag::Error>)
    ensures
        result is Ok,
        tag_parts(result->Ok_0) == named(name@, value@),
{
    nostr::Tag::parse([name, value])
}

/// A tag that holds a name and an identifier.
pub fn exact_tag(name: &str, value: Id) -> (result: Result<nostr::Tag, CliError>)
    ensures
        cli_fault_of(result) is None,
        tag_parts(result->Ok_0) == named(name@, hyphenated(value)),
{
    match parse_tag(name, id_text(value).as_str()) {
        Ok(tag) => Ok(tag),
        Err(_) => Err(CliError::Other(name.to_owned().concat(" tag error"))),
    }
}

} // verus!
