//! Escaping of text for HTML, done by the text-processing crate.

use vstd::prelude::*;

verus! {

/// What stands for a character in HTML text: `<`, `>` and `&` become
/// entities, every other character stays.
pub open spec fn html_char(c: char) -> Seq<char> {
    if c == '<' {
        "&lt;"@
    } else if c == '>' {
        "&gt;"@
    } else if c == '&' {
        "&amp;"@
    } else {
        seq![c]
    }
}

/// A text with `<`, `>` and `&` replaced by their entities.
pub open spec fn html_escaped(s: Seq<char>) -> Seq<char>
    decreases s.len(),
{
    if s.len() == 0 {
        Seq::empty()
    } else {
        html_escaped(s.drop_last()) + html_char(s.last())
    }
}

/// A text with every double quote replaced by a single one.
pub open spec fn quotes_escaped(s: Seq<char>) -> Seq<char> {
    s.map_values(|c: char| if c == '"' { '\'' } else { c })
}

/// What stands for a character once non-breaking spaces are marked up: each
/// of the three kinds of non-breaking space becomes a `span` of its own
/// class, every other character stays.
pub open spec fn nb_space_char(c: char) -> Seq<char> {
    if c == '\u{202F}' {
        "<span class = \"nnbsp\">&#8201;</span>"@
    } else if c == '\u{2002}' {
        "<span class = \"ensp\">&#8194;</span>"@
    } else if c == '\u{A0}' {
        "<span class = \"nbsp\">&#160;</span>"@
    } else {
        seq![c]
    }
}

/// A text with its non-breaking spaces marked up.
pub open spec fn nb_spaces_escaped(s: Seq<char>) -> Seq<char>
    decreases s.len(),
{
    if s.len() == 0 {
        Seq::empty()
    } else {
        nb_spaces_escaped(s.drop_last()) + nb_space_char(s.last())
    }
}

/// Calls `crowbook_text_processing::escape::html`, which replaces each `<`,
/// `>` and `&` of its input by `&lt;`, `&gt;` and `&amp;` and copies every
/// other character.
#[verifier::external_body]
pub(crate) fn html(input: &str) -> (output: String)
    ensures
        output@ == html_escaped(input@),
{
    crowbook_text_processing::escape::html(input).into_owned()
}

/// Calls `crowbook_text_processing::escape::quotes`, which replaces each
/// double quote of its input by a single quote and copies every other
/// character.
#[verifier::external_body]
pub(crate) fn quotes(input: &str) -> (output: String)
    ensures
        output@ == quotes_escaped(input@),
{
    crowbook_text_processing::escape::quotes(input).into_owned()
}

/// Calls `crowbook_text_processing::escape::nb_spaces`, which replaces each
/// non-breaking space of its input (narrow, demi em or plain) by a `span`
/// that holds a numeric entity, and copies every other character.
#[verifier::external_body]
#[allow(deprecated)]
pub(crate) fn nb_spaces(input: String) -> (output: String)
    ensures
        output@ == nb_spaces_escaped(input@),
{
    crowbook_text_processing::escape::nb_spaces(input).into_owned()
}

} // verus!
