//! The HTML markup of each kind of token, from its parts already rendered.

use vstd::prelude::*;
use crate::escape::{html_escaped, quotes_escaped};
use crate::text::{decimal, push_decimal, push_signed_decimal, signed_decimal};

verus! {

/// The markup of the paragraph numbered `number` in its chapter; `first`
/// says that it is set apart as the first one.
pub open spec fn paragraph_markup(number: int, first: bool, content: Seq<char>) -> Seq<char> {
    "<p id = \"para-"@ + decimal(number as nat) + "\""@ + if first {
        " class = \"first-para\""@
    } else {
        Seq::empty()
    } + ">"@ + content + "</p>\n"@
}

/// The url of the anchor numbered `link` in the file `filename`.
pub open spec fn anchor_url(filename: Seq<char>, link: int) -> Seq<char> {
    filename + "#link-"@ + decimal(link as nat)
}

/// The markup of the header of a hidden chapter: an anchor and nothing else.
pub open spec fn hidden_title_markup(link: int) -> Seq<char> {
    "<h1 id = \"link-"@ + decimal(link as nat) + "\"></h1>"@
}

/// The markup of the header of a part: its label, then its title.
pub open spec fn part_title_markup(label: Seq<char>, link: int, inner: Seq<char>) -> Seq<char> {
    "<h2 class = \"part\">"@ + label + "</h2>\n<h1 id = \"link-"@ + decimal(link as nat)
        + "\" class = \"part\">"@ + inner + "</h1>\n"@
}

/// The markup of an ordinary header of level `n`.
pub open spec fn title_markup(n: int, link: int, inner: Seq<char>) -> Seq<char> {
    "<h"@ + signed_decimal(n) + " id = \"link-"@ + decimal(link as nat) + "\">"@ + inner + "</h"@
        + signed_decimal(n) + ">\n"@
}

/// The attribute that gives a link its title, if it has one.
pub open spec fn title_attribute(title: Seq<char>) -> Seq<char> {
    if title.len() == 0 {
        Seq::empty()
    } else {
        " title = \""@ + title + "\""@
    }
}

/// The tag that opens a link to `target`.
pub open spec fn link_open(target: Seq<char>, title: Seq<char>) -> Seq<char> {
    "<a href = \""@ + target + "\""@ + title_attribute(title) + ">"@
}

/// The markup of an image; one that stands alone gets a block around it.
pub open spec fn image_markup(
    url: Seq<char>,
    title: Seq<char>,
    alt: Seq<char>,
    standalone: bool,
) -> Seq<char> {
    if standalone {
        "<div class = \"image\">\n  <img src = \""@ + url + "\" title = \""@ + title
            + "\" alt = \""@ + alt + "\" />\n</div>"@
    } else {
        "<img src = \""@ + url + "\" title = \""@ + title + "\" alt = \""@ + alt + "\" />"@
    }
}

/// The markup of a block of code that is not highlighted: marked with its
/// language and escaped if it has one, as it is otherwise.
pub open spec fn plain_code_markup(language: Seq<char>, code: Seq<char>) -> Seq<char> {
    if language.len() == 0 {
        "<pre><code>"@ + code + "</code></pre>\n"@
    } else {
        "<pre><code class = \"language-"@ + language + "\">"@ + html_escaped(code)
            + "</code></pre>\n"@
    }
}

/// The marker of the footnote `number` in the list of notes: its number,
/// with a link back to the text.
pub open spec fn note_marker(number: int) -> Seq<char> {
    "<p class = \"note-number\">\n  <a href = \"#note-source-"@ + decimal(number as nat) + "\">["@
        + decimal(number as nat) + "]</a>\n</p>\n"@
}

/// The body of the footnote `number` in the list of notes.
pub open spec fn note_body(number: int, content: Seq<char>) -> Seq<char> {
    "<aside id = \"note-dest-"@ + decimal(number as nat) + "\">"@ + content + "</aside>"@
}

/// The reference to the footnote `number` in the text.
pub open spec fn note_reference(number: int) -> Seq<char> {
    "<a href = \"#note-dest-"@ + decimal(number as nat) + "\"><sup id = \"note-source-"@ + decimal(
        number as nat,
    ) + "\">["@ + decimal(number as nat) + "]</sup></a>"@
}

/// The markup of text with a grammar error, under the message that explains
/// it.
pub open spec fn grammar_error_markup(message: Seq<char>, content: Seq<char>) -> Seq<char> {
    "<span title = \""@ + quotes_escaped(message) + "\" class = \"grammar-error\">"@ + content
        + "</span>"@
}

/// The markup of a repetition, underlined in its colour.
pub open spec fn repetition_markup(colour: Seq<char>, content: Seq<char>) -> Seq<char> {
    "<span class = \"repetition\" style = \"text-decoration-line: underline; text-decoration-style: wavy; text-decoration-color: "@
        + colour + "\">"@ + content + "</span>"@
}

/// The opening of an ordered list that starts at `start`.
pub open spec fn ordered_list_open(start: int) -> Seq<char> {
    if start == 1 {
        "<ol>\n"@
    } else {
        "<ol start = \""@ + decimal(start as nat) + "\">\n"@
    }
}

/// A footnote displayed beside the text.
pub open spec fn side_note_markup(marker: Seq<char>, body: Seq<char>) -> Seq<char> {
    "<div class = \"sidenote\">\n"@ + marker + " "@ + body + "\n</div>\n"@
}

/// The row of a footnote in the table of notes at the end.
pub open spec fn end_note_markup(marker: Seq<char>, body: Seq<char>) -> Seq<char> {
    "<tr class = \"notes\">\n <td class = \"note-number\">\n  "@ + marker
        + "\n </td>\n <td class = \"note\">\n  "@ + body + "\n  </td>\n</tr>\n"@
}

/// The beginning of the notes at the end, under their title.
pub open spec fn end_notes_open(title: Seq<char>) -> Seq<char> {
    "<div class = \"notes\">\n <h2 class = \"notes\">"@ + title
        + "</h2>\n<table class = \"notes\">\n"@
}

/// Renders the tags of a paragraph around its content.
pub fn paragraph(number: u32, first: bool, content: &str) -> (out: String)
    ensures
        out@ == paragraph_markup(number as int, first, content@),
{
    let mut out = String::from_str("<p id = \"para-");
    push_decimal(&mut out, number as u64);
    out.append("\"");
    if first {
        out.append(" class = \"first-para\"");
    }
    out.append(">");
    out.append(content);
    out.append("</p>\n");
    out
}

/// The url of an anchor of a header.
pub fn anchor(filename: &str, link: u32) -> (out: String)
    ensures
        out@ == anchor_url(filename@, link as int),
{
    let mut out = String::from_str(filename);
    out.append("#link-");
    push_decimal(&mut out, link as u64);
    out
}

/// Renders the header of a hidden chapter.
pub fn hidden_title(link: u32) -> (out: String)
    ensures
        out@ == hidden_title_markup(link as int),
{
    let mut out = String::from_str("<h1 id = \"link-");
    push_decimal(&mut out, link as u64);
    out.append("\"></h1>");
    out
}

/// Renders the header of a part.
pub fn part_title(label: &str, link: u32, inner: &str) -> (out: String)
    ensures
        out@ == part_title_markup(label@, link as int, inner@),
{
    let mut out = String::from_str("<h2 class = \"part\">");
    out.append(label);
    out.append("</h2>\n<h1 id = \"link-");
    push_decimal(&mut out, link as u64);
    out.append("\" class = \"part\">");
    out.append(inner);
    out.append("</h1>\n");
    out
}

/// Renders an ordinary header.
pub fn title(n: i32, link: u32, inner: &str) -> (out: String)
    ensures
        out@ == title_markup(n as int, link as int, inner@),
{
    let mut out = String::from_str("<h");
    push_signed_decimal(&mut out, n as i64);
    out.append(" id = \"link-");
    push_decimal(&mut out, link as u64);
    out.append("\">");
    out.append(inner);
    out.append("</h");
    push_signed_decimal(&mut out, n as i64);
    out.append(">\n");
    out
}

/// Renders the tag that opens a link.
pub fn link_tag(target: &str, title: &str) -> (out: String)
    ensures
        out@ == link_open(target@, title@),
{
    let mut out = String::from_str("<a href = \"");
    out.append(target);
    out.append("\"");
    if !title.is_empty() {
        out.append(" title = \"");
        out.append(title);
        out.append("\"");
    }
    out.append(">");
    out
}

/// Renders an image.
pub fn image(url: &str, title: &str, alt: &str, standalone: bool) -> (out: String)
    ensures
        out@ == image_markup(url@, title@, alt@, standalone),
{
    let mut out = String::from_str(
        if standalone {
            "<div class = \"image\">\n  <img src = \""
        } else {
            "<img src = \""
        },
    );
    out.append(url);
    out.append("\" title = \"");
    out.append(title);
    out.append("\" alt = \"");
    out.append(alt);
    out.append(if standalone {
        "\" />\n</div>"
    } else {
        "\" />"
    });
    out
}

/// Renders a block of code that is not highlighted.
pub fn plain_code(language: &str, code: &str) -> (out: String)
    ensures
        out@ == plain_code_markup(language@, code@),
{
    if language.is_empty() {
        let mut out = String::from_str("<pre><code>");
        out.append(code);
        out.append("</code></pre>\n");
        out
    } else {
        let mut out = String::from_str("<pre><code class = \"language-");
        out.append(language);
        out.append("\">");
        out.append(crate::escape::html(code).as_str());
        out.append("</code></pre>\n");
        out
    }
}

/// Renders the marker of a footnote.
pub fn footnote_marker(number: u32) -> (out: String)
    ensures
        out@ == note_marker(number as int),
{
    let mut out = String::from_str("<p class = \"note-number\">\n  <a href = \"#note-source-");
    push_decimal(&mut out, number as u64);
    out.append("\">[");
    push_decimal(&mut out, number as u64);
    out.append("]</a>\n</p>\n");
    out
}

/// Renders the body of a footnote.
pub fn footnote_body(number: u32, content: &str) -> (out: String)
    ensures
        out@ == note_body(number as int, content@),
{
    let mut out = String::from_str("<aside id = \"note-dest-");
    push_decimal(&mut out, number as u64);
    out.append("\">");
    out.append(content);
    out.append("</aside>");
    out
}

/// Renders the reference to a footnote.
pub fn footnote_reference(number: u32) -> (out: String)
    ensures
        out@ == note_reference(number as int),
{
    let mut out = String::from_str("<a href = \"#note-dest-");
    push_decimal(&mut out, number as u64);
    out.append("\"><sup id = \"note-source-");
    push_decimal(&mut out, number as u64);
    out.append("\">[");
    push_decimal(&mut out, number as u64);
    out.append("]</sup></a>");
    out
}

/// Renders text with a grammar error.
pub fn grammar_error(message: &str, content: &str) -> (out: String)
    ensures
        out@ == grammar_error_markup(message@, content@),
{
    let mut out = String::from_str("<span title = \"");
    out.append(crate::escape::quotes(message).as_str());
    out.append("\" class = \"grammar-error\">");
    out.append(content);
    out.append("</span>");
    out
}

/// Renders a repetition.
pub fn repetition(colour: &str, content: &str) -> (out: String)
    ensures
        out@ == repetition_markup(colour@, content@),
{
    let mut out = String::from_str(
        "<span class = \"repetition\" style = \"text-decoration-line: underline; text-decoration-style: wavy; text-decoration-color: ",
    );
    out.append(colour);
    out.append("\">");
    out.append(content);
    out.append("</span>");
    out
}

/// Renders the opening of an ordered list.
pub fn ordered_list_tag(start: usize) -> (out: String)
    ensures
        out@ == ordered_list_open(start as int),
{
    if start == 1 {
        String::from_str("<ol>\n")
    } else {
        let mut out = String::from_str("<ol start = \"");
        push_decimal(&mut out, start as u64);
        out.append("\">\n");
        out
    }
}

/// Renders a footnote displayed beside the text.
pub fn side_note(marker: &str, body: &str) -> (out: String)
    ensures
        out@ == side_note_markup(marker@, body@),
{
    let mut out = String::from_str("<div class = \"sidenote\">\n");
    out.append(marker);
    out.append(" ");
    out.append(body);
    out.append("\n</div>\n");
    out
}

/// Renders the row of a footnote in the table of notes at the end.
pub fn end_note(marker: &str, body: &str) -> (out: String)
    ensures
        out@ == end_note_markup(marker@, body@),
{
    let mut out = String::from_str("<tr class = \"notes\">\n <td class = \"note-number\">\n  ");
    out.append(marker);
    out.append("\n </td>\n <td class = \"note\">\n  ");
    out.append(body);
    out.append("\n  </td>\n</tr>\n");
    out
}

} // verus!
