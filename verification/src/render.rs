//! The rendering of tokens to HTML: what the engine produces for each kind
//! of token, given what the renderer of the output format answers.
//!
//! The conditions of this module say what a rendering is. A rendering goes
//! from a renderer and a state of the engine to a renderer, a state and an
//! output; it is not a function of the token, since the renderer's answers
//! matter, and those are known through their `_ensures` conditions only.

use vstd::prelude::*;
use crate::error::{ErrorKind, ErrorView};
use crate::escape::{html_escaped, nb_spaces_escaped};
use crate::markup::{
    anchor_url, end_note_markup, end_notes_open, grammar_error_markup, hidden_title_markup, image_markup, link_open, note_body,
    note_marker, note_reference, ordered_list_open, paragraph_markup, part_title_markup,
    plain_code_markup, repetition_markup, side_note_markup, title_markup,
};
use crate::html::{can_count, header_counted, numbers_diagnostics, numbers_text, RenderState};
use crate::renderer::Renderer;
use crate::token::{Data, Token};
use crate::witness::witness;

verus! {

/// The error that ends a render pass in the state `s`, with a message.
pub open spec fn failure(s: RenderState, msg: Seq<char>) -> ErrorView {
    ErrorView { kind: ErrorKind::Render, source: s.source, msg: msg }
}

/// An inner rendering between an opening and a closing piece of markup; an
/// error stays as it is.
pub open spec fn wrap(pre: Seq<char>, inner: Result<Seq<char>, ErrorView>, post: Seq<char>) -> Result<
    Seq<char>,
    ErrorView,
> {
    match inner {
        Ok(content) => Ok(pre + content + post),
        Err(e) => Err(e),
    }
}

/// A text ready for the page: with its non-breaking spaces marked up where
/// the book asks for it.
pub open spec fn text_markup(s: RenderState, content: Seq<char>) -> Seq<char> {
    if s.book.options.escape_nb_spaces {
        nb_spaces_escaped(content)
    } else {
        content
    }
}

/// The rendering of plain text: copied as it is in verbatim mode, cleaned by
/// the renderer and escaped otherwise. The text that begins a chapter has
/// been seen after it.
pub open spec fn str_rendered<T: Renderer>(
    t0: T,
    s0: RenderState,
    text: Seq<char>,
    t1: T,
    s1: RenderState,
    r: Result<Seq<char>, ErrorView>,
) -> bool {
    &&& t1 == t0
    &&& s1 == (RenderState { first_letter: false, ..s0 })
    &&& if s0.verbatim {
        r == Ok::<Seq<char>, ErrorView>(text_markup(s0, text))
    } else {
        exists|cleaned: Seq<char>| #[trigger]
            t0.clean_ensures(text, cleaned) && r == Ok::<Seq<char>, ErrorView>(
                text_markup(s0, html_escaped(cleaned)),
            )
    }
}

/// The state in which the content of a paragraph is rendered: the first
/// paragraph since a chapter began is no longer to come, and its first
/// letter is set apart if it begins with plain text.
pub open spec fn paragraph_begun(s: RenderState, v: Seq<Token>) -> RenderState {
    if s.first_paragraph {
        RenderState {
            first_paragraph: false,
            first_letter: s.first_letter || (v.len() > 0 && v[0] is Str),
            ..s
        }
    } else {
        s
    }
}

/// The state once the header of level `n`, whose title was rendered as
/// `title`, stands in the table of contents, under that title; only headers
/// within the depth that the book numbers are entered, and the header of a
/// part one level up.
pub open spec fn toc_registered(s: RenderState, n: int, title: Seq<char>) -> RenderState {
    if n <= s.book.options.num_depth {
        RenderState {
            toc: s.toc.push(
                if s.current_part {
                    (n - 1, anchor_url(s.filename, s.link_number), title)
                } else {
                    (n, anchor_url(s.filename, s.link_number), title)
                },
            ),
            ..s
        }
    } else {
        s
    }
}

/// The rendering of a title with its tags and anchor, from the title's text
/// `inner`: an empty anchor for a hidden chapter, the label of the part
/// before the title of a part, a plain header otherwise.
pub open spec fn title_full_rendered<T: Renderer>(
    t0: T,
    s0: RenderState,
    n: int,
    inner: Seq<char>,
    t1: T,
    s1: RenderState,
    r: Result<Seq<char>, ErrorView>,
) -> bool {
    if n == 1 && s0.current_hide {
        t1 == t0 && s1 == s0 && r == Ok::<Seq<char>, ErrorView>(hidden_title_markup(s0.link_number))
    } else if n == 1 && s0.current_part {
        exists|label: Result<Seq<char>, ErrorView>| #[trigger]
            T::get_part_header_ensures(t0, s0, s0.current_chapter[0], t1, s1, label) && r
                == match label {
                Ok(l) => Ok(part_title_markup(l, s1.link_number, inner)),
                Err(e) => Err(e),
            }
    } else {
        t1 == t0 && s1 == s0 && r == Ok::<Seq<char>, ErrorView>(title_markup(n, s0.link_number, inner))
    }
}

/// Whether the renderer may resolve the escaped `url` of a link to `target`:
/// a local url goes through the renderer, another one stays.
pub open spec fn link_target<T: Renderer>(t: T, url: Seq<char>, target: Seq<char>) -> bool {
    ||| t.is_local_ensures(url, true) && t.get_link_ensures(url, target)
    ||| t.is_local_ensures(url, false) && target == url
}

/// Whether the rendered `code` of a block in `language` may come out as
/// `r`: highlighted by the renderer, or as a plain block, marked with its
/// language if it has one.
pub open spec fn code_markup<T: Renderer>(
    t: T,
    s: RenderState,
    language: Seq<char>,
    code: Seq<char>,
    r: Result<Seq<char>, ErrorView>,
) -> bool {
    if s.highlight is Syntect {
        exists|output: Seq<char>| #[trigger]
            t.highlight_ensures(code, language, output) && r == Ok::<Seq<char>, ErrorView>(output)
    } else {
        r == Ok::<Seq<char>, ErrorView>(plain_code_markup(language, code))
    }
}

/// The markup of annotated text: the text alone unless annotations are
/// displayed; a grammar error under its message, a repetition underlined in
/// its colour, but not inside verbatim text.
pub open spec fn annotation_markup(s: RenderState, data: Data, content: Seq<char>) -> Seq<char> {
    if !s.proofread {
        content
    } else {
        match data {
            Data::GrammarError(message) => grammar_error_markup(message@, content),
            Data::Repetition(colour) => if s.verbatim {
                content
            } else {
                repetition_markup(colour@, content)
            },
        }
    }
}

/// The markup that opens a token that does no more than wrap its content.
pub open spec fn opening_of(s: RenderState, token: Token) -> Seq<char> {
    match token {
        Token::Emphasis(_) => "<em>"@,
        Token::Strong(_) => "<b>"@,
        Token::Code(_) => "<code>"@,
        Token::BlockQuote(_) => "<blockquote>"@,
        Token::List(_) => "<ul>\n"@,
        Token::OrderedList(start, _) => ordered_list_open(start as int),
        Token::Item(_) => "<li>"@,
        Token::Table(_, _) => "<div class = \"table\">\n    <table>\n"@,
        Token::TableRow(_) => "<tr>\n"@,
        Token::TableCell(_) => if s.table_head {
            "<th>"@
        } else {
            "<td>"@
        },
        _ => Seq::empty(),
    }
}

/// The markup that closes a token that does no more than wrap its content.
pub open spec fn closing_of(s: RenderState, token: Token) -> Seq<char> {
    match token {
        Token::Emphasis(_) => "</em>"@,
        Token::Strong(_) => "</b>"@,
        Token::Code(_) => "</code>"@,
        Token::BlockQuote(_) => "</blockquote>\n"@,
        Token::List(_) => "</ul>\n"@,
        Token::OrderedList(_, _) => "</ol>\n"@,
        Token::Item(_) => "</li>\n"@,
        Token::Table(_, _) => "\n    </table>\n</div>\n"@,
        Token::TableRow(_) => "</tr>\n"@,
        Token::TableCell(_) => if s.table_head {
            "</th>"@
        } else {
            "</td>"@
        },
        _ => Seq::empty(),
    }
}

/// The content of a token that has one.
pub open spec fn children_of(token: Token) -> Seq<Token> {
    match token {
        Token::Paragraph(v) => v@,
        Token::Header(_, v) => v@,
        Token::Emphasis(v) => v@,
        Token::Strong(v) => v@,
        Token::Code(v) => v@,
        Token::BlockQuote(v) => v@,
        Token::CodeBlock(_, v) => v@,
        Token::List(v) => v@,
        Token::OrderedList(_, v) => v@,
        Token::Item(v) => v@,
        Token::Table(_, v) => v@,
        Token::TableHead(v) => v@,
        Token::TableRow(v) => v@,
        Token::TableCell(v) => v@,
        Token::Footnote(v) => v@,
        Token::Link(_, _, v) => v@,
        Token::Image(_, _, v) => v@,
        Token::StandaloneImage(_, _, v) => v@,
        Token::Annotation(_, v) => v@,
        _ => Seq::empty(),
    }
}

/// The rendering of a run of tokens: each token is rendered from where the
/// one before left off, and the outputs follow one another. The first error
/// ends the run.
pub open spec fn rendered_vec<T: Renderer>(
    t0: T,
    s0: RenderState,
    v: Seq<Token>,
    t1: T,
    s1: RenderState,
    r: Result<Seq<char>, ErrorView>,
) -> bool
    decreases v, 0int,
{
    if v.len() == 0 {
        t1 == t0 && s1 == s0 && r == Ok::<Seq<char>, ErrorView>(Seq::empty())
    } else {
        exists|
            tm: T,
            sm: RenderState,
            head: Result<Seq<char>, ErrorView>,
            last: Result<Seq<char>, ErrorView>,
        |
            #[trigger] witness((tm, sm, head, last)) && rendered_vec(
                t0,
                s0,
                v.drop_last(),
                tm,
                sm,
                head,
            ) && match head {
                Err(e) => t1 == tm && s1 == sm && r == Err::<Seq<char>, ErrorView>(e),
                Ok(a) => rendered(tm, sm, v.last(), t1, s1, last) && r == match last {
                    Ok(b) => Ok(a + b),
                    Err(e) => Err(e),
                },
            }
    }
}

/// The rendering of a token: by the renderer of the output format where it
/// says that it renders the token in its own way, by the engine otherwise.
pub open spec fn rendered<T: Renderer>(
    t0: T,
    s0: RenderState,
    token: Token,
    t1: T,
    s1: RenderState,
    r: Result<Seq<char>, ErrorView>,
) -> bool
    decreases token, 4int,
{
    ||| t0.overrides_ensures(token, true) && T::render_token_ensures(t0, s0, token, t1, s1, r)
    ||| t0.overrides_ensures(token, false) && rendered_default(t0, s0, token, t1, s1, r)
}

/// The rendering of a token by the engine.
pub open spec fn rendered_default<T: Renderer>(
    t0: T,
    s0: RenderState,
    token: Token,
    t1: T,
    s1: RenderState,
    r: Result<Seq<char>, ErrorView>,
) -> bool
    decreases token, 3int,
{
    match token {
        Token::Str(text) => str_rendered(t0, s0, text@, t1, s1, r),
        Token::Rule => t1 == t0 && s1 == s0 && r == Ok::<Seq<char>, ErrorView>(
            "<p class = \"rule\">***</p>\n"@,
        ),
        Token::SoftBreak => t1 == t0 && s1 == s0 && r == Ok::<Seq<char>, ErrorView>(" "@),
        Token::HardBreak => t1 == t0 && s1 == s0 && r == Ok::<Seq<char>, ErrorView>("<br />\n"@),
        Token::Paragraph(v) => paragraph_rendered(t0, s0, v@, t1, s1, r),
        Token::Header(n, v) => header_rendered(t0, s0, n as int, v@, t1, s1, r),
        Token::CodeBlock(language, v) => code_block_rendered(t0, s0, language@, v@, t1, s1, r),
        Token::TableHead(v) => table_head_rendered(t0, s0, v@, t1, s1, r),
        Token::Footnote(v) => footnote_rendered(t0, s0, v@, t1, s1, r),
        Token::Link(url, title, v) => link_rendered(t0, s0, url@, title@, v@, t1, s1, r),
        Token::Image(url, title, v) => image_rendered(t0, s0, url@, title@, v@, false, t1, s1, r),
        Token::StandaloneImage(url, title, v) => image_rendered(
            t0,
            s0,
            url@,
            title@,
            v@,
            true,
            t1,
            s1,
            r,
        ),
        Token::Annotation(data, v) => annotation_rendered(t0, s0, data, v@, t1, s1, r),
        _ => wrapped(
            t0,
            s0,
            children_of(token),
            t1,
            s1,
            r,
            opening_of(s0, token),
            closing_of(s0, token),
        ),
    }
}

/// The rendering of content between two pieces of markup.
pub open spec fn wrapped<T: Renderer>(
    t0: T,
    s0: RenderState,
    v: Seq<Token>,
    t1: T,
    s1: RenderState,
    r: Result<Seq<char>, ErrorView>,
    pre: Seq<char>,
    post: Seq<char>,
) -> bool
    decreases v, 1int,
{
    exists|inner: Result<Seq<char>, ErrorView>| #[trigger]
        witness(inner) && rendered_vec(t0, s0, v, t1, s1, inner) && r == wrap(pre, inner, post)
}

/// The rendering of a paragraph: its content, then its tags with the next
/// number of the chapter's paragraphs.
pub open spec fn paragraph_rendered<T: Renderer>(
    t0: T,
    s0: RenderState,
    v: Seq<Token>,
    t1: T,
    s1: RenderState,
    r: Result<Seq<char>, ErrorView>,
) -> bool
    decreases v, 1int,
{
    exists|sm: RenderState, inner: Result<Seq<char>, ErrorView>| #[trigger]
        witness((sm, inner)) && rendered_vec(t0, paragraph_begun(s0, v), v, t1, sm, inner)
            && match inner {
            Err(e) => s1 == sm && r == Err::<Seq<char>, ErrorView>(e),
            Ok(content) => if sm.current_par < u32::MAX {
                s1 == (RenderState { current_par: sm.current_par + 1, ..sm }) && r == Ok::<
                    Seq<char>,
                    ErrorView,
                >(paragraph_markup(
                    sm.current_par + 1,
                    paragraph_begun(s0, v).first_letter && s0.book.options.initials,
                    content,
                ))
            } else {
                s1 == sm && r == Err::<Seq<char>, ErrorView>(failure(sm, "too many paragraphs"@))
            },
        }
}

/// The rendering of the text of a title of level `n`, counted beforehand.
///
/// In a part, the level is one less. The title of a numbered chapter goes
/// through the chapter header of the book, with the chapter's number; another
/// title within the numbered depth comes after its number; any other title
/// is its content alone.
pub open spec fn title_rendered<T: Renderer>(
    t0: T,
    s0: RenderState,
    n: int,
    v: Seq<Token>,
    t1: T,
    s1: RenderState,
    r: Result<Seq<char>, ErrorView>,
) -> bool
    decreases v, 1int,
{
    let level = if s0.current_part {
        n - 1
    } else {
        n
    };
    let counted = header_counted(s0, level);
    if !can_count(s0, level) {
        t1 == t0 && s1 == s0 && r == Err::<Seq<char>, ErrorView>(
            failure(s0, "can not count this header"@),
        )
    } else if level == 1 && counted.current_numbering >= 1 {
        exists|tm: T, sm: RenderState, title: Result<Seq<char>, ErrorView>| #[trigger]
            witness((tm, sm, title)) && rendered_vec(t0, counted, v, tm, sm, title) && match title {
                Err(e) => t1 == tm && s1 == sm && r == Err::<Seq<char>, ErrorView>(e),
                Ok(text) => T::get_chapter_header_ensures(
                    tm,
                    sm,
                    counted.current_chapter[1],
                    text,
                    t1,
                    s1,
                    r,
                ),
            }
    } else if counted.current_numbering >= level {
        exists|inner: Result<Seq<char>, ErrorView>| #[trigger]
            witness(inner) && rendered_vec(
                t0,
                RenderState {
                    diagnostics: counted.diagnostics + numbers_diagnostics(
                        counted.current_chapter,
                        counted.book.options.chapter_roman_numerals,
                    ),
                    ..counted
                },
                v,
                t1,
                s1,
                inner,
            ) && r == wrap(
                numbers_text(counted.current_chapter, counted.book.options.chapter_roman_numerals)
                    + " "@,
                inner,
                Seq::empty(),
            )
    } else {
        rendered_vec(t0, counted, v, t1, s1, r)
    }
}

/// The rendering of a header: the text of its title, its entry in the table
/// of contents, then the title with its tags and anchor.
pub open spec fn header_rendered<T: Renderer>(
    t0: T,
    s0: RenderState,
    n: int,
    v: Seq<Token>,
    t1: T,
    s1: RenderState,
    r: Result<Seq<char>, ErrorView>,
) -> bool
    decreases v, 2int,
{
    exists|tm: T, sm: RenderState, title: Result<Seq<char>, ErrorView>| #[trigger]
        witness((tm, sm, title)) && title_rendered(t0, s0, n, v, tm, sm, title) && match title {
            Err(e) => t1 == tm && s1 == sm && r == Err::<Seq<char>, ErrorView>(e),
            Ok(text) => title_full_rendered(tm, toc_registered(sm, n, text), n, text, t1, s1, r),
        }
}

/// The rendering of a block of code: its content in verbatim mode, then the
/// block.
pub open spec fn code_block_rendered<T: Renderer>(
    t0: T,
    s0: RenderState,
    language: Seq<char>,
    v: Seq<Token>,
    t1: T,
    s1: RenderState,
    r: Result<Seq<char>, ErrorView>,
) -> bool
    decreases v, 1int,
{
    exists|sm: RenderState, code: Result<Seq<char>, ErrorView>| #[trigger]
        witness((sm, code)) && rendered_vec(
            t0,
            RenderState { verbatim: true, ..s0 },
            v,
            t1,
            sm,
            code,
        ) && match code {
            Err(e) => s1 == sm && r == Err::<Seq<char>, ErrorView>(e),
            Ok(c) => s1 == (RenderState { verbatim: false, ..sm }) && code_markup(
                t1,
                sm,
                language,
                c,
                r,
            ),
        }
}

/// The rendering of the head row of a table: its cells are marked as cells
/// of a head while it is rendered.
pub open spec fn table_head_rendered<T: Renderer>(
    t0: T,
    s0: RenderState,
    v: Seq<Token>,
    t1: T,
    s1: RenderState,
    r: Result<Seq<char>, ErrorView>,
) -> bool
    decreases v, 1int,
{
    exists|sm: RenderState, inner: Result<Seq<char>, ErrorView>| #[trigger]
        witness((sm, inner)) && rendered_vec(
            t0,
            RenderState { table_head: true, ..s0 },
            v,
            t1,
            sm,
            inner,
        ) && match inner {
            Err(e) => s1 == sm && r == Err::<Seq<char>, ErrorView>(e),
            Ok(row) => s1 == (RenderState { table_head: false, ..sm }) && r == Ok::<
                Seq<char>,
                ErrorView,
            >("<tr>\n"@ + row + "</tr>\n"@),
        }
}

/// The rendering of a footnote: it takes the next number, its content goes
/// to the footnotes that wait to be displayed, and a reference to it stands
/// in the text.
pub open spec fn footnote_rendered<T: Renderer>(
    t0: T,
    s0: RenderState,
    v: Seq<Token>,
    t1: T,
    s1: RenderState,
    r: Result<Seq<char>, ErrorView>,
) -> bool
    decreases v, 1int,
{
    if v.len() == 0 {
        t1 == t0 && s1 == s0 && r == Err::<Seq<char>, ErrorView>(
            failure(s0, "footnote without content"@),
        )
    } else if s0.footnote_number >= u32::MAX {
        t1 == t0 && s1 == s0 && r == Err::<Seq<char>, ErrorView>(
            failure(s0, "too many footnotes"@),
        )
    } else {
        let number = s0.footnote_number + 1;
        exists|sm: RenderState, body: Result<Seq<char>, ErrorView>| #[trigger]
            witness((sm, body)) && rendered_vec(
                t0,
                RenderState { footnote_number: number, ..s0 },
                v,
                t1,
                sm,
                body,
            ) && match body {
                Err(e) => s1 == sm && r == Err::<Seq<char>, ErrorView>(e),
                Ok(content) => s1 == (RenderState {
                    footnotes: sm.footnotes.push((note_marker(number), note_body(number, content))),
                    ..sm
                }) && r == Ok::<Seq<char>, ErrorView>(note_reference(number)),
            }
    }
}

/// The rendering of a link: its target is resolved, then its content is
/// rendered.
pub open spec fn link_rendered<T: Renderer>(
    t0: T,
    s0: RenderState,
    url: Seq<char>,
    title: Seq<char>,
    v: Seq<Token>,
    t1: T,
    s1: RenderState,
    r: Result<Seq<char>, ErrorView>,
) -> bool
    decreases v, 1int,
{
    exists|target: Seq<char>, inner: Result<Seq<char>, ErrorView>| #[trigger]
        witness((target, inner)) && link_target(t0, html_escaped(url), target) && rendered_vec(
            t0,
            s0,
            v,
            t1,
            s1,
            inner,
        ) && r == wrap(link_open(target, title), inner, "</a>"@)
}

/// The rendering of an image: its alternate text is rendered, then the
/// renderer maps its url.
pub open spec fn image_rendered<T: Renderer>(
    t0: T,
    s0: RenderState,
    url: Seq<char>,
    title: Seq<char>,
    v: Seq<Token>,
    standalone: bool,
    t1: T,
    s1: RenderState,
    r: Result<Seq<char>, ErrorView>,
) -> bool
    decreases v, 1int,
{
    exists|tm: T, alt: Result<Seq<char>, ErrorView>, mapped: Result<Seq<char>, ErrorView>| #[trigger]
        witness((tm, alt, mapped)) && rendered_vec(t0, s0, v, tm, s1, alt) && match alt {
            Err(e) => t1 == tm && r == Err::<Seq<char>, ErrorView>(e),
            Ok(text) => T::map_image_ensures(tm, s1.source, url, t1, mapped) && r == match mapped {
                Ok(m) => Ok(image_markup(m, title, text, standalone)),
                Err(e) => Err(e),
            },
        }
}

/// The rendering of annotated text: its content, marked up where
/// annotations are displayed.
pub open spec fn annotation_rendered<T: Renderer>(
    t0: T,
    s0: RenderState,
    data: Data,
    v: Seq<Token>,
    t1: T,
    s1: RenderState,
    r: Result<Seq<char>, ErrorView>,
) -> bool
    decreases v, 1int,
{
    exists|content: Result<Seq<char>, ErrorView>| #[trigger]
        witness(content) && rendered_vec(t0, s0, v, t1, s1, content) && r == match content {
            Ok(c) => Ok(annotation_markup(s1, data, c)),
            Err(e) => Err(e),
        }
}

/// The footnotes that wait, displayed beside the text one after the other.
pub open spec fn side_notes_text(notes: Seq<(Seq<char>, Seq<char>)>) -> Seq<char>
    decreases notes.len(),
{
    if notes.len() == 0 {
        Seq::empty()
    } else {
        side_notes_text(notes.drop_last()) + side_note_markup(notes.last().0, notes.last().1)
    }
}

/// The rows of the footnotes that wait, in the table of notes at the end.
pub open spec fn end_notes_rows(notes: Seq<(Seq<char>, Seq<char>)>) -> Seq<char>
    decreases notes.len(),
{
    if notes.len() == 0 {
        Seq::empty()
    } else {
        end_notes_rows(notes.drop_last()) + end_note_markup(notes.last().0, notes.last().1)
    }
}

/// What the footnotes that wait add to the text where the book displays
/// them beside it: each of them, in the order in which they came. Elsewhere
/// they go on waiting.
pub open spec fn side_notes_flushed(s: RenderState) -> RenderState {
    if s.book.options.side_notes {
        RenderState { footnotes: Seq::empty(), ..s }
    } else {
        s
    }
}

/// The text of the footnotes that are displayed beside the text in the
/// state `s`.
pub open spec fn side_notes_shown(s: RenderState) -> Seq<char> {
    if s.book.options.side_notes {
        side_notes_text(s.footnotes)
    } else {
        Seq::empty()
    }
}

/// The notes at the end: where footnotes wait, `text` gets a block with
/// their title in the language of the book and a row for each of them, in
/// the order in which they came, and none waits any longer.
pub open spec fn end_notes_rendered<T: Renderer>(
    t: T,
    s0: RenderState,
    text: Seq<char>,
    s1: RenderState,
    output: Seq<char>,
) -> bool {
    if s0.footnotes.len() == 0 {
        s1 == s0 && output == text
    } else {
        s1 == (RenderState { footnotes: Seq::empty(), ..s0 }) && exists|title: Seq<char>| #[trigger]
            t.get_str_ensures(s0.book.options.lang@, "notes"@, title) && output == text
                + end_notes_open(title) + end_notes_rows(s0.footnotes) + "</table>\n</div>\n"@
    }
}

/// The rendering of the tokens of a chapter: as a run of tokens, but after
/// each token the footnotes that wait are displayed if they stand beside the
/// text.
pub open spec fn chapter_rendered<T: Renderer>(
    t0: T,
    s0: RenderState,
    v: Seq<Token>,
    t1: T,
    s1: RenderState,
    r: Result<Seq<char>, ErrorView>,
) -> bool
    decreases v.len(),
{
    if v.len() == 0 {
        t1 == t0 && s1 == s0 && r == Ok::<Seq<char>, ErrorView>(Seq::empty())
    } else {
        exists|
            tm: T,
            sm: RenderState,
            head: Result<Seq<char>, ErrorView>,
            sl: RenderState,
            last: Result<Seq<char>, ErrorView>,
        |
            #[trigger] witness((tm, sm, head, sl, last)) && chapter_rendered(
                t0,
                s0,
                v.drop_last(),
                tm,
                sm,
                head,
            ) && match head {
                Err(e) => t1 == tm && s1 == sm && r == Err::<Seq<char>, ErrorView>(e),
                Ok(a) => rendered(tm, sm, v.last(), t1, sl, last) && match last {
                    Err(e) => s1 == sl && r == Err::<Seq<char>, ErrorView>(e),
                    Ok(b) => s1 == side_notes_flushed(sl) && r == Ok::<Seq<char>, ErrorView>(
                        a + b + side_notes_shown(sl),
                    ),
                },
            }
    }
}

/// The rendering of a chapter to HTML: its tokens, then the notes at the
/// end if they are asked for.
pub open spec fn html_rendered<T: Renderer>(
    t0: T,
    s0: RenderState,
    v: Seq<Token>,
    end_notes: bool,
    t1: T,
    s1: RenderState,
    r: Result<Seq<char>, ErrorView>,
) -> bool {
    exists|sm: RenderState, body: Result<Seq<char>, ErrorView>| #[trigger]
        witness((sm, body)) && chapter_rendered(t0, s0, v, t1, sm, body) && match body {
            Err(e) => s1 == sm && r == Err::<Seq<char>, ErrorView>(e),
            Ok(text) => if end_notes {
                match r {
                    Ok(output) => end_notes_rendered(t1, sm, text, s1, output),
                    Err(_) => false,
                }
            } else {
                s1 == sm && r == Ok::<Seq<char>, ErrorView>(text)
            },
        }
}

} // verus!
