//! What holds of every rendering: the numbers of anchors and footnotes are
//! given out one by one and never taken back.

use vstd::prelude::*;
use crate::error::ErrorView;
use crate::html::{header_counted, RenderState};
use crate::markup::{anchor_url, note_body, note_marker, note_reference};
use crate::render::{
    annotation_rendered, code_block_rendered, footnote_rendered, header_rendered, image_rendered,
    link_rendered, paragraph_begun, paragraph_rendered, rendered, rendered_default, rendered_vec,
    table_head_rendered, title_full_rendered, title_rendered, toc_registered, wrapped,
};
use crate::renderer::Renderer;
use crate::token::{Data, Token};
use crate::witness::witness;

verus! {

/// Whether, from the state `s0` to the state `s1`, neither the number of the
/// last anchor nor that of the last footnote went back.
pub open spec fn ids_kept(s0: RenderState, s1: RenderState) -> bool {
    s0.link_number <= s1.link_number && s0.footnote_number <= s1.footnote_number
}

/// Whether a renderer is orderly: whenever it is handed the engine, to render
/// a token in its own way or to render a header of the book, it gives it
/// back with numbers of anchors and footnotes that did not go back.
pub open spec fn orderly<T: Renderer>() -> bool {
    &&& forall|
        t0: T,
        s0: RenderState,
        token: Token,
        t1: T,
        s1: RenderState,
        r: Result<Seq<char>, ErrorView>,
    | #[trigger]
        T::render_token_ensures(t0, s0, token, t1, s1, r) ==> ids_kept(s0, s1)
    &&& forall|
        t0: T,
        s0: RenderState,
        number: int,
        title: Seq<char>,
        t1: T,
        s1: RenderState,
        r: Result<Seq<char>, ErrorView>,
    | #[trigger]
        T::get_chapter_header_ensures(t0, s0, number, title, t1, s1, r) ==> ids_kept(s0, s1)
    &&& forall|t0: T, s0: RenderState, number: int, t1: T, s1: RenderState, r: Result<Seq<char>, ErrorView>|
     #[trigger]
        T::get_part_header_ensures(t0, s0, number, t1, s1, r) ==> ids_kept(s0, s1)
}

/// A header that is counted takes the anchor that follows the last one.
pub proof fn lemma_header_takes_next_anchor(s: RenderState, n: int)
    ensures
        header_counted(s, n).link_number == s.link_number + 1,
        header_counted(s, n).footnote_number == s.footnote_number,
{
}

/// A header within the depth that the book numbers enters the table of
/// contents as one more entry, the last: under the text of its title, at the
/// url of its anchor, and at its level, or one level up in a part. A deeper
/// header leaves the table as it is.
pub proof fn lemma_header_registered(s: RenderState, n: int, title: Seq<char>)
    ensures
        n <= s.book.options.num_depth ==> toc_registered(s, n, title).toc == s.toc.push(
            (
                if s.current_part {
                    n - 1
                } else {
                    n
                },
                anchor_url(s.filename, s.link_number),
                title,
            ),
        ),
        n > s.book.options.num_depth ==> toc_registered(s, n, title) == s,
        toc_registered(s, n, title) == (RenderState { toc: toc_registered(s, n, title).toc, ..s }),
{
}

/// A footnote that is rendered takes the number that follows the last one:
/// the reference in the text and the note that waits at the end of the
/// buffer both carry it.
pub proof fn lemma_footnote_takes_next_number<T: Renderer>(
    t0: T,
    s0: RenderState,
    v: Seq<Token>,
    t1: T,
    s1: RenderState,
    r: Result<Seq<char>, ErrorView>,
)
    requires
        footnote_rendered(t0, s0, v, t1, s1, r),
        r is Ok,
    ensures
        r == Ok::<Seq<char>, ErrorView>(note_reference(s0.footnote_number + 1)),
        s1.footnotes.len() > 0,
        s1.footnotes.last().0 == note_marker(s0.footnote_number + 1),
        exists|content: Seq<char>| s1.footnotes.last().1 == #[trigger] note_body(
            s0.footnote_number + 1,
            content,
        ),
{
    let number = s0.footnote_number + 1;
    let (sm, body) = choose|sm: RenderState, body: Result<Seq<char>, ErrorView>| #[trigger]
        witness((sm, body)) && rendered_vec(
            t0,
            RenderState { footnote_number: number, ..s0 },
            v,
            t1,
            sm,
            body,
        ) && match body {
            Err(e) => s1 == sm && r == Err::<Seq<char>, ErrorView>(e),
            Ok(content) => s1 == (RenderState {
                footnotes: sm.footnotes.push((note_marker(number), note_body(number, content))),
                ..sm
            }) && r == Ok::<Seq<char>, ErrorView>(note_reference(number)),
        };
}

/// With an orderly renderer, rendering a run of tokens never takes back the
/// number of an anchor or of a footnote.
pub proof fn lemma_run_keeps_ids<T: Renderer>(
    t0: T,
    s0: RenderState,
    v: Seq<Token>,
    t1: T,
    s1: RenderState,
    r: Result<Seq<char>, ErrorView>,
)
    requires
        orderly::<T>(),
        rendered_vec(t0, s0, v, t1, s1, r),
    ensures
        ids_kept(s0, s1),
    decreases v, 0int,
{
    if v.len() > 0 {
        let (tm, sm, head, last) = choose|
            tm: T,
            sm: RenderState,
            head: Result<Seq<char>, ErrorView>,
            last: Result<Seq<char>, ErrorView>,
        |
            #[trigger] witness((tm, sm, head, last)) && rendered_vec(
                t0,
                s0,
                v.drop_last(),
                tm,
                sm,
                head,
            ) && match head {
                Err(e) => t1 == tm && s1 == sm && r == Err::<Seq<char>, ErrorView>(e),
                Ok(a) => rendered(tm, sm, v.last(), t1, s1, last) && r == match last {
                    Ok(b) => Ok(a + b),
                    Err(e) => Err(e),
                },
            };
        lemma_run_keeps_ids(t0, s0, v.drop_last(), tm, sm, head);
        if head is Ok {
            lemma_token_keeps_ids(tm, sm, v.last(), t1, s1, last);
        }
    }
}

/// With an orderly renderer, rendering a token never takes back the number
/// of an anchor or of a footnote: each number is given once.
pub proof fn lemma_token_keeps_ids<T: Renderer>(
    t0: T,
    s0: RenderState,
    token: Token,
    t1: T,
    s1: RenderState,
    r: Result<Seq<char>, ErrorView>,
)
    requires
        orderly::<T>(),
        rendered(t0, s0, token, t1, s1, r),
    ensures
        ids_kept(s0, s1),
    decreases token, 4int,
{
    if !(t0.overrides_ensures(token, true) && T::render_token_ensures(t0, s0, token, t1, s1, r)) {
        lemma_default_keeps_ids(t0, s0, token, t1, s1, r);
    }
}

/// With an orderly renderer, the engine's rendering of a token never takes
/// back the number of an anchor or of a footnote.
pub proof fn lemma_default_keeps_ids<T: Renderer>(
    t0: T,
    s0: RenderState,
    token: Token,
    t1: T,
    s1: RenderState,
    r: Result<Seq<char>, ErrorView>,
)
    requires
        orderly::<T>(),
        rendered_default(t0, s0, token, t1, s1, r),
    ensures
        ids_kept(s0, s1),
    decreases token, 3int,
{
    match token {
        Token::Str(_) => {},
        Token::Rule => {},
        Token::SoftBreak => {},
        Token::HardBreak => {},
        Token::Paragraph(v) => {
            lemma_paragraph_keeps_ids(t0, s0, v@, t1, s1, r);
        },
        Token::Header(n, v) => {
            lemma_header_keeps_ids(t0, s0, n as int, v@, t1, s1, r);
        },
        Token::CodeBlock(language, v) => {
            lemma_code_block_keeps_ids(t0, s0, language@, v@, t1, s1, r);
        },
        Token::TableHead(v) => {
            lemma_table_head_keeps_ids(t0, s0, v@, t1, s1, r);
        },
        Token::Footnote(v) => {
            lemma_footnote_keeps_ids(t0, s0, v@, t1, s1, r);
        },
        Token::Link(url, title, v) => {
            lemma_link_keeps_ids(t0, s0, url@, title@, v@, t1, s1, r);
        },
        Token::Image(url, title, v) => {
            lemma_image_keeps_ids(t0, s0, url@, title@, v@, false, t1, s1, r);
        },
        Token::StandaloneImage(url, title, v) => {
            lemma_image_keeps_ids(t0, s0, url@, title@, v@, true, t1, s1, r);
        },
        Token::Annotation(data, v) => {
            lemma_annotation_keeps_ids(t0, s0, data, v@, t1, s1, r);
        },
        Token::Emphasis(v) => {
            lemma_wrapped_keeps_ids(t0, s0, v@, t1, s1, r, "<em>"@, "</em>"@);
        },
        Token::Strong(v) => {
            lemma_wrapped_keeps_ids(t0, s0, v@, t1, s1, r, "<b>"@, "</b>"@);
        },
        Token::Code(v) => {
            lemma_wrapped_keeps_ids(t0, s0, v@, t1, s1, r, "<code>"@, "</code>"@);
        },
        Token::BlockQuote(v) => {
            lemma_wrapped_keeps_ids(t0, s0, v@, t1, s1, r, "<blockquote>"@, "</blockquote>\n"@);
        },
        Token::List(v) => {
            lemma_wrapped_keeps_ids(t0, s0, v@, t1, s1, r, "<ul>\n"@, "</ul>\n"@);
        },
        Token::OrderedList(start, v) => {
            lemma_wrapped_keeps_ids(
                t0,
                s0,
                v@,
                t1,
                s1,
                r,
                crate::markup::ordered_list_open(start as int),
                "</ol>\n"@,
            );
        },
        Token::Item(v) => {
            lemma_wrapped_keeps_ids(t0, s0, v@, t1, s1, r, "<li>"@, "</li>\n"@);
        },
        Token::Table(_, v) => {
            lemma_wrapped_keeps_ids(
                t0,
                s0,
                v@,
                t1,
                s1,
                r,
                "<div class = \"table\">\n    <table>\n"@,
                "\n    </table>\n</div>\n"@,
            );
        },
        Token::TableRow(v) => {
            lemma_wrapped_keeps_ids(t0, s0, v@, t1, s1, r, "<tr>\n"@, "</tr>\n"@);
        },
        Token::TableCell(v) => {
            lemma_wrapped_keeps_ids(
                t0,
                s0,
                v@,
                t1,
                s1,
                r,
                crate::render::opening_of(s0, token),
                crate::render::closing_of(s0, token),
            );
        },
    }
}

proof fn lemma_wrapped_keeps_ids<T: Renderer>(
    t0: T,
    s0: RenderState,
    v: Seq<Token>,
    t1: T,
    s1: RenderState,
    r: Result<Seq<char>, ErrorView>,
    pre: Seq<char>,
    post: Seq<char>,
)
    requires
        orderly::<T>(),
        wrapped(t0, s0, v, t1, s1, r, pre, post),
    ensures
        ids_kept(s0, s1),
    decreases v, 1int,
{
    let inner = choose|inner: Result<Seq<char>, ErrorView>| #[trigger]
        witness(inner) && rendered_vec(t0, s0, v, t1, s1, inner) && r == crate::render::wrap(
            pre,
            inner,
            post,
        );
    lemma_run_keeps_ids(t0, s0, v, t1, s1, inner);
}

proof fn lemma_paragraph_keeps_ids<T: Renderer>(
    t0: T,
    s0: RenderState,
    v: Seq<Token>,
    t1: T,
    s1: RenderState,
    r: Result<Seq<char>, ErrorView>,
)
    requires
        orderly::<T>(),
        paragraph_rendered(t0, s0, v, t1, s1, r),
    ensures
        ids_kept(s0, s1),
    decreases v, 1int,
{
    let (sm, inner) = choose|sm: RenderState, inner: Result<Seq<char>, ErrorView>| #[trigger]
        witness((sm, inner)) && rendered_vec(t0, paragraph_begun(s0, v), v, t1, sm, inner) && (s1
            == sm || s1 == (RenderState { current_par: sm.current_par + 1, ..sm }));
    lemma_run_keeps_ids(t0, paragraph_begun(s0, v), v, t1, sm, inner);
}

proof fn lemma_code_block_keeps_ids<T: Renderer>(
    t0: T,
    s0: RenderState,
    language: Seq<char>,
    v: Seq<Token>,
    t1: T,
    s1: RenderState,
    r: Result<Seq<char>, ErrorView>,
)
    requires
        orderly::<T>(),
        code_block_rendered(t0, s0, language, v, t1, s1, r),
    ensures
        ids_kept(s0, s1),
    decreases v, 1int,
{
    let (sm, code) = choose|sm: RenderState, code: Result<Seq<char>, ErrorView>| #[trigger]
        witness((sm, code)) && rendered_vec(
            t0,
            RenderState { verbatim: true, ..s0 },
            v,
            t1,
            sm,
            code,
        ) && (s1 == sm || s1 == (RenderState { verbatim: false, ..sm }));
    lemma_run_keeps_ids(t0, RenderState { verbatim: true, ..s0 }, v, t1, sm, code);
}

proof fn lemma_table_head_keeps_ids<T: Renderer>(
    t0: T,
    s0: RenderState,
    v: Seq<Token>,
    t1: T,
    s1: RenderState,
    r: Result<Seq<char>, ErrorView>,
)
    requires
        orderly::<T>(),
        table_head_rendered(t0, s0, v, t1, s1, r),
    ensures
        ids_kept(s0, s1),
    decreases v, 1int,
{
    let (sm, inner) = choose|sm: RenderState, inner: Result<Seq<char>, ErrorView>| #[trigger]
        witness((sm, inner)) && rendered_vec(
            t0,
            RenderState { table_head: true, ..s0 },
            v,
            t1,
            sm,
            inner,
        ) && (s1 == sm || s1 == (RenderState { table_head: false, ..sm }));
    lemma_run_keeps_ids(t0, RenderState { table_head: true, ..s0 }, v, t1, sm, inner);
}

proof fn lemma_footnote_keeps_ids<T: Renderer>(
    t0: T,
    s0: RenderState,
    v: Seq<Token>,
    t1: T,
    s1: RenderState,
    r: Result<Seq<char>, ErrorView>,
)
    requires
        orderly::<T>(),
        footnote_rendered(t0, s0, v, t1, s1, r),
    ensures
        ids_kept(s0, s1),
    decreases v, 1int,
{
    if v.len() > 0 && s0.footnote_number < u32::MAX {
        let begun = RenderState { footnote_number: s0.footnote_number + 1, ..s0 };
        let (sm, body) = choose|sm: RenderState, body: Result<Seq<char>, ErrorView>| #[trigger]
            witness((sm, body)) && rendered_vec(t0, begun, v, t1, sm, body) && (s1 == sm || exists|
                notes: Seq<(Seq<char>, Seq<char>)>,
            |
                s1 == (RenderState { footnotes: notes, ..sm }));
        lemma_run_keeps_ids(t0, begun, v, t1, sm, body);
    }
}

proof fn lemma_link_keeps_ids<T: Renderer>(
    t0: T,
    s0: RenderState,
    url: Seq<char>,
    title: Seq<char>,
    v: Seq<Token>,
    t1: T,
    s1: RenderState,
    r: Result<Seq<char>, ErrorView>,
)
    requires
        orderly::<T>(),
        link_rendered(t0, s0, url, title, v, t1, s1, r),
    ensures
        ids_kept(s0, s1),
    decreases v, 1int,
{
    let (target, inner) = choose|target: Seq<char>, inner: Result<Seq<char>, ErrorView>| #[trigger]
        witness((target, inner)) && rendered_vec(t0, s0, v, t1, s1, inner);
    lemma_run_keeps_ids(t0, s0, v, t1, s1, inner);
}

proof fn lemma_image_keeps_ids<T: Renderer>(
    t0: T,
    s0: RenderState,
    url: Seq<char>,
    title: Seq<char>,
    v: Seq<Token>,
    standalone: bool,
    t1: T,
    s1: RenderState,
    r: Result<Seq<char>, ErrorView>,
)
    requires
        orderly::<T>(),
        image_rendered(t0, s0, url, title, v, standalone, t1, s1, r),
    ensures
        ids_kept(s0, s1),
    decreases v, 1int,
{
    let (tm, alt, mapped) = choose|
        tm: T,
        alt: Result<Seq<char>, ErrorView>,
        mapped: Result<Seq<char>, ErrorView>,
    |
        #[trigger] witness((tm, alt, mapped)) && rendered_vec(t0, s0, v, tm, s1, alt);
    lemma_run_keeps_ids(t0, s0, v, tm, s1, alt);
}

proof fn lemma_annotation_keeps_ids<T: Renderer>(
    t0: T,
    s0: RenderState,
    data: Data,
    v: Seq<Token>,
    t1: T,
    s1: RenderState,
    r: Result<Seq<char>, ErrorView>,
)
    requires
        orderly::<T>(),
        annotation_rendered(t0, s0, data, v, t1, s1, r),
    ensures
        ids_kept(s0, s1),
    decreases v, 1int,
{
    let content = choose|content: Result<Seq<char>, ErrorView>| #[trigger]
        witness(content) && rendered_vec(t0, s0, v, t1, s1, content);
    lemma_run_keeps_ids(t0, s0, v, t1, s1, content);
}

proof fn lemma_title_keeps_ids<T: Renderer>(
    t0: T,
    s0: RenderState,
    n: int,
    v: Seq<Token>,
    t1: T,
    s1: RenderState,
    r: Result<Seq<char>, ErrorView>,
)
    requires
        orderly::<T>(),
        title_rendered(t0, s0, n, v, t1, s1, r),
    ensures
        ids_kept(s0, s1),
    decreases v, 1int,
{
    let level = if s0.current_part {
        n - 1
    } else {
        n
    };
    let counted = header_counted(s0, level);
    if !crate::html::can_count(s0, level) {
        // nothing was rendered
    } else if level == 1 && counted.current_numbering >= 1 {
        let (tm, sm, title) = choose|tm: T, sm: RenderState, title: Result<Seq<char>, ErrorView>| #[trigger]
            witness((tm, sm, title)) && rendered_vec(t0, counted, v, tm, sm, title) && match title {
                Err(e) => t1 == tm && s1 == sm && r == Err::<Seq<char>, ErrorView>(e),
                Ok(text) => T::get_chapter_header_ensures(
                    tm,
                    sm,
                    counted.current_chapter[1],
                    text,
                    t1,
                    s1,
                    r,
                ),
            };
        lemma_run_keeps_ids(t0, counted, v, tm, sm, title);
    } else if counted.current_numbering >= level {
        let numbered = RenderState {
            diagnostics: counted.diagnostics + crate::html::numbers_diagnostics(
                counted.current_chapter,
                counted.book.options.chapter_roman_numerals,
            ),
            ..counted
        };
        let inner = choose|inner: Result<Seq<char>, ErrorView>| #[trigger]
            witness(inner) && rendered_vec(t0, numbered, v, t1, s1, inner);
        lemma_run_keeps_ids(t0, numbered, v, t1, s1, inner);
    } else {
        lemma_run_keeps_ids(t0, counted, v, t1, s1, r);
    }
}

proof fn lemma_header_keeps_ids<T: Renderer>(
    t0: T,
    s0: RenderState,
    n: int,
    v: Seq<Token>,
    t1: T,
    s1: RenderState,
    r: Result<Seq<char>, ErrorView>,
)
    requires
        orderly::<T>(),
        header_rendered(t0, s0, n, v, t1, s1, r),
    ensures
        ids_kept(s0, s1),
    decreases v, 2int,
{
    let (tm, sm, title) = choose|tm: T, sm: RenderState, title: Result<Seq<char>, ErrorView>| #[trigger]
        witness((tm, sm, title)) && title_rendered(t0, s0, n, v, tm, sm, title) && match title {
            Err(e) => t1 == tm && s1 == sm && r == Err::<Seq<char>, ErrorView>(e),
            Ok(text) => title_full_rendered(tm, toc_registered(sm, n, text), n, text, t1, s1, r),
        };
    lemma_title_keeps_ids(t0, s0, n, v, tm, sm, title);
}

} // verus!
