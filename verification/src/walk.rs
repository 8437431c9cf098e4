//! The walk over a tree of tokens that renders it to HTML.

use vstd::prelude::*;
use crate::epub::add_to_toc;
use crate::error::{result_view, Error, ErrorView};
use crate::html::{Highlight, HtmlRenderer, RenderState};
use crate::markup::paragraph_markup;
use crate::render::{
    annotation_rendered, chapter_rendered, end_notes_rendered, end_notes_rows, failure,
    html_rendered, side_notes_flushed, side_notes_shown, side_notes_text, code_block_rendered,
    footnote_rendered, header_rendered, image_rendered, link_rendered, paragraph_begun,
    paragraph_rendered, rendered, rendered_default, rendered_vec, str_rendered,
    table_head_rendered, title_full_rendered, title_rendered, toc_registered, wrapped,
};
use crate::renderer::Renderer;
use crate::token::{Data, Token};
use crate::witness::witness;

verus! {

/// Once a run of tokens has ended with an error, no further token changes
/// its rendering.
pub proof fn lemma_error_ends_run<T: Renderer>(
    t0: T,
    s0: RenderState,
    v: Seq<Token>,
    k: int,
    t1: T,
    s1: RenderState,
    e: ErrorView,
)
    requires
        0 <= k <= v.len(),
        rendered_vec(t0, s0, v.take(k), t1, s1, Err::<Seq<char>, ErrorView>(e)),
    ensures
        rendered_vec(t0, s0, v, t1, s1, Err::<Seq<char>, ErrorView>(e)),
    decreases v.len() - k,
{
    if k == v.len() {
        assert(v.take(k) =~= v);
    } else {
        let run = v.take(k + 1);
        assert(run.drop_last() =~= v.take(k));
        assert(witness(
            (t1, s1, Err::<Seq<char>, ErrorView>(e), Err::<Seq<char>, ErrorView>(e)),
        ));
        lemma_error_ends_run(t0, s0, v, k + 1, t1, s1, e);
    }
}

/// Once the tokens of a chapter have ended with an error, no further token
/// changes their rendering.
pub proof fn lemma_error_ends_chapter<T: Renderer>(
    t0: T,
    s0: RenderState,
    v: Seq<Token>,
    k: int,
    t1: T,
    s1: RenderState,
    e: ErrorView,
)
    requires
        0 <= k <= v.len(),
        chapter_rendered(t0, s0, v.take(k), t1, s1, Err::<Seq<char>, ErrorView>(e)),
    ensures
        chapter_rendered(t0, s0, v, t1, s1, Err::<Seq<char>, ErrorView>(e)),
    decreases v.len() - k,
{
    if k == v.len() {
        assert(v.take(k) =~= v);
    } else {
        let run = v.take(k + 1);
        assert(run.drop_last() =~= v.take(k));
        assert(witness(
            (t1, s1, Err::<Seq<char>, ErrorView>(e), s1, Err::<Seq<char>, ErrorView>(e)),
        ));
        lemma_error_ends_chapter(t0, s0, v, k + 1, t1, s1, e);
    }
}

impl<'a> HtmlRenderer<'a> {
    /// Renders a run of tokens, one after the other, up to the first error.
    pub fn render_vec<T: Renderer>(&mut self, this: &mut T, tokens: &[Token]) -> (r: Result<
        String,
        Error,
    >)
        ensures
            rendered_vec(*old(this), old(self)@, tokens@, *final(this), final(self)@, result_view(r)),
        decreases tokens@, 0int,
    {
        let mut out = String::new();
        let mut i: usize = 0;
        while i < tokens.len()
            invariant
                i <= tokens.len(),
                rendered_vec(
                    *old(this),
                    old(self)@,
                    tokens@.take(i as int),
                    *this,
                    self@,
                    Ok::<Seq<char>, ErrorView>(out@),
                ),
            decreases tokens.len() - i,
        {
            let ghost tm = *this;
            let ghost sm = self@;
            let ghost head = out@;
            let piece = self.render_token(this, &tokens[i]);
            proof {
                let run = tokens@.take(i + 1);
                assert(run.drop_last() =~= tokens@.take(i as int));
                assert(witness((tm, sm, Ok::<Seq<char>, ErrorView>(head), result_view(piece))));
            }
            match piece {
                Ok(s) => {
                    out.append(s.as_str());
                },
                Err(e) => {
                    proof {
                        lemma_error_ends_run(*old(this), old(self)@, tokens@, i + 1, *this, self@, e@);
                    }
                    return Err(e);
                },
            }
            i = i + 1;
        }
        proof {
            assert(tokens@.take(i as int) =~= tokens@);
        }
        Ok(out)
    }

    /// Renders a token: in the renderer's own way where it has one, in the
    /// engine's way otherwise.
    pub fn render_token<T: Renderer>(&mut self, this: &mut T, token: &Token) -> (r: Result<
        String,
        Error,
    >)
        ensures
            rendered(*old(this), old(self)@, *token, *final(this), final(self)@, result_view(r)),
        decreases token, 4int,
    {
        if this.overrides(token) {
            this.render_token(self, token)
        } else {
            self.static_render_token(this, token)
        }
    }

    /// Renders content between two pieces of markup.
    fn render_wrapped<T: Renderer>(
        &mut self,
        this: &mut T,
        children: &Vec<Token>,
        pre: &str,
        post: &str,
    ) -> (r: Result<String, Error>)
        ensures
            wrapped(
                *old(this),
                old(self)@,
                children@,
                *final(this),
                final(self)@,
                result_view(r),
                pre@,
                post@,
            ),
        decreases children, 1int,
    {
        let inner = self.render_vec(this, children.as_slice());
        proof {
            assert(witness(result_view(inner)));
        }
        match inner {
            Ok(content) => {
                let mut out = String::from_str(pre);
                out.append(content.as_str());
                out.append(post);
                Ok(out)
            },
            Err(e) => Err(e),
        }
    }

    /// Renders plain text.
    fn render_str<T: Renderer>(&mut self, this: &T, text: &String) -> (r: Result<String, Error>)
        ensures
            str_rendered(*this, old(self)@, text@, *this, final(self)@, result_view(r)),
    {
        let mut content = if self.verbatim {
            text.clone()
        } else {
            let cleaned = this.clean(text.as_str());
            crate::escape::html(cleaned.as_str())
        };
        if self.first_letter {
            self.first_letter = false;
        }
        if self.book.options.escape_nb_spaces {
            content = crate::escape::nb_spaces(content);
        }
        Ok(content)
    }

    /// Notes that a paragraph begins: if it is the first since a chapter
    /// began, its first letter is set apart where it begins with plain text.
    fn begin_paragraph(&mut self, vec: &Vec<Token>)
        ensures
            final(self)@ == paragraph_begun(old(self)@, vec@),
    {
        if self.first_paragraph {
            self.first_paragraph = false;
            if vec.len() > 0 && vec[0].is_str() {
                // Only use initials if first element is plain text
                self.first_letter = true;
            }
        }
    }

    /// Gives a paragraph the next number of its chapter and renders its tags.
    fn number_paragraph(&mut self, first: bool, content: &str) -> (r: Result<String, Error>)
        ensures
            old(self)@.current_par < u32::MAX ==> final(self)@ == (RenderState {
                current_par: old(self)@.current_par + 1,
                ..old(self)@
            }) && result_view(r) == Ok::<Seq<char>, ErrorView>(
                paragraph_markup(old(self)@.current_par + 1, first, content@),
            ),
            old(self)@.current_par >= u32::MAX ==> final(self)@ == old(self)@ && result_view(r)
                == Err::<Seq<char>, ErrorView>(failure(old(self)@, "too many paragraphs"@)),
    {
        if self.current_par < u32::MAX {
            self.current_par += 1;
            Ok(crate::markup::paragraph(self.current_par, first, content))
        } else {
            Err(Error::render(&self.source, String::from_str("too many paragraphs")))
        }
    }

    /// Renders a paragraph.
    fn render_paragraph<T: Renderer>(&mut self, this: &mut T, vec: &Vec<Token>) -> (r: Result<
        String,
        Error,
    >)
        ensures
            paragraph_rendered(
                *old(this),
                old(self)@,
                vec@,
                *final(this),
                final(self)@,
                result_view(r),
            ),
        decreases vec, 1int,
    {
        self.begin_paragraph(vec);
        let first: bool = self.first_letter && self.book.options.initials;
        let inner = self.render_vec(this, vec.as_slice());
        proof {
            assert(witness((self@, result_view(inner))));
        }
        match inner {
            Err(e) => Err(e),
            Ok(content) => self.number_paragraph(first, content.as_str()),
        }
    }

    /// Renders a title (without `<h1>` tags), increasing header number
    /// beforehand.
    #[verifier::rlimit(30)]
    pub fn render_title<T: Renderer>(&mut self, this: &mut T, n: i32, vec: &[Token]) -> (r:
        Result<String, Error>)
        ensures
            title_rendered(
                *old(this),
                old(self)@,
                n as int,
                vec@,
                *final(this),
                final(self)@,
                result_view(r),
            ),
        decreases vec@, 1int,
    {
        let level: i64 = if self.current_part {
            n as i64 - 1
        } else {
            n as i64
        };
        let countable: bool = self.link_number < u32::MAX && (if self.current_numbering as i64
            >= level {
            0 <= level && level < 7 && self.current_chapter[level as usize] < i32::MAX
        } else {
            true
        });
        if !countable {
            return Err(Error::render(&self.source, String::from_str("can not count this header")));
        }
        self.inc_header(level as i32);
        if level == 1 && self.current_numbering >= 1 {
            let chapter: i32 = self.current_chapter[1];
            let title = self.render_vec(this, vec);
            proof {
                assert(witness((*this, self@, result_view(title))));
            }
            match title {
                Err(e) => Err(e),
                Ok(text) => this.get_chapter_header(self, chapter, text),
            }
        } else if self.current_numbering as i64 >= level {
            let mut numbers = self.get_numbers();
            let inner = self.render_vec(this, vec);
            proof {
                assert(witness(result_view(inner)));
            }
            match inner {
                Err(e) => Err(e),
                Ok(content) => {
                    let ghost pre = numbers@ + " "@;
                    numbers.append(" ");
                    numbers.append(content.as_str());
                    proof {
                        assert(numbers@ =~= pre + content@ + Seq::<char>::empty());
                    }
                    Ok(numbers)
                },
            }
        } else {
            self.render_vec(this, vec)
        }
    }

    /// Renders a title, including `<h1>` tags and appropriate links.
    pub fn render_title_full<T: Renderer>(&mut self, this: &mut T, n: i32, inner: String) -> (r:
        Result<String, Error>)
        ensures
            title_full_rendered(
                *old(this),
                old(self)@,
                n as int,
                inner@,
                *final(this),
                final(self)@,
                result_view(r),
            ),
    {
        if n == 1 && self.current_hide {
            Ok(crate::markup::hidden_title(self.link_number))
        } else if n == 1 && self.current_part {
            let part: i32 = self.current_chapter[0];
            proof {
                assert(self@.current_chapter[0] == part);
            }
            let label = this.get_part_header(self, part);
            match label {
                Err(e) => Err(e),
                Ok(res) => Ok(
                    crate::markup::part_title(res.as_str(), self.link_number, inner.as_str()),
                ),
            }
        } else {
            Ok(crate::markup::title(n, self.link_number, inner.as_str()))
        }
    }

    /// Enters the header of level `n`, whose title was rendered as `title`,
    /// into the table of contents, if its level is one that the book numbers.
    fn register_header(&mut self, n: i32, title: &String)
        requires
            n > i32::MIN,
        ensures
            final(self)@ == toc_registered(old(self)@, n as int, title@),
    {
        if n <= self.book.options.num_depth {
            let url = crate::markup::anchor(self.filename.as_str(), self.link_number);
            if !self.current_part {
                add_to_toc(&mut self.toc, n, url, title.clone());
            } else {
                add_to_toc(&mut self.toc, n - 1, url, title.clone());
            }
        }
    }

    /// Renders a header.
    fn render_header<T: Renderer>(&mut self, this: &mut T, n: i32, vec: &Vec<Token>) -> (r: Result<
        String,
        Error,
    >)
        ensures
            header_rendered(
                *old(this),
                old(self)@,
                n as int,
                vec@,
                *final(this),
                final(self)@,
                result_view(r),
            ),
        decreases vec, 2int,
    {
        let title = self.render_title(this, n, vec.as_slice());
        proof {
            assert(witness((*this, self@, result_view(title))));
            if title is Ok {
                // a header that was counted has a level that can be lowered by one
                assert(n > i32::MIN);
            }
        }
        match title {
            Err(e) => Err(e),
            Ok(text) => {
                self.register_header(n, &text);
                self.render_title_full(this, n, text)
            },
        }
    }

    /// Renders a block of code.
    fn render_code_block<T: Renderer>(
        &mut self,
        this: &mut T,
        language: &String,
        vec: &Vec<Token>,
    ) -> (r: Result<String, Error>)
        ensures
            code_block_rendered(
                *old(this),
                old(self)@,
                language@,
                vec@,
                *final(this),
                final(self)@,
                result_view(r),
            ),
        decreases vec, 1int,
    {
        self.verbatim = true;
        let code = self.render_vec(this, vec.as_slice());
        proof {
            assert(witness((self@, result_view(code))));
        }
        match code {
            Err(e) => Err(e),
            Ok(s) => {
                let output = if self.highlight == Highlight::Syntect {
                    this.highlight(s.as_str(), language.as_str())
                } else {
                    crate::markup::plain_code(language.as_str(), s.as_str())
                };
                self.verbatim = false;
                Ok(output)
            },
        }
    }

    /// Renders the head row of a table.
    fn render_table_head<T: Renderer>(&mut self, this: &mut T, vec: &Vec<Token>) -> (r: Result<
        String,
        Error,
    >)
        ensures
            table_head_rendered(
                *old(this),
                old(self)@,
                vec@,
                *final(this),
                final(self)@,
                result_view(r),
            ),
        decreases vec, 1int,
    {
        self.table_head = true;
        let inner = self.render_vec(this, vec.as_slice());
        proof {
            assert(witness((self@, result_view(inner))));
        }
        match inner {
            Err(e) => Err(e),
            Ok(s) => {
                self.table_head = false;
                let mut out = String::from_str("<tr>\n");
                out.append(s.as_str());
                out.append("</tr>\n");
                Ok(out)
            },
        }
    }

    /// Renders a footnote.
    fn render_footnote<T: Renderer>(&mut self, this: &mut T, vec: &Vec<Token>) -> (r: Result<
        String,
        Error,
    >)
        ensures
            footnote_rendered(
                *old(this),
                old(self)@,
                vec@,
                *final(this),
                final(self)@,
                result_view(r),
            ),
        decreases vec, 1int,
    {
        if vec.len() == 0 {
            return Err(Error::render(&self.source, String::from_str("footnote without content")));
        }
        if self.footnote_number >= u32::MAX {
            return Err(Error::render(&self.source, String::from_str("too many footnotes")));
        }
        self.footnote_number += 1;
        let number: u32 = self.footnote_number;
        let note_number = crate::markup::footnote_marker(number);
        let body = self.render_vec(this, vec.as_slice());
        proof {
            assert(witness((self@, result_view(body))));
        }
        match body {
            Err(e) => Err(e),
            Ok(content) => {
                let inner = crate::markup::footnote_body(number, content.as_str());
                self.add_footnote(note_number, inner);
                Ok(crate::markup::footnote_reference(number))
            },
        }
    }

    /// Renders a link.
    fn render_link<T: Renderer>(
        &mut self,
        this: &mut T,
        url: &String,
        title: &String,
        vec: &Vec<Token>,
    ) -> (r: Result<String, Error>)
        ensures
            link_rendered(
                *old(this),
                old(self)@,
                url@,
                title@,
                vec@,
                *final(this),
                final(self)@,
                result_view(r),
            ),
        decreases vec, 1int,
    {
        let escaped = crate::escape::html(url.as_str());
        let target = if this.is_local(escaped.as_str()) {
            this.get_link(escaped.as_str())
        } else {
            escaped
        };
        let mut out = crate::markup::link_tag(target.as_str(), title.as_str());
        let inner = self.render_vec(this, vec.as_slice());
        proof {
            assert(witness((target@, result_view(inner))));
        }
        match inner {
            Err(e) => Err(e),
            Ok(content) => {
                out.append(content.as_str());
                out.append("</a>");
                Ok(out)
            },
        }
    }

    /// Renders an image, in a block of its own if it stands alone.
    fn render_image<T: Renderer>(
        &mut self,
        this: &mut T,
        url: &String,
        title: &String,
        alt: &Vec<Token>,
        standalone: bool,
    ) -> (r: Result<String, Error>)
        ensures
            image_rendered(
                *old(this),
                old(self)@,
                url@,
                title@,
                alt@,
                standalone,
                *final(this),
                final(self)@,
                result_view(r),
            ),
        decreases alt, 1int,
    {
        let content = self.render_vec(this, alt.as_slice());
        let ghost tm = *this;
        match content {
            Err(e) => {
                proof {
                    assert(witness((tm, result_view(content), Err::<Seq<char>, ErrorView>(e@))));
                }
                Err(e)
            },
            Ok(text) => {
                let mapped = this.map_image(&self.source, url.as_str());
                proof {
                    assert(witness((tm, Ok::<Seq<char>, ErrorView>(text@), result_view(mapped))));
                }
                match mapped {
                    Err(e) => Err(e),
                    Ok(m) => Ok(
                        crate::markup::image(m.as_str(), title.as_str(), text.as_str(), standalone),
                    ),
                }
            },
        }
    }

    /// Renders annotated text.
    fn render_annotation<T: Renderer>(
        &mut self,
        this: &mut T,
        annotation: &Data,
        vec: &Vec<Token>,
    ) -> (r: Result<String, Error>)
        ensures
            annotation_rendered(
                *old(this),
                old(self)@,
                *annotation,
                vec@,
                *final(this),
                final(self)@,
                result_view(r),
            ),
        decreases vec, 1int,
    {
        let inner = self.render_vec(this, vec.as_slice());
        proof {
            assert(witness(result_view(inner)));
        }
        match inner {
            Err(e) => Err(e),
            Ok(content) => {
                if self.proofread {
                    match annotation {
                        Data::GrammarError(message) => Ok(
                            crate::markup::grammar_error(message.as_str(), content.as_str()),
                        ),
                        Data::Repetition(colour) => {
                            if !self.verbatim {
                                Ok(crate::markup::repetition(colour.as_str(), content.as_str()))
                            } else {
                                Ok(content)
                            }
                        },
                    }
                } else {
                    Ok(content)
                }
            },
        }
    }

    /// Renders an ordered list that starts at `start`.
    fn render_ordered_list<T: Renderer>(&mut self, this: &mut T, start: usize, vec: &Vec<Token>) -> (r:
        Result<String, Error>)
        ensures
            wrapped(
                *old(this),
                old(self)@,
                vec@,
                *final(this),
                final(self)@,
                result_view(r),
                crate::markup::ordered_list_open(start as int),
                "</ol>\n"@,
            ),
        decreases vec, 2int,
    {
        let open = crate::markup::ordered_list_tag(start);
        self.render_wrapped(this, vec, open.as_str(), "</ol>\n")
    }

    /// Renders a token in the engine's way.
    pub fn static_render_token<T: Renderer>(&mut self, this: &mut T, token: &Token) -> (r: Result<
        String,
        Error,
    >)
        ensures
            rendered_default(
                *old(this),
                old(self)@,
                *token,
                *final(this),
                final(self)@,
                result_view(r),
            ),
        decreases token, 3int,
    {
        match token {
            Token::Str(text) => self.render_str(this, text),
            Token::Rule => Ok(String::from_str("<p class = \"rule\">***</p>\n")),
            Token::SoftBreak => Ok(String::from_str(" ")),
            Token::HardBreak => Ok(String::from_str("<br />\n")),
            Token::Emphasis(v) => self.render_wrapped(this, v, "<em>", "</em>"),
            Token::Strong(v) => self.render_wrapped(this, v, "<b>", "</b>"),
            Token::Code(v) => self.render_wrapped(this, v, "<code>", "</code>"),
            Token::BlockQuote(v) => self.render_wrapped(
                this,
                v,
                "<blockquote>",
                "</blockquote>\n",
            ),
            Token::List(v) => self.render_wrapped(this, v, "<ul>\n", "</ul>\n"),
            Token::Item(v) => self.render_wrapped(this, v, "<li>", "</li>\n"),
            Token::Table(_, v) => self.render_wrapped(
                this,
                v,
                "<div class = \"table\">\n    <table>\n",
                "\n    </table>\n</div>\n",
            ),
            Token::TableRow(v) => self.render_wrapped(this, v, "<tr>\n", "</tr>\n"),
            Token::TableCell(v) => {
                if self.table_head {
                    self.render_wrapped(this, v, "<th>", "</th>")
                } else {
                    self.render_wrapped(this, v, "<td>", "</td>")
                }
            },
            Token::OrderedList(start, v) => self.render_ordered_list(this, *start, v),
            Token::Paragraph(v) => self.render_paragraph(this, v),
            Token::Header(n, v) => self.render_header(this, *n, v),
            Token::CodeBlock(language, v) => self.render_code_block(this, language, v),
            Token::TableHead(v) => self.render_table_head(this, v),
            Token::Footnote(v) => self.render_footnote(this, v),
            Token::Link(url, title, v) => self.render_link(this, url, title, v),
            Token::Image(url, title, alt) => self.render_image(this, url, title, alt, false),
            Token::StandaloneImage(url, title, alt) => self.render_image(this, url, title, alt, true),
            Token::Annotation(annotation, v) => self.render_annotation(this, annotation, v),
        }
    }

    /// Display side notes if the book asks for them: every footnote that
    /// waits goes to the end of `res`.
    pub fn render_side_notes(&mut self, res: &mut String)
        ensures
            final(self)@ == side_notes_flushed(old(self)@),
            final(res)@ == old(res)@ + side_notes_shown(old(self)@),
    {
        if self.book.options.side_notes {
            let notes = self.drain();
            let ghost waiting = old(self)@.footnotes;
            let mut i: usize = 0;
            while i < notes.len()
                invariant
                    i <= notes.len(),
                    notes@.map_values(|note: (String, String)| (note.0@, note.1@)) == waiting,
                    res@ == old(res)@ + side_notes_text(waiting.take(i as int)),
                decreases notes.len() - i,
            {
                let note = crate::markup::side_note(notes[i].0.as_str(), notes[i].1.as_str());
                res.append(note.as_str());
                proof {
                    let run = waiting.take(i + 1);
                    assert(run.drop_last() =~= waiting.take(i as int));
                }
                i = i + 1;
            }
            proof {
                assert(waiting.take(i as int) =~= waiting);
            }
        }
    }

    /// Display end notes: the footnotes that wait, if there are any, go to
    /// the end of `res` as a table under the title of the notes.
    pub fn render_end_notes<T: Renderer>(&mut self, this: &T, res: &mut String)
        ensures
            end_notes_rendered(*this, old(self)@, old(res)@, final(self)@, final(res)@),
    {
        if self.footnotes.len() > 0 {
            let title = this.get_str(self.book.options.lang.as_str(), "notes");
            res.append("<div class = \"notes\">\n <h2 class = \"notes\">");
            res.append(title.as_str());
            res.append("</h2>\n<table class = \"notes\">\n");
            let ghost opened = res@;
            let notes = self.drain();
            let ghost waiting = old(self)@.footnotes;
            let mut i: usize = 0;
            while i < notes.len()
                invariant
                    i <= notes.len(),
                    notes@.map_values(|note: (String, String)| (note.0@, note.1@)) == waiting,
                    res@ == opened + end_notes_rows(waiting.take(i as int)),
                decreases notes.len() - i,
            {
                let note = crate::markup::end_note(notes[i].0.as_str(), notes[i].1.as_str());
                res.append(note.as_str());
                proof {
                    let run = waiting.take(i + 1);
                    assert(run.drop_last() =~= waiting.take(i as int));
                }
                i = i + 1;
            }
            res.append("</table>\n</div>\n");
            proof {
                assert(waiting.take(i as int) =~= waiting);
                assert(res@ =~= old(res)@ + crate::markup::end_notes_open(title@) + end_notes_rows(
                    waiting,
                ) + "</table>\n</div>\n"@);
            }
        }
    }

    /// Renders the tokens of a chapter, with the footnotes that stand
    /// beside the text after the token that brought them.
    fn render_chapter<T: Renderer>(&mut self, this: &mut T, tokens: &[Token]) -> (r: Result<
        String,
        Error,
    >)
        ensures
            chapter_rendered(
                *old(this),
                old(self)@,
                tokens@,
                *final(this),
                final(self)@,
                result_view(r),
            ),
    {
        let mut res = String::new();
        let mut i: usize = 0;
        while i < tokens.len()
            invariant
                i <= tokens.len(),
                chapter_rendered(
                    *old(this),
                    old(self)@,
                    tokens@.take(i as int),
                    *this,
                    self@,
                    Ok::<Seq<char>, ErrorView>(res@),
                ),
            decreases tokens.len() - i,
        {
            let ghost tm = *this;
            let ghost sm = self@;
            let ghost head = res@;
            let piece = self.render_token(this, &tokens[i]);
            let ghost sl = self@;
            proof {
                let run = tokens@.take(i + 1);
                assert(run.drop_last() =~= tokens@.take(i as int));
                assert(witness((tm, sm, Ok::<Seq<char>, ErrorView>(head), sl, result_view(piece))));
            }
            match piece {
                Ok(s) => {
                    res.append(s.as_str());
                    self.render_side_notes(&mut res);
                },
                Err(e) => {
                    proof {
                        lemma_error_ends_chapter(
                            *old(this),
                            old(self)@,
                            tokens@,
                            i + 1,
                            *this,
                            self@,
                            e@,
                        );
                    }
                    return Err(e);
                },
            }
            i = i + 1;
        }
        proof {
            assert(tokens@.take(i as int) =~= tokens@);
        }
        Ok(res)
    }

    /// Renders a chapter to HTML: its tokens, then the notes at the end if
    /// `render_end_notes` asks for them.
    pub fn render_html<T: Renderer>(
        &mut self,
        this: &mut T,
        tokens: &[Token],
        render_end_notes: bool,
    ) -> (r: Result<String, Error>)
        ensures
            html_rendered(
                *old(this),
                old(self)@,
                tokens@,
                render_end_notes,
                *final(this),
                final(self)@,
                result_view(r),
            ),
    {
        let body = self.render_chapter(this, tokens);
        let ghost sm = self@;
        proof {
            assert(witness((sm, result_view(body))));
        }
        match body {
            Err(e) => Err(e),
            Ok(text) => {
                let mut res = text;
                if render_end_notes {
                    self.render_end_notes(this, &mut res);
                }
                Ok(res)
            },
        }
    }
}

} // verus!
