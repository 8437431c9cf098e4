//! What stands around the chapters of a page: its header and footer, from
//! the templates of the book, and the title of the table of contents.

use vstd::prelude::*;
use crate::error::{result_view, Error, ErrorKind, ErrorView};
use crate::html::{HtmlRenderer, RenderState};
use crate::render::wrapped;
use crate::renderer::Renderer;
use crate::token::Token;
use crate::witness::witness;

verus! {

/// The error of a template of the book that could not be filled in: what
/// was being rendered, then the message of the cause.
pub open spec fn template_failure(s: RenderState, what: Seq<char>, cause: ErrorView) -> ErrorView {
    ErrorView {
        kind: ErrorKind::Render,
        source: s.book.source@,
        msg: what + cause.message(),
    }
}

/// The rendering of a text that is parsed and then rendered between two
/// pieces of markup.
pub open spec fn parsed_rendered<T: Renderer>(
    t0: T,
    s0: RenderState,
    text: Seq<char>,
    pre: Seq<char>,
    post: Seq<char>,
    t1: T,
    s1: RenderState,
    r: Result<Seq<char>, ErrorView>,
) -> bool {
    exists|tm: T, tokens: Result<Seq<Token>, ErrorView>| #[trigger]
        T::parse_ensures(t0, text, tm, tokens) && match tokens {
            Err(e) => t1 == tm && s1 == s0 && r == Err::<Seq<char>, ErrorView>(e),
            Ok(v) => wrapped(tm, s0, v, t1, s1, r, pre, post),
        }
}

/// The rendering of the header of a page: nothing where the book has no
/// template for it; else the template is filled in, parsed and rendered
/// inside a block.
pub open spec fn header_page_rendered<T: Renderer>(
    t0: T,
    s0: RenderState,
    t1: T,
    s1: RenderState,
    r: Result<Seq<char>, ErrorView>,
) -> bool {
    match s0.book.options.header {
        None => t1 == t0 && s1 == s0 && r == Ok::<Seq<char>, ErrorView>(Seq::empty()),
        Some(top) => exists|tm: T, content: Result<Seq<char>, ErrorView>| #[trigger]
            T::render_template_ensures(t0, top@, tm, content) && match content {
                Err(e) => t1 == tm && s1 == s0 && r == Err::<Seq<char>, ErrorView>(
                    template_failure(s0, "rendering 'html.header' template:\n"@, e),
                ),
                Ok(c) => parsed_rendered(tm, s0, c, "<div id = \"top\">"@, "</div>"@, t1, s1, r),
            },
    }
}

/// The rendering of the footer of a page: nothing where the book has no
/// template for it or the template comes out empty; else the template is
/// filled in, parsed and rendered inside a `footer`.
pub open spec fn footer_page_rendered<T: Renderer>(
    t0: T,
    s0: RenderState,
    t1: T,
    s1: RenderState,
    r: Result<Seq<char>, ErrorView>,
) -> bool {
    match s0.book.options.footer {
        None => t1 == t0 && s1 == s0 && r == Ok::<Seq<char>, ErrorView>(Seq::empty()),
        Some(footer) => exists|tm: T, content: Result<Seq<char>, ErrorView>| #[trigger]
            T::render_template_ensures(t0, footer@, tm, content) && match content {
                Err(e) => t1 == tm && s1 == s0 && r == Err::<Seq<char>, ErrorView>(
                    template_failure(s0, "rendering 'html.footer' template:\n"@, e),
                ),
                Ok(c) => if c.len() == 0 {
                    t1 == tm && s1 == s0 && r == Ok::<Seq<char>, ErrorView>(c)
                } else {
                    parsed_rendered(
                        tm,
                        s0,
                        c,
                        "<footer id = \"footer\">"@,
                        "</footer>"@,
                        t1,
                        s1,
                        r,
                    )
                },
            },
    }
}

/// The rendering of the title of the table of contents: the template of
/// the book for it, filled in by the renderer.
pub open spec fn toc_name_rendered<T: Renderer>(
    t0: T,
    s0: RenderState,
    t1: T,
    s1: RenderState,
    r: Result<Seq<char>, ErrorView>,
) -> bool {
    exists|name: Result<Seq<char>, ErrorView>| #[trigger]
        T::render_toc_name_ensures(t0, s0, s0.book.options.inline_toc_name@, t1, s1, name) && r
            == match name {
            Ok(title) => Ok(title),
            Err(e) => Err(
                template_failure(s1, "rendering 'rendering.inline_toc.name' template:\n"@, e),
            ),
        }
}

impl<'a> HtmlRenderer<'a> {
    /// Consider the text as a template, and fill it in with the metadata of
    /// the book.
    pub fn templatize<T: Renderer>(&mut self, this: &mut T, s: &str) -> (r: Result<String, Error>)
        ensures
            T::render_template_ensures(*old(this), s@, *final(this), result_view(r)),
            final(self)@ == old(self)@,
    {
        this.render_template(s)
    }

    /// Renders the title of the table of contents, from the template of the
    /// book.
    pub fn get_toc_name<T: Renderer>(&mut self, this: &mut T) -> (r: Result<String, Error>)
        ensures
            toc_name_rendered(*old(this), old(self)@, *final(this), final(self)@, result_view(r)),
    {
        let book = self.book;
        let name = this.render_toc_name(self, book.options.inline_toc_name.as_str());
        match name {
            Ok(title) => Ok(title),
            Err(err) => Err(
                self.template_error("rendering 'rendering.inline_toc.name' template:\n", &err),
            ),
        }
    }

    /// The error of a template of the book that could not be filled in.
    fn template_error(&self, what: &str, cause: &Error) -> (error: Error)
        ensures
            error@ == template_failure(self@, what@, cause@),
    {
        let mut msg = String::from_str(what);
        msg.append(cause.message().as_str());
        Error::render(&self.book.source, msg)
    }

    /// Parses a text and renders it between two pieces of markup.
    fn render_parsed<T: Renderer>(&mut self, this: &mut T, text: &str, pre: &str, post: &str) -> (r:
        Result<String, Error>)
        ensures
            parsed_rendered(
                *old(this),
                old(self)@,
                text@,
                pre@,
                post@,
                *final(this),
                final(self)@,
                result_view(r),
            ),
    {
        let tokens = this.parse(text);
        match tokens {
            Err(e) => Err(e),
            Ok(v) => {
                let inner = self.render_vec(this, v.as_slice());
                proof {
                    assert(witness(result_view(inner)));
                }
                match inner {
                    Err(e) => Err(e),
                    Ok(content) => {
                        let mut out = String::from_str(pre);
                        out.append(content.as_str());
                        out.append(post);
                        Ok(out)
                    },
                }
            },
        }
    }

    /// Renders a footer, which can include a link to the program that made
    /// the book, or a customized text.
    pub fn get_footer<T: Renderer>(&mut self, this: &mut T) -> (r: Result<String, Error>)
        ensures
            footer_page_rendered(
                *old(this),
                old(self)@,
                *final(this),
                final(self)@,
                result_view(r),
            ),
    {
        let book = self.book;
        match &book.options.footer {
            None => Ok(String::new()),
            Some(footer) => {
                let content = self.templatize(this, footer.as_str());
                match content {
                    Err(err) => Err(self.template_error("rendering 'html.footer' template:\n", &err)),
                    Ok(c) => {
                        if c.as_str().is_empty() {
                            Ok(c)
                        } else {
                            self.render_parsed(this, c.as_str(), "<footer id = \"footer\">", "</footer>")
                        }
                    },
                }
            },
        }
    }

    /// Renders a header.
    pub fn get_header<T: Renderer>(&mut self, this: &mut T) -> (r: Result<String, Error>)
        ensures
            header_page_rendered(
                *old(this),
                old(self)@,
                *final(this),
                final(self)@,
                result_view(r),
            ),
    {
        let book = self.book;
        match &book.options.header {
            None => Ok(String::new()),
            Some(top) => {
                let content = self.templatize(this, top.as_str());
                match content {
                    Err(err) => Err(self.template_error("rendering 'html.header' template:\n", &err)),
                    Ok(c) => self.render_parsed(this, c.as_str(), "<div id = \"top\">", "</div>"),
                }
            },
        }
    }
}

} // verus!
