//! What a concrete output format brings to the shared HTML engine.

use vstd::prelude::*;
use crate::error::{result_view, Error, ErrorView, Source};
use crate::html::{HtmlRenderer, RenderState};
use crate::token::Token;

verus! {

/// The tokens of a result, as the contracts see them.
pub open spec fn tokens_view(r: Result<Vec<Token>, Error>) -> Result<Seq<Token>, ErrorView> {
    match r {
        Ok(tokens) => Ok(tokens@),
        Err(e) => Err(e@),
    }
}

/// A renderer of a concrete output format, built around the shared HTML
/// engine.
///
/// It says which tokens it renders in its own way, and it stands for the book
/// and its services: the cleaning of text, the resolution of links and
/// images, the highlighting of code, the templates and the parser.
///
/// Each method comes with a condition of the same name ending in `_ensures`,
/// which says what the method promises of its result. An implementation may
/// leave it as it is, and then promises nothing. The contracts of the engine
/// speak of what the methods returned through these conditions only.
pub trait Renderer: Sized {
    /// What `overrides` promises: for `token` it may answer `answer`.
    open spec fn overrides_ensures(&self, token: Token, answer: bool) -> bool {
        true
    }

    /// Whether this renderer renders `token` in its own way, with
    /// `render_token`, instead of leaving it to the engine.
    fn overrides(&self, token: &Token) -> (answer: bool)
        ensures
            self.overrides_ensures(*token, answer),
    ;

    /// What `render_token` promises: from `before`, with the engine in the
    /// state `html`, it may render `token` as `output` and leave `after` and
    /// `html_after`.
    open spec fn render_token_ensures(
        before: Self,
        html: RenderState,
        token: Token,
        after: Self,
        html_after: RenderState,
        output: Result<Seq<char>, ErrorView>,
    ) -> bool {
        true
    }

    /// Renders a token that this renderer renders in its own way.
    fn render_token(&mut self, html: &mut HtmlRenderer, token: &Token) -> (output: Result<
        String,
        Error,
    >)
        ensures
            Self::render_token_ensures(
                *old(self),
                old(html)@,
                *token,
                *final(self),
                final(html)@,
                result_view(output),
            ),
    ;

    /// What `clean` promises: `text` may be cleaned to `output`.
    open spec fn clean_ensures(&self, text: Seq<char>, output: Seq<char>) -> bool {
        true
    }

    /// Cleans a text according to the typographic rules of the book.
    fn clean(&self, text: &str) -> (output: String)
        ensures
            self.clean_ensures(text@, output@),
    ;

    /// What `is_local` promises: for `url` it may answer `answer`.
    open spec fn is_local_ensures(&self, url: Seq<char>, answer: bool) -> bool {
        true
    }

    /// Whether a url points into the book rather than to the outside.
    fn is_local(&self, url: &str) -> (answer: bool)
        ensures
            self.is_local_ensures(url@, answer),
    ;

    /// What `get_link` promises: the local `url` may be mapped to `output`.
    open spec fn get_link_ensures(&self, url: Seq<char>, output: Seq<char>) -> bool {
        true
    }

    /// Maps a local url to the place where its target is rendered.
    fn get_link(&self, url: &str) -> (output: String)
        ensures
            self.get_link_ensures(url@, output@),
    ;

    /// What `map_image` promises: from `before`, the image at `url`, used in
    /// the file `source`, may be mapped to `output`, leaving `after`.
    open spec fn map_image_ensures(
        before: Self,
        source: Seq<char>,
        url: Seq<char>,
        after: Self,
        output: Result<Seq<char>, ErrorView>,
    ) -> bool {
        true
    }

    /// Maps the url of an image to what the rendered document refers to.
    fn map_image(&mut self, source: &Source, url: &str) -> (output: Result<String, Error>)
        ensures
            Self::map_image_ensures(*old(self), source@, url@, *final(self), result_view(output)),
    ;

    /// What `highlight` promises: `code` in `language` may be highlighted
    /// as `output`.
    open spec fn highlight_ensures(
        &self,
        code: Seq<char>,
        language: Seq<char>,
        output: Seq<char>,
    ) -> bool {
        true
    }

    /// Renders a block of code with its syntax highlighted.
    fn highlight(&self, code: &str, language: &str) -> (output: String)
        ensures
            self.highlight_ensures(code@, language@, output@),
    ;

    /// What `get_chapter_header` promises: from `before`, with the engine in
    /// the state `html`, the header of chapter `number` with the title
    /// `title` may be `output`, leaving `after` and `html_after`.
    open spec fn get_chapter_header_ensures(
        before: Self,
        html: RenderState,
        number: int,
        title: Seq<char>,
        after: Self,
        html_after: RenderState,
        output: Result<Seq<char>, ErrorView>,
    ) -> bool {
        true
    }

    /// Renders the header of a chapter from its number and its rendered
    /// title, according to the template of the book.
    fn get_chapter_header(&mut self, html: &mut HtmlRenderer, number: i32, title: String) -> (output:
        Result<String, Error>)
        ensures
            Self::get_chapter_header_ensures(
                *old(self),
                old(html)@,
                number as int,
                title@,
                *final(self),
                final(html)@,
                result_view(output),
            ),
    ;

    /// What `get_part_header` promises: from `before`, with the engine in
    /// the state `html`, the label of part `number` may be `output`, leaving
    /// `after` and `html_after`.
    open spec fn get_part_header_ensures(
        before: Self,
        html: RenderState,
        number: int,
        after: Self,
        html_after: RenderState,
        output: Result<Seq<char>, ErrorView>,
    ) -> bool {
        true
    }

    /// Renders the label of a part from its number, according to the
    /// template of the book.
    fn get_part_header(&mut self, html: &mut HtmlRenderer, number: i32) -> (output: Result<
        String,
        Error,
    >)
        ensures
            Self::get_part_header_ensures(
                *old(self),
                old(html)@,
                number as int,
                *final(self),
                final(html)@,
                result_view(output),
            ),
    ;

    /// What `get_str` promises: in `lang`, the text named `key` may be
    /// `output`.
    open spec fn get_str_ensures(&self, lang: Seq<char>, key: Seq<char>, output: Seq<char>) -> bool {
        true
    }

    /// The text named `key` in the language `lang`.
    fn get_str(&self, lang: &str, key: &str) -> (output: String)
        ensures
            self.get_str_ensures(lang@, key@, output@),
    ;

    /// What `render_template` promises: from `before`, the template `text`
    /// may be filled in as `output`, leaving `after`.
    open spec fn render_template_ensures(
        before: Self,
        text: Seq<char>,
        after: Self,
        output: Result<Seq<char>, ErrorView>,
    ) -> bool {
        true
    }

    /// Compiles a template and fills it in with the metadata of the book.
    fn render_template(&mut self, text: &str) -> (output: Result<String, Error>)
        ensures
            Self::render_template_ensures(*old(self), text@, *final(self), result_view(output)),
    ;

    /// What `render_toc_name` promises: from `before`, with the engine in
    /// the state `html`, the template `text` may give the title `output`,
    /// leaving `after` and `html_after`.
    open spec fn render_toc_name_ensures(
        before: Self,
        html: RenderState,
        text: Seq<char>,
        after: Self,
        html_after: RenderState,
        output: Result<Seq<char>, ErrorView>,
    ) -> bool {
        true
    }

    /// Fills in the template of the title of the table of contents with the
    /// metadata of the book, each rendered as inline text.
    fn render_toc_name(&mut self, html: &mut HtmlRenderer, text: &str) -> (output: Result<
        String,
        Error,
    >)
        ensures
            Self::render_toc_name_ensures(
                *old(self),
                old(html)@,
                text@,
                *final(self),
                final(html)@,
                result_view(output),
            ),
    ;

    /// What `parse` promises: from `before`, `text` may be parsed as
    /// `output`, leaving `after`.
    open spec fn parse_ensures(
        before: Self,
        text: Seq<char>,
        after: Self,
        output: Result<Seq<Token>, ErrorView>,
    ) -> bool {
        true
    }

    /// Parses a text into tokens.
    fn parse(&mut self, text: &str) -> (output: Result<Vec<Token>, Error>)
        ensures
            Self::parse_ensures(*old(self), text@, *final(self), tokens_view(output)),
    ;
}

} // verus!
