use crowbook::book::{Book, Options};
use crowbook::error::{Error, ErrorKind, Source};
use crowbook::html::HtmlRenderer;
use crowbook::number::Number;
use crowbook::renderer::Renderer;
use crowbook::token::{Data, Token};

fn options() -> Options {
    Options {
        num_depth: 2,
        initials: false,
        highlight: "none".to_string(),
        side_notes: false,
        chapter_roman_numerals: false,
        part_roman_numerals: false,
        part_reset_counter: true,
        escape_nb_spaces: false,
        header: None,
        footer: None,
        inline_toc_name: "{{toc}}".to_string(),
        lang: "en".to_string(),
    }
}

fn book_with(options: Options) -> Book {
    Book {
        options,
        source: Source::new("my.book"),
        chapters: vec!["one.md".to_string(), "two.md".to_string()],
    }
}

/// A renderer that leaves every token to the engine and stands for a small
/// book whose services are easy to predict.
struct Simple {
    images: u32,
    rules_as_hr: bool,
}

impl Simple {
    fn new() -> Simple {
        Simple { images: 0, rules_as_hr: false }
    }
}

impl Renderer for Simple {
    fn overrides(&self, token: &Token) -> bool {
        self.rules_as_hr && matches!(token, Token::Rule)
    }

    fn render_token(&mut self, html: &mut HtmlRenderer, _token: &Token) -> Result<String, Error> {
        html.link_number += 100;
        Ok("<hr />".to_string())
    }

    fn clean(&self, text: &str) -> String {
        crowbook_text_processing::clean::whitespaces(text).into_owned()
    }

    fn is_local(&self, url: &str) -> bool {
        !url.contains("://")
    }

    fn get_link(&self, url: &str) -> String {
        format!("book/{}", url)
    }

    fn map_image(&mut self, source: &Source, url: &str) -> Result<String, Error> {
        if url.starts_with("missing") {
            Err(Error::new(
                ErrorKind::Resource,
                source,
                format!("could not find image {}", url),
            ))
        } else {
            self.images += 1;
            Ok(format!("images/{}-{}", self.images, url))
        }
    }

    fn highlight(&self, code: &str, language: &str) -> String {
        format!("<pre class = \"{}\">{}</pre>", language, code)
    }

    fn get_chapter_header(
        &mut self,
        _html: &mut HtmlRenderer,
        number: i32,
        title: String,
    ) -> Result<String, Error> {
        Ok(format!("Chapter {}: {}", number, title))
    }

    fn get_part_header(&mut self, _html: &mut HtmlRenderer, number: i32) -> Result<String, Error> {
        Ok(format!("Part {}", number))
    }

    fn get_str(&self, lang: &str, key: &str) -> String {
        format!("{}:{}", lang, key)
    }

    fn render_template(&mut self, text: &str) -> Result<String, Error> {
        if text.contains("{{{") {
            Err(Error::new(
                ErrorKind::Template,
                &Source::new("tpl"),
                "unclosed tag".to_string(),
            ))
        } else {
            Ok(text.replace("{{title}}", "My Book"))
        }
    }

    fn render_toc_name(&mut self, html: &mut HtmlRenderer, text: &str) -> Result<String, Error> {
        if text.contains("{{{") {
            return Err(Error::new(
                ErrorKind::Template,
                &Source::new("tpl"),
                "unclosed tag".to_string(),
            ));
        }
        let title = html.render_vec(self, &vec![Token::Emphasis(vec![text_token("Contents")])])?;
        Ok(text.replace("{{toc}}", &title))
    }

    fn parse(&mut self, text: &str) -> Result<Vec<Token>, Error> {
        if text.starts_with('!') {
            Err(Error::new(ErrorKind::Parser, &Source::empty(), "bad markup".to_string()))
        } else {
            Ok(vec![Token::Paragraph(vec![Token::Str(text.to_string())])])
        }
    }
}

fn text_token(s: &str) -> Token {
    Token::Str(s.to_string())
}

fn render(book: &Book, token: Token) -> String {
    let mut html = HtmlRenderer::new(book);
    let mut simple = Simple::new();
    html.render_token(&mut simple, &token).unwrap()
}

#[test]
fn text_is_cleaned_and_escaped() {
    let book = book_with(options());
    assert_eq!(render(&book, text_token("a  <b>  &   c")), "a &lt;b&gt; &amp; c");
}

#[test]
fn text_loses_the_first_letter_flag() {
    let book = book_with(options());
    let mut html = HtmlRenderer::new(&book);
    let mut simple = Simple::new();
    html.first_letter = true;
    html.render_token(&mut simple, &text_token("a")).unwrap();
    assert!(!html.first_letter);
}

#[test]
fn verbatim_text_is_copied() {
    let book = book_with(options());
    let mut html = HtmlRenderer::new(&book);
    let mut simple = Simple::new();
    html.verbatim = true;
    assert_eq!(
        html.render_token(&mut simple, &text_token("a  <b>")).unwrap(),
        "a  <b>"
    );
}

#[test]
fn non_breaking_spaces_are_marked_up_when_asked_for() {
    let mut o = options();
    o.escape_nb_spaces = true;
    let book = book_with(o);
    assert_eq!(
        render(&book, text_token("a\u{a0}b\u{202f}c\u{2002}d")),
        "a<span class = \"nbsp\">&#160;</span>b<span class = \"nnbsp\">&#8201;</span>c<span class = \"ensp\">&#8194;</span>d"
    );
    let book = book_with(options());
    assert_eq!(render(&book, text_token("a\u{a0}b")), "a\u{a0}b");
}

#[test]
fn tokens_that_wrap_their_content() {
    let book = book_with(options());
    let inner = || vec![text_token("x")];
    assert_eq!(render(&book, Token::Emphasis(inner())), "<em>x</em>");
    assert_eq!(render(&book, Token::Strong(inner())), "<b>x</b>");
    assert_eq!(render(&book, Token::Code(inner())), "<code>x</code>");
    assert_eq!(render(&book, Token::BlockQuote(inner())), "<blockquote>x</blockquote>\n");
    assert_eq!(render(&book, Token::List(inner())), "<ul>\nx</ul>\n");
    assert_eq!(render(&book, Token::OrderedList(1, inner())), "<ol>\nx</ol>\n");
    assert_eq!(render(&book, Token::OrderedList(3, inner())), "<ol start = \"3\">\nx</ol>\n");
    assert_eq!(render(&book, Token::Item(inner())), "<li>x</li>\n");
    assert_eq!(render(&book, Token::TableRow(inner())), "<tr>\nx</tr>\n");
    assert_eq!(render(&book, Token::TableCell(inner())), "<td>x</td>");
    assert_eq!(
        render(&book, Token::Table(2, inner())),
        "<div class = \"table\">\n    <table>\nx\n    </table>\n</div>\n"
    );
}

#[test]
fn tokens_without_content() {
    let book = book_with(options());
    assert_eq!(render(&book, Token::Rule), "<p class = \"rule\">***</p>\n");
    assert_eq!(render(&book, Token::SoftBreak), " ");
    assert_eq!(render(&book, Token::HardBreak), "<br />\n");
}

#[test]
fn cells_of_a_table_head_are_header_cells() {
    let book = book_with(options());
    let table = Token::Table(
        1,
        vec![
            Token::TableHead(vec![Token::TableCell(vec![text_token("h")])]),
            Token::TableRow(vec![Token::TableCell(vec![text_token("d")])]),
        ],
    );
    let mut html = HtmlRenderer::new(&book);
    let mut simple = Simple::new();
    assert_eq!(
        html.render_token(&mut simple, &table).unwrap(),
        "<div class = \"table\">\n    <table>\n<tr>\n<th>h</th></tr>\n<tr>\n<td>d</td></tr>\n\n    </table>\n</div>\n"
    );
    assert!(!html.table_head);
}

#[test]
fn paragraphs_are_numbered_within_the_chapter() {
    let book = book_with(options());
    let mut html = HtmlRenderer::new(&book);
    let mut simple = Simple::new();
    let tokens = vec![
        Token::Paragraph(vec![text_token("one")]),
        Token::Paragraph(vec![text_token("two")]),
    ];
    assert_eq!(
        html.render_vec(&mut simple, &tokens).unwrap(),
        "<p id = \"para-1\">one</p>\n<p id = \"para-2\">two</p>\n"
    );
    assert_eq!(html.current_par, 2);
    assert!(!html.first_paragraph);
}

#[test]
fn the_first_paragraph_is_set_apart_when_it_begins_with_text() {
    let mut o = options();
    o.initials = true;
    let book = book_with(o);
    let mut html = HtmlRenderer::new(&book);
    let mut simple = Simple::new();
    let tokens = vec![
        Token::Paragraph(vec![text_token("one")]),
        Token::Paragraph(vec![text_token("two")]),
    ];
    assert_eq!(
        html.render_vec(&mut simple, &tokens).unwrap(),
        "<p id = \"para-1\" class = \"first-para\">one</p>\n<p id = \"para-2\">two</p>\n"
    );

    let mut html = HtmlRenderer::new(&book);
    let tokens = vec![Token::Paragraph(vec![Token::Emphasis(vec![text_token("one")])])];
    assert_eq!(
        html.render_vec(&mut simple, &tokens).unwrap(),
        "<p id = \"para-1\"><em>one</em></p>\n"
    );
    assert!(!html.first_letter);

    let mut html = HtmlRenderer::new(&book);
    let tokens = vec![Token::Paragraph(vec![])];
    assert_eq!(html.render_vec(&mut simple, &tokens).unwrap(), "<p id = \"para-1\"></p>\n");
}

#[test]
fn paragraphs_run_out_of_numbers() {
    let book = book_with(options());
    let mut html = HtmlRenderer::new(&book);
    let mut simple = Simple::new();
    html.current_par = u32::MAX - 1;
    let token = Token::Paragraph(vec![text_token("x")]);
    assert_eq!(
        html.render_token(&mut simple, &token).unwrap(),
        "<p id = \"para-4294967295\">x</p>\n"
    );
    let error = html.render_token(&mut simple, &token).unwrap_err();
    assert_eq!(error.kind, ErrorKind::Render);
    assert_eq!(error.msg, "too many paragraphs");
    assert_eq!(html.current_par, u32::MAX);
}

#[test]
fn a_numbered_chapter_header() {
    let book = book_with(options());
    let mut html = HtmlRenderer::new(&book);
    let mut simple = Simple::new();
    html.chapter_config(0, Number::Default, "one.html".to_string());
    html.current_chapter = [0, 2, 4, 4, 0, 0, 0];
    let token = Token::Header(1, vec![text_token("Intro")]);
    assert_eq!(
        html.render_token(&mut simple, &token).unwrap(),
        "<h1 id = \"link-1\">Chapter 3: Intro</h1>\n"
    );
    assert_eq!(html.current_chapter, [0, 3, 0, 0, 0, 0, 0]);
    assert_eq!(html.link_number, 1);
    assert_eq!(html.get_numbers(), "3.");
    let mut toc = html.get_toc();
    assert_eq!(toc.len(), 1);
    assert_eq!(toc.level(0), 1);
    assert_eq!(
        toc.render(),
        "<ul>\n <li><a href = \"one.html#link-1\">Chapter 3: Intro</a>\n </li>\n</ul>"
    );
}

#[test]
fn a_numbered_section_header() {
    let book = book_with(options());
    let mut html = HtmlRenderer::new(&book);
    let mut simple = Simple::new();
    html.chapter_config(0, Number::Default, "one.html".to_string());
    let tokens = vec![
        Token::Header(1, vec![text_token("Intro")]),
        Token::Header(2, vec![text_token("First")]),
        Token::Header(2, vec![text_token("Second")]),
        Token::Header(3, vec![text_token("Deeper")]),
    ];
    assert_eq!(
        html.render_vec(&mut simple, &tokens).unwrap(),
        "<h1 id = \"link-1\">Chapter 1: Intro</h1>\n\
<h2 id = \"link-2\">1.1. First</h2>\n\
<h2 id = \"link-3\">1.2. Second</h2>\n\
<h3 id = \"link-4\">Deeper</h3>\n"
    );
    assert_eq!(html.current_chapter, [0, 1, 2, 0, 0, 0, 0]);
    assert_eq!(html.link_number, 4);
    let mut toc = html.get_toc();
    assert_eq!(toc.len(), 3);
    assert_eq!(
        toc.render(),
        "<ul>\n \
<li><a href = \"one.html#link-1\">Chapter 1: Intro</a>\n \
<ul>\n  \
<li><a href = \"one.html#link-2\">1.1. First</a>\n  \
</li>\n  \
<li><a href = \"one.html#link-3\">1.2. Second</a>\n  \
</li>\n \
</ul>\n \
</li>\n\
</ul>"
    );
}

#[test]
fn an_unnumbered_chapter_header() {
    let book = book_with(options());
    let mut html = HtmlRenderer::new(&book);
    let mut simple = Simple::new();
    html.chapter_config(0, Number::Unnumbered, "one.html".to_string());
    let token = Token::Header(1, vec![text_token("Preface")]);
    assert_eq!(
        html.render_token(&mut simple, &token).unwrap(),
        "<h1 id = \"link-1\">Preface</h1>\n"
    );
    assert_eq!(html.current_chapter, [0, 0, 0, 0, 0, 0, 0]);
    assert_eq!(
        html.get_toc().render_epub(1),
        "\n   <navPoint id = \"navPoint-1\">\n     <navLabel>\n       <text>Preface</text>\n     </navLabel>\n     <content src = \"one.html#link-1\" />\n    </navPoint>\n"
    );
}

#[test]
fn a_hidden_chapter_header_is_an_empty_anchor() {
    let book = book_with(options());
    let mut html = HtmlRenderer::new(&book);
    let mut simple = Simple::new();
    html.chapter_config(0, Number::Hidden, "one.html".to_string());
    html.link_number = 6;
    let token = Token::Header(1, vec![text_token("Secret")]);
    assert_eq!(html.render_token(&mut simple, &token).unwrap(), "<h1 id = \"link-7\"></h1>");
    assert_eq!(html.link_number, 7);
    let mut toc = html.get_toc();
    assert_eq!(toc.len(), 1);
    assert_eq!(
        toc.render(),
        "<ul>\n <li><a href = \"one.html#link-7\">Secret</a>\n </li>\n</ul>"
    );
}

#[test]
fn the_header_of_a_part() {
    let mut o = options();
    o.part_roman_numerals = true;
    let book = book_with(o);
    let mut html = HtmlRenderer::new(&book);
    let mut simple = Simple::new();
    html.chapter_config(0, Number::SpecifiedPart(4), "one.html".to_string());
    html.current_chapter = [3, 5, 1, 0, 0, 0, 0];
    let token = Token::Header(1, vec![text_token("Beginnings")]);
    assert_eq!(
        html.render_token(&mut simple, &token).unwrap(),
        "<h2 class = \"part\">Part 4</h2>\n<h1 id = \"link-1\" class = \"part\"> Beginnings</h1>\n"
    );
    assert_eq!(html.current_chapter, [4, 0, 0, 0, 0, 0, 0]);
    let mut toc = html.get_toc();
    assert_eq!(toc.len(), 1);
    assert_eq!(toc.level(0), 0);
    assert_eq!(
        toc.render(),
        "<ul>\n <li><a href = \"one.html#link-1\"> Beginnings</a>\n </li>\n</ul>"
    );
}

#[test]
fn the_header_of_a_part_with_a_plain_number() {
    let book = book_with(options());
    let mut html = HtmlRenderer::new(&book);
    let mut simple = Simple::new();
    html.chapter_config(0, Number::DefaultPart, "one.html".to_string());
    let token = Token::Header(1, vec![text_token("Beginnings")]);
    html.render_token(&mut simple, &token).unwrap();
    assert_eq!(
        html.get_toc().render(),
        "<ul>\n <li><a href = \"one.html#link-1\"> Beginnings</a>\n </li>\n</ul>"
    );
}

#[test]
fn a_header_in_a_part_enters_the_table_one_level_up_under_its_title() {
    let book = book_with(options());
    let mut html = HtmlRenderer::new(&book);
    let mut simple = Simple::new();
    html.chapter_config(0, Number::UnnumberedPart, "one.html".to_string());
    let tokens = vec![
        Token::Header(2, vec![text_token("Second")]),
        Token::Header(3, vec![text_token("Third")]),
    ];
    assert_eq!(
        html.render_vec(&mut simple, &tokens).unwrap(),
        "<h2 id = \"link-1\">Second</h2>\n<h3 id = \"link-2\">Third</h3>\n"
    );
    let toc = html.get_toc();
    assert_eq!(toc.len(), 1);
    assert_eq!(toc.level(0), 1);
    let mut toc = html.get_toc();
    assert_eq!(
        toc.render(),
        "<ul>\n <li><a href = \"one.html#link-1\">Second</a>\n </li>\n</ul>"
    );
}

#[test]
fn a_header_that_can_not_be_counted() {
    let mut o = options();
    o.num_depth = 9;
    let book = book_with(o);
    let mut html = HtmlRenderer::new(&book);
    let mut simple = Simple::new();
    html.chapter_config(0, Number::Default, "one.html".to_string());
    let error = html
        .render_token(&mut simple, &Token::Header(7, vec![text_token("x")]))
        .unwrap_err();
    assert_eq!(error.kind, ErrorKind::Render);
    assert_eq!(error.msg, "can not count this header");
    assert_eq!(error.source.file, "one.md");
    assert_eq!(html.link_number, 0);

    let error = html
        .render_token(&mut simple, &Token::Header(-1, vec![text_token("x")]))
        .unwrap_err();
    assert_eq!(error.msg, "can not count this header");

    html.link_number = u32::MAX;
    let error = html
        .render_token(&mut simple, &Token::Header(1, vec![text_token("x")]))
        .unwrap_err();
    assert_eq!(error.msg, "can not count this header");
    assert_eq!(html.link_number, u32::MAX);
}

#[test]
fn anchors_go_up_by_one() {
    let book = book_with(options());
    let mut html = HtmlRenderer::new(&book);
    let mut simple = Simple::new();
    html.chapter_config(0, Number::Unnumbered, "one.html".to_string());
    let mut seen = vec![];
    for i in 0..5 {
        let token = Token::Header(1 + (i % 3), vec![text_token("x")]);
        html.render_token(&mut simple, &token).unwrap();
        seen.push(html.link_number);
    }
    assert_eq!(seen, vec![1, 2, 3, 4, 5]);
}

#[test]
fn code_blocks() {
    let book = book_with(options());
    let code = || vec![text_token("a  < b")];
    assert_eq!(
        render(&book, Token::CodeBlock("".to_string(), code())),
        "<pre><code>a  < b</code></pre>\n"
    );
    assert_eq!(
        render(&book, Token::CodeBlock("rust".to_string(), code())),
        "<pre><code class = \"language-rust\">a  &lt; b</code></pre>\n"
    );
    let mut o = options();
    o.highlight = "syntect".to_string();
    let book = book_with(o);
    let mut html = HtmlRenderer::new(&book);
    let mut simple = Simple::new();
    assert_eq!(
        html.render_token(&mut simple, &Token::CodeBlock("rust".to_string(), code())).unwrap(),
        "<pre class = \"rust\">a  < b</pre>"
    );
    assert!(!html.verbatim);
}

#[test]
fn links_are_resolved_when_local() {
    let book = book_with(options());
    assert_eq!(
        render(&book, Token::Link("ch2.md".to_string(), "".to_string(), vec![text_token("next")])),
        "<a href = \"book/ch2.md\">next</a>"
    );
    assert_eq!(
        render(
            &book,
            Token::Link(
                "http://example.org/?a=1&b=2".to_string(),
                "Example".to_string(),
                vec![text_token("there")]
            )
        ),
        "<a href = \"http://example.org/?a=1&amp;b=2\" title = \"Example\">there</a>"
    );
}

#[test]
fn images_are_mapped() {
    let book = book_with(options());
    assert_eq!(
        render(
            &book,
            Token::Image("cat.png".to_string(), "A cat".to_string(), vec![text_token("cat")])
        ),
        "<img src = \"images/1-cat.png\" title = \"A cat\" alt = \"cat\" />"
    );
    assert_eq!(
        render(
            &book,
            Token::StandaloneImage("cat.png".to_string(), "A cat".to_string(), vec![text_token("cat")])
        ),
        "<div class = \"image\">\n  <img src = \"images/1-cat.png\" title = \"A cat\" alt = \"cat\" />\n</div>"
    );
}

#[test]
fn an_image_that_can_not_be_mapped_ends_the_rendering() {
    let book = book_with(options());
    let mut html = HtmlRenderer::new(&book);
    let mut simple = Simple::new();
    html.chapter_config(1, Number::Default, "two.html".to_string());
    let tokens = vec![
        Token::Paragraph(vec![text_token("before")]),
        Token::Paragraph(vec![Token::Image(
            "missing.png".to_string(),
            "".to_string(),
            vec![],
        )]),
        Token::Paragraph(vec![text_token("after")]),
    ];
    let error = html.render_html(&mut simple, &tokens, true).unwrap_err();
    assert_eq!(error.kind, ErrorKind::Resource);
    assert_eq!(error.source.file, "two.md");
    assert_eq!(error.msg, "could not find image missing.png");
    assert_eq!(error.message(), "two.md: could not find image missing.png");
    assert_eq!(html.current_par, 1);
}

#[test]
fn two_footnotes_in_one_chapter() {
    let book = book_with(options());
    let mut html = HtmlRenderer::new(&book);
    let mut simple = Simple::new();
    let tokens = vec![Token::Paragraph(vec![
        text_token("a"),
        Token::Footnote(vec![text_token("first")]),
        text_token("b"),
        Token::Footnote(vec![text_token("second")]),
    ])];
    let rendered = html.render_html(&mut simple, &tokens, true).unwrap();
    let expected = "<p id = \"para-1\">a\
<a href = \"#note-dest-1\"><sup id = \"note-source-1\">[1]</sup></a>b\
<a href = \"#note-dest-2\"><sup id = \"note-source-2\">[2]</sup></a></p>\n\
<div class = \"notes\">\n <h2 class = \"notes\">en:notes</h2>\n\
<table class = \"notes\">\n\
<tr class = \"notes\">\n <td class = \"note-number\">\n  \
<p class = \"note-number\">\n  <a href = \"#note-source-1\">[1]</a>\n</p>\n\
\n </td>\n <td class = \"note\">\n  \
<aside id = \"note-dest-1\">first</aside>\
\n  </td>\n</tr>\n\
<tr class = \"notes\">\n <td class = \"note-number\">\n  \
<p class = \"note-number\">\n  <a href = \"#note-source-2\">[2]</a>\n</p>\n\
\n </td>\n <td class = \"note\">\n  \
<aside id = \"note-dest-2\">second</aside>\
\n  </td>\n</tr>\n\
</table>\n</div>\n";
    assert_eq!(rendered, expected);
    assert_eq!(html.footnote_number, 2);
    assert!(html.footnotes.is_empty());
}

#[test]
fn footnotes_wait_when_end_notes_are_not_asked_for() {
    let book = book_with(options());
    let mut html = HtmlRenderer::new(&book);
    let mut simple = Simple::new();
    let tokens = vec![Token::Footnote(vec![text_token("first")])];
    let rendered = html.render_html(&mut simple, &tokens, false).unwrap();
    assert_eq!(
        rendered,
        "<a href = \"#note-dest-1\"><sup id = \"note-source-1\">[1]</sup></a>"
    );
    assert_eq!(
        html.footnotes,
        vec![(
            "<p class = \"note-number\">\n  <a href = \"#note-source-1\">[1]</a>\n</p>\n".to_string(),
            "<aside id = \"note-dest-1\">first</aside>".to_string()
        )]
    );
    let mut res = String::new();
    html.render_end_notes(&simple, &mut res);
    assert!(res.starts_with("<div class = \"notes\">\n <h2 class = \"notes\">en:notes</h2>\n<table class = \"notes\">\n<tr"));
    assert!(res.ends_with("</tr>\n</table>\n</div>\n"));
    assert!(html.footnotes.is_empty());
    let mut again = String::new();
    html.render_end_notes(&simple, &mut again);
    assert_eq!(again, "");
}

#[test]
fn side_notes_follow_the_token_that_brought_them() {
    let mut o = options();
    o.side_notes = true;
    let book = book_with(o);
    let mut html = HtmlRenderer::new(&book);
    let mut simple = Simple::new();
    let tokens = vec![
        Token::Paragraph(vec![text_token("a"), Token::Footnote(vec![text_token("n")])]),
        Token::Paragraph(vec![text_token("b")]),
    ];
    let rendered = html.render_html(&mut simple, &tokens, true).unwrap();
    let expected = "<p id = \"para-1\">a\
<a href = \"#note-dest-1\"><sup id = \"note-source-1\">[1]</sup></a></p>\n\
<div class = \"sidenote\">\n\
<p class = \"note-number\">\n  <a href = \"#note-source-1\">[1]</a>\n</p>\n \
<aside id = \"note-dest-1\">n</aside>\n</div>\n\
<p id = \"para-2\">b</p>\n";
    assert_eq!(rendered, expected);
}

#[test]
fn footnote_numbers_go_up_by_one() {
    let book = book_with(options());
    let mut html = HtmlRenderer::new(&book);
    let mut simple = Simple::new();
    let mut seen = vec![];
    for _ in 0..4 {
        html.render_token(&mut simple, &Token::Footnote(vec![text_token("n")])).unwrap();
        seen.push(html.footnote_number);
    }
    assert_eq!(seen, vec![1, 2, 3, 4]);
}

#[test]
fn a_footnote_without_content_is_an_error() {
    let book = book_with(options());
    let mut html = HtmlRenderer::new(&book);
    let mut simple = Simple::new();
    let error = html.render_token(&mut simple, &Token::Footnote(vec![])).unwrap_err();
    assert_eq!(error.kind, ErrorKind::Render);
    assert_eq!(error.msg, "footnote without content");
    assert_eq!(html.footnote_number, 0);

    html.footnote_number = u32::MAX;
    let error = html
        .render_token(&mut simple, &Token::Footnote(vec![text_token("n")]))
        .unwrap_err();
    assert_eq!(error.msg, "too many footnotes");
    assert_eq!(html.footnote_number, u32::MAX);
}

#[test]
fn annotations_are_transparent_without_proofreading() {
    let book = book_with(options());
    let grammar = Token::Annotation(
        Data::GrammarError("wrong".to_string()),
        vec![text_token("some text")],
    );
    assert_eq!(render(&book, grammar), "some text");
    let repetition = Token::Annotation(
        Data::Repetition("red".to_string()),
        vec![text_token("some text")],
    );
    assert_eq!(render(&book, repetition), "some text");
}

#[test]
fn annotations_are_marked_up_when_proofreading() {
    let book = book_with(options());
    let mut html = HtmlRenderer::new(&book);
    let mut simple = Simple::new();
    html.proofread = true;
    let grammar = Token::Annotation(
        Data::GrammarError("say \"an\"".to_string()),
        vec![text_token("a apple")],
    );
    assert_eq!(
        html.render_token(&mut simple, &grammar).unwrap(),
        "<span title = \"say 'an'\" class = \"grammar-error\">a apple</span>"
    );
    let repetition = Token::Annotation(
        Data::Repetition("red".to_string()),
        vec![text_token("again")],
    );
    assert_eq!(
        html.render_token(&mut simple, &repetition).unwrap(),
        "<span class = \"repetition\" style = \"text-decoration-line: underline; text-decoration-style: wavy; text-decoration-color: red\">again</span>"
    );
    html.verbatim = true;
    assert_eq!(html.render_token(&mut simple, &repetition).unwrap(), "again");
}

#[test]
fn a_renderer_can_render_some_tokens_in_its_own_way() {
    let book = book_with(options());
    let mut html = HtmlRenderer::new(&book);
    let mut simple = Simple::new();
    simple.rules_as_hr = true;
    let token = Token::BlockQuote(vec![text_token("a"), Token::Rule, text_token("b")]);
    assert_eq!(
        html.render_token(&mut simple, &token).unwrap(),
        "<blockquote>a<hr />b</blockquote>\n"
    );
    assert_eq!(html.link_number, 100);
    assert_eq!(
        html.static_render_token(&mut simple, &Token::Rule).unwrap(),
        "<p class = \"rule\">***</p>\n"
    );
}

#[test]
fn the_first_error_ends_a_run() {
    let book = book_with(options());
    let mut html = HtmlRenderer::new(&book);
    let mut simple = Simple::new();
    let tokens = vec![
        Token::Footnote(vec![text_token("n")]),
        Token::Footnote(vec![]),
        Token::Footnote(vec![text_token("m")]),
    ];
    let error = html.render_vec(&mut simple, &tokens).unwrap_err();
    assert_eq!(error.msg, "footnote without content");
    assert_eq!(html.footnote_number, 1);
    assert_eq!(html.footnotes.len(), 1);
}

#[test]
fn titles_alone() {
    let book = book_with(options());
    let mut html = HtmlRenderer::new(&book);
    let mut simple = Simple::new();
    html.chapter_config(0, Number::Default, "one.html".to_string());
    html.current_chapter = [0, 2, 0, 0, 0, 0, 0];
    assert_eq!(
        html.render_title(&mut simple, 2, &vec![text_token("Sec")]).unwrap(),
        "2.1. Sec"
    );
    assert_eq!(
        html.render_title(&mut simple, 3, &vec![text_token("Sub")]).unwrap(),
        "Sub"
    );
    assert_eq!(html.link_number, 2);
    assert_eq!(
        html.render_title_full(&mut simple, 3, "Sub".to_string()).unwrap(),
        "<h3 id = \"link-2\">Sub</h3>\n"
    );
}

#[test]
fn page_header_and_footer() {
    let book = book_with(options());
    let mut html = HtmlRenderer::new(&book);
    let mut simple = Simple::new();
    assert_eq!(html.get_header(&mut simple).unwrap(), "");
    assert_eq!(html.get_footer(&mut simple).unwrap(), "");

    let mut o = options();
    o.header = Some("{{title}}".to_string());
    o.footer = Some("About {{title}}".to_string());
    let book = book_with(o);
    let mut html = HtmlRenderer::new(&book);
    assert_eq!(
        html.get_header(&mut simple).unwrap(),
        "<div id = \"top\"><p id = \"para-1\">My Book</p>\n</div>"
    );
    assert_eq!(
        html.get_footer(&mut simple).unwrap(),
        "<footer id = \"footer\"><p id = \"para-2\">About My Book</p>\n</footer>"
    );
    assert_eq!(html.templatize(&mut simple, "x {{title}}").unwrap(), "x My Book");

    let mut o = options();
    o.header = Some("".to_string());
    o.footer = Some("".to_string());
    let book = book_with(o);
    let mut html = HtmlRenderer::new(&book);
    assert_eq!(
        html.get_header(&mut simple).unwrap(),
        "<div id = \"top\"><p id = \"para-1\"></p>\n</div>"
    );
    assert_eq!(html.get_footer(&mut simple).unwrap(), "");
}

#[test]
fn a_template_that_fails_is_a_render_error() {
    let mut o = options();
    o.header = Some("{{{title".to_string());
    o.footer = Some("{{{title".to_string());
    let book = book_with(o);
    let mut html = HtmlRenderer::new(&book);
    let mut simple = Simple::new();
    let error = html.get_header(&mut simple).unwrap_err();
    assert_eq!(error.kind, ErrorKind::Render);
    assert_eq!(error.source.file, "my.book");
    assert_eq!(error.msg, "rendering 'html.header' template:\ntpl: unclosed tag");
    let error = html.get_footer(&mut simple).unwrap_err();
    assert_eq!(error.kind, ErrorKind::Render);
    assert_eq!(error.msg, "rendering 'html.footer' template:\ntpl: unclosed tag");

    let mut o = options();
    o.header = Some("!x".to_string());
    let book = book_with(o);
    let mut html = HtmlRenderer::new(&book);
    let error = html.get_header(&mut simple).unwrap_err();
    assert_eq!(error.kind, ErrorKind::Parser);
    assert_eq!(error.message(), "bad markup");
}

#[test]
fn the_title_of_the_table_of_contents() {
    let book = book_with(options());
    let mut html = HtmlRenderer::new(&book);
    let mut simple = Simple::new();
    assert_eq!(html.get_toc_name(&mut simple).unwrap(), "<em>Contents</em>");

    let mut o = options();
    o.inline_toc_name = "{{{toc".to_string();
    let book = book_with(o);
    let mut html = HtmlRenderer::new(&book);
    let error = html.get_toc_name(&mut simple).unwrap_err();
    assert_eq!(error.kind, ErrorKind::Render);
    assert_eq!(error.source.file, "my.book");
    assert_eq!(
        error.msg,
        "rendering 'rendering.inline_toc.name' template:\ntpl: unclosed tag"
    );
}

#[test]
fn tokens_know_their_kind() {
    assert!(text_token("a").is_str());
    assert!(!Token::Rule.is_str());
    assert!(Token::Image("u".to_string(), "t".to_string(), vec![]).is_image());
    assert!(!Token::StandaloneImage("u".to_string(), "t".to_string(), vec![]).is_image());
}
