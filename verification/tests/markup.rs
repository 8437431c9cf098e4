use crowbook::markup;

#[test]
fn paragraph_tags() {
    assert_eq!(markup::paragraph(1, false, "Hi"), "<p id = \"para-1\">Hi</p>\n");
    assert_eq!(
        markup::paragraph(12, true, "Hi"),
        "<p id = \"para-12\" class = \"first-para\">Hi</p>\n"
    );
}

#[test]
fn header_tags() {
    assert_eq!(markup::anchor("ch.html", 7), "ch.html#link-7");
    assert_eq!(markup::hidden_title(3), "<h1 id = \"link-3\"></h1>");
    assert_eq!(
        markup::part_title("Part II", 4, "Title"),
        "<h2 class = \"part\">Part II</h2>\n<h1 id = \"link-4\" class = \"part\">Title</h1>\n"
    );
    assert_eq!(markup::title(2, 5, "Title"), "<h2 id = \"link-5\">Title</h2>\n");
}

#[test]
fn link_and_image_tags() {
    assert_eq!(markup::link_tag("a.html", ""), "<a href = \"a.html\">");
    assert_eq!(markup::link_tag("a.html", "T"), "<a href = \"a.html\" title = \"T\">");
    assert_eq!(
        markup::image("i.png", "T", "alt", false),
        "<img src = \"i.png\" title = \"T\" alt = \"alt\" />"
    );
    assert_eq!(
        markup::image("i.png", "T", "alt", true),
        "<div class = \"image\">\n  <img src = \"i.png\" title = \"T\" alt = \"alt\" />\n</div>"
    );
}

#[test]
fn code_tags() {
    assert_eq!(markup::plain_code("", "a < b"), "<pre><code>a < b</code></pre>\n");
    assert_eq!(
        markup::plain_code("rust", "a < b && c > d"),
        "<pre><code class = \"language-rust\">a &lt; b &amp;&amp; c &gt; d</code></pre>\n"
    );
}

#[test]
fn footnote_tags() {
    assert_eq!(
        markup::footnote_marker(2),
        "<p class = \"note-number\">\n  <a href = \"#note-source-2\">[2]</a>\n</p>\n"
    );
    assert_eq!(markup::footnote_body(2, "body"), "<aside id = \"note-dest-2\">body</aside>");
    assert_eq!(
        markup::footnote_reference(2),
        "<a href = \"#note-dest-2\"><sup id = \"note-source-2\">[2]</sup></a>"
    );
    assert_eq!(
        markup::side_note("[1]", "body"),
        "<div class = \"sidenote\">\n[1] body\n</div>\n"
    );
    assert_eq!(
        markup::end_note("[1]", "body"),
        "<tr class = \"notes\">\n <td class = \"note-number\">\n  [1]\n </td>\n <td class = \"note\">\n  body\n  </td>\n</tr>\n"
    );
}

#[test]
fn annotation_tags() {
    assert_eq!(
        markup::grammar_error("use \"an\" here", "a apple"),
        "<span title = \"use 'an' here\" class = \"grammar-error\">a apple</span>"
    );
    assert_eq!(
        markup::repetition("red", "again"),
        "<span class = \"repetition\" style = \"text-decoration-line: underline; text-decoration-style: wavy; text-decoration-color: red\">again</span>"
    );
}

#[test]
fn ordered_list_tags() {
    assert_eq!(markup::ordered_list_tag(1), "<ol>\n");
    assert_eq!(markup::ordered_list_tag(4), "<ol start = \"4\">\n");
    assert_eq!(markup::ordered_list_tag(0), "<ol start = \"0\">\n");
}
