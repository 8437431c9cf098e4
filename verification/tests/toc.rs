use crowbook::toc::{Toc, TocElement};

fn toc_of(entries: &[(i32, &str, &str)]) -> Toc {
    let mut toc = Toc::new();
    for (level, url, title) in entries {
        toc.add(*level, url.to_string(), title.to_string());
    }
    toc
}

fn levels(toc: &Toc) -> Vec<i32> {
    (0..toc.len()).map(|i| toc.level(i)).collect()
}

fn count(haystack: &str, needle: &str) -> usize {
    haystack.matches(needle).count()
}

fn nav_point(id: u32, title: &str, url: &str) -> String {
    format!(
        "\n   <navPoint id = \"navPoint-{}\">\n     <navLabel>\n       <text>{}</text>\n     </navLabel>\n     <content src = \"{}\" />\n",
        id, title, url
    )
}

const CLOSE: &str = "    </navPoint>\n";

#[test]
fn new_element_keeps_its_fields() {
    let element = TocElement::new(3, "u.html".to_string(), "T".to_string());
    assert_eq!(element.level, 3);
    assert_eq!(element.url, "u.html");
    assert_eq!(element.title, "T");
}

#[test]
fn trivial_iff_at_most_one_entry() {
    let mut toc = Toc::new();
    assert!(toc.is_empty());
    assert_eq!(toc.len(), 0);
    toc.add(1, "a.html".to_string(), "A".to_string());
    assert!(toc.is_empty());
    toc.add(1, "b.html".to_string(), "B".to_string());
    assert!(!toc.is_empty());
    toc.add(2, "c.html".to_string(), "C".to_string());
    assert!(!toc.is_empty());
    assert_eq!(toc.len(), 3);
}

#[test]
fn empty_table_renders_as_nothing() {
    let mut toc = Toc::new();
    assert_eq!(toc.render(), "");
    assert_eq!(toc.render_epub(0), "");
}

#[test]
fn nested_lists_for_a_chapter_with_a_section() {
    let mut toc = toc_of(&[(1, "a.html", "A"), (2, "a.html#2", "B"), (1, "b.html", "C")]);
    let expected = "<ul>\n \
<li><a href = \"a.html\">A</a>\n \
<ul>\n  \
<li><a href = \"a.html#2\">B</a>\n  \
</li>\n \
</ul>\n \
</li>\n \
<li><a href = \"b.html\">C</a>\n \
</li>\n\
</ul>";
    let rendered = toc.render();
    assert_eq!(rendered, expected);
    assert_eq!(count(&rendered, "<ul>"), 2);
    assert_eq!(count(&rendered, "</ul>"), 2);
    assert_eq!(count(&rendered, "<li>"), 3);
    assert_eq!(count(&rendered, "</li>"), 3);
}

#[test]
fn numbered_table_uses_ordered_lists() {
    let mut toc = toc_of(&[(1, "a.html", "A"), (2, "a.html#2", "B")]);
    toc.numbered(true);
    let expected = "<ol>\n \
<li><a href = \"a.html\">A</a>\n \
<ol>\n  \
<li><a href = \"a.html#2\">B</a>\n  \
</li>\n \
</ol>\n \
</li>\n\
</ol>";
    assert_eq!(toc.render(), expected);
}

#[test]
fn parts_move_every_entry_one_level_down() {
    let mut toc = toc_of(&[(0, "p.html", "Part I"), (1, "c.html", "Chap 1")]);
    toc.parts_hack();
    assert_eq!(levels(&toc), vec![1, 2]);
    toc.parts_hack();
    assert_eq!(levels(&toc), vec![1, 2]);
}

#[test]
fn parts_open_one_more_list() {
    let mut toc = toc_of(&[(0, "p.html", "Part I"), (1, "c.html", "Chap 1")]);
    let expected = "<ul>\n \
<li><a href = \"p.html\">Part I</a>\n \
<ul>\n  \
<li><a href = \"c.html\">Chap 1</a>\n  \
</li>\n \
</ul>\n \
</li>\n\
</ul>";
    let rendered = toc.render();
    assert_eq!(rendered, expected);
    assert_eq!(levels(&toc), vec![1, 2]);
    assert_eq!(count(&rendered, "<ul>"), 2);

    let mut flat = toc_of(&[(1, "c.html", "Chap 1")]);
    assert_eq!(count(&flat.render(), "<ul>"), 1);
}

#[test]
fn without_parts_normalizing_changes_nothing() {
    let mut toc = toc_of(&[(2, "a.html", "A"), (1, "b.html", "B"), (3, "c.html", "C")]);
    toc.parts_hack();
    assert_eq!(levels(&toc), vec![2, 1, 3]);
}

#[test]
fn a_jump_of_levels_opens_a_list_for_each_level() {
    let mut toc = toc_of(&[(3, "a.html", "A")]);
    let expected = "<ul>\n \
<ul>\n  \
<ul>\n   \
<li><a href = \"a.html\">A</a>\n   \
</li>\n  \
</ul> </ul></ul>";
    assert_eq!(toc.render(), expected);
}

#[test]
fn a_first_entry_deeper_than_the_next_closes_lists_in_between() {
    let mut toc = toc_of(&[(2, "a.html", "A"), (1, "b.html", "B")]);
    let expected = "<ul>\n \
<ul>\n  \
<li><a href = \"a.html\">A</a>\n  \
</li>\n \
</ul>\n \
<li><a href = \"b.html\">B</a>\n \
</li>\n\
</ul>";
    assert_eq!(toc.render(), expected);
}

#[test]
fn lists_balance_for_irregular_levels() {
    let cases: Vec<Vec<i32>> = vec![
        vec![3, 2, 1],
        vec![1, 1, 1],
        vec![1, 4, 2, 6, 1],
        vec![5, 1, 5, 1],
        vec![0, 2, 0, 3],
        vec![2, 2, 3, 3, 1, 4],
    ];
    for case in cases {
        let mut toc = Toc::new();
        for (i, level) in case.iter().enumerate() {
            toc.add(*level, format!("{}.html", i), format!("T{}", i));
        }
        let rendered = toc.render();
        assert_eq!(count(&rendered, "<ul>"), count(&rendered, "</ul>"));
        assert_eq!(count(&rendered, "<li>"), case.len());
        assert_eq!(count(&rendered, "</li>"), case.len());

        let mut toc = Toc::new();
        for (i, level) in case.iter().enumerate() {
            toc.add(*level, format!("{}.html", i), format!("T{}", i));
        }
        let epub = toc.render_epub(1);
        assert_eq!(count(&epub, "<navPoint "), case.len());
        assert_eq!(count(&epub, "</navPoint>"), case.len());
    }
}

#[test]
fn render_vec_stops_at_the_reference_level() {
    let toc = toc_of(&[(2, "a.html", "A"), (3, "b.html", "B"), (1, "c.html", "C")]);
    let mut x: usize = 0;
    let mut level: i32 = 1;
    let content = toc.render_vec(&mut x, &mut level);
    let expected = " <ul>\n  \
<li><a href = \"a.html\">A</a>\n  \
<ul>\n   \
<li><a href = \"b.html\">B</a>\n   \
</li>\n  \
</ul>\n  \
</li>\n";
    assert_eq!(content, expected);
    assert_eq!(x, 2);
    assert_eq!(level, 2);
}

#[test]
fn navigation_points_nest_by_level() {
    let mut toc = toc_of(&[(1, "a.html", "A"), (2, "a.html#2", "B"), (1, "b.html", "C")]);
    let expected = format!(
        "{}{}{}{}{}{}",
        nav_point(5, "A", "a.html"),
        nav_point(6, "B", "a.html#2"),
        CLOSE,
        CLOSE,
        nav_point(7, "C", "b.html"),
        CLOSE
    );
    assert_eq!(toc.render_epub(5), expected);
}

#[test]
fn navigation_points_of_one_level_are_siblings() {
    let mut toc = toc_of(&[(1, "a.html", "A"), (1, "b.html", "B")]);
    let expected = format!(
        "{}{}{}{}",
        nav_point(0, "A", "a.html"),
        CLOSE,
        nav_point(1, "B", "b.html"),
        CLOSE
    );
    assert_eq!(toc.render_epub(0), expected);
}

#[test]
fn navigation_points_with_parts() {
    let mut toc = toc_of(&[(0, "p.html", "Part I"), (1, "c.html", "Chap 1"), (0, "q.html", "Part II")]);
    let expected = format!(
        "{}{}{}{}{}{}",
        nav_point(10, "Part I", "p.html"),
        nav_point(11, "Chap 1", "c.html"),
        CLOSE,
        CLOSE,
        nav_point(12, "Part II", "q.html"),
        CLOSE
    );
    assert_eq!(toc.render_epub(10), expected);
    assert_eq!(levels(&toc), vec![1, 2, 1]);
}

#[test]
fn navigation_numbers_up_to_the_largest() {
    let mut toc = toc_of(&[(1, "a.html", "A"), (1, "b.html", "B")]);
    let rendered = toc.render_epub(u32::MAX - 1);
    assert!(rendered.contains("navPoint-4294967294"));
    assert!(rendered.contains("navPoint-4294967295"));
}

/// Level sequences that are neither sorted nor regular, from a small
/// generator of pseudo-random numbers.
fn irregular_levels() -> Vec<Vec<i32>> {
    let mut state: u32 = 12345;
    let mut cases = vec![];
    for case in 0..200 {
        let mut levels = vec![];
        let len = 1 + case % 9;
        for _ in 0..len {
            state = state.wrapping_mul(1103515245).wrapping_add(12345);
            levels.push(((state >> 16) % 6) as i32);
        }
        cases.push(levels);
    }
    cases
}

fn shift_if_parts(levels: &[i32]) -> Vec<i32> {
    if levels.contains(&0) {
        levels.iter().map(|level| level + 1).collect()
    } else {
        levels.to_vec()
    }
}

/// The navigation points as a stack of open levels gives them: a point is
/// closed before the next entry when it lies at the same level or deeper.
fn expected_navigation(levels: &[i32], offset: u32) -> String {
    let levels = shift_if_parts(levels);
    let mut output = String::new();
    let mut open: Vec<i32> = vec![];
    for (i, level) in levels.iter().enumerate() {
        while let Some(last) = open.last() {
            if last >= level {
                open.pop();
                output.push_str(CLOSE);
            } else {
                break;
            }
        }
        open.push(*level);
        output.push_str(&nav_point(offset + i as u32, &format!("T{}", i), &format!("{}.html", i)));
    }
    for _ in open {
        output.push_str(CLOSE);
    }
    output
}

/// The same navigation points, found by comparing each entry with the last
/// open level only: an entry at that level takes the place of the point that
/// is closed.
fn navigation_by_last_level(levels: &[i32], offset: u32) -> String {
    let levels = shift_if_parts(levels);
    let mut output = String::new();
    let mut open: Vec<i32> = vec![];
    for (i, level) in levels.iter().enumerate() {
        loop {
            let last = if open.is_empty() { 0 } else { open[open.len() - 1] };
            if last == *level {
                output.push_str(CLOSE);
                break;
            } else if *level >= last {
                open.push(*level);
                break;
            } else {
                open.pop().unwrap();
                output.push_str(CLOSE);
            }
        }
        output.push_str(&nav_point(offset + i as u32, &format!("T{}", i), &format!("{}.html", i)));
    }
    for _ in open {
        output.push_str(CLOSE);
    }
    output
}

fn expected_items(levels: &[i32], x: &mut usize, level: &mut i32, numbered: bool) -> String {
    let tag = if numbered { "ol" } else { "ul" };
    let reference = *level;
    let mut content = String::new();
    while *x < levels.len() {
        let own = levels[*x];
        if own <= reference {
            return content;
        }
        let index = *x;
        *x += 1;
        if own > *level {
            for i in *level..own {
                content.push_str(&format!("{}<{}>\n", " ".repeat(i as usize), tag));
            }
        } else {
            for i in (own..*level).rev() {
                content.push_str(&format!("{}</{}>\n", " ".repeat(i as usize), tag));
            }
        }
        *level = own;
        let blanks = " ".repeat(own as usize);
        content.push_str(&format!(
            "{}<li><a href = \"{}.html\">T{}</a>\n",
            blanks, index, index
        ));
        content.push_str(&expected_items(levels, x, level, numbered));
        for i in (own..*level).rev() {
            content.push_str(&format!("{}</{}>\n", " ".repeat(i as usize), tag));
        }
        *level = own;
        content.push_str(&format!("{}</li>\n", blanks));
    }
    content
}

fn expected_lists(levels: &[i32], numbered: bool) -> String {
    let levels = shift_if_parts(levels);
    let mut x = 0;
    let mut level = 0;
    let mut output = expected_items(&levels, &mut x, &mut level, numbered);
    for i in (0..level).rev() {
        output.push_str(&format!(
            "{}</{}>",
            " ".repeat(i as usize),
            if numbered { "ol" } else { "ul" }
        ));
    }
    output
}

fn toc_with_levels(levels: &[i32]) -> Toc {
    let mut toc = Toc::new();
    for (i, level) in levels.iter().enumerate() {
        toc.add(*level, format!("{}.html", i), format!("T{}", i));
    }
    toc
}

#[test]
fn navigation_for_irregular_levels() {
    for levels in irregular_levels() {
        let mut toc = toc_with_levels(&levels);
        assert_eq!(toc.render_epub(7), expected_navigation(&levels, 7));
        assert_eq!(expected_navigation(&levels, 7), navigation_by_last_level(&levels, 7));
    }
}

#[test]
fn lists_for_irregular_levels() {
    for (i, levels) in irregular_levels().iter().enumerate() {
        let numbered = i % 2 == 0;
        let mut toc = toc_with_levels(levels);
        toc.numbered(numbered);
        let rendered = toc.render();
        assert_eq!(rendered, expected_lists(levels, numbered));
        let tag = if numbered { "ol" } else { "ul" };
        assert_eq!(
            count(&rendered, &format!("<{}>", tag)),
            count(&rendered, &format!("</{}>", tag))
        );
    }
}
