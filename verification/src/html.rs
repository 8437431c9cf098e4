//! The state of an HTML render pass and what does not depend on the tokens:
//! the numbering of headers and the buffer of footnotes.

use vstd::prelude::*;
use crate::book::Book;
use crate::epub::{entries_of, entry_view, new_toc, toc_entries, EpubToc};
use crate::error::Source;
use crate::number::Number;
use crate::roman::{has_roman, roman_numeral};
use crate::text::{push_signed_decimal, signed_decimal};
use crate::toc::{Toc, TocEntry};

verus! {

/// If and how to highlight code.
#[derive(Debug, PartialEq, Eq, Structural, Copy, Clone)]
pub enum Highlight {
    /// Code is not highlighted.
    Off,
    /// Code is marked with its language, for a script in the page to highlight.
    Js,
    /// Code is highlighted while it is rendered.
    Syntect,
}

/// The state of a render pass, as the contracts see it.
pub struct RenderState {
    /// Whether the head row of a table is being rendered.
    pub table_head: bool,
    /// Whether text is copied as it is, as inside a block of code.
    pub verbatim: bool,
    /// The number of the last paragraph of the chapter.
    pub current_par: int,
    /// Whether the next text begins a chapter.
    pub first_letter: bool,
    /// Whether the next paragraph is the first since a chapter began.
    pub first_paragraph: bool,
    /// The footnotes that wait to be displayed: each a marker and a body.
    pub footnotes: Seq<(Seq<char>, Seq<char>)>,
    /// The file that the chapter is rendered to.
    pub filename: Seq<char>,
    /// The book that is rendered.
    pub book: Book,
    /// Whether proofreading annotations are displayed.
    pub proofread: bool,
    /// The counters: of parts at index 0, of chapters at 1, of sections below.
    pub current_chapter: Seq<int>,
    /// The deepest level that gets a number in this chapter.
    pub current_numbering: int,
    /// Whether the title of this chapter is hidden.
    pub current_hide: bool,
    /// Whether this chapter is a part.
    pub current_part: bool,
    /// The number of the last footnote.
    pub footnote_number: int,
    /// The source file of this chapter.
    pub source: Seq<char>,
    /// The entries of the table of contents.
    pub toc: Seq<(int, Seq<char>, Seq<char>)>,
    /// If and how code is highlighted.
    pub highlight: Highlight,
    /// The number of the last anchor of a header.
    pub link_number: int,
    /// The messages for the user that did not stop the rendering.
    pub diagnostics: Seq<Seq<char>>,
}

/// Base structure for rendering HTML files: the state of a render pass.
pub struct HtmlRenderer<'a> {
    pub table_head: bool,
    pub verbatim: bool,
    pub current_par: u32,
    pub first_letter: bool,
    pub first_paragraph: bool,
    pub footnotes: Vec<(String, String)>,
    pub filename: String,
    /// Book that must be rendered
    pub book: &'a Book,
    /// Proofread or not
    pub proofread: bool,
    /// Current part, chapter (and subsection, subsubsection and so on)
    pub current_chapter: [i32; 7],
    /// Current numbering level
    pub current_numbering: i32,
    /// Whether current chapter's title must be displayed
    pub current_hide: bool,
    /// Whether current chapter is actually a part
    pub current_part: bool,
    /// Current footnote number
    pub footnote_number: u32,
    /// Source for error messages
    pub source: Source,
    /// Table of contents
    pub toc: EpubToc,
    pub highlight: Highlight,
    /// Current link number
    pub link_number: u32,
    /// Messages for the user that did not stop the rendering
    pub diagnostics: Vec<String>,
}

impl<'a> View for HtmlRenderer<'a> {
    type V = RenderState;

    open spec fn view(&self) -> RenderState {
        RenderState {
            table_head: self.table_head,
            verbatim: self.verbatim,
            current_par: self.current_par as int,
            first_letter: self.first_letter,
            first_paragraph: self.first_paragraph,
            footnotes: self.footnotes@.map_values(|note: (String, String)| (note.0@, note.1@)),
            filename: self.filename@,
            book: *self.book,
            proofread: self.proofread,
            current_chapter: self.current_chapter@.map_values(|c: i32| c as int),
            current_numbering: self.current_numbering as int,
            current_hide: self.current_hide,
            current_part: self.current_part,
            footnote_number: self.footnote_number as int,
            source: self.source@,
            toc: toc_entries(self.toc),
            highlight: self.highlight,
            link_number: self.link_number as int,
            diagnostics: self.diagnostics@.map_values(|message: String| message@),
        }
    }
}

/// The highlighting that the option `rendering.highlight` asks for; a value
/// that is not known asks for none.
pub open spec fn highlight_of(option: Seq<char>) -> Highlight {
    if option == "syntect"@ {
        Highlight::Syntect
    } else if option == "highlight.js"@ {
        Highlight::Js
    } else {
        Highlight::Off
    }
}

/// Whether the option `rendering.highlight` holds one of its three values.
pub open spec fn highlight_known(option: Seq<char>) -> bool {
    option == "syntect"@ || option == "none"@ || option == "highlight.js"@
}

/// The messages left by reading the option `rendering.highlight`.
pub open spec fn highlight_diagnostics(option: Seq<char>) -> Seq<Seq<char>> {
    if highlight_known(option) {
        Seq::empty()
    } else {
        seq!["rendering.highlight set to '"@ + option + "', not a valid value"@]
    }
}

/// The seven counters, all at zero.
pub open spec fn zero_counters() -> Seq<int> {
    Seq::new(7, |i: int| 0int)
}

/// The state in which the rendering of a book begins.
pub open spec fn initial_state(book: Book) -> RenderState {
    RenderState {
        table_head: false,
        verbatim: false,
        current_par: 0,
        first_letter: false,
        first_paragraph: true,
        footnotes: Seq::empty(),
        filename: Seq::empty(),
        book: book,
        proofread: false,
        current_chapter: zero_counters(),
        current_numbering: book.options.num_depth as int,
        current_hide: false,
        current_part: false,
        footnote_number: 0,
        source: Seq::empty(),
        toc: Seq::empty(),
        highlight: highlight_of(book.options.highlight@),
        link_number: 0,
        diagnostics: highlight_diagnostics(book.options.highlight@),
    }
}

/// The state once the renderer is set up for the chapter at index `i`, which
/// asks for the numbering `n` and is rendered to the file `filename`.
///
/// The paragraphs are counted anew and the next paragraph is a first one.
/// A chapter without a number, or hidden, numbers nothing; the others number
/// down to the depth that the book asks for. A chapter or part that asks for
/// a number of its own sets its counter to the number before, so that its
/// header counts up to it.
pub open spec fn configured(s: RenderState, i: int, n: Number, filename: Seq<char>) -> RenderState {
    RenderState {
        source: s.book.chapters[i]@,
        first_paragraph: true,
        current_par: 0,
        current_hide: n is Hidden,
        current_numbering: if n is Hidden || n is Unnumbered || n is UnnumberedPart {
            0
        } else {
            s.book.options.num_depth as int
        },
        current_chapter: match n {
            Number::Specified(k) => s.current_chapter.update(1, k - 1),
            Number::SpecifiedPart(k) => s.current_chapter.update(0, k - 1),
            _ => s.current_chapter,
        },
        current_part: n.part(),
        filename: filename,
        ..s
    }
}

/// The counters after a header of level `n` was counted: the counter of the
/// level is one higher and those of the deeper levels are back at zero.
/// Counting a part leaves the counter of the chapters as it is where
/// `reset_chapters` is not set.
pub open spec fn incremented(counters: Seq<int>, n: int, reset_chapters: bool) -> Seq<int> {
    Seq::new(
        7,
        |i: int|
            if i == n {
                counters[i] + 1
            } else if i > n && !(n == 0 && i == 1 && !reset_chapters) {
                0
            } else {
                counters[i]
            },
    )
}

/// Whether a header of level `level` can be counted: there is an anchor
/// left for it and, where its level gets a number, the level has a counter
/// that can go up.
pub open spec fn can_count(s: RenderState, level: int) -> bool {
    &&& s.link_number < u32::MAX
    &&& s.current_numbering >= level ==> 0 <= level < 7 && s.current_chapter[level] < i32::MAX
}

/// The state after a header of level `n`: a header of a chapter or of a part
/// makes the next paragraph a first one; the header is counted where its
/// level gets a number; and it takes the next anchor in any case.
pub open spec fn header_counted(s: RenderState, n: int) -> RenderState {
    RenderState {
        first_paragraph: n <= 1 || s.first_paragraph,
        current_chapter: if s.current_numbering >= n {
            incremented(s.current_chapter, n, s.book.options.part_reset_counter)
        } else {
            s.current_chapter
        },
        link_number: s.link_number + 1,
        ..s
    }
}

/// Counting a header brings every deeper counter back to zero, but for the
/// counter of the chapters when a part is counted and the book asks to keep
/// it.
pub proof fn lemma_incremented_resets(counters: Seq<int>, n: int, reset_chapters: bool, i: int)
    requires
        counters.len() == 7,
        0 <= n < i < 7,
        reset_chapters || n != 0 || i != 1,
    ensures
        incremented(counters, n, reset_chapters)[i] == 0,
        incremented(counters, n, reset_chapters)[n] == counters[n] + 1,
        forall|j: int| 0 <= j < n ==> incremented(counters, n, reset_chapters)[j] == counters[j],
{
}

/// A header whose level gets a number raises the counter of its level by one,
/// brings every deeper counter back to zero and leaves the others as they
/// are; only the counter of the chapters stays when a part is counted and the
/// book asks to keep it.
pub proof fn lemma_header_counted_counters(s: RenderState, n: int)
    requires
        s.current_chapter.len() == 7,
        0 <= n <= 6,
        n <= s.current_numbering,
        n >= 1 || s.book.options.part_reset_counter,
    ensures
        header_counted(s, n).current_chapter.len() == 7,
        header_counted(s, n).current_chapter[n] == s.current_chapter[n] + 1,
        forall|i: int| n < i <= 6 ==> header_counted(s, n).current_chapter[i] == 0,
        forall|i: int| 0 <= i < n ==> header_counted(s, n).current_chapter[i] == s.current_chapter[i],
{
}

/// The deepest level, at most `upto`, whose counter is not zero; zero where
/// there is none from level one on.
pub open spec fn last_counted(counters: Seq<int>, upto: int) -> int
    decreases upto,
{
    if upto <= 0 {
        0
    } else if counters[upto] != 0 {
        upto
    } else {
        last_counted(counters, upto - 1)
    }
}

/// What a counter contributes to the number of a header: its value and a
/// dot. Where `roman` asks for it, the counter of the chapters is written as
/// a roman numeral; it is left out where it is zero or negative, and written
/// in decimal where it is too large for the conversion.
pub open spec fn number_segment(counters: Seq<int>, i: int, roman: bool) -> Seq<char> {
    if i == 1 && roman {
        if has_roman(counters[i]) {
            roman_numeral(counters[i]) + "."@
        } else if counters[i] <= 0 {
            Seq::empty()
        } else {
            signed_decimal(counters[i]) + "."@
        }
    } else {
        signed_decimal(counters[i]) + "."@
    }
}

/// The segments of the levels from one to `upto`.
pub open spec fn number_segments(counters: Seq<int>, upto: int, roman: bool) -> Seq<char>
    decreases upto,
{
    if upto <= 0 {
        Seq::empty()
    } else {
        number_segments(counters, upto - 1, roman) + number_segment(counters, upto, roman)
    }
}

/// The number of a header, such as `2.0.1.`: the counters from the chapters
/// down to the deepest one that is not zero.
pub open spec fn numbers_text(counters: Seq<int>, roman: bool) -> Seq<char> {
    number_segments(counters, last_counted(counters, 6), roman)
}

/// The messages left by writing the number of a header: one where the
/// chapter should be written as a roman numeral and is zero or negative.
pub open spec fn numbers_diagnostics(counters: Seq<int>, roman: bool) -> Seq<Seq<char>> {
    if roman && last_counted(counters, 6) >= 1 && counters[1] <= 0 {
        seq![
            "can not use roman numerals with zero or negative chapter numbers ("@ + signed_decimal(
                counters[1],
            ) + ")"@,
        ]
    } else {
        Seq::empty()
    }
}

/// The number of a header never ends with the segment of a counter at zero:
/// the last counter that is written is the deepest one that is not zero.
pub proof fn lemma_last_counted(counters: Seq<int>, upto: int)
    requires
        counters.len() == 7,
        0 <= upto <= 6,
    ensures
        0 <= last_counted(counters, upto) <= upto,
        last_counted(counters, upto) >= 1 ==> counters[last_counted(counters, upto)] != 0,
        forall|i: int| last_counted(counters, upto) < i <= upto ==> counters[i] == 0,
    decreases upto,
{
    if upto > 0 && counters[upto] == 0 {
        lemma_last_counted(counters, upto - 1);
    }
}

/// Counts a header of level `level`: its counter goes up by one and the
/// deeper ones back to zero.
fn count_header(counters: &mut [i32; 7], level: usize, reset_chapters: bool)
    requires
        level < 7,
        old(counters)[level as int] < i32::MAX,
    ensures
        final(counters)@.map_values(|c: i32| c as int) == incremented(
            old(counters)@.map_values(|c: i32| c as int),
            level as int,
            reset_chapters,
        ),
{
    let count: i32 = counters[level];
    counters[level] = count + 1;
    let begin: usize = if level == 0 && !reset_chapters {
        level + 2
    } else {
        level + 1
    };
    let mut i: usize = begin;
    while i < 7
        invariant
            begin <= i <= 7,
            level < begin,
            forall|j: int| begin <= j < i ==> counters[j] == 0,
            forall|j: int| 0 <= j < begin && j != level ==> counters[j] == old(counters)[j],
            counters[level as int] == count + 1,
            count == old(counters)[level as int],
        decreases 7 - i,
    {
        counters[i] = 0;
        i = i + 1;
    }
}

impl<'a> HtmlRenderer<'a> {
    /// Reads the option `rendering.highlight`: the highlighting it asks for
    /// and, where its value is not known, a message that says so.
    pub fn get_highlight(book: &Book) -> (r: (Highlight, Option<String>))
        ensures
            r.0 == highlight_of(book.options.highlight@),
            r.1 is None <==> highlight_known(book.options.highlight@),
            r.1 is Some ==> seq![r.1->0@] == highlight_diagnostics(book.options.highlight@),
    {
        let value = &book.options.highlight;
        proof {
            reveal_strlit("syntect");
            reveal_strlit("none");
            reveal_strlit("highlight.js");
            assert("syntect"@.len() == 7 && "none"@.len() == 4 && "highlight.js"@.len() == 12);
        }
        if *value == String::from_str("syntect") {
            (Highlight::Syntect, None)
        } else if *value == String::from_str("none") {
            (Highlight::Off, None)
        } else if *value == String::from_str("highlight.js") {
            (Highlight::Js, None)
        } else {
            let mut message = String::from_str("rendering.highlight set to '");
            message.append(value.as_str());
            message.append("', not a valid value");
            (Highlight::Off, Some(message))
        }
    }

    /// Creates a new HTML renderer for a book.
    pub fn new(book: &'a Book) -> (html: HtmlRenderer<'a>)
        ensures
            html@ == initial_state(*book),
    {
        let (highlight, message) = Self::get_highlight(book);
        let mut diagnostics: Vec<String> = Vec::new();
        match message {
            Some(m) => {
                diagnostics.push(m);
            },
            None => {},
        }
        let html = HtmlRenderer {
            book: book,
            toc: new_toc(),
            link_number: 0,
            current_chapter: [0, 0, 0, 0, 0, 0, 0],
            current_numbering: book.options.num_depth,
            current_part: false,
            current_par: 0,
            current_hide: false,
            table_head: false,
            footnote_number: 0,
            footnotes: Vec::new(),
            verbatim: false,
            filename: String::new(),
            source: Source::empty(),
            first_letter: false,
            first_paragraph: true,
            proofread: false,
            highlight: highlight,
            diagnostics: diagnostics,
        };
        proof {
            assert(html@.footnotes =~= Seq::empty());
            assert(html@.current_chapter =~= zero_counters());
            assert(html@.diagnostics =~= highlight_diagnostics(book.options.highlight@));
        }
        html
    }

    /// Takes the footnotes that wait out of the buffer, in the order in
    /// which they came, and leaves the buffer empty.
    pub fn drain(&mut self) -> (notes: Vec<(String, String)>)
        ensures
            notes@.map_values(|note: (String, String)| (note.0@, note.1@)) == old(self)@.footnotes,
            final(self)@ == (RenderState { footnotes: Seq::empty(), ..old(self)@ }),
    {
        let mut notes: Vec<(String, String)> = Vec::new();
        std::mem::swap(&mut self.footnotes, &mut notes);
        proof {
            assert(self@.footnotes =~= Seq::empty());
        }
        notes
    }

    /// Add a footnote which will be rendered later on.
    pub fn add_footnote(&mut self, number: String, content: String)
        ensures
            final(self)@ == (RenderState {
                footnotes: old(self)@.footnotes.push((number@, content@)),
                ..old(self)@
            }),
    {
        self.footnotes.push((number, content));
        proof {
            assert(self@.footnotes =~= old(self)@.footnotes.push((number@, content@)));
        }
    }

    /// Configure the renderer for the chapter at index `i` of the book.
    pub fn chapter_config(&mut self, i: usize, n: Number, filename: String)
        requires
            i < old(self).book.chapters.len(),
            n matches Number::Specified(k) ==> k > i32::MIN,
            n matches Number::SpecifiedPart(k) ==> k > i32::MIN,
        ensures
            final(self)@ == configured(old(self)@, i as int, n, filename@),
    {
        self.source = Source::new(self.book.chapters[i].as_str());
        self.first_paragraph = true;
        self.current_par = 0;
        self.current_hide = false;
        let book_numbering: i32 = self.book.options.num_depth;
        match n {
            Number::Unnumbered | Number::UnnumberedPart => {
                self.current_numbering = 0;
            },
            Number::Default | Number::DefaultPart => {
                self.current_numbering = book_numbering;
            },
            Number::Specified(k) => {
                self.current_numbering = book_numbering;
                self.current_chapter[1] = k - 1;
            },
            Number::SpecifiedPart(k) => {
                self.current_numbering = book_numbering;
                self.current_chapter[0] = k - 1;
            },
            Number::Hidden => {
                self.current_numbering = 0;
                self.current_hide = true;
            },
        }
        self.current_part = n.is_part();
        self.filename = filename;
        proof {
            assert(self@.current_chapter =~= configured(
                old(self)@,
                i as int,
                n,
                filename@,
            ).current_chapter);
        }
    }

    /// Counts a header of level `n` if its level gets a number, and gives it
    /// the next anchor.
    pub fn inc_header(&mut self, n: i32)
        requires
            can_count(old(self)@, n as int),
        ensures
            final(self)@ == header_counted(old(self)@, n as int),
    {
        if n <= 1 {
            self.first_paragraph = true;
        }
        if self.current_numbering >= n {
            count_header(&mut self.current_chapter, n as usize, self.book.options.part_reset_counter);
        }
        self.link_number += 1;
    }

    /// Returns the number of the current header, such as `2.0.1.`, and notes
    /// a message where a chapter should be written as a roman numeral and is
    /// zero or negative.
    #[verifier::rlimit(20)]
    pub fn get_numbers(&mut self) -> (output: String)
        ensures
            output@ == numbers_text(
                old(self)@.current_chapter,
                old(self).book.options.chapter_roman_numerals,
            ),
            final(self)@ == (RenderState {
                diagnostics: old(self)@.diagnostics + numbers_diagnostics(
                    old(self)@.current_chapter,
                    old(self).book.options.chapter_roman_numerals,
                ),
                ..old(self)@
            }),
    {
        let ghost counters = self@.current_chapter;
        let roman: bool = self.book.options.chapter_roman_numerals;
        let mut last: usize = 6;
        while last > 0 && self.current_chapter[last] == 0
            invariant
                last <= 6,
                counters == self@.current_chapter,
                last_counted(counters, 6) == last_counted(counters, last as int),
            decreases last,
        {
            last = last - 1;
        }
        let mut output = String::new();
        let mut i: usize = 1;
        while i <= last
            invariant
                1 <= i <= last + 1,
                last <= 6,
                last == last_counted(counters, 6),
                counters == old(self)@.current_chapter,
                roman == old(self).book.options.chapter_roman_numerals,
                output@ == number_segments(counters, i - 1, roman),
                self@ == (RenderState {
                    diagnostics: old(self)@.diagnostics + if i > 1 {
                        numbers_diagnostics(counters, roman)
                    } else {
                        Seq::empty()
                    },
                    ..old(self)@
                }),
            decreases last + 1 - i,
        {
            let count: i32 = self.current_chapter[i];
            if i != 1 || !roman {
                push_signed_decimal(&mut output, count as i64);
                output.append(".");
            } else if count >= 1 && count <= 32767 {
                let numeral = crate::roman::upper(count as i16);
                output.append(numeral.as_str());
                output.append(".");
            } else if count >= 1 {
                push_signed_decimal(&mut output, count as i64);
                output.append(".");
            } else {
                let mut message = String::from_str(
                    "can not use roman numerals with zero or negative chapter numbers (",
                );
                push_signed_decimal(&mut message, count as i64);
                message.append(")");
                self.diagnostics.push(message);
            }
            proof {
                assert(self@.diagnostics =~= old(self)@.diagnostics + if i + 1 > 1 {
                    numbers_diagnostics(counters, roman)
                } else {
                    Seq::empty()
                });
            }
            i = i + 1;
        }
        output
    }

    /// The table of contents that the headers rendered so far make up.
    pub fn get_toc(&self) -> (toc: Toc)
        ensures
            !toc@.numbered,
            toc@.entries.len() == self@.toc.len(),
            forall|i: int|
                0 <= i < self@.toc.len() ==> (#[trigger] toc@.entries[i]) == (TocEntry {
                    level: self@.toc[i].0,
                    url: self@.toc[i].1,
                    title: self@.toc[i].2,
                }),
    {
        let entries = entries_of(&self.toc);
        let mut toc = Toc::new();
        let mut i: usize = 0;
        while i < entries.len()
            invariant
                i <= entries.len(),
                entries@.map_values(|entry: (i32, String, String)| entry_view(entry)) == self@.toc,
                !toc@.numbered,
                toc@.entries.len() == i,
                forall|j: int|
                    0 <= j < i ==> (#[trigger] toc@.entries[j]) == (TocEntry {
                        level: self@.toc[j].0,
                        url: self@.toc[j].1,
                        title: self@.toc[j].2,
                    }),
            decreases entries.len() - i,
        {
            toc.add(entries[i].0, entries[i].1.clone(), entries[i].2.clone());
            i = i + 1;
        }
        toc
    }
}

} // verus!
