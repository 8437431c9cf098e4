//! What the renderers read of a book: its options and the names of its files.

use vstd::prelude::*;
use crate::error::Source;
use crate::witness::witness;

verus! {

/// The options of a book that the renderers go by. A book has more options
/// than these twelve: the others are not read here, and are not held here.
#[derive(Debug)]
pub struct Options {
    /// `rendering.num_depth`: the deepest level of header that gets a number.
    pub num_depth: i32,
    /// `rendering.initials`: whether the first letter of a chapter is set apart.
    pub initials: bool,
    /// `rendering.highlight`: how to highlight code.
    pub highlight: String,
    /// `html.side_notes`: whether footnotes stand beside the text.
    pub side_notes: bool,
    /// `rendering.chapter.roman_numerals`: whether chapters are numbered with roman numerals.
    pub chapter_roman_numerals: bool,
    /// `rendering.part.roman_numerals`: whether parts are numbered with roman
    /// numerals, for the renderer that makes the label of a part.
    pub part_roman_numerals: bool,
    /// `rendering.part.reset_counter`: whether a new part starts counting chapters anew.
    pub part_reset_counter: bool,
    /// `html.escape_nb_spaces`: whether non-breaking spaces are replaced by markup.
    pub escape_nb_spaces: bool,
    /// `html.header`: the template of the header of a page, if there is one.
    pub header: Option<String>,
    /// `html.footer`: the template of the footer of a page, if there is one.
    pub footer: Option<String>,
    /// `rendering.inline_toc.name`: the template of the title of the table of contents.
    pub inline_toc_name: String,
    /// `lang`: the language of the book.
    pub lang: String,
}

/// A book, as far as the renderers read it.
#[derive(Debug)]
pub struct Book {
    /// The options of the book.
    pub options: Options,
    /// The file that describes the book.
    pub source: Source,
    /// The files of the chapters, in order.
    pub chapters: Vec<String>,
}

/// Whether a character is a decimal digit.
pub open spec fn is_digit(c: char) -> bool {
    '0' <= c <= '9'
}

/// Whether a text is made of decimal digits only.
pub open spec fn all_digits(s: Seq<char>) -> bool {
    forall|i: int| 0 <= i < s.len() ==> is_digit(#[trigger] s[i])
}

/// The number that a run of decimal digits stands for.
pub open spec fn digits_value(s: Seq<char>) -> int
    decreases s.len(),
{
    if s.len() == 0 {
        0
    } else {
        digits_value(s.drop_last()) * 10 + (s.last() as int - '0' as int)
    }
}

/// The integer that a text stands for, if it is one: decimal digits, at
/// least one, after a minus sign or none.
pub open spec fn integer_of(s: Seq<char>) -> Option<int> {
    if s.len() > 0 && s[0] == '-' {
        if s.len() > 1 && all_digits(s.skip(1)) {
            Some(-digits_value(s.skip(1)))
        } else {
            None
        }
    } else if s.len() > 0 && all_digits(s) {
        Some(digits_value(s))
    } else {
        None
    }
}

/// The truth value that a text stands for, if it is `true` or `false`.
pub open spec fn bool_of(s: Seq<char>) -> Option<bool> {
    if s == "true"@ {
        Some(true)
    } else if s == "false"@ {
        Some(false)
    } else {
        None
    }
}

/// The names of the options that hold a truth value.
pub open spec fn is_bool_key(key: Seq<char>) -> bool {
    key == "rendering.initials"@ || key == "html.side_notes"@ || key
        == "rendering.chapter.roman_numerals"@ || key == "rendering.part.roman_numerals"@ || key
        == "rendering.part.reset_counter"@ || key == "html.escape_nb_spaces"@
}

/// The names of the options that hold a text.
pub open spec fn is_text_key(key: Seq<char>) -> bool {
    key == "rendering.highlight"@ || key == "html.header"@ || key == "html.footer"@ || key
        == "rendering.inline_toc.name"@ || key == "lang"@
}

/// The names of the options that are held here: `rendering.num_depth`, which
/// holds an integer, the six that hold a truth value and the five that hold
/// a text. Any other name, be it that of another option of a book, is not
/// known here.
pub open spec fn is_option_key(key: Seq<char>) -> bool {
    key == "rendering.num_depth"@ || is_bool_key(key) || is_text_key(key)
}

/// Whether `value` is accepted for the option named `key`: the name is known
/// here and the value can be read as what the option holds.
pub open spec fn option_accepted(key: Seq<char>, value: Seq<char>) -> bool {
    if key == "rendering.num_depth"@ {
        integer_of(value) matches Some(v) && i32::MIN <= v <= i32::MAX
    } else if is_bool_key(key) {
        bool_of(value) is Some
    } else {
        is_text_key(key)
    }
}

/// The message for a name that is not known here.
pub open spec fn unknown_key(key: Seq<char>) -> Seq<char> {
    "unrecognized key '"@ + key + "'"@
}

/// What is wrong with `value` for the option named `key`, where it is not
/// accepted: the name is not known here, or the value cannot be read.
pub open spec fn option_refusal(key: Seq<char>, value: Seq<char>) -> Seq<char> {
    if key == "rendering.num_depth"@ {
        "could not parse '"@ + value + "' as an integer"@
    } else if is_bool_key(key) {
        "could not parse '"@ + value + "' as a boolean"@
    } else {
        unknown_key(key)
    }
}

/// Whether `after` is `before` with the option named `key` set to `value`,
/// which is accepted for it.
pub open spec fn option_set(before: Options, key: Seq<char>, value: Seq<char>, after: Options) -> bool {
    if key == "rendering.num_depth"@ {
        after == (Options { num_depth: integer_of(value)->0 as i32, ..before })
    } else if key == "rendering.initials"@ {
        after == (Options { initials: bool_of(value)->0, ..before })
    } else if key == "html.side_notes"@ {
        after == (Options { side_notes: bool_of(value)->0, ..before })
    } else if key == "rendering.chapter.roman_numerals"@ {
        after == (Options { chapter_roman_numerals: bool_of(value)->0, ..before })
    } else if key == "rendering.part.roman_numerals"@ {
        after == (Options { part_roman_numerals: bool_of(value)->0, ..before })
    } else if key == "rendering.part.reset_counter"@ {
        after == (Options { part_reset_counter: bool_of(value)->0, ..before })
    } else if key == "html.escape_nb_spaces"@ {
        after == (Options { escape_nb_spaces: bool_of(value)->0, ..before })
    } else if key == "rendering.highlight"@ {
        after == (Options { highlight: after.highlight, ..before }) && after.highlight@ == value
    } else if key == "html.header"@ {
        after == (Options { header: after.header, ..before }) && after.header is Some
            && after.header->0@ == value
    } else if key == "html.footer"@ {
        after == (Options { footer: after.footer, ..before }) && after.footer is Some
            && after.footer->0@ == value
    } else if key == "rendering.inline_toc.name"@ {
        after == (Options { inline_toc_name: after.inline_toc_name, ..before })
            && after.inline_toc_name@ == value
    } else {
        after == (Options { lang: after.lang, ..before }) && after.lang@ == value
    }
}

/// Whether two texts are the same.
pub fn same_text(a: &str, b: &str) -> (same: bool)
    ensures
        same == (a@ == b@),
{
    String::from_str(a) == String::from_str(b)
}

/// Reads a truth value, written `true` or `false`.
pub fn parse_bool(value: &str) -> (r: Option<bool>)
    ensures
        r == bool_of(value@),
{
    if same_text(value, "true") {
        Some(true)
    } else if same_text(value, "false") {
        Some(false)
    } else {
        None
    }
}

/// Reads an integer written in decimal, if it fits.
pub fn parse_i32(value: &str) -> (r: Option<i32>)
    ensures
        r == match integer_of(value@) {
            Some(v) => if i32::MIN <= v <= i32::MAX {
                Some(v as i32)
            } else {
                None
            },
            None => None,
        },
{
    let len: usize = value.unicode_len();
    if len == 0 {
        return None;
    }
    let negative: bool = value.get_char(0) == '-';
    let start: usize = if negative {
        1
    } else {
        0
    };
    if start >= len {
        return None;
    }
    let ghost digits = value@.skip(start as int);
    let mut acc: i64 = 0;
    let mut overflow: bool = false;
    let mut i: usize = start;
    while i < len
        invariant
            start <= i <= len,
            len == value@.len(),
            negative == (value@[0] == '-'),
            start == if negative { 1int } else { 0int },
            digits == value@.skip(start as int),
            all_digits(digits.take(i - start)),
            0 <= acc <= 2147483648,
            !overflow ==> acc == digits_value(digits.take(i - start)),
            overflow ==> digits_value(digits.take(i - start)) > 2147483648,
        decreases len - i,
    {
        let c: char = value.get_char(i);
        let code: u32 = c as u32;
        let ghost run = digits.take(i - start + 1);
        proof {
            assert(run.drop_last() =~= digits.take(i - start));
            assert(run.last() == c);
        }
        if code < 48 || code > 57 {
            return None;
        }
        let d: i64 = (code - 48) as i64;
        if !overflow {
            acc = acc * 10 + d;
            if acc > 2147483648 {
                overflow = true;
                acc = 0;
            }
        }
        proof {
            assert forall|j: int| 0 <= j < run.len() implies is_digit(#[trigger] run[j]) by {
                if j < run.len() - 1 {
                    assert(run[j] == digits.take(i - start)[j]);
                }
            }
        }
        i = i + 1;
    }
    proof {
        assert(digits.take(len - start) =~= digits);
        if !negative {
            assert(digits =~= value@);
        }
    }
    if overflow {
        None
    } else if negative {
        Some((-acc) as i32)
    } else if acc > 2147483647 {
        None
    } else {
        Some(acc as i32)
    }
}

impl Options {
    /// Whether `key` names one of the options that are held here. A caller
    /// that also knows other options of a book asks this before it calls
    /// `set`, and deals with the others itself.
    pub fn knows(key: &str) -> (known: bool)
        ensures
            known == is_option_key(key@),
    {
        same_text(key, "rendering.num_depth") || same_text(key, "rendering.initials") || same_text(
            key,
            "html.side_notes",
        ) || same_text(key, "rendering.chapter.roman_numerals") || same_text(
            key,
            "rendering.part.roman_numerals",
        ) || same_text(key, "rendering.part.reset_counter") || same_text(
            key,
            "html.escape_nb_spaces",
        ) || same_text(key, "rendering.highlight") || same_text(key, "html.header") || same_text(
            key,
            "html.footer",
        ) || same_text(key, "rendering.inline_toc.name") || same_text(key, "lang")
    }

    /// Sets the option named `key` to the value written in `value`, or says
    /// why it cannot: `key` is none of the twelve names that are known here
    /// (see `is_option_key`), or `value` cannot be read as what the option
    /// holds. Nothing is set then.
    pub fn set(&mut self, key: &str, value: &str) -> (r: Result<(), String>)
        ensures
            r is Ok <==> option_accepted(key@, value@),
            r is Ok ==> option_set(*old(self), key@, value@, *final(self)),
            r is Err ==> *final(self) == *old(self) && r->Err_0@ == option_refusal(key@, value@),
            !is_option_key(key@) ==> r is Err && r->Err_0@ == unknown_key(key@),
    {
        proof {
            lemma_keys_differ();
        }
        if !Options::knows(key) {
            return Err(refusal("unrecognized key '", key, "'"));
        }
        if same_text(key, "rendering.num_depth") {
            match parse_i32(value) {
                Some(depth) => {
                    self.num_depth = depth;
                    Ok(())
                },
                None => Err(refusal("could not parse '", value, "' as an integer")),
            }
        } else if same_text(key, "rendering.initials") {
            match parse_bool(value) {
                Some(b) => {
                    self.initials = b;
                    Ok(())
                },
                None => Err(refusal("could not parse '", value, "' as a boolean")),
            }
        } else if same_text(key, "html.side_notes") {
            match parse_bool(value) {
                Some(b) => {
                    self.side_notes = b;
                    Ok(())
                },
                None => Err(refusal("could not parse '", value, "' as a boolean")),
            }
        } else if same_text(key, "rendering.chapter.roman_numerals") {
            match parse_bool(value) {
                Some(b) => {
                    self.chapter_roman_numerals = b;
                    Ok(())
                },
                None => Err(refusal("could not parse '", value, "' as a boolean")),
            }
        } else if same_text(key, "rendering.part.roman_numerals") {
            match parse_bool(value) {
                Some(b) => {
                    self.part_roman_numerals = b;
                    Ok(())
                },
                None => Err(refusal("could not parse '", value, "' as a boolean")),
            }
        } else if same_text(key, "rendering.part.reset_counter") {
            match parse_bool(value) {
                Some(b) => {
                    self.part_reset_counter = b;
                    Ok(())
                },
                None => Err(refusal("could not parse '", value, "' as a boolean")),
            }
        } else if same_text(key, "html.escape_nb_spaces") {
            match parse_bool(value) {
                Some(b) => {
                    self.escape_nb_spaces = b;
                    Ok(())
                },
                None => Err(refusal("could not parse '", value, "' as a boolean")),
            }
        } else if same_text(key, "rendering.highlight") {
            self.highlight = String::from_str(value);
            Ok(())
        } else if same_text(key, "html.header") {
            self.header = Some(String::from_str(value));
            Ok(())
        } else if same_text(key, "html.footer") {
            self.footer = Some(String::from_str(value));
            Ok(())
        } else if same_text(key, "rendering.inline_toc.name") {
            self.inline_toc_name = String::from_str(value);
            Ok(())
        } else {
            self.lang = String::from_str(value);
            Ok(())
        }
    }
}

/// A message made of three pieces.
fn refusal(before: &str, subject: &str, after: &str) -> (message: String)
    ensures
        message@ == before@ + subject@ + after@,
{
    let mut message = String::from_str(before);
    message.append(subject);
    message.append(after);
    message
}

/// The names of the options differ from one another.
proof fn lemma_keys_differ()
    ensures
        "rendering.num_depth"@.len() == 19,
        "rendering.initials"@.len() == 18,
        "html.side_notes"@.len() == 15,
        "rendering.chapter.roman_numerals"@.len() == 32,
        "rendering.part.roman_numerals"@.len() == 29,
        "rendering.part.reset_counter"@.len() == 28,
        "html.escape_nb_spaces"@.len() == 21,
        "rendering.highlight"@.len() == 19,
        "html.header"@.len() == 11,
        "html.footer"@.len() == 11,
        "rendering.inline_toc.name"@.len() == 25,
        "lang"@.len() == 4,
        "rendering.num_depth"@[10] == 'n',
        "rendering.highlight"@[10] == 'h',
        "html.header"@[5] == 'h',
        "html.footer"@[5] == 'f',
{
    reveal_strlit("rendering.num_depth");
    reveal_strlit("rendering.initials");
    reveal_strlit("html.side_notes");
    reveal_strlit("rendering.chapter.roman_numerals");
    reveal_strlit("rendering.part.roman_numerals");
    reveal_strlit("rendering.part.reset_counter");
    reveal_strlit("html.escape_nb_spaces");
    reveal_strlit("rendering.highlight");
    reveal_strlit("html.header");
    reveal_strlit("html.footer");
    reveal_strlit("rendering.inline_toc.name");
    reveal_strlit("lang");
}

/// The texts of a list, as the contracts see them.
pub open spec fn texts(values: Seq<String>) -> Seq<Seq<char>> {
    values.map_values(|value: String| value@)
}

/// The record of the first `n` pairs of a list of keys and values: a line
/// for each, with the key, a colon and the value.
pub open spec fn settings_text(values: Seq<Seq<char>>, n: int) -> Seq<char>
    decreases n,
{
    if n <= 0 {
        Seq::empty()
    } else {
        settings_text(values, n - 1) + values[2 * (n - 1)] + ": "@ + values[2 * (n - 1) + 1] + "\n"@
    }
}

/// Whether `after` is `before` with the first `n` pairs of a list of keys
/// and values set one after the other.
pub open spec fn pairs_set(before: Options, values: Seq<Seq<char>>, n: int, after: Options) -> bool
    decreases n,
{
    if n <= 0 {
        after == before
    } else {
        exists|mid: Options| #[trigger]
            witness(mid) && pairs_set(before, values, n - 1, mid) && option_set(
                mid,
                values[2 * (n - 1)],
                values[2 * (n - 1) + 1],
                after,
            )
    }
}

/// Whether each of the first `n` pairs of a list of keys and values is
/// accepted.
pub open spec fn pairs_accepted(values: Seq<Seq<char>>, n: int) -> bool {
    forall|k: int| 0 <= k < n ==> option_accepted(#[trigger] values[2 * k], values[2 * k + 1])
}

/// The message for a list of keys and values that is not made of pairs.
pub open spec fn odd_settings() -> Seq<char> {
    "An odd number of arguments was passed to --set, but it takes a list of key value pairs."@
}

/// The message for a key that could not be set.
pub open spec fn setting_failure(key: Seq<char>, value: Seq<char>) -> Seq<char> {
    "Error in setting key "@ + key + ": "@ + option_refusal(key, value)
}

/// Sets the options of a book from a list of keys, each followed by its
/// value, and returns a record of what was set, to be written to the file of
/// a book. The first pair that is not accepted ends the work with a message;
/// the pairs before it are set. Only the options that the renderers read are
/// known here (see `is_option_key`): a key that names another option of a
/// book is not accepted, and its message is that of `unknown_key`.
pub fn set_book_options(book: &mut Book, values: &Vec<String>) -> (r: Result<String, String>)
    ensures
        final(book).source == old(book).source,
        final(book).chapters == old(book).chapters,
        values.len() % 2 != 0 ==> r is Err && r->Err_0@ == odd_settings() && final(book).options
            == old(book).options,
        values.len() % 2 == 0 ==> match r {
            Ok(output) => pairs_accepted(texts(values@), values@.len() as int / 2) && pairs_set(
                old(book).options,
                texts(values@),
                values@.len() as int / 2,
                final(book).options,
            ) && output@ == settings_text(texts(values@), values@.len() as int / 2),
            Err(message) => exists|k: int| #[trigger]
                pairs_accepted(texts(values@), k) && 0 <= k < values.len() / 2 && !option_accepted(
                    texts(values@)[2 * k],
                    texts(values@)[2 * k + 1],
                ) && pairs_set(old(book).options, texts(values@), k, final(book).options)
                    && message@ == setting_failure(texts(values@)[2 * k], texts(values@)[2 * k + 1]),
        },
{
    let mut output = String::new();
    if values.len() % 2 != 0 {
        return Err(
            String::from_str(
                "An odd number of arguments was passed to --set, but it takes a list of key value pairs.",
            ),
        );
    }
    let pairs: usize = values.len() / 2;
    let ghost all = texts(values@);
    let mut i: usize = 0;
    while i < pairs
        invariant
            i <= pairs,
            pairs == values.len() / 2,
            values.len() % 2 == 0,
            all == texts(values@),
            book.source == old(book).source,
            book.chapters == old(book).chapters,
            pairs_accepted(all, i as int),
            pairs_set(old(book).options, all, i as int, book.options),
            output@ == settings_text(all, i as int),
        decreases pairs - i,
    {
        let key = &values[i * 2];
        let value = &values[i * 2 + 1];
        let ghost mid = book.options;
        let res = book.options.set(key.as_str(), value.as_str());
        match res {
            Err(err) => {
                let mut message = String::from_str("Error in setting key ");
                message.append(key.as_str());
                message.append(": ");
                message.append(err.as_str());
                return Err(message);
            },
            Ok(_) => {},
        }
        output.append(key.as_str());
        output.append(": ");
        output.append(value.as_str());
        output.append("\n");
        proof {
            assert(witness(mid));
        }
        i = i + 1;
    }
    Ok(output)
}

} // verus!
