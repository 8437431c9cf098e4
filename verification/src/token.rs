//! The tokens of a parsed document: a tree of structural markup.

use vstd::prelude::*;

verus! {

/// What an annotation says about the text it wraps.
#[derive(Debug)]
pub enum Data {
    /// A grammar error, with the message that explains it.
    GrammarError(String),
    /// A repetition, with the colour to underline it with.
    Repetition(String),
}

/// A node of a parsed document.
#[derive(Debug)]
pub enum Token {
    /// Plain text.
    Str(String),
    /// A paragraph.
    Paragraph(Vec<Token>),
    /// A header, with its level.
    Header(i32, Vec<Token>),
    /// Emphasized text.
    Emphasis(Vec<Token>),
    /// Strongly emphasized text.
    Strong(Vec<Token>),
    /// Inline code.
    Code(Vec<Token>),
    /// A quote.
    BlockQuote(Vec<Token>),
    /// A block of code, with its language.
    CodeBlock(String, Vec<Token>),
    /// An unordered list.
    List(Vec<Token>),
    /// An ordered list, with the number of its first item.
    OrderedList(usize, Vec<Token>),
    /// An item of a list.
    Item(Vec<Token>),
    /// A table, with its number of columns.
    Table(i32, Vec<Token>),
    /// The head row of a table.
    TableHead(Vec<Token>),
    /// A row of a table.
    TableRow(Vec<Token>),
    /// A cell of a table.
    TableCell(Vec<Token>),
    /// A footnote.
    Footnote(Vec<Token>),
    /// A horizontal rule.
    Rule,
    /// A line break that the source does not insist on.
    SoftBreak,
    /// A line break that the source insists on.
    HardBreak,
    /// A link, with its url and title.
    Link(String, String, Vec<Token>),
    /// An image inside a line, with its url, its title and its alternate text.
    Image(String, String, Vec<Token>),
    /// An image that stands alone in its paragraph.
    StandaloneImage(String, String, Vec<Token>),
    /// Text with an annotation.
    Annotation(Data, Vec<Token>),
}

impl Token {
    /// Whether the token is plain text.
    pub fn is_str(&self) -> (b: bool)
        ensures
            b == (self is Str),
    {
        match self {
            Token::Str(_) => true,
            _ => false,
        }
    }

    /// Whether the token is an image inside a line.
    pub fn is_image(&self) -> (b: bool)
        ensures
            b == (self is Image),
    {
        match self {
            Token::Image(_, _, _) => true,
            _ => false,
        }
    }
}

} // verus!
