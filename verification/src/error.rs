//! The errors of a render pass, and where in the sources they arose.

use vstd::prelude::*;

verus! {

/// The place in the sources that a render pass is working on.
#[derive(Debug)]
pub struct Source {
    /// The name of the file, empty where there is none.
    pub file: String,
}

impl View for Source {
    type V = Seq<char>;

    open spec fn view(&self) -> Seq<char> {
        self.file@
    }
}

impl Source {
    /// The place of something that comes from no file.
    pub fn empty() -> (source: Source)
        ensures
            source@ == Seq::<char>::empty(),
    {
        Source { file: String::new() }
    }

    /// The place of something that comes from the file `file`.
    pub fn new(file: &str) -> (source: Source)
        ensures
            source@ == file@,
    {
        Source { file: String::from_str(file) }
    }

    /// A copy of this place.
    pub fn duplicate(&self) -> (source: Source)
        ensures
            source@ == self@,
    {
        Source { file: self.file.clone() }
    }
}

/// What went wrong.
#[derive(Debug, Clone, Copy, PartialEq, Eq, Structural)]
pub enum ErrorKind {
    /// The document could not be rendered.
    Render,
    /// A link or an image could not be resolved.
    Resource,
    /// A template could not be compiled or filled in.
    Template,
    /// A text could not be parsed.
    Parser,
}

/// An error as the contracts see it.
pub struct ErrorView {
    pub kind: ErrorKind,
    pub source: Seq<char>,
    pub msg: Seq<char>,
}

/// An error that ends a render pass.
#[derive(Debug)]
pub struct Error {
    /// What went wrong.
    pub kind: ErrorKind,
    /// The place in the sources where it went wrong.
    pub source: Source,
    /// The message for the user.
    pub msg: String,
}

impl View for Error {
    type V = ErrorView;

    open spec fn view(&self) -> ErrorView {
        ErrorView { kind: self.kind, source: self.source@, msg: self.msg@ }
    }
}

impl Error {
    /// An error of the given kind.
    pub fn new(kind: ErrorKind, source: &Source, msg: String) -> (error: Error)
        ensures
            error@ == (ErrorView { kind: kind, source: source@, msg: msg@ }),
    {
        Error { kind: kind, source: source.duplicate(), msg: msg }
    }

    /// An error that arose while rendering.
    pub fn render(source: &Source, msg: String) -> (error: Error)
        ensures
            error@ == (ErrorView { kind: ErrorKind::Render, source: source@, msg: msg@ }),
    {
        Error::new(ErrorKind::Render, source, msg)
    }

    /// The message of the error, after the file it arose in where there is one.
    pub fn message(&self) -> (text: String)
        ensures
            text@ == self@.message(),
    {
        if self.source.file.as_str().unicode_len() == 0 {
            self.msg.clone()
        } else {
            let mut text = self.source.file.clone();
            text.append(": ");
            text.append(self.msg.as_str());
            text
        }
    }
}

impl ErrorView {
    /// The message of the error, after the file it arose in where there is one.
    pub open spec fn message(self) -> Seq<char> {
        if self.source.len() == 0 {
            self.msg
        } else {
            self.source + ": "@ + self.msg
        }
    }
}

/// The result of a render step, as the contracts see it.
pub open spec fn result_view(r: Result<String, Error>) -> Result<Seq<char>, ErrorView> {
    match r {
        Ok(s) => Ok(s@),
        Err(e) => Err(e@),
    }
}

} // verus!
