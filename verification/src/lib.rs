//! The shared rendering engine of a book renderer: numbering, footnotes,
//! HTML markup for a tree of tokens, and tables of contents.

pub mod book;
pub mod epub;
pub mod error;
pub mod escape;
pub mod html;
pub mod laws;
pub mod markup;
pub mod number;
pub mod page;
pub mod render;
pub mod renderer;
pub mod roman;
pub mod text;
pub mod toc;
pub mod token;
pub mod walk;
pub mod witness;
