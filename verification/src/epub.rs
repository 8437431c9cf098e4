//! The table of contents of the EPUB builder, which the renderer fills.

use vstd::prelude::*;

verus! {

/// A table of contents of the EPUB builder.
#[verifier::external_body]
pub struct EpubToc {
    inner: epub_builder::Toc,
}

/// The entries of a table, each before those below it, in the order in which
/// they were added: level, url and title.
pub uninterp spec fn toc_entries(toc: EpubToc) -> Seq<(int, Seq<char>, Seq<char>)>;

/// An entry as the contracts see it: its level, its url and its title.
pub open spec fn entry_view(entry: (i32, String, String)) -> (int, Seq<char>, Seq<char>) {
    (entry.0 as int, entry.1@, entry.2@)
}

/// Calls `epub_builder::Toc::new`, which makes a table without entries.
#[verifier::external_body]
pub(crate) fn new_toc() -> (toc: EpubToc)
    ensures
        toc_entries(toc) == Seq::<(int, Seq<char>, Seq<char>)>::empty(),
{
    EpubToc { inner: epub_builder::Toc::new() }
}

/// Calls `epub_builder::Toc::add` with an element made by
/// `epub_builder::TocElement::new` and `level`: the element comes after
/// every entry that the table held, below the last one if it lies deeper, and
/// the entries that were there stay as they are.
#[verifier::external_body]
pub(crate) fn add_to_toc(toc: &mut EpubToc, level: i32, url: String, title: String)
    ensures
        toc_entries(*final(toc)) == toc_entries(*old(toc)).push((level as int, url@, title@)),
{
    toc.inner.add(epub_builder::TocElement::new(url, title).level(level));
}

/// Reads the fields `elements` and `children` of `epub_builder::Toc` and
/// `epub_builder::TocElement`: hands out the entries of the table, each
/// before those below it, with its level, its url and its title.
#[verifier::external_body]
pub(crate) fn entries_of(toc: &EpubToc) -> (entries: Vec<(i32, String, String)>)
    ensures
        entries@.map_values(|entry: (i32, String, String)| entry_view(entry)) == toc_entries(*toc),
{
    let mut entries = Vec::new();
    let mut rest: Vec<&epub_builder::TocElement> = toc.inner.elements.iter().rev().collect();
    while let Some(element) = rest.pop() {
        entries.push((element.level, element.url.clone(), element.title.clone()));
        rest.extend(element.children.iter().rev());
    }
    entries
}

} // verus!
