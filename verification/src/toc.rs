//! A table of contents: a flat list of entries, each with a level, that is
//! rendered either as nested HTML lists or as the navigation points of an
//! EPUB `toc.ncx`.

use vstd::prelude::*;
use crate::text::{blanks, decimal, push_decimal, push_spaces};

verus! {

/// An entry of a table of contents, as the contracts see it.
pub struct TocEntry {
    pub level: int,
    pub url: Seq<char>,
    pub title: Seq<char>,
}

/// A table of contents, as the contracts see it.
pub struct TocView {
    pub entries: Seq<TocEntry>,
    pub numbered: bool,
}

/// An entry of a table of contents.
#[derive(Debug)]
pub struct TocElement {
    pub level: i32,
    pub url: String,
    pub title: String,
}

impl View for TocElement {
    type V = TocEntry;

    open spec fn view(&self) -> TocEntry {
        TocEntry { level: self.level as int, url: self.url@, title: self.title@ }
    }
}

impl TocElement {
    /// Creates an entry.
    pub fn new(level: i32, url: String, title: String) -> (element: TocElement)
        ensures
            element@ == (TocEntry { level: level as int, url: url@, title: title@ }),
    {
        TocElement { level: level, url: url, title: title }
    }
}

/// A structure for manipulating a table of contents.
#[derive(Debug)]
pub struct Toc {
    elements: Vec<TocElement>,
    numbered: bool,
}

impl View for Toc {
    type V = TocView;

    closed spec fn view(&self) -> TocView {
        TocView { entries: self.elements@.map_values(|e: TocElement| e@), numbered: self.numbered }
    }
}

/// Whether some entry is a part, that is, has level zero.
pub open spec fn has_part(entries: Seq<TocEntry>) -> bool {
    exists|i: int| 0 <= i < entries.len() && (#[trigger] entries[i]).level == 0
}

/// The entries, each one level deeper.
pub open spec fn shifted(entries: Seq<TocEntry>) -> Seq<TocEntry> {
    entries.map_values(|e: TocEntry| TocEntry { level: e.level + 1, ..e })
}

/// The entries as they are rendered: where there are parts, every entry moves
/// one level down, so that parts stand at level one.
pub open spec fn normalized(entries: Seq<TocEntry>) -> Seq<TocEntry> {
    if has_part(entries) {
        shifted(entries)
    } else {
        entries
    }
}

/// Whether the entries can be normalized: where there are parts, every level
/// can be raised by one.
pub open spec fn shiftable(entries: Seq<TocEntry>) -> bool {
    has_part(entries) ==> forall|i: int|
        0 <= i < entries.len() ==> (#[trigger] entries[i]).level < i32::MAX
}

/// Whether no entry has a negative level.
pub open spec fn levels_valid(entries: Seq<TocEntry>) -> bool {
    forall|i: int| 0 <= i < entries.len() ==> (#[trigger] entries[i]).level >= 0
}

/// Where a table has parts, normalizing it leaves every entry at level one or
/// deeper; where it has none, normalizing changes nothing.
pub proof fn lemma_normalized_levels(entries: Seq<TocEntry>)
    requires
        levels_valid(entries),
    ensures
        normalized(entries).len() == entries.len(),
        has_part(entries) ==> forall|i: int|
            0 <= i < entries.len() ==> (#[trigger] normalized(entries)[i]).level >= 1,
        !has_part(entries) ==> normalized(entries) == entries,
{
    if has_part(entries) {
        assert forall|i: int| 0 <= i < entries.len() implies (#[trigger] normalized(
            entries,
        )[i]).level >= 1 by {
            assert(entries[i].level >= 0);
        }
    }
}

/// Normalizing a table a second time changes nothing.
pub proof fn lemma_normalized_idempotent(entries: Seq<TocEntry>)
    requires
        levels_valid(entries),
    ensures
        normalized(normalized(entries)) == normalized(entries),
{
    lemma_normalized_levels(entries);
    if has_part(entries) {
        let once = normalized(entries);
        if has_part(once) {
            let i = choose|i: int| 0 <= i < once.len() && (#[trigger] once[i]).level == 0;
        }
    }
}

/// One piece of a table rendered as nested lists.
pub enum ListEvent {
    /// A list is opened, indented by so many blanks.
    Open(int),
    /// A list is closed, indented by so many blanks.
    Close(int),
    /// The last lists are closed, with no line break after the tag.
    FinalClose(int),
    /// The item of the entry at this index begins, with its link.
    Item(int),
    /// The item of the entry at this index ends.
    EndItem(int),
}

/// The lists opened to go from level `from` down to the deeper level `to`:
/// one for each level in between, the outermost first.
pub open spec fn opens(from: int, to: int) -> Seq<ListEvent> {
    Seq::new((to - from) as nat, |k: int| ListEvent::Open(from + k))
}

/// The lists closed to come back from level `to` up to level `from`, the
/// innermost first.
pub open spec fn closes(from: int, to: int) -> Seq<ListEvent> {
    Seq::new((to - from) as nat, |k: int| ListEvent::Close(to - 1 - k))
}

/// The lists closed at the very end, the innermost first.
pub open spec fn final_closes(from: int, to: int) -> Seq<ListEvent> {
    Seq::new((to - from) as nat, |k: int| ListEvent::FinalClose(to - 1 - k))
}

/// What a walk over the entries leaves behind: the pieces it produced, the
/// index of the first entry it did not take, and the level of the innermost
/// list that is still open.
pub struct Walk {
    pub events: Seq<ListEvent>,
    pub next: int,
    pub level: int,
}

/// The walk that starts at the entry `x` while the innermost open list is at
/// `level`, and takes entries as long as they lie deeper than `reference`.
///
/// An entry deeper than the open list opens a list for every level in between;
/// one less deep closes lists down to its own level. Its item then holds the
/// walk over the entries below it, and is closed after the lists that this
/// inner walk left open. The walk goes on behind the inner walk, which always
/// moves forward.
pub open spec fn walk(entries: Seq<TocEntry>, x: int, level: int, reference: int) -> Walk
    decreases entries.len() - x,
{
    if x < 0 || x >= entries.len() || entries[x].level <= reference {
        Walk { events: Seq::empty(), next: x, level: level }
    } else {
        let l = entries[x].level;
        let adjust = if l > level {
            opens(level, l)
        } else {
            closes(l, level)
        };
        let inner = walk(entries, x + 1, l, l);
        let own = adjust + seq![ListEvent::Item(x)] + inner.events + closes(l, inner.level)
            + seq![ListEvent::EndItem(x)];
        if x < inner.next <= entries.len() {
            let rest = walk(entries, inner.next, l, reference);
            Walk { events: own + rest.events, next: rest.next, level: rest.level }
        } else {
            Walk { events: own, next: inner.next, level: l }
        }
    }
}

/// The pieces of the whole table, rendered as nested lists.
pub open spec fn nested_events(entries: Seq<TocEntry>) -> Seq<ListEvent> {
    let w = walk(entries, 0, 0, 0);
    w.events + final_closes(0, w.level)
}

/// The tag that opens a list.
pub open spec fn open_tag(numbered: bool) -> Seq<char> {
    if numbered {
        "<ol>"@
    } else {
        "<ul>"@
    }
}

/// The tag that closes a list.
pub open spec fn close_tag(numbered: bool) -> Seq<char> {
    if numbered {
        "</ol>"@
    } else {
        "</ul>"@
    }
}

/// The text of one piece.
pub open spec fn event_text(e: ListEvent, toc: TocView) -> Seq<char> {
    match e {
        ListEvent::Open(i) => blanks(i as nat) + open_tag(toc.numbered) + "\n"@,
        ListEvent::Close(i) => blanks(i as nat) + close_tag(toc.numbered) + "\n"@,
        ListEvent::FinalClose(i) => blanks(i as nat) + close_tag(toc.numbered),
        ListEvent::Item(k) => blanks(toc.entries[k].level as nat) + "<li><a href = \""@
            + toc.entries[k].url + "\">"@ + toc.entries[k].title + "</a>\n"@,
        ListEvent::EndItem(k) => blanks(toc.entries[k].level as nat) + "</li>\n"@,
    }
}

/// The text of a run of pieces, one after the other.
pub open spec fn events_text(events: Seq<ListEvent>, toc: TocView) -> Seq<char>
    decreases events.len(),
{
    if events.len() == 0 {
        Seq::empty()
    } else {
        events_text(events.drop_last(), toc) + event_text(events.last(), toc)
    }
}

/// The number of lists that a run of pieces opens.
pub open spec fn opened(events: Seq<ListEvent>) -> nat
    decreases events.len(),
{
    if events.len() == 0 {
        0
    } else {
        opened(events.drop_last()) + if events.last() is Open {
            1nat
        } else {
            0nat
        }
    }
}

/// The number of lists that a run of pieces closes.
pub open spec fn closed(events: Seq<ListEvent>) -> nat
    decreases events.len(),
{
    if events.len() == 0 {
        0
    } else {
        closed(events.drop_last()) + if events.last() is Close || events.last() is FinalClose {
            1nat
        } else {
            0nat
        }
    }
}

/// The text of two runs of pieces is the text of the first, then that of the
/// second.
pub proof fn lemma_events_text_add(a: Seq<ListEvent>, b: Seq<ListEvent>, toc: TocView)
    ensures
        events_text(a + b, toc) == events_text(a, toc) + events_text(b, toc),
    decreases b.len(),
{
    if b.len() > 0 {
        lemma_events_text_add(a, b.drop_last(), toc);
        assert((a + b).drop_last() =~= a + b.drop_last());
    }
}

/// The text of a run with one more piece at its end.
pub proof fn lemma_events_text_push(a: Seq<ListEvent>, e: ListEvent, toc: TocView)
    ensures
        events_text(a.push(e), toc) == events_text(a, toc) + event_text(e, toc),
{
    assert(a.push(e).drop_last() =~= a);
}

/// A walk moves forward only, never beyond the last entry, and leaves no
/// list open above its reference level if it started with none.
pub proof fn lemma_walk_bounds(entries: Seq<TocEntry>, x: int, level: int, reference: int)
    requires
        0 <= x <= entries.len(),
        reference <= level,
    ensures
        x <= walk(entries, x, level, reference).next <= entries.len(),
        reference <= walk(entries, x, level, reference).level,
    decreases entries.len() - x,
{
    if x < entries.len() && entries[x].level > reference {
        let l = entries[x].level;
        lemma_walk_bounds(entries, x + 1, l, l);
        let inner = walk(entries, x + 1, l, l);
        lemma_walk_bounds(entries, inner.next, l, reference);
    }
}

/// Two runs of pieces open as many lists as the one and the other together,
/// and close as many.
pub proof fn lemma_count_add(a: Seq<ListEvent>, b: Seq<ListEvent>)
    ensures
        opened(a + b) == opened(a) + opened(b),
        closed(a + b) == closed(a) + closed(b),
    decreases b.len(),
{
    if b.len() > 0 {
        lemma_count_add(a, b.drop_last());
        assert((a + b).drop_last() =~= a + b.drop_last());
    }
}

/// A single piece opens or closes at most one list.
pub proof fn lemma_count_one(e: ListEvent)
    ensures
        opened(seq![e]) == if e is Open { 1nat } else { 0nat },
        closed(seq![e]) == if e is Close || e is FinalClose { 1nat } else { 0nat },
{
    assert(opened(seq![e].drop_last()) == 0);
    assert(closed(seq![e].drop_last()) == 0);
}

/// Going from one level to a deeper one opens one list per level, and coming
/// back closes one list per level.
pub proof fn lemma_count_levels(from: int, to: int)
    requires
        from <= to,
    ensures
        opened(opens(from, to)) == to - from,
        closed(opens(from, to)) == 0,
        opened(closes(from, to)) == 0,
        closed(closes(from, to)) == to - from,
        opened(final_closes(from, to)) == 0,
        closed(final_closes(from, to)) == to - from,
    decreases to - from,
{
    if from < to {
        lemma_count_levels(from, to - 1);
        assert(opens(from, to).drop_last() =~= opens(from, to - 1));
        lemma_count_levels(from + 1, to);
        assert(closes(from, to).drop_last() =~= closes(from + 1, to));
        assert(final_closes(from, to).drop_last() =~= final_closes(from + 1, to));
    }
}

/// A walk opens as many lists more than it closes as it leaves more lists
/// open than it found.
pub proof fn lemma_walk_balance(entries: Seq<TocEntry>, x: int, level: int, reference: int)
    requires
        0 <= x <= entries.len(),
        reference <= level,
    ensures
        opened(walk(entries, x, level, reference).events) + level == closed(
            walk(entries, x, level, reference).events,
        ) + walk(entries, x, level, reference).level,
    decreases entries.len() - x,
{
    if x < entries.len() && entries[x].level > reference {
        let l = entries[x].level;
        let adjust = if l > level {
            opens(level, l)
        } else {
            closes(l, level)
        };
        let inner = walk(entries, x + 1, l, l);
        lemma_walk_bounds(entries, x + 1, l, l);
        lemma_walk_balance(entries, x + 1, l, l);
        let rest = walk(entries, inner.next, l, reference);
        lemma_walk_balance(entries, inner.next, l, reference);
        if l > level {
            lemma_count_levels(level, l);
        } else {
            lemma_count_levels(l, level);
        }
        lemma_count_levels(l, inner.level);
        lemma_count_one(ListEvent::Item(x));
        lemma_count_one(ListEvent::EndItem(x));
        let a1 = adjust + seq![ListEvent::Item(x)];
        let a2 = a1 + inner.events;
        let a3 = a2 + closes(l, inner.level);
        let own = a3 + seq![ListEvent::EndItem(x)];
        lemma_count_add(adjust, seq![ListEvent::Item(x)]);
        lemma_count_add(a1, inner.events);
        lemma_count_add(a2, closes(l, inner.level));
        lemma_count_add(a3, seq![ListEvent::EndItem(x)]);
        lemma_count_add(own, rest.events);
    }
}

/// A table rendered as nested lists closes exactly as many lists as it opens,
/// whatever the levels of its entries are.
pub proof fn lemma_nested_balanced(entries: Seq<TocEntry>)
    ensures
        opened(nested_events(entries)) == closed(nested_events(entries)),
{
    let w = walk(entries, 0, 0, 0);
    lemma_walk_bounds(entries, 0, 0, 0);
    lemma_walk_balance(entries, 0, 0, 0);
    lemma_count_levels(0, w.level);
    lemma_count_add(w.events, final_closes(0, w.level));
}

/// One piece of a table rendered as navigation points.
pub enum NavEvent {
    /// The navigation point of the entry at this index is opened.
    Point(int),
    /// The innermost open navigation point is closed.
    Close,
}

/// The open levels that are left once every level that is at least `level`
/// has been taken off the top.
pub open spec fn pop_to(stack: Seq<int>, level: int) -> Seq<int>
    decreases stack.len(),
{
    if stack.len() > 0 && stack.last() >= level {
        pop_to(stack.drop_last(), level)
    } else {
        stack
    }
}

/// The levels of the navigation points that are open after the first `n`
/// entries, the outermost first.
pub open spec fn nav_stack(entries: Seq<TocEntry>, n: int) -> Seq<int>
    decreases n,
{
    if n <= 0 {
        Seq::empty()
    } else {
        pop_to(nav_stack(entries, n - 1), entries[n - 1].level).push(entries[n - 1].level)
    }
}

/// So many navigation points closed, one after the other.
pub open spec fn nav_closes(count: nat) -> Seq<NavEvent> {
    Seq::new(count, |k: int| NavEvent::Close)
}

/// The pieces of the first `n` entries: before an entry's own point is
/// opened, every open point at its level or deeper is closed.
pub open spec fn nav_events(entries: Seq<TocEntry>, n: int) -> Seq<NavEvent>
    decreases n,
{
    if n <= 0 {
        Seq::empty()
    } else {
        let before = nav_stack(entries, n - 1);
        let kept = pop_to(before, entries[n - 1].level);
        nav_events(entries, n - 1) + nav_closes((before.len() - kept.len()) as nat).push(
            NavEvent::Point(n - 1),
        )
    }
}

/// The pieces of the whole table, rendered as navigation points: those of
/// the entries, then one closing piece for each point that is still open.
pub open spec fn navigation_events(entries: Seq<TocEntry>) -> Seq<NavEvent> {
    nav_events(entries, entries.len() as int) + nav_closes(
        nav_stack(entries, entries.len() as int).len(),
    )
}

/// The text of one piece; the entry at index `k` gets the number `offset + k`.
pub open spec fn nav_event_text(e: NavEvent, entries: Seq<TocEntry>, offset: nat) -> Seq<char> {
    match e {
        NavEvent::Point(k) => "\n   <navPoint id = \"navPoint-"@ + decimal((offset + k) as nat)
            + "\">\n     <navLabel>\n       <text>"@ + entries[k].title
            + "</text>\n     </navLabel>\n     <content src = \""@ + entries[k].url + "\" />\n"@,
        NavEvent::Close => "    </navPoint>\n"@,
    }
}

/// The text of a run of pieces, one after the other.
pub open spec fn nav_text(events: Seq<NavEvent>, entries: Seq<TocEntry>, offset: nat) -> Seq<char>
    decreases events.len(),
{
    if events.len() == 0 {
        Seq::empty()
    } else {
        nav_text(events.drop_last(), entries, offset) + nav_event_text(
            events.last(),
            entries,
            offset,
        )
    }
}

/// The number of navigation points that a run of pieces opens.
pub open spec fn nav_opened(events: Seq<NavEvent>) -> nat
    decreases events.len(),
{
    if events.len() == 0 {
        0
    } else {
        nav_opened(events.drop_last()) + if events.last() is Point {
            1nat
        } else {
            0nat
        }
    }
}

/// The number of navigation points that a run of pieces closes.
pub open spec fn nav_closed(events: Seq<NavEvent>) -> nat
    decreases events.len(),
{
    if events.len() == 0 {
        0
    } else {
        nav_closed(events.drop_last()) + if events.last() is Close {
            1nat
        } else {
            0nat
        }
    }
}

/// The text of a run with one more piece at its end.
pub proof fn lemma_nav_text_push(a: Seq<NavEvent>, e: NavEvent, entries: Seq<TocEntry>, offset: nat)
    ensures
        nav_text(a.push(e), entries, offset) == nav_text(a, entries, offset) + nav_event_text(
            e,
            entries,
            offset,
        ),
{
    assert(a.push(e).drop_last() =~= a);
}

/// Two runs of pieces open as many navigation points as the one and the other
/// together, and close as many.
pub proof fn lemma_nav_count_add(a: Seq<NavEvent>, b: Seq<NavEvent>)
    ensures
        nav_opened(a + b) == nav_opened(a) + nav_opened(b),
        nav_closed(a + b) == nav_closed(a) + nav_closed(b),
    decreases b.len(),
{
    if b.len() > 0 {
        lemma_nav_count_add(a, b.drop_last());
        assert((a + b).drop_last() =~= a + b.drop_last());
    }
}

/// A run of closing pieces opens nothing and closes one point per piece.
pub proof fn lemma_nav_count_closes(count: nat)
    ensures
        nav_opened(nav_closes(count)) == 0,
        nav_closed(nav_closes(count)) == count,
    decreases count,
{
    if count > 0 {
        lemma_nav_count_closes((count - 1) as nat);
        assert(nav_closes(count).drop_last() =~= nav_closes((count - 1) as nat));
    }
}

/// Taking levels off the top leaves a stack that is no longer.
pub proof fn lemma_pop_to_shorter(stack: Seq<int>, level: int)
    ensures
        pop_to(stack, level).len() <= stack.len(),
    decreases stack.len(),
{
    if stack.len() > 0 && stack.last() >= level {
        lemma_pop_to_shorter(stack.drop_last(), level);
    }
}

/// After the first `n` entries, the points that were opened and not closed
/// are those that are still open.
pub proof fn lemma_nav_open_points(entries: Seq<TocEntry>, n: int)
    requires
        0 <= n <= entries.len(),
    ensures
        nav_opened(nav_events(entries, n)) == n,
        nav_opened(nav_events(entries, n)) == nav_closed(nav_events(entries, n)) + nav_stack(
            entries,
            n,
        ).len(),
    decreases n,
{
    if n > 0 {
        lemma_nav_open_points(entries, n - 1);
        let before = nav_stack(entries, n - 1);
        let kept = pop_to(before, entries[n - 1].level);
        lemma_pop_to_shorter(before, entries[n - 1].level);
        let count = (before.len() - kept.len()) as nat;
        let own = nav_closes(count).push(NavEvent::Point(n - 1));
        lemma_nav_count_closes(count);
        assert(own.drop_last() =~= nav_closes(count));
        lemma_nav_count_add(nav_events(entries, n - 1), own);
    }
}

/// A table rendered as navigation points opens one point for each entry and
/// closes exactly as many, whatever the levels of its entries are.
pub proof fn lemma_navigation_balanced(entries: Seq<TocEntry>)
    ensures
        nav_opened(navigation_events(entries)) == entries.len(),
        nav_closed(navigation_events(entries)) == entries.len(),
{
    let n = entries.len() as int;
    lemma_nav_open_points(entries, n);
    lemma_nav_count_closes(nav_stack(entries, n).len());
    lemma_nav_count_add(nav_events(entries, n), nav_closes(nav_stack(entries, n).len()));
}

impl Toc {
    /// Creates a new, empty, table of contents.
    pub fn new() -> (toc: Toc)
        ensures
            toc@.entries == Seq::<TocEntry>::empty(),
            !toc@.numbered,
    {
        let toc = Toc { elements: Vec::new(), numbered: false };
        toc
    }

    /// Returns `true` if the table is not worth displaying: it has no entry,
    /// or a single one.
    pub fn is_empty(&self) -> (b: bool)
        ensures
            b == (self@.entries.len() <= 1),
    {
        self.elements.len() <= 1
    }

    /// Sets whether the lists of the rendered table are ordered (`<ol>`) or
    /// not (`<ul>`).
    pub fn numbered(&mut self, numbered: bool)
        ensures
            final(self)@.numbered == numbered,
            final(self)@.entries == old(self)@.entries,
    {
        self.numbered = numbered;
    }

    /// Adds an entry at the end.
    pub fn add(&mut self, level: i32, url: String, title: String)
        ensures
            final(self)@.entries == old(self)@.entries.push(
                TocEntry { level: level as int, url: url@, title: title@ },
            ),
            final(self)@.numbered == old(self)@.numbered,
    {
        let element = TocElement::new(level, url, title);
        self.elements.push(element);
    }

    /// The number of entries.
    pub fn len(&self) -> (n: usize)
        ensures
            n == self@.entries.len(),
    {
        self.elements.len()
    }

    /// The level of the entry at `index`.
    pub fn level(&self, index: usize) -> (level: i32)
        requires
            index < self@.entries.len(),
        ensures
            level == self@.entries[index as int].level,
    {
        self.elements[index].level
    }

    /// Whether some entry has level zero.
    fn contains_zero(&self) -> (b: bool)
        ensures
            b == has_part(self@.entries),
    {
        let mut i: usize = 0;
        while i < self.elements.len()
            invariant
                i <= self.elements.len(),
                forall|j: int| 0 <= j < i ==> (#[trigger] self@.entries[j]).level != 0,
            decreases self.elements.len() - i,
        {
            if self.elements[i].level == 0 {
                proof {
                    assert(self@.entries[i as int].level == 0);
                }
                return true;
            }
            i = i + 1;
        }
        false
    }

    /// Handles parts by adding one to every level if some level is zero.
    pub fn parts_hack(&mut self)
        requires
            shiftable(old(self)@.entries),
        ensures
            final(self)@.entries == normalized(old(self)@.entries),
            final(self)@.numbered == old(self)@.numbered,
    {
        if self.contains_zero() {
            let mut i: usize = 0;
            while i < self.elements.len()
                invariant
                    i <= self.elements.len(),
                    self.elements.len() == old(self).elements.len(),
                    self.numbered == old(self).numbered,
                    has_part(old(self)@.entries),
                    shiftable(old(self)@.entries),
                    forall|j: int|
                        0 <= j < i ==> (#[trigger] self.elements[j])@ == (TocEntry {
                            level: old(self).elements[j].level + 1,
                            ..old(self).elements[j]@
                        }),
                    forall|j: int|
                        i <= j < self.elements.len() ==> (#[trigger] self.elements[j])
                            == old(self).elements[j],
                decreases self.elements.len() - i,
            {
                proof {
                    assert(old(self)@.entries[i as int].level < i32::MAX);
                }
                let level: i32 = self.elements[i].level;
                self.elements[i].level = level + 1;
                i = i + 1;
            }
        }
    }

    /// Appends the tags that open the lists from level `from` to level `to`.
    fn push_opens(&self, content: &mut String, from: i32, to: i32)
        requires
            0 <= from <= to,
        ensures
            final(content)@ == old(content)@ + events_text(opens(from as int, to as int), self@),
    {
        let mut i: i32 = from;
        while i < to
            invariant
                0 <= from <= i <= to,
                content@ == old(content)@ + events_text(opens(from as int, i as int), self@),
            decreases to - i,
        {
            push_spaces(content, i as usize);
            content.append(if self.numbered { "<ol>" } else { "<ul>" });
            content.append("\n");
            proof {
                let next = opens(from as int, i + 1);
                assert(next.drop_last() =~= opens(from as int, i as int));
            }
            i = i + 1;
        }
    }

    /// Appends the tags that close the lists from level `to` back to level
    /// `from`, each followed by a line break unless these are the last ones.
    fn push_closes(&self, content: &mut String, from: i32, to: i32, last: bool)
        requires
            0 <= from <= to,
        ensures
            final(content)@ == old(content)@ + events_text(
                if last {
                    final_closes(from as int, to as int)
                } else {
                    closes(from as int, to as int)
                },
                self@,
            ),
    {
        let mut i: i32 = to;
        let ghost run = |upto: int|
            if last {
                final_closes(upto, to as int)
            } else {
                closes(upto, to as int)
            };
        while i > from
            invariant
                0 <= from <= i <= to,
                run == |upto: int|
                    if last {
                        final_closes(upto, to as int)
                    } else {
                        closes(upto, to as int)
                    },
                content@ == old(content)@ + events_text(run(i as int), self@),
            decreases i - from,
        {
            i = i - 1;
            push_spaces(content, i as usize);
            content.append(if self.numbered { "</ol>" } else { "</ul>" });
            if !last {
                content.append("\n");
            }
            proof {
                let next = run(i as int);
                let e = if last {
                    ListEvent::FinalClose(i as int)
                } else {
                    ListEvent::Close(i as int)
                };
                assert(next.drop_last() =~= run(i + 1));
            }
        }
    }

    /// Appends the beginning of the item of the entry at `k`, with its link.
    fn push_item(&self, content: &mut String, k: usize)
        requires
            k < self@.entries.len(),
            self@.entries[k as int].level >= 0,
        ensures
            final(content)@ == old(content)@ + event_text(ListEvent::Item(k as int), self@),
    {
        let elem = &self.elements[k];
        push_spaces(content, elem.level as usize);
        content.append("<li><a href = \"");
        content.append(elem.url.as_str());
        content.append("\">");
        content.append(elem.title.as_str());
        content.append("</a>\n");
    }

    /// Appends the end of the item of the entry at `k`, whose level is `level`.
    fn push_end_item(&self, content: &mut String, Ghost(k): Ghost<int>, level: i32)
        requires
            0 <= k < self@.entries.len(),
            self@.entries[k].level == level,
            level >= 0,
        ensures
            final(content)@ == old(content)@ + event_text(ListEvent::EndItem(k), self@),
    {
        let ghost before = content@;
        push_spaces(content, level as usize);
        content.append("</li>\n");
    }

    /// Renders the entries from `x` on that lie deeper than `level`, as list
    /// items, and moves `x` behind them; `level` is the level of the innermost
    /// list that is open, before and after.
    #[verifier::rlimit(20)]
    pub fn render_vec(&self, x: &mut usize, level: &mut i32) -> (content: String)
        requires
            *old(level) >= 0,
        ensures
            content@ == events_text(
                walk(self@.entries, *old(x) as int, *old(level) as int, *old(level) as int).events,
                self@,
            ),
            *final(x) == walk(
                self@.entries,
                *old(x) as int,
                *old(level) as int,
                *old(level) as int,
            ).next,
            *final(level) == walk(
                self@.entries,
                *old(x) as int,
                *old(level) as int,
                *old(level) as int,
            ).level,
            *final(x) >= *old(x),
            *final(level) >= *old(level),
        decreases self@.entries.len() - *old(x),
    {
        let orig_level: i32 = *level;
        let mut content = String::new();
        let ghost entries = self@.entries;
        let ghost whole = walk(entries, *old(x) as int, orig_level as int, orig_level as int);
        let ghost mut done: Seq<ListEvent> = Seq::empty();
        while *x < self.elements.len()
            invariant
                entries == self@.entries,
                orig_level == *old(level),
                whole == walk(entries, *old(x) as int, orig_level as int, orig_level as int),
                *old(x) <= *x,
                0 <= orig_level <= *level,
                content@ == events_text(done, self@),
                whole.events == done + walk(entries, *x as int, *level as int, orig_level as int).events,
                whole.next == walk(entries, *x as int, *level as int, orig_level as int).next,
                whole.level == walk(entries, *x as int, *level as int, orig_level as int).level,
            decreases self.elements.len() - *x,
        {
            let ghost x0 = *x as int;
            let ghost level0 = *level as int;
            let elem = &self.elements[*x];
            if elem.level <= orig_level {
                return content;
            }
            *x += 1;
            let ghost l = elem.level as int;
            let ghost adjust = if l > level0 {
                opens(level0, l)
            } else {
                closes(l, level0)
            };
            if elem.level > *level {
                self.push_opens(&mut content, *level, elem.level);
            } else {
                self.push_closes(&mut content, elem.level, *level, false);
            }
            *level = elem.level;
            proof {
                lemma_events_text_add(done, adjust, self@);
                done = done + adjust;
            }
            self.push_item(&mut content, *x - 1);
            proof {
                lemma_events_text_push(done, ListEvent::Item(x0), self@);
                done = done.push(ListEvent::Item(x0));
            }
            let inner_text = self.render_vec(x, level);
            let ghost inner = walk(entries, x0 + 1, l, l);
            content.append(inner_text.as_str());
            proof {
                lemma_events_text_add(done, inner.events, self@);
                done = done + inner.events;
            }
            self.push_closes(&mut content, elem.level, *level, false);
            proof {
                lemma_events_text_add(done, closes(l, inner.level), self@);
                done = done + closes(l, inner.level);
            }
            *level = elem.level;
            self.push_end_item(&mut content, Ghost(x0), elem.level);
            proof {
                lemma_events_text_push(done, ListEvent::EndItem(x0), self@);
                done = done.push(ListEvent::EndItem(x0));
                lemma_walk_bounds(entries, x0 + 1, l, l);
                let rest = walk(entries, inner.next, l, orig_level as int);
                let own = adjust + seq![ListEvent::Item(x0)] + inner.events + closes(l, inner.level)
                    + seq![ListEvent::EndItem(x0)];
            }
        }
        content
    }

    /// Renders the table as nested lists, `<ul>` or `<ol>` according to
    /// `numbered`, after moving every entry one level down if there are parts.
    pub fn render(&mut self) -> (output: String)
        requires
            shiftable(old(self)@.entries),
        ensures
            final(self)@.entries == normalized(old(self)@.entries),
            final(self)@.numbered == old(self)@.numbered,
            output@ == events_text(nested_events(final(self)@.entries), final(self)@),
    {
        self.parts_hack();
        let mut output = String::new();
        let mut x: usize = 0;
        let mut level: i32 = 0;
        let inner = self.render_vec(&mut x, &mut level);
        output.append(inner.as_str());
        self.push_closes(&mut output, 0, level, true);
        proof {
            let w = walk(self@.entries, 0, 0, 0);
            lemma_events_text_add(w.events, final_closes(0, w.level), self@);
        }
        output
    }

    /// Appends the navigation point of the entry at `k`, numbered `id`.
    fn push_nav_point(&self, output: &mut String, k: usize, id: u32, Ghost(offset): Ghost<nat>)
        requires
            k < self@.entries.len(),
            id == offset + k,
        ensures
            final(output)@ == old(output)@ + nav_event_text(
                NavEvent::Point(k as int),
                self@.entries,
                offset,
            ),
    {
        let element = &self.elements[k];
        output.append("\n   <navPoint id = \"navPoint-");
        push_decimal(output, id as u64);
        output.append("\">\n     <navLabel>\n       <text>");
        output.append(element.title.as_str());
        output.append("</text>\n     </navLabel>\n     <content src = \"");
        output.append(element.url.as_str());
        output.append("\" />\n");
    }

    /// Renders the table as the navigation points of a `toc.ncx`, for EPUB,
    /// after moving every entry one level down if there are parts. The
    /// points are numbered from `offset` on, in the order of the entries.
    pub fn render_epub(&mut self, offset: u32) -> (output: String)
        requires
            shiftable(old(self)@.entries),
            offset + old(self)@.entries.len() <= u32::MAX + 1,
        ensures
            final(self)@.entries == normalized(old(self)@.entries),
            final(self)@.numbered == old(self)@.numbered,
            output@ == nav_text(
                navigation_events(final(self)@.entries),
                final(self)@.entries,
                offset as nat,
            ),
    {
        self.parts_hack();
        let mut output = String::new();
        let mut levels: Vec<i32> = Vec::new();
        let ghost entries = self@.entries;
        let ghost mut done: Seq<NavEvent> = Seq::empty();
        let count: usize = self.elements.len();
        let mut i: usize = 0;
        while i < count
            invariant
                i <= count,
                count == self.elements.len(),
                entries == self@.entries,
                entries.len() == old(self)@.entries.len(),
                offset + entries.len() <= u32::MAX + 1,
                levels@.map_values(|l: i32| l as int) == nav_stack(entries, i as int),
                done == nav_events(entries, i as int),
                output@ == nav_text(done, entries, offset as nat),
            decreases count - i,
        {
            let level: i32 = self.elements[i].level;
            let ghost before = nav_stack(entries, i as int);
            let ghost mut popped: nat = 0;
            while levels.len() > 0 && levels[levels.len() - 1] >= level
                invariant
                    popped <= before.len(),
                    levels@.len() + popped == before.len(),
                    pop_to(levels@.map_values(|l: i32| l as int), level as int) == pop_to(
                        before,
                        level as int,
                    ),
                    output@ == nav_text(done + nav_closes(popped), entries, offset as nat),
                decreases levels.len(),
            {
                let ghost stack = levels@.map_values(|l: i32| l as int);
                levels.pop();
                output.append("    </navPoint>\n");
                proof {
                    assert(levels@.map_values(|l: i32| l as int) =~= stack.drop_last());
                    lemma_nav_text_push(done + nav_closes(popped), NavEvent::Close, entries, offset as nat);
                    assert((done + nav_closes(popped)).push(NavEvent::Close) =~= done + nav_closes(
                        popped + 1,
                    ));
                    popped = popped + 1;
                }
            }
            levels.push(level);
            self.push_nav_point(&mut output, i, offset + i as u32, Ghost(offset as nat));
            proof {
                let stack = levels@.drop_last().map_values(|l: i32| l as int);
                lemma_nav_text_push(
                    done + nav_closes(popped),
                    NavEvent::Point(i as int),
                    entries,
                    offset as nat,
                );
                done = done + nav_closes(popped).push(NavEvent::Point(i as int));
            }
            i = i + 1;
        }
        let mut j: usize = 0;
        while j < levels.len()
            invariant
                j <= levels.len(),
                output@ == nav_text(done + nav_closes(j as nat), entries, offset as nat),
            decreases levels.len() - j,
        {
            output.append("    </navPoint>\n");
            proof {
                lemma_nav_text_push(done + nav_closes(j as nat), NavEvent::Close, entries, offset as nat);
                assert((done + nav_closes(j as nat)).push(NavEvent::Close) =~= done + nav_closes(
                    (j + 1) as nat,
                ));
            }
            j = j + 1;
        }
        output
    }
}

} // verus!
