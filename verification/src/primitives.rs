//! The document: four arenas of elements (layouts, lines, spans and
//! characters) that refer to their children by index.  An index into an
//! arena is the handle through which several holders share one element.
use vstd::prelude::*;

use crate::style::Style;

verus! {

/// A single character of text.
#[derive(Clone, Copy, PartialEq, Eq, Debug)]
pub struct Char {
    pub value: char,
    pub style: Style,
}

/// A run of characters, by their indices in the character arena.
pub struct Span {
    pub characters: Vec<usize>,
    pub style: Style,
}

/// A line of spans, by their indices in the span arena.
pub struct Line {
    pub spans: Vec<usize>,
    pub style: Style,
}

/// What a layout holds: lines of text, or further layouts.
pub enum LayoutType {
    Content { lines: Vec<usize> },
    Container { layouts: Vec<usize> },
}

/// A rectangular region of the screen.
pub struct Layout {
    pub layout: LayoutType,
    pub style: Style,
}

/// All the elements of one document.
pub struct Document {
    pub layouts: Vec<Layout>,
    pub lines: Vec<Line>,
    pub spans: Vec<Span>,
    pub chars: Vec<Char>,
}

/// A layout as a value: whether it holds layouts (otherwise lines), the
/// indices of what it holds, and its style.
pub struct LayoutModel {
    pub container: bool,
    pub children: Seq<usize>,
    pub style: Style,
}

/// A line or a span as a value: the indices of its children and its style.
pub struct GroupModel {
    pub children: Seq<usize>,
    pub style: Style,
}

/// A document as a value.
pub struct DocModel {
    pub layouts: Seq<LayoutModel>,
    pub lines: Seq<GroupModel>,
    pub spans: Seq<GroupModel>,
    pub chars: Seq<Char>,
}

/// Whether every index in `s` is below `n`.
pub open spec fn all_below(s: Seq<usize>, n: nat) -> bool {
    forall|k: int| 0 <= k < s.len() ==> #[trigger] s[k] < n
}

impl DocModel {
    /// Every child index names an element of the arena of its kind: the
    /// layouts of a layout of layouts, the lines of a layout of lines, the
    /// spans of a line, the characters of a span.
    pub open spec fn wf(self) -> bool {
        &&& forall|i: int|
            0 <= i < self.layouts.len() ==> all_below(
                (#[trigger] self.layouts[i]).children,
                if self.layouts[i].container {
                    self.layouts.len()
                } else {
                    self.lines.len()
                },
            )
        &&& forall|i: int|
            0 <= i < self.lines.len() ==> all_below(
                (#[trigger] self.lines[i]).children,
                self.spans.len(),
            )
        &&& forall|i: int|
            0 <= i < self.spans.len() ==> all_below(
                (#[trigger] self.spans[i]).children,
                self.chars.len(),
            )
    }
}

/// `s` with `x` inserted at `index`, or at its end where `index` lies beyond it.
pub open spec fn insert_clamped(s: Seq<usize>, index: usize, x: usize) -> Seq<usize> {
    if index < s.len() {
        s.insert(index as int, x)
    } else {
        s.push(x)
    }
}

impl View for Layout {
    type V = LayoutModel;

    open spec fn view(&self) -> LayoutModel {
        match self.layout {
            LayoutType::Content { lines } => LayoutModel {
                container: false,
                children: lines@,
                style: self.style,
            },
            LayoutType::Container { layouts } => LayoutModel {
                container: true,
                children: layouts@,
                style: self.style,
            },
        }
    }
}

impl View for Line {
    type V = GroupModel;

    open spec fn view(&self) -> GroupModel {
        GroupModel { children: self.spans@, style: self.style }
    }
}

impl View for Span {
    type V = GroupModel;

    open spec fn view(&self) -> GroupModel {
        GroupModel { children: self.characters@, style: self.style }
    }
}

impl View for Document {
    type V = DocModel;

    open spec fn view(&self) -> DocModel {
        DocModel {
            layouts: self.layouts@.map_values(|l: Layout| l@),
            lines: self.lines@.map_values(|l: Line| l@),
            spans: self.spans@.map_values(|s: Span| s@),
            chars: self.chars@,
        }
    }
}

/// Inserts `x` into `v` at `index`, or at its end where `index` lies beyond it.
pub fn insert_at_most(v: &mut Vec<usize>, index: usize, x: usize)
    ensures
        final(v)@ == insert_clamped(old(v)@, index, x),
{
    if index < v.len() {
        v.insert(index, x);
    } else {
        v.push(x);
    }
}

impl Layout {
    /// A copy of this layout, sharing its children.
    pub fn duplicate(&self) -> (r: Layout)
        ensures
            r@ == self@,
    {
        let layout = match &self.layout {
            LayoutType::Content { lines } => LayoutType::Content { lines: lines.clone() },
            LayoutType::Container { layouts } => LayoutType::Container { layouts: layouts.clone() },
        };
        let r = Layout { layout, style: self.style };
        assert(r@.children =~= self@.children);
        r
    }

    /// Inserts a child index at `index` (clamped to the end).
    pub fn insert_child(&mut self, index: usize, id: usize)
        ensures
            final(self)@ == (LayoutModel {
                children: insert_clamped(old(self)@.children, index, id),
                ..old(self)@
            }),
    {
        match &mut self.layout {
            LayoutType::Content { lines } => insert_at_most(lines, index, id),
            LayoutType::Container { layouts } => insert_at_most(layouts, index, id),
        }
    }
}

impl Line {
    /// A copy of this line, sharing its spans.
    pub fn duplicate(&self) -> (r: Line)
        ensures
            r@ == self@,
    {
        let r = Line { spans: self.spans.clone(), style: self.style };
        assert(r@.children =~= self@.children);
        r
    }
}

impl Span {
    /// A copy of this span, sharing its characters.
    pub fn duplicate(&self) -> (r: Span)
        ensures
            r@ == self@,
    {
        let r = Span { characters: self.characters.clone(), style: self.style };
        assert(r@.children =~= self@.children);
        r
    }
}

impl Document {
    /// An empty document.
    pub fn new() -> (d: Document)
        ensures
            d@.layouts.len() == 0,
            d@.lines.len() == 0,
            d@.spans.len() == 0,
            d@.chars.len() == 0,
            d@.wf(),
    {
        Document { layouts: Vec::new(), lines: Vec::new(), spans: Vec::new(), chars: Vec::new() }
    }

    /// Adds a character with the plain style; returns its index.
    pub fn add_char(&mut self, value: char) -> (id: usize)
        ensures
            id == old(self)@.chars.len(),
            final(self)@ == (DocModel {
                chars: old(self)@.chars.push(Char { value, style: Style::plain() }),
                ..old(self)@
            }),
            old(self)@.wf() ==> final(self)@.wf(),
    {
        let id = self.chars.len();
        self.chars.push(Char { value, style: Style::new() });
        proof {
            assert(self@.chars =~= old(self)@.chars.push(Char { value, style: Style::plain() }));
            assert(self@.layouts =~= old(self)@.layouts);
            assert(self@.lines =~= old(self)@.lines);
            assert(self@.spans =~= old(self)@.spans);
        }
        id
    }

    /// Adds a span of the given (existing) characters with the plain style; returns its index.
    pub fn add_span(&mut self, characters: Vec<usize>) -> (id: usize)
        requires
            all_below(characters@, old(self)@.chars.len()),
        ensures
            old(self)@.wf() ==> final(self)@.wf(),
            id == old(self)@.spans.len(),
            final(self)@ == (DocModel {
                spans: old(self)@.spans.push(
                    GroupModel { children: characters@, style: Style::plain() },
                ),
                ..old(self)@
            }),
    {
        let id = self.spans.len();
        let ghost kids = characters@;
        self.spans.push(Span { characters, style: Style::new() });
        proof {
            assert(self@.spans =~= old(self)@.spans.push(
                GroupModel { children: kids, style: Style::plain() },
            ));
            assert(self@.layouts =~= old(self)@.layouts);
            assert(self@.lines =~= old(self)@.lines);
        }
        id
    }

    /// Adds a line of the given (existing) spans with the plain style; returns its index.
    pub fn add_line(&mut self, spans: Vec<usize>) -> (id: usize)
        requires
            all_below(spans@, old(self)@.spans.len()),
        ensures
            old(self)@.wf() ==> final(self)@.wf(),
            id == old(self)@.lines.len(),
            final(self)@ == (DocModel {
                lines: old(self)@.lines.push(
                    GroupModel { children: spans@, style: Style::plain() },
                ),
                ..old(self)@
            }),
    {
        let id = self.lines.len();
        let ghost kids = spans@;
        self.lines.push(Line { spans, style: Style::new() });
        proof {
            assert(self@.lines =~= old(self)@.lines.push(
                GroupModel { children: kids, style: Style::plain() },
            ));
            assert(self@.layouts =~= old(self)@.layouts);
            assert(self@.spans =~= old(self)@.spans);
        }
        id
    }

    /// Adds a layout holding the given (existing) lines, with the plain style; returns its index.
    pub fn add_content(&mut self, lines: Vec<usize>) -> (id: usize)
        requires
            all_below(lines@, old(self)@.lines.len()),
        ensures
            old(self)@.wf() ==> final(self)@.wf(),
            id == old(self)@.layouts.len(),
            final(self)@ == (DocModel {
                layouts: old(self)@.layouts.push(
                    LayoutModel { container: false, children: lines@, style: Style::plain() },
                ),
                ..old(self)@
            }),
    {
        let id = self.layouts.len();
        let ghost kids = lines@;
        self.layouts.push(Layout { layout: LayoutType::Content { lines }, style: Style::new() });
        proof {
            assert(self@.layouts =~= old(self)@.layouts.push(
                LayoutModel { container: false, children: kids, style: Style::plain() },
            ));
            assert(self@.lines =~= old(self)@.lines);
            assert(self@.spans =~= old(self)@.spans);
        }
        id
    }

    /// Adds a layout holding the given (existing) layouts, with the plain style; returns its index.
    pub fn add_container(&mut self, layouts: Vec<usize>) -> (id: usize)
        requires
            all_below(layouts@, old(self)@.layouts.len()),
        ensures
            old(self)@.wf() ==> final(self)@.wf(),
            id == old(self)@.layouts.len(),
            final(self)@ == (DocModel {
                layouts: old(self)@.layouts.push(
                    LayoutModel { container: true, children: layouts@, style: Style::plain() },
                ),
                ..old(self)@
            }),
    {
        let id = self.layouts.len();
        let ghost kids = layouts@;
        self.layouts.push(
            Layout { layout: LayoutType::Container { layouts }, style: Style::new() },
        );
        proof {
            assert(self@.layouts =~= old(self)@.layouts.push(
                LayoutModel { container: true, children: kids, style: Style::plain() },
            ));
            assert(self@.lines =~= old(self)@.lines);
            assert(self@.spans =~= old(self)@.spans);
        }
        id
    }
}

} // verus!
