//! Handles to the elements of a document, what each one holds, how a child
//! is added to a mother, and how an element is highlighted.
use vstd::prelude::*;

use crate::primitives::{
    insert_at_most, insert_clamped, Char, DocModel, Document, GroupModel, LayoutModel, LayoutType,
};
use crate::style::Style;

verus! {

/// A handle to one element of a document: its kind and its index in the
/// arena of that kind.
#[derive(Clone, Copy, PartialEq, Eq, Debug)]
pub enum Node {
    Layout(usize),
    Line(usize),
    Span(usize),
    Char(usize),
}

/// Why a child could not be added to a mother.
#[derive(Clone, Copy, PartialEq, Eq, Debug)]
pub enum NodeError {
    /// The mother is of a kind that holds children of the child's kind, but
    /// this mother does not take it: a layout of lines offered a layout, a
    /// layout of layouts offered a line, or a handle that names no element.
    MotherRefused,
    /// The mother never holds children of the child's kind.
    WrongKind,
}

/// What `n` holds, as handles: the lines or layouts of a layout, the spans
/// of a line, the characters of a span.  `None` for a character, which
/// holds nothing, and for a handle that names no element.
pub open spec fn children_of(d: DocModel, n: Node) -> Option<Seq<Node>> {
    match n {
        Node::Layout(i) => if i < d.layouts.len() {
            let l = d.layouts[i as int];
            if l.container {
                Some(l.children.map_values(|c: usize| Node::Layout(c)))
            } else {
                Some(l.children.map_values(|c: usize| Node::Line(c)))
            }
        } else {
            None
        },
        Node::Line(i) => if i < d.lines.len() {
            Some(d.lines[i as int].children.map_values(|c: usize| Node::Span(c)))
        } else {
            None
        },
        Node::Span(i) => if i < d.spans.len() {
            Some(d.spans[i as int].children.map_values(|c: usize| Node::Char(c)))
        } else {
            None
        },
        Node::Char(_) => None,
    }
}

/// What `n` holds, or nothing where it holds no children.
pub open spec fn children_or_empty(d: DocModel, n: Node) -> Seq<Node> {
    match children_of(d, n) {
        Some(s) => s,
        None => Seq::empty(),
    }
}

/// The style of `n`; the plain style for a handle that names no element.
pub open spec fn style_of(d: DocModel, n: Node) -> Style {
    match n {
        Node::Layout(i) => if i < d.layouts.len() {
            d.layouts[i as int].style
        } else {
            Style::plain()
        },
        Node::Line(i) => if i < d.lines.len() {
            d.lines[i as int].style
        } else {
            Style::plain()
        },
        Node::Span(i) => if i < d.spans.len() {
            d.spans[i as int].style
        } else {
            Style::plain()
        },
        Node::Char(i) => if i < d.chars.len() {
            d.chars[i as int].style
        } else {
            Style::plain()
        },
    }
}

/// `d` with the style of `n` set to `s`; `d` itself where `n` names no element.
pub open spec fn with_style(d: DocModel, n: Node, s: Style) -> DocModel {
    match n {
        Node::Layout(i) => if i < d.layouts.len() {
            DocModel {
                layouts: d.layouts.update(i as int, LayoutModel { style: s, ..d.layouts[i as int] }),
                ..d
            }
        } else {
            d
        },
        Node::Line(i) => if i < d.lines.len() {
            DocModel {
                lines: d.lines.update(i as int, GroupModel { style: s, ..d.lines[i as int] }),
                ..d
            }
        } else {
            d
        },
        Node::Span(i) => if i < d.spans.len() {
            DocModel {
                spans: d.spans.update(i as int, GroupModel { style: s, ..d.spans[i as int] }),
                ..d
            }
        } else {
            d
        },
        Node::Char(i) => if i < d.chars.len() {
            DocModel { chars: d.chars.update(i as int, Char { style: s, ..d.chars[i as int] }), ..d }
        } else {
            d
        },
    }
}

/// `d` with `n` drawn black on white.
pub open spec fn highlighted_in(d: DocModel, n: Node) -> DocModel {
    with_style(d, n, style_of(d, n).highlighted())
}

/// `d` with `n` back to the plain style.
pub open spec fn cleared_in(d: DocModel, n: Node) -> DocModel {
    with_style(d, n, Style::plain())
}

/// Whether `mom` is of a kind that holds children of the kind of `child`.
pub open spec fn kinds_fit(mom: Node, child: Node) -> bool {
    match (mom, child) {
        (Node::Layout(_), Node::Layout(_)) => true,
        (Node::Layout(_), Node::Line(_)) => true,
        (Node::Line(_), Node::Span(_)) => true,
        (Node::Span(_), Node::Char(_)) => true,
        _ => false,
    }
}

/// Whether `mom` takes a copy of `child`: both name elements, the kinds
/// fit, a layout of layouts takes a layout, a layout of lines a line, and
/// a layout is not offered to itself.
pub open spec fn accepts(d: DocModel, mom: Node, child: Node) -> bool {
    match (mom, child) {
        (Node::Layout(m), Node::Layout(c)) => m < d.layouts.len() && c < d.layouts.len()
            && d.layouts[m as int].container && m != c,
        (Node::Layout(m), Node::Line(c)) => m < d.layouts.len() && c < d.lines.len()
            && !d.layouts[m as int].container,
        (Node::Line(m), Node::Span(c)) => m < d.lines.len() && c < d.spans.len(),
        (Node::Span(m), Node::Char(c)) => m < d.spans.len() && c < d.chars.len(),
        _ => false,
    }
}

/// The error for a child that `mom` does not take.
pub open spec fn refusal(mom: Node, child: Node) -> NodeError {
    if kinds_fit(mom, child) {
        NodeError::MotherRefused
    } else {
        NodeError::WrongKind
    }
}

/// The handle of the copy of `child` that adding it to a mother creates:
/// the next free index of its arena.
pub open spec fn added_node(d: DocModel, child: Node) -> Node {
    match child {
        Node::Layout(_) => Node::Layout(d.layouts.len() as usize),
        Node::Line(_) => Node::Line(d.lines.len() as usize),
        Node::Span(_) => Node::Span(d.spans.len() as usize),
        Node::Char(_) => Node::Char(d.chars.len() as usize),
    }
}

/// `d` after a copy of `child` is appended to its arena and its index is
/// inserted among the children of `mom` at `index` (or at their end).
pub open spec fn added_in(d: DocModel, mom: Node, child: Node, index: usize) -> DocModel {
    match (mom, child) {
        (Node::Layout(m), Node::Layout(c)) => {
            let lm = d.layouts[m as int];
            DocModel {
                layouts: d.layouts.push(d.layouts[c as int]).update(
                    m as int,
                    LayoutModel {
                        children: insert_clamped(lm.children, index, d.layouts.len() as usize),
                        ..lm
                    },
                ),
                ..d
            }
        },
        (Node::Layout(m), Node::Line(c)) => {
            let lm = d.layouts[m as int];
            DocModel {
                layouts: d.layouts.update(
                    m as int,
                    LayoutModel {
                        children: insert_clamped(lm.children, index, d.lines.len() as usize),
                        ..lm
                    },
                ),
                lines: d.lines.push(d.lines[c as int]),
                ..d
            }
        },
        (Node::Line(m), Node::Span(c)) => {
            let gm = d.lines[m as int];
            DocModel {
                lines: d.lines.update(
                    m as int,
                    GroupModel {
                        children: insert_clamped(gm.children, index, d.spans.len() as usize),
                        ..gm
                    },
                ),
                spans: d.spans.push(d.spans[c as int]),
                ..d
            }
        },
        (Node::Span(m), Node::Char(c)) => {
            let gm = d.spans[m as int];
            DocModel {
                spans: d.spans.update(
                    m as int,
                    GroupModel {
                        children: insert_clamped(gm.children, index, d.chars.len() as usize),
                        ..gm
                    },
                ),
                chars: d.chars.push(d.chars[c as int]),
                ..d
            }
        },
        _ => d,
    }
}

/// Whether offering `child` to `mom` is free of the self-offer of a layout,
/// which locks one element twice.
pub open spec fn not_self_offer(mom: Node, child: Node) -> bool {
    match (mom, child) {
        (Node::Layout(m), Node::Layout(c)) => m != c,
        _ => true,
    }
}

/// The handles `ids` tagged with the kind that `tag` names.
fn tag_all(ids: &Vec<usize>, tag: u8) -> (r: Vec<Node>)
    ensures
        tag == 0 ==> r@ == ids@.map_values(|c: usize| Node::Layout(c)),
        tag == 1 ==> r@ == ids@.map_values(|c: usize| Node::Line(c)),
        tag == 2 ==> r@ == ids@.map_values(|c: usize| Node::Span(c)),
        tag == 3 ==> r@ == ids@.map_values(|c: usize| Node::Char(c)),
{
    let mut r: Vec<Node> = Vec::new();
    let mut k: usize = 0;
    while k < ids.len()
        invariant
            k <= ids.len(),
            r.len() == k,
            forall|j: int|
                0 <= j < k ==> #[trigger] r@[j] == (if tag == 0 {
                    Node::Layout(ids@[j])
                } else if tag == 1 {
                    Node::Line(ids@[j])
                } else if tag == 2 {
                    Node::Span(ids@[j])
                } else {
                    Node::Char(ids@[j])
                }),
        decreases ids.len() - k,
    {
        let id = ids[k];
        let n = if tag == 0 {
            Node::Layout(id)
        } else if tag == 1 {
            Node::Line(id)
        } else if tag == 2 {
            Node::Span(id)
        } else {
            Node::Char(id)
        };
        r.push(n);
        k = k + 1;
    }
    proof {
        if tag == 0 {
            assert(r@ =~= ids@.map_values(|c: usize| Node::Layout(c)));
        } else if tag == 1 {
            assert(r@ =~= ids@.map_values(|c: usize| Node::Line(c)));
        } else if tag == 2 {
            assert(r@ =~= ids@.map_values(|c: usize| Node::Span(c)));
        } else if tag == 3 {
            assert(r@ =~= ids@.map_values(|c: usize| Node::Char(c)));
        }
    }
    r
}

impl Node {
    /// The index of the layout this handle names, if it names a layout.
    pub fn get_layout(&self) -> (r: Option<usize>)
        ensures
            r == (match *self {
                Node::Layout(i) => Some(i),
                _ => None,
            }),
    {
        if let Node::Layout(i) = self {
            Some(*i)
        } else {
            None
        }
    }

    /// The children of this element as handles; `None` where it carries no
    /// children (a character), an empty vector where it can carry children
    /// but has none.
    pub fn get_children(&self, doc: &Document) -> (r: Option<Vec<Node>>)
        ensures
            match r {
                Some(v) => children_of(doc@, *self) == Some(v@),
                None => children_of(doc@, *self) is None,
            },
    {
        match *self {
            Node::Layout(i) => {
                if i < doc.layouts.len() {
                    match &doc.layouts[i].layout {
                        LayoutType::Content { lines } => Some(tag_all(lines, 1)),
                        LayoutType::Container { layouts } => Some(tag_all(layouts, 0)),
                    }
                } else {
                    None
                }
            },
            Node::Line(i) => {
                if i < doc.lines.len() {
                    Some(tag_all(&doc.lines[i].spans, 2))
                } else {
                    None
                }
            },
            Node::Span(i) => {
                if i < doc.spans.len() {
                    Some(tag_all(&doc.spans[i].characters, 3))
                } else {
                    None
                }
            },
            Node::Char(_) => None,
        }
    }

    /// The children of this element as handles, or none.
    pub fn children_or_empty(&self, doc: &Document) -> (r: Vec<Node>)
        ensures
            r@ == children_or_empty(doc@, *self),
    {
        match self.get_children(doc) {
            Some(v) => v,
            None => Vec::new(),
        }
    }

    /// Adds a copy of `child` to this element at `index` (or at the end of
    /// its children) and returns the handle of the copy.
    pub fn try_add_child(&self, doc: &mut Document, child: Node, index: usize) -> (r: Result<
        Node,
        NodeError,
    >)
        requires
            not_self_offer(*self, child),
        ensures
            match r {
                Ok(n) => {
                    &&& accepts(old(doc)@, *self, child)
                    &&& n == added_node(old(doc)@, child)
                    &&& final(doc)@ == added_in(old(doc)@, *self, child, index)
                },
                Err(e) => {
                    &&& !accepts(old(doc)@, *self, child)
                    &&& e == refusal(*self, child)
                    &&& final(doc)@ == old(doc)@
                },
            },
            old(doc)@.wf() ==> final(doc)@.wf(),
    {
        let ghost d = doc@;
        match (*self, child) {
            (Node::Layout(m), Node::Layout(c)) => {
                if m >= doc.layouts.len() || c >= doc.layouts.len() {
                    return Err(NodeError::MotherRefused);
                }
                let takes = match &doc.layouts[m].layout {
                    LayoutType::Container { .. } => true,
                    LayoutType::Content { .. } => false,
                };
                if !takes {
                    return Err(NodeError::MotherRefused);
                }
                let copy = doc.layouts[c].duplicate();
                let nid = doc.layouts.len();
                doc.layouts.push(copy);
                doc.layouts[m].insert_child(index, nid);
                proof {
                    assert(doc@.layouts =~= added_in(d, *self, child, index).layouts);
                    assert(doc@.lines =~= d.lines);
                    assert(doc@.spans =~= d.spans);
                }
                Ok(Node::Layout(nid))
            },
            (Node::Layout(m), Node::Line(c)) => {
                if m >= doc.layouts.len() || c >= doc.lines.len() {
                    return Err(NodeError::MotherRefused);
                }
                let takes = match &doc.layouts[m].layout {
                    LayoutType::Content { .. } => true,
                    LayoutType::Container { .. } => false,
                };
                if !takes {
                    return Err(NodeError::MotherRefused);
                }
                let copy = doc.lines[c].duplicate();
                let nid = doc.lines.len();
                doc.lines.push(copy);
                doc.layouts[m].insert_child(index, nid);
                proof {
                    assert(doc@.layouts =~= added_in(d, *self, child, index).layouts);
                    assert(doc@.lines =~= added_in(d, *self, child, index).lines);
                    assert(doc@.spans =~= d.spans);
                }
                Ok(Node::Line(nid))
            },
            (Node::Line(m), Node::Span(c)) => {
                if m >= doc.lines.len() || c >= doc.spans.len() {
                    return Err(NodeError::MotherRefused);
                }
                let copy = doc.spans[c].duplicate();
                let nid = doc.spans.len();
                doc.spans.push(copy);
                insert_at_most(&mut doc.lines[m].spans, index, nid);
                proof {
                    assert(doc@.layouts =~= d.layouts);
                    assert(doc@.lines =~= added_in(d, *self, child, index).lines);
                    assert(doc@.spans =~= added_in(d, *self, child, index).spans);
                }
                Ok(Node::Span(nid))
            },
            (Node::Span(m), Node::Char(c)) => {
                if m >= doc.spans.len() || c >= doc.chars.len() {
                    return Err(NodeError::MotherRefused);
                }
                let copy = doc.chars[c];
                let nid = doc.chars.len();
                doc.chars.push(copy);
                insert_at_most(&mut doc.spans[m].characters, index, nid);
                proof {
                    assert(doc@.layouts =~= d.layouts);
                    assert(doc@.lines =~= d.lines);
                    assert(doc@.spans =~= added_in(d, *self, child, index).spans);
                    assert(doc@.chars =~= added_in(d, *self, child, index).chars);
                }
                Ok(Node::Char(nid))
            },
            _ => Err(NodeError::WrongKind),
        }
    }

    /// Whether this element takes a copy of `child` (see `accepts`).
    pub fn takes(&self, doc: &Document, child: Node) -> (b: bool)
        ensures
            b == accepts(doc@, *self, child),
    {
        match (*self, child) {
            (Node::Layout(m), Node::Layout(c)) => {
                m < doc.layouts.len() && c < doc.layouts.len() && m != c && match &doc.layouts[m].layout {
                    LayoutType::Container { .. } => true,
                    LayoutType::Content { .. } => false,
                }
            },
            (Node::Layout(m), Node::Line(c)) => {
                m < doc.layouts.len() && c < doc.lines.len() && match &doc.layouts[m].layout {
                    LayoutType::Content { .. } => true,
                    LayoutType::Container { .. } => false,
                }
            },
            (Node::Line(m), Node::Span(c)) => m < doc.lines.len() && c < doc.spans.len(),
            (Node::Span(m), Node::Char(c)) => m < doc.spans.len() && c < doc.chars.len(),
            _ => false,
        }
    }

    /// The style of this element.
    pub fn style(&self, doc: &Document) -> (s: Style)
        ensures
            s == style_of(doc@, *self),
    {
        match *self {
            Node::Layout(i) => if i < doc.layouts.len() {
                doc.layouts[i].style
            } else {
                Style::new()
            },
            Node::Line(i) => if i < doc.lines.len() {
                doc.lines[i].style
            } else {
                Style::new()
            },
            Node::Span(i) => if i < doc.spans.len() {
                doc.spans[i].style
            } else {
                Style::new()
            },
            Node::Char(i) => if i < doc.chars.len() {
                doc.chars[i].style
            } else {
                Style::new()
            },
        }
    }

    /// Sets the style of this element.
    pub fn set_style(&self, doc: &mut Document, s: Style)
        ensures
            final(doc)@ == with_style(old(doc)@, *self, s),
            old(doc)@.wf() ==> final(doc)@.wf(),
    {
        let ghost d = doc@;
        match *self {
            Node::Layout(i) => if i < doc.layouts.len() {
                doc.layouts[i].style = s;
                assert(doc@.layouts =~= with_style(d, *self, s).layouts);
            },
            Node::Line(i) => if i < doc.lines.len() {
                doc.lines[i].style = s;
                assert(doc@.lines =~= with_style(d, *self, s).lines);
            },
            Node::Span(i) => if i < doc.spans.len() {
                doc.spans[i].style = s;
                assert(doc@.spans =~= with_style(d, *self, s).spans);
            },
            Node::Char(i) => if i < doc.chars.len() {
                doc.chars[i].style = s;
                assert(doc@.chars =~= with_style(d, *self, s).chars);
            },
        }
        proof {
            assert(doc@.layouts =~= with_style(d, *self, s).layouts);
            assert(doc@.lines =~= with_style(d, *self, s).lines);
            assert(doc@.spans =~= with_style(d, *self, s).spans);
        }
    }

    /// Draws this element black on white, keeping its modifiers.
    pub fn highlight(&self, doc: &mut Document)
        ensures
            final(doc)@ == highlighted_in(old(doc)@, *self),
            old(doc)@.wf() ==> final(doc)@.wf(),
    {
        let s = self.style(doc).highlight();
        self.set_style(doc, s);
    }

    /// Puts this element back to the plain style.
    pub fn no_highlight(&self, doc: &mut Document)
        ensures
            final(doc)@ == cleared_in(old(doc)@, *self),
            old(doc)@.wf() ==> final(doc)@.wf(),
    {
        self.set_style(doc, Style::new());
    }
}

} // verus!
