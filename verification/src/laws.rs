//! What holds of the moves taken together: what one move undoes, what
//! every move keeps, and what the rows of a well formed cursor are.
use vstd::prelude::*;

use crate::navigation::{
    back_of, came_from, daughter_index, daughter_of, framed, go_back_to_parent_of,
    insert_node_clamped, inner, left_aunt_of, left_cousin_of, left_sister_of,
    left_sister_or_cousin_of, mother_of, move_left_or_cousin_of, move_right_or_cousin_of,
    move_to_child_of, prev_of, right_aunt_of, right_cousin_of, right_sister_of,
    right_sister_or_cousin_of, row, try_move_left_of, try_move_right_of, well_formed, with_child,
    built_by_moves, replaced_focus, MoveModel, PrevDir, ZipperModel,
};
use crate::node::{
    accepts, added_in, added_node, children_of, children_or_empty, cleared_in, highlighted_in,
    style_of, with_style, Node,
};
use crate::primitives::DocModel;
use crate::style::Color;

verus! {

/// Going down to a child and then up to the mother, or back, returns the
/// cursor that went down.
pub proof fn law_daughter_then_mother(z: ZipperModel, d: DocModel, index: usize)
    requires
        daughter_of(z, d, index) is Moved,
    ensures
        mother_of(inner(daughter_of(z, d, index))) == MoveModel::Moved(z),
        prev_of(inner(daughter_of(z, d, index))) == Some(z),
{
}

/// A step to the right sister that does not step back is undone by a step
/// to the left sister, which highlights the cursor it returns to.
pub proof fn law_right_then_left(z: ZipperModel, d: DocModel)
    requires
        !came_from(z, PrevDir::Right),
        z.right.len() > 0,
    ensures
        right_sister_of(z, d).1 == d,
        left_sister_of(inner(right_sister_of(z, d).0), d) == (
            MoveModel::Moved(z),
            highlighted_in(cleared_in(d, z.right[0]), z.focus),
        ),
{
}

/// A step to the left sister that does not step back is undone by a step
/// to the right sister, which highlights the cursor it returns to.
pub proof fn law_left_then_right(z: ZipperModel, d: DocModel)
    requires
        !came_from(z, PrevDir::Left),
        z.left.len() > 0,
    ensures
        left_sister_of(z, d).1 == d,
        right_sister_of(inner(left_sister_of(z, d).0), d) == (
            MoveModel::Moved(z),
            highlighted_in(cleared_in(d, z.left.last()), z.focus),
        ),
{
}

/// A step to a sister keeps the mother.
pub proof fn law_sisters_keep_mother(z: ZipperModel, d: DocModel)
    ensures
        right_sister_of(z, d).0 is Moved ==> mother_of(inner(right_sister_of(z, d).0))
            == mother_of(z),
        left_sister_of(z, d).0 is Moved ==> mother_of(inner(left_sister_of(z, d).0))
            == mother_of(z),
{
    if came_from(z, PrevDir::Right) {
        assert(mother_of(z) == mother_of(*z.previous->0.zipper));
    }
    if came_from(z, PrevDir::Left) {
        assert(mother_of(z) == mother_of(*z.previous->0.zipper));
    }
}

/// On a well formed cursor the mother is reached exactly when there is a
/// breadcrumb, and her children are the row the cursor stands in.
pub proof fn law_mother_holds_row(z: ZipperModel)
    requires
        well_formed(z),
    ensures
        mother_of(z) is Moved <==> z.previous is Some,
        mother_of(z) is Moved ==> inner(mother_of(z)).children == row(z),
        well_formed(inner(mother_of(z))),
    decreases z,
{
    match z.previous {
        None => {},
        Some(c) => {
            let p = *c.zipper;
            if c.direction != PrevDir::Parent {
                law_mother_holds_row(p);
                if p.previous is None {
                    assert(row(p).len() == p.left.len() + 1 + p.right.len());
                    assert(row(z).len() == z.left.len() + 1 + z.right.len());
                }
            }
        },
    }
}

/// On a well formed cursor a step to the right sister happens exactly when
/// there is a sister to the right; it keeps the row and moves one place to
/// the right, and the outcome is well formed.
pub proof fn law_right_sister_shifts(z: ZipperModel, d: DocModel)
    requires
        well_formed(z),
    ensures
        right_sister_of(z, d).0 is Moved <==> z.right.len() > 0,
        well_formed(inner(right_sister_of(z, d).0)),
        right_sister_of(z, d).0 is Moved ==> {
            let z2 = inner(right_sister_of(z, d).0);
            &&& row(z2) == row(z)
            &&& z2.left.len() == z.left.len() + 1
            &&& z2.focus == z.right[0]
        },
{
    let r = right_sister_of(z, d).0;
    assert(row(z).len() == z.left.len() + 1 + z.right.len());
    if came_from(z, PrevDir::Right) {
        let p = *z.previous->0.zipper;
        assert(row(p).len() == p.left.len() + 1 + p.right.len());
        assert(row(p)[p.left.len() as int] == p.focus);
        assert(row(z)[z.left.len() as int + 1] == z.right[0]);
    } else if z.right.len() > 0 {
        let z2 = inner(r);
        assert(row(z2) =~= row(z));
    }
}

/// On a well formed cursor a step to the left sister happens exactly when
/// there is a sister to the left; it keeps the row and moves one place to
/// the left, and the outcome is well formed.
pub proof fn law_left_sister_shifts(z: ZipperModel, d: DocModel)
    requires
        well_formed(z),
    ensures
        left_sister_of(z, d).0 is Moved <==> z.left.len() > 0,
        well_formed(inner(left_sister_of(z, d).0)),
        left_sister_of(z, d).0 is Moved ==> {
            let z2 = inner(left_sister_of(z, d).0);
            &&& row(z2) == row(z)
            &&& z2.left.len() + 1 == z.left.len()
            &&& z2.focus == z.left.last()
        },
{
    let r = left_sister_of(z, d).0;
    assert(row(z).len() == z.left.len() + 1 + z.right.len());
    if came_from(z, PrevDir::Left) {
        let p = *z.previous->0.zipper;
        assert(row(p).len() == p.left.len() + 1 + p.right.len());
        assert(row(p)[p.left.len() as int] == p.focus);
        assert(row(z)[z.left.len() - 1] == z.left.last());
    } else if z.left.len() > 0 {
        let z2 = inner(r);
        assert(row(z2) =~= row(z));
    }
}

/// Going down happens exactly when the focus has children; the outcome
/// stands in the row of those children, at the chosen place, and is well
/// formed where the cursor was.
pub proof fn law_daughter_row(z: ZipperModel, d: DocModel, index: usize)
    ensures
        daughter_of(z, d, index) is Moved <==> z.children.len() > 0,
        daughter_of(z, d, index) is Moved ==> {
            let z2 = inner(daughter_of(z, d, index));
            &&& row(z2) == z.children
            &&& z2.left.len() == daughter_index(z.children.len(), index)
            &&& z2.focus == z.children[daughter_index(z.children.len(), index)]
        },
        well_formed(z) ==> well_formed(inner(daughter_of(z, d, index))),
{
    if z.children.len() > 0 {
        let i = daughter_index(z.children.len(), index);
        let z2 = inner(daughter_of(z, d, index));
        assert(row(z2) =~= z.children);
    }
}

/// Stepping back keeps a well formed cursor well formed.
pub proof fn law_prev_keeps_well_formed(z: ZipperModel)
    requires
        well_formed(z),
        z.previous is Some,
    ensures
        well_formed(prev_of(z)->0),
{
}

/// Every move to an aunt, a cousin, or a sister-or-cousin keeps a well
/// formed cursor well formed.
pub proof fn law_moves_keep_well_formed(z: ZipperModel, d: DocModel, index: usize)
    requires
        well_formed(z),
    ensures
        well_formed(inner(left_aunt_of(z, d).0)),
        well_formed(inner(right_aunt_of(z, d).0)),
        well_formed(inner(left_cousin_of(z, d, index).0)),
        well_formed(inner(right_cousin_of(z, d, index).0)),
        well_formed(inner(left_sister_or_cousin_of(z, d).0)),
        well_formed(inner(right_sister_or_cousin_of(z, d).0)),
        well_formed(inner(move_to_child_of(z, d, index).0)),
        well_formed(inner(try_move_right_of(z, d).0)),
        well_formed(inner(try_move_left_of(z, d).0)),
        well_formed(inner(go_back_to_parent_of(z, d).0)),
        well_formed(inner(move_right_or_cousin_of(z, d).0)),
        well_formed(inner(move_left_or_cousin_of(z, d).0)),
{
    law_mother_holds_row(z);
    let m = inner(mother_of(z));
    law_left_sister_shifts(m, d);
    law_right_sister_shifts(m, d);
    law_left_sister_shifts(z, d);
    law_right_sister_shifts(z, d);
    let (la, dl) = left_aunt_of(z, d);
    let (ra, dr) = right_aunt_of(z, d);
    law_daughter_row(inner(la), dl, index);
    law_daughter_row(inner(ra), dr, index);
    law_daughter_row(inner(la), dl, usize::MAX);
    law_daughter_row(inner(ra), dr, 0);
    let d1 = cleared_in(d, z.focus);
    law_daughter_row(z, d1, index);
    law_left_sister_shifts(z, d1);
    law_right_sister_shifts(z, d1);
    law_left_sister_shifts(m, d1);
    law_right_sister_shifts(m, d1);
    let (la1, dl1) = left_aunt_of(z, d1);
    let (ra1, dr1) = right_aunt_of(z, d1);
    law_daughter_row(inner(la1), dl1, usize::MAX);
    law_daughter_row(inner(ra1), dr1, 0);
}

/// Replacing or appending a child the cursor knows keeps it well formed.
pub proof fn law_add_child_keeps_well_formed(z: ZipperModel, node: Node, index: usize)
    requires
        well_formed(z),
    ensures
        well_formed(with_child(z, node, index)),
        well_formed(ZipperModel { children: insert_node_clamped(z.children, index, node), ..z }),
{
}

/// Whether two documents have the same elements holding the same children
/// and characters, whatever their styles.
pub open spec fn same_shape(d1: DocModel, d2: DocModel) -> bool {
    &&& d1.layouts.len() == d2.layouts.len()
    &&& d1.lines.len() == d2.lines.len()
    &&& d1.spans.len() == d2.spans.len()
    &&& d1.chars.len() == d2.chars.len()
    &&& forall|i: int|
        0 <= i < d1.layouts.len() ==> (#[trigger] d1.layouts[i]).container
            == d2.layouts[i].container && d1.layouts[i].children == d2.layouts[i].children
    &&& forall|i: int|
        0 <= i < d1.lines.len() ==> (#[trigger] d1.lines[i]).children == d2.lines[i].children
    &&& forall|i: int|
        0 <= i < d1.spans.len() ==> (#[trigger] d1.spans[i]).children == d2.spans[i].children
    &&& forall|i: int|
        0 <= i < d1.chars.len() ==> (#[trigger] d1.chars[i]).value == d2.chars[i].value
}

/// Setting a style keeps the shape of the document.
pub proof fn law_style_keeps_shape(d: DocModel, n: Node, s: crate::style::Style)
    ensures
        same_shape(d, with_style(d, n, s)),
        children_of(with_style(d, n, s), n) == children_of(d, n),
{
    let d2 = with_style(d, n, s);
    assert forall|i: int| 0 <= i < d.layouts.len() implies (#[trigger] d.layouts[i]).container
        == d2.layouts[i].container && d.layouts[i].children == d2.layouts[i].children by {}
}

proof fn lemma_shape_trans(d1: DocModel, d2: DocModel, d3: DocModel)
    requires
        same_shape(d1, d2),
        same_shape(d2, d3),
    ensures
        same_shape(d1, d3),
{
    assert forall|i: int| 0 <= i < d1.layouts.len() implies (#[trigger] d1.layouts[i]).container
        == d3.layouts[i].container && d1.layouts[i].children == d3.layouts[i].children by {
        assert(d2.layouts[i].container == d3.layouts[i].container);
    }
    assert forall|i: int| 0 <= i < d1.lines.len() implies (#[trigger] d1.lines[i]).children
        == d3.lines[i].children by {
        assert(d2.lines[i].children == d3.lines[i].children);
    }
    assert forall|i: int| 0 <= i < d1.spans.len() implies (#[trigger] d1.spans[i]).children
        == d3.spans[i].children by {
        assert(d2.spans[i].children == d3.spans[i].children);
    }
    assert forall|i: int| 0 <= i < d1.chars.len() implies (#[trigger] d1.chars[i]).value
        == d3.chars[i].value by {
        assert(d2.chars[i].value == d3.chars[i].value);
    }
}

proof fn lemma_clear_highlight_shape(d: DocModel, a: Node, b: Node)
    ensures
        same_shape(d, cleared_in(d, a)),
        same_shape(d, highlighted_in(d, a)),
        same_shape(d, highlighted_in(cleared_in(d, a), b)),
{
    law_style_keeps_shape(d, a, crate::style::Style::plain());
    law_style_keeps_shape(d, a, style_of(d, a).highlighted());
    let d1 = cleared_in(d, a);
    law_style_keeps_shape(d1, b, style_of(d1, b).highlighted());
    lemma_shape_trans(d, d1, highlighted_in(d1, b));
}

proof fn lemma_shape_refl(d: DocModel)
    ensures
        same_shape(d, d),
{
}

proof fn lemma_sisters_shape(z: ZipperModel, d: DocModel)
    ensures
        same_shape(d, left_sister_of(z, d).1),
        same_shape(d, right_sister_of(z, d).1),
{
    lemma_shape_refl(d);
    if z.previous is Some {
        lemma_clear_highlight_shape(d, z.focus, (*z.previous->0.zipper).focus);
    }
}

proof fn lemma_aunts_shape(z: ZipperModel, d: DocModel)
    ensures
        same_shape(d, left_aunt_of(z, d).1),
        same_shape(d, right_aunt_of(z, d).1),
{
    lemma_shape_refl(d);
    lemma_sisters_shape(inner(mother_of(z)), d);
}

proof fn lemma_or_cousin_shape(z: ZipperModel, d: DocModel)
    ensures
        same_shape(d, left_sister_or_cousin_of(z, d).1),
        same_shape(d, right_sister_or_cousin_of(z, d).1),
{
    lemma_sisters_shape(z, d);
    let dl = left_sister_of(z, d).1;
    let dr = right_sister_of(z, d).1;
    lemma_aunts_shape(z, dl);
    lemma_aunts_shape(z, dr);
    lemma_shape_trans(d, dl, left_aunt_of(z, dl).1);
    lemma_shape_trans(d, dr, right_aunt_of(z, dr).1);
}

proof fn lemma_framed_shape(d0: DocModel, step: (MoveModel, DocModel))
    requires
        same_shape(d0, step.1),
    ensures
        same_shape(d0, framed(step).1),
{
    lemma_clear_highlight_shape(step.1, inner(step.0).focus, inner(step.0).focus);
    lemma_shape_trans(d0, step.1, framed(step).1);
}

/// No move changes what the document holds: only styles change.
pub proof fn law_moves_keep_shape(z: ZipperModel, d: DocModel, index: usize)
    ensures
        same_shape(d, left_sister_of(z, d).1),
        same_shape(d, right_sister_of(z, d).1),
        same_shape(d, left_aunt_of(z, d).1),
        same_shape(d, right_aunt_of(z, d).1),
        same_shape(d, left_cousin_of(z, d, index).1),
        same_shape(d, right_cousin_of(z, d, index).1),
        same_shape(d, left_sister_or_cousin_of(z, d).1),
        same_shape(d, right_sister_or_cousin_of(z, d).1),
        z.previous is Some ==> same_shape(d, back_of(z, d).1),
        same_shape(d, move_to_child_of(z, d, index).1),
        same_shape(d, try_move_right_of(z, d).1),
        same_shape(d, try_move_left_of(z, d).1),
        same_shape(d, go_back_to_parent_of(z, d).1),
        same_shape(d, move_right_or_cousin_of(z, d).1),
        same_shape(d, move_left_or_cousin_of(z, d).1),
{
    lemma_sisters_shape(z, d);
    lemma_aunts_shape(z, d);
    lemma_or_cousin_shape(z, d);
    if z.previous is Some {
        lemma_clear_highlight_shape(d, z.focus, (*z.previous->0.zipper).focus);
    }
    let d1 = cleared_in(d, z.focus);
    lemma_clear_highlight_shape(d, z.focus, z.focus);
    lemma_sisters_shape(z, d1);
    lemma_or_cousin_shape(z, d1);
    lemma_shape_trans(d, d1, right_sister_of(z, d1).1);
    lemma_shape_trans(d, d1, left_sister_of(z, d1).1);
    lemma_shape_trans(d, d1, right_sister_or_cousin_of(z, d1).1);
    lemma_shape_trans(d, d1, left_sister_or_cousin_of(z, d1).1);
    lemma_framed_shape(d, (daughter_of(z, d1, index), d1));
    lemma_framed_shape(d, right_sister_of(z, d1));
    lemma_framed_shape(d, left_sister_of(z, d1));
    lemma_framed_shape(d, (mother_of(z), d1));
    lemma_framed_shape(d, right_sister_or_cousin_of(z, d1));
    lemma_framed_shape(d, left_sister_or_cousin_of(z, d1));
}

/// Whether `n` names an element of `d`.
pub open spec fn names_element(d: DocModel, n: Node) -> bool {
    match n {
        Node::Layout(i) => i < d.layouts.len(),
        Node::Line(i) => i < d.lines.len(),
        Node::Span(i) => i < d.spans.len(),
        Node::Char(i) => i < d.chars.len(),
    }
}

/// Whether `n` is drawn black on white in `d`.
pub open spec fn is_highlighted(d: DocModel, n: Node) -> bool {
    style_of(d, n).fg == Some(Color::Black) && style_of(d, n).bg == Some(Color::White)
}

proof fn lemma_framed_highlights(step: (MoveModel, DocModel))
    requires
        names_element(step.1, inner(step.0).focus),
    ensures
        is_highlighted(framed(step).1, inner(step.0).focus),
{
}

/// After every public move the cursor stands on an element drawn black on
/// white, where its focus names an element of the document.
pub proof fn law_moves_highlight_focus(z: ZipperModel, d: DocModel, index: usize)
    ensures
        names_element(d, inner(move_to_child_of(z, d, index).0).focus) ==> is_highlighted(
            move_to_child_of(z, d, index).1,
            inner(move_to_child_of(z, d, index).0).focus,
        ),
        names_element(d, inner(try_move_right_of(z, d).0).focus) ==> is_highlighted(
            try_move_right_of(z, d).1,
            inner(try_move_right_of(z, d).0).focus,
        ),
        names_element(d, inner(try_move_left_of(z, d).0).focus) ==> is_highlighted(
            try_move_left_of(z, d).1,
            inner(try_move_left_of(z, d).0).focus,
        ),
        names_element(d, inner(go_back_to_parent_of(z, d).0).focus) ==> is_highlighted(
            go_back_to_parent_of(z, d).1,
            inner(go_back_to_parent_of(z, d).0).focus,
        ),
        names_element(d, inner(move_right_or_cousin_of(z, d).0).focus) ==> is_highlighted(
            move_right_or_cousin_of(z, d).1,
            inner(move_right_or_cousin_of(z, d).0).focus,
        ),
        names_element(d, inner(move_left_or_cousin_of(z, d).0).focus) ==> is_highlighted(
            move_left_or_cousin_of(z, d).1,
            inner(move_left_or_cousin_of(z, d).0).focus,
        ),
{
    law_moves_keep_shape(z, d, index);
    let d1 = cleared_in(d, z.focus);
    lemma_clear_highlight_shape(d, z.focus, z.focus);
    lemma_sisters_shape(z, d1);
    lemma_or_cousin_shape(z, d1);
    let steps = seq![
        (daughter_of(z, d1, index), d1),
        right_sister_of(z, d1),
        left_sister_of(z, d1),
        (mother_of(z), d1),
        right_sister_or_cousin_of(z, d1),
        left_sister_or_cousin_of(z, d1),
    ];
    assert forall|k: int| 0 <= k < 6 && names_element(d, inner(steps[k].0).focus) implies
        is_highlighted(framed(steps[k]).1, inner(steps[k].0).focus) by {
        lemma_shape_trans(d, d1, steps[k].1);
        lemma_framed_highlights(steps[k]);
    }
    assert(steps[0] == (daughter_of(z, d1, index), d1));
    assert(steps[1] == right_sister_of(z, d1));
    assert(steps[2] == left_sister_of(z, d1));
    assert(steps[3] == (mother_of(z), d1));
    assert(steps[4] == right_sister_or_cousin_of(z, d1));
    assert(steps[5] == left_sister_or_cousin_of(z, d1));
}

/// Adding a child to a mother that takes it puts the handle of the copy
/// among the mother's children, at `index` or at their end, and the copy
/// holds what the child holds.  (An arena of a document in memory never
/// holds `usize::MAX` elements.)
pub proof fn law_added_child_appears(d: DocModel, mom: Node, child: Node, index: usize)
    requires
        accepts(d, mom, child),
        d.layouts.len() < usize::MAX,
        d.lines.len() < usize::MAX,
        d.spans.len() < usize::MAX,
        d.chars.len() < usize::MAX,
    ensures
        children_of(added_in(d, mom, child, index), mom) == Some(
            insert_node_clamped(children_or_empty(d, mom), index, added_node(d, child)),
        ),
        children_of(added_in(d, mom, child, index), added_node(d, child)) == children_of(
            d,
            child,
        ),
{
    let d2 = added_in(d, mom, child, index);
    let n = added_node(d, child);
    match (mom, child) {
        (Node::Layout(m), Node::Layout(c)) => {
            let old_kids = d.layouts[m as int].children;
            assert(d2.layouts[m as int].children == crate::primitives::insert_clamped(
                old_kids,
                index,
                d.layouts.len() as usize,
            ));
            assert(children_of(d2, mom)->0 =~= insert_node_clamped(
                children_or_empty(d, mom),
                index,
                n,
            ));
            assert(children_of(d2, n)->0 =~= children_of(d, child)->0);
        },
        (Node::Layout(m), Node::Line(c)) => {
            assert(children_of(d2, mom)->0 =~= insert_node_clamped(
                children_or_empty(d, mom),
                index,
                n,
            ));
            assert(children_of(d2, n)->0 =~= children_of(d, child)->0);
        },
        (Node::Line(m), Node::Span(c)) => {
            assert(children_of(d2, mom)->0 =~= insert_node_clamped(
                children_or_empty(d, mom),
                index,
                n,
            ));
            assert(children_of(d2, n)->0 =~= children_of(d, child)->0);
        },
        (Node::Span(m), Node::Char(c)) => {
            assert(children_of(d2, mom)->0 =~= insert_node_clamped(
                children_or_empty(d, mom),
                index,
                n,
            ));
        },
        _ => {},
    }
}

/// An element carries no children (`None`) exactly when it is a
/// character; an element that can carry children but has none gives an
/// empty sequence.
pub proof fn law_children_none_exactly_for_chars(d: DocModel, n: Node)
    requires
        names_element(d, n),
    ensures
        children_of(d, n) is None <==> n is Char,
        children_of(d, n) is Some ==> children_of(d, n)->0.len() == match n {
            Node::Layout(i) => d.layouts[i as int].children.len(),
            Node::Line(i) => d.lines[i as int].children.len(),
            Node::Span(i) => d.spans[i as int].children.len(),
            Node::Char(_) => 0,
        },
{
}

/// On a well formed cursor, `right_sister_or_cousin_of` steps to the right
/// sister where there is one; otherwise it goes to the first child of the
/// mother's right sister, where the cursor has a mother, she has a right
/// sister, and that sister has children; otherwise it stays.
pub proof fn law_right_sister_or_cousin(z: ZipperModel, d: DocModel)
    requires
        well_formed(z),
    ensures
        z.right.len() > 0 ==> right_sister_or_cousin_of(z, d) == right_sister_of(z, d),
        z.right.len() == 0 ==> {
            let m = inner(mother_of(z));
            let a = inner(right_sister_of(m, d).0);
            let r = right_sister_or_cousin_of(z, d).0;
            &&& (r is Moved <==> (z.previous is Some && m.right.len() > 0 && a.children.len() > 0))
            &&& (r is Moved ==> inner(r).focus == a.children[0] && row(inner(r)) == a.children)
            &&& (r is DidntMove ==> inner(r) == z)
        },
{
    law_right_sister_shifts(z, d);
    law_mother_holds_row(z);
    let m = inner(mother_of(z));
    law_right_sister_shifts(m, d);
    if z.right.len() == 0 {
        assert(!came_from(z, PrevDir::Right));
        let a = inner(right_sister_of(m, d).0);
        law_daughter_row(a, right_sister_of(m, d).1, 0);
    }
}

/// On a well formed cursor, `left_sister_or_cousin_of` steps to the left
/// sister where there is one; otherwise it goes to the last child of the
/// mother's left sister, where the cursor has a mother, she has a left
/// sister, and that sister has children (as many as a vector holds);
/// otherwise it stays.
pub proof fn law_left_sister_or_cousin(z: ZipperModel, d: DocModel)
    requires
        well_formed(z),
    ensures
        z.left.len() > 0 ==> left_sister_or_cousin_of(z, d) == left_sister_of(z, d),
        z.left.len() == 0 ==> {
            let m = inner(mother_of(z));
            let a = inner(left_sister_of(m, d).0);
            let r = left_sister_or_cousin_of(z, d).0;
            &&& (r is Moved <==> (z.previous is Some && m.left.len() > 0 && a.children.len() > 0))
            &&& (r is Moved ==> row(inner(r)) == a.children)
            &&& (r is Moved && a.children.len() <= usize::MAX ==> inner(r).focus
                == a.children.last())
            &&& (r is DidntMove ==> inner(r) == z)
        },
{
    law_left_sister_shifts(z, d);
    law_mother_holds_row(z);
    let m = inner(mother_of(z));
    law_left_sister_shifts(m, d);
    if z.left.len() == 0 {
        assert(!came_from(z, PrevDir::Left));
        let a = inner(left_sister_of(m, d).0);
        law_daughter_row(a, left_sister_of(m, d).1, usize::MAX);
    }
}

/// Documents of the same shape give every element the same children.
pub proof fn law_shape_keeps_children(d1: DocModel, d2: DocModel, n: Node)
    requires
        same_shape(d1, d2),
    ensures
        children_of(d1, n) == children_of(d2, n),
        children_or_empty(d1, n) == children_or_empty(d2, n),
{
    match n {
        Node::Layout(i) => if i < d1.layouts.len() {
            assert(d1.layouts[i as int].container == d2.layouts[i as int].container);
            assert(d1.layouts[i as int].children == d2.layouts[i as int].children);
        },
        Node::Line(i) => if i < d1.lines.len() {
            assert(d1.lines[i as int].children == d2.lines[i as int].children);
        },
        Node::Span(i) => if i < d1.spans.len() {
            assert(d1.spans[i as int].children == d2.spans[i as int].children);
        },
        Node::Char(_) => {},
    }
}

/// A cursor built by moves over one document is built by moves over every
/// document of the same shape.
pub proof fn law_built_by_moves_shape(z: ZipperModel, d1: DocModel, d2: DocModel)
    requires
        built_by_moves(z, d1),
        same_shape(d1, d2),
    ensures
        built_by_moves(z, d2),
    decreases z,
{
    law_shape_keeps_children(d1, d2, z.focus);
    match z.previous {
        None => {},
        Some(c) => {
            law_built_by_moves_shape(*c.zipper, d1, d2);
        },
    }
}

/// A cursor built by moves is well formed.
pub proof fn law_built_by_moves_is_well_formed(z: ZipperModel, d: DocModel)
    requires
        built_by_moves(z, d),
    ensures
        well_formed(z),
    decreases z,
{
    match z.previous {
        None => {},
        Some(c) => {
            law_built_by_moves_is_well_formed(*c.zipper, d);
        },
    }
}

/// Every cursor kept in a breadcrumb of a cursor built by moves knows
/// exactly the children that the document gives its focus, and is itself
/// built by moves.
pub proof fn law_breadcrumbs_hold_document_children(z: ZipperModel, d: DocModel)
    requires
        built_by_moves(z, d),
        z.previous is Some,
    ensures
        built_by_moves(prev_of(z)->0, d),
        prev_of(z)->0.children == children_or_empty(d, prev_of(z)->0.focus),
{
    let p = prev_of(z)->0;
    assert(built_by_moves(p, d));
    assert(p.children == children_or_empty(d, p.focus));
}

proof fn lemma_mother_built(z: ZipperModel, d: DocModel)
    requires
        built_by_moves(z, d),
    ensures
        built_by_moves(inner(mother_of(z)), d),
    decreases z,
{
    match z.previous {
        None => {},
        Some(c) => {
            if c.direction != PrevDir::Parent {
                lemma_mother_built(*c.zipper, d);
            }
        },
    }
}

proof fn lemma_daughter_built(z: ZipperModel, d: DocModel, index: usize)
    requires
        built_by_moves(z, d),
    ensures
        built_by_moves(inner(daughter_of(z, d, index)), d),
{
    if z.children.len() > 0 {
        let z2 = inner(daughter_of(z, d, index));
        assert(row(z2) =~= z.children);
    }
}

proof fn lemma_sisters_built(z: ZipperModel, d: DocModel)
    requires
        built_by_moves(z, d),
    ensures
        built_by_moves(inner(left_sister_of(z, d).0), left_sister_of(z, d).1),
        built_by_moves(inner(right_sister_of(z, d).0), right_sister_of(z, d).1),
{
    lemma_sisters_shape(z, d);
    if came_from(z, PrevDir::Left) {
        law_built_by_moves_shape(*z.previous->0.zipper, d, left_sister_of(z, d).1);
    } else if z.left.len() > 0 {
        let z2 = inner(left_sister_of(z, d).0);
        assert(row(z2) =~= row(z));
    }
    if came_from(z, PrevDir::Right) {
        law_built_by_moves_shape(*z.previous->0.zipper, d, right_sister_of(z, d).1);
    } else if z.right.len() > 0 {
        let z2 = inner(right_sister_of(z, d).0);
        assert(row(z2) =~= row(z));
    }
}

proof fn lemma_aunts_built(z: ZipperModel, d: DocModel)
    requires
        built_by_moves(z, d),
    ensures
        built_by_moves(inner(left_aunt_of(z, d).0), left_aunt_of(z, d).1),
        built_by_moves(inner(right_aunt_of(z, d).0), right_aunt_of(z, d).1),
{
    lemma_mother_built(z, d);
    let m = inner(mother_of(z));
    lemma_sisters_built(m, d);
    lemma_aunts_shape(z, d);
    law_built_by_moves_shape(z, d, left_aunt_of(z, d).1);
    law_built_by_moves_shape(z, d, right_aunt_of(z, d).1);
}

proof fn lemma_cousins_built(z: ZipperModel, d: DocModel, index: usize)
    requires
        built_by_moves(z, d),
    ensures
        built_by_moves(inner(left_cousin_of(z, d, index).0), left_cousin_of(z, d, index).1),
        built_by_moves(inner(right_cousin_of(z, d, index).0), right_cousin_of(z, d, index).1),
{
    lemma_aunts_built(z, d);
    lemma_aunts_shape(z, d);
    let (la, dl) = left_aunt_of(z, d);
    let (ra, dr) = right_aunt_of(z, d);
    lemma_daughter_built(inner(la), dl, index);
    lemma_daughter_built(inner(ra), dr, index);
    law_built_by_moves_shape(z, d, dl);
    law_built_by_moves_shape(z, d, dr);
}

proof fn lemma_or_cousin_built(z: ZipperModel, d: DocModel)
    requires
        built_by_moves(z, d),
    ensures
        built_by_moves(
            inner(left_sister_or_cousin_of(z, d).0),
            left_sister_or_cousin_of(z, d).1,
        ),
        built_by_moves(
            inner(right_sister_or_cousin_of(z, d).0),
            right_sister_or_cousin_of(z, d).1,
        ),
{
    lemma_sisters_built(z, d);
    lemma_sisters_shape(z, d);
    let dl = left_sister_of(z, d).1;
    let dr = right_sister_of(z, d).1;
    law_built_by_moves_shape(z, d, dl);
    law_built_by_moves_shape(z, d, dr);
    lemma_cousins_built(z, dl, usize::MAX);
    lemma_cousins_built(z, dr, 0);
}

proof fn lemma_framed_built(step: (MoveModel, DocModel))
    requires
        built_by_moves(inner(step.0), step.1),
    ensures
        built_by_moves(inner(framed(step).0), framed(step).1),
{
    lemma_clear_highlight_shape(step.1, inner(step.0).focus, inner(step.0).focus);
    law_built_by_moves_shape(inner(step.0), step.1, framed(step).1);
}

/// Every move keeps a cursor built by moves so, over the document the move
/// leaves.
pub proof fn law_moves_keep_built(z: ZipperModel, d: DocModel, index: usize)
    requires
        built_by_moves(z, d),
    ensures
        built_by_moves(inner(mother_of(z)), d),
        built_by_moves(inner(daughter_of(z, d, index)), d),
        z.previous is Some ==> built_by_moves(back_of(z, d).0, back_of(z, d).1),
        built_by_moves(inner(left_sister_of(z, d).0), left_sister_of(z, d).1),
        built_by_moves(inner(right_sister_of(z, d).0), right_sister_of(z, d).1),
        built_by_moves(inner(left_aunt_of(z, d).0), left_aunt_of(z, d).1),
        built_by_moves(inner(right_aunt_of(z, d).0), right_aunt_of(z, d).1),
        built_by_moves(inner(left_cousin_of(z, d, index).0), left_cousin_of(z, d, index).1),
        built_by_moves(inner(right_cousin_of(z, d, index).0), right_cousin_of(z, d, index).1),
        built_by_moves(
            inner(left_sister_or_cousin_of(z, d).0),
            left_sister_or_cousin_of(z, d).1,
        ),
        built_by_moves(
            inner(right_sister_or_cousin_of(z, d).0),
            right_sister_or_cousin_of(z, d).1,
        ),
        built_by_moves(inner(move_to_child_of(z, d, index).0), move_to_child_of(z, d, index).1),
        built_by_moves(inner(try_move_right_of(z, d).0), try_move_right_of(z, d).1),
        built_by_moves(inner(try_move_left_of(z, d).0), try_move_left_of(z, d).1),
        built_by_moves(inner(go_back_to_parent_of(z, d).0), go_back_to_parent_of(z, d).1),
        built_by_moves(inner(move_right_or_cousin_of(z, d).0), move_right_or_cousin_of(z, d).1),
        built_by_moves(inner(move_left_or_cousin_of(z, d).0), move_left_or_cousin_of(z, d).1),
{
    lemma_mother_built(z, d);
    lemma_daughter_built(z, d, index);
    if z.previous is Some {
        lemma_clear_highlight_shape(d, z.focus, (*z.previous->0.zipper).focus);
        law_built_by_moves_shape(*z.previous->0.zipper, d, back_of(z, d).1);
    }
    lemma_sisters_built(z, d);
    lemma_aunts_built(z, d);
    lemma_cousins_built(z, d, index);
    lemma_or_cousin_built(z, d);
    let d1 = cleared_in(d, z.focus);
    lemma_clear_highlight_shape(d, z.focus, z.focus);
    law_built_by_moves_shape(z, d, d1);
    lemma_mother_built(z, d1);
    lemma_daughter_built(z, d1, index);
    lemma_sisters_built(z, d1);
    lemma_or_cousin_built(z, d1);
    lemma_framed_built((daughter_of(z, d1, index), d1));
    lemma_framed_built(right_sister_of(z, d1));
    lemma_framed_built(left_sister_of(z, d1));
    lemma_framed_built((mother_of(z), d1));
    lemma_framed_built(right_sister_or_cousin_of(z, d1));
    lemma_framed_built(left_sister_or_cousin_of(z, d1));
}

/// On a cursor built by moves, a step to the left sister is undone by a
/// step to the right sister over any document of the same shape: the
/// cursor returned is the one that stepped.
pub proof fn law_left_sister_undone(x: ZipperModel, d: DocModel, d2: DocModel)
    requires
        built_by_moves(x, d),
        left_sister_of(x, d).0 is Moved,
        same_shape(d, d2),
    ensures
        right_sister_of(inner(left_sister_of(x, d).0), d2).0 == MoveModel::Moved(x),
{
    if came_from(x, PrevDir::Left) {
        let p = *x.previous->0.zipper;
        assert(row(x).len() == x.left.len() + 1 + x.right.len());
        assert(row(p).len() == p.left.len() + 1 + p.right.len());
        assert(!came_from(p, PrevDir::Right));
        assert(p.right.len() > 0);
        assert(row(x)[x.left.len() as int] == x.focus);
        assert(row(p)[p.left.len() as int + 1] == p.right[0]);
        assert(x.left =~= p.left.push(p.focus)) by {
            assert forall|i: int| 0 <= i < x.left.len() implies x.left[i] == p.left.push(
                p.focus,
            )[i] by {
                assert(row(x)[i] == x.left[i]);
                assert(row(p)[i] == p.left.push(p.focus)[i]);
            }
        }
        assert(x.right =~= p.right.drop_first()) by {
            assert forall|i: int| 0 <= i < x.right.len() implies x.right[i]
                == p.right.drop_first()[i] by {
                assert(row(x)[x.left.len() + 1 + i] == x.right[i]);
                assert(row(p)[p.left.len() + 2 + i] == p.right[i + 1]);
            }
        }
        law_shape_keeps_children(d, d2, x.focus);
        let z = inner(right_sister_of(p, d2).0);
        assert(z.previous == x.previous);
        assert(z == x);
    }
}

/// On a cursor built by moves, a step to the right sister is undone by a
/// step to the left sister over any document of the same shape: the cursor
/// returned is the one that stepped.
pub proof fn law_right_sister_undone(x: ZipperModel, d: DocModel, d2: DocModel)
    requires
        built_by_moves(x, d),
        right_sister_of(x, d).0 is Moved,
        same_shape(d, d2),
    ensures
        left_sister_of(inner(right_sister_of(x, d).0), d2).0 == MoveModel::Moved(x),
{
    if came_from(x, PrevDir::Right) {
        let p = *x.previous->0.zipper;
        assert(row(x).len() == x.left.len() + 1 + x.right.len());
        assert(row(p).len() == p.left.len() + 1 + p.right.len());
        assert(!came_from(p, PrevDir::Left));
        assert(p.left.len() > 0);
        assert(row(x)[x.left.len() as int] == x.focus);
        assert(row(p)[p.left.len() - 1] == p.left.last());
        assert(x.left =~= p.left.drop_last()) by {
            assert forall|i: int| 0 <= i < x.left.len() implies x.left[i]
                == p.left.drop_last()[i] by {
                assert(row(x)[i] == x.left[i]);
                assert(row(p)[i] == p.left[i]);
            }
        }
        assert(x.right =~= seq![p.focus] + p.right) by {
            assert forall|i: int| 0 <= i < x.right.len() implies x.right[i] == (seq![p.focus]
                + p.right)[i] by {
                assert(row(x)[x.left.len() + 1 + i] == x.right[i]);
                assert(row(p)[p.left.len() + i] == (seq![p.focus] + p.right)[i]);
            }
        }
        law_shape_keeps_children(d, d2, x.focus);
        let z = inner(left_sister_of(p, d2).0);
        assert(z.previous == x.previous);
        assert(z == x);
    }
}

/// On a cursor built by moves, `try_move_left` is undone by `try_move_right`.
pub proof fn law_try_move_left_undone(x: ZipperModel, d: DocModel)
    requires
        built_by_moves(x, d),
        try_move_left_of(x, d).0 is Moved,
    ensures
        try_move_right_of(inner(try_move_left_of(x, d).0), try_move_left_of(x, d).1).0
            == MoveModel::Moved(x),
{
    let dc = cleared_in(d, x.focus);
    lemma_clear_highlight_shape(d, x.focus, x.focus);
    law_built_by_moves_shape(x, d, dc);
    let (y, d1) = left_sister_of(x, dc);
    lemma_sisters_shape(x, dc);
    let y = inner(y);
    let d1h = highlighted_in(d1, y.focus);
    lemma_clear_highlight_shape(d1, y.focus, y.focus);
    lemma_clear_highlight_shape(d1h, y.focus, y.focus);
    lemma_shape_trans(dc, d1, d1h);
    lemma_shape_trans(dc, d1h, cleared_in(d1h, y.focus));
    law_left_sister_undone(x, dc, cleared_in(d1h, y.focus));
}

/// On a cursor built by moves, `try_move_right` is undone by `try_move_left`.
pub proof fn law_try_move_right_undone(x: ZipperModel, d: DocModel)
    requires
        built_by_moves(x, d),
        try_move_right_of(x, d).0 is Moved,
    ensures
        try_move_left_of(inner(try_move_right_of(x, d).0), try_move_right_of(x, d).1).0
            == MoveModel::Moved(x),
{
    let dc = cleared_in(d, x.focus);
    lemma_clear_highlight_shape(d, x.focus, x.focus);
    law_built_by_moves_shape(x, d, dc);
    let (y, d1) = right_sister_of(x, dc);
    lemma_sisters_shape(x, dc);
    let y = inner(y);
    let d1h = highlighted_in(d1, y.focus);
    lemma_clear_highlight_shape(d1, y.focus, y.focus);
    lemma_clear_highlight_shape(d1h, y.focus, y.focus);
    lemma_shape_trans(dc, d1, d1h);
    lemma_shape_trans(dc, d1h, cleared_in(d1h, y.focus));
    law_right_sister_undone(x, dc, cleared_in(d1h, y.focus));
}

/// On a cursor built by moves that has a breadcrumb, `go_back_to_parent`
/// reaches the mother; her children are the row the cursor stood in and are
/// exactly the children that the document gives her focus.
pub proof fn law_go_back_to_parent_row(z: ZipperModel, d: DocModel)
    requires
        built_by_moves(z, d),
        z.previous is Some,
    ensures
        go_back_to_parent_of(z, d).0 is Moved,
        inner(go_back_to_parent_of(z, d).0).children == row(z),
        children_of(go_back_to_parent_of(z, d).1, inner(go_back_to_parent_of(z, d).0).focus)
            == Some(inner(go_back_to_parent_of(z, d).0).children),
{
    law_built_by_moves_is_well_formed(z, d);
    law_mother_holds_row(z);
    lemma_mother_built(z, d);
    let m = inner(mother_of(z));
    assert(row(z).len() > 0);
    law_moves_keep_shape(z, d, 0);
    law_shape_keeps_children(d, go_back_to_parent_of(z, d).1, m.focus);
}

/// Highlighting an element twice is highlighting it once; clearing after
/// highlighting is clearing; highlighting after clearing draws it black on
/// white with no modifiers.
pub proof fn law_highlight_and_clear(d: DocModel, n: Node)
    requires
        names_element(d, n),
    ensures
        highlighted_in(highlighted_in(d, n), n) == highlighted_in(d, n),
        cleared_in(highlighted_in(d, n), n) == cleared_in(d, n),
        cleared_in(cleared_in(d, n), n) == cleared_in(d, n),
        style_of(highlighted_in(cleared_in(d, n), n), n) == crate::style::Style::plain().highlighted(),
        style_of(cleared_in(highlighted_in(d, n), n), n) == crate::style::Style::plain(),
{
    let h = highlighted_in(d, n);
    let c = cleared_in(d, n);
    match n {
        Node::Layout(i) => {
            assert(highlighted_in(h, n).layouts =~= h.layouts);
            assert(cleared_in(h, n).layouts =~= c.layouts);
            assert(cleared_in(c, n).layouts =~= c.layouts);
        },
        Node::Line(i) => {
            assert(highlighted_in(h, n).lines =~= h.lines);
            assert(cleared_in(h, n).lines =~= c.lines);
            assert(cleared_in(c, n).lines =~= c.lines);
        },
        Node::Span(i) => {
            assert(highlighted_in(h, n).spans =~= h.spans);
            assert(cleared_in(h, n).spans =~= c.spans);
            assert(cleared_in(c, n).spans =~= c.spans);
        },
        Node::Char(i) => {
            assert(highlighted_in(h, n).chars =~= h.chars);
            assert(cleared_in(h, n).chars =~= c.chars);
            assert(cleared_in(c, n).chars =~= c.chars);
        },
    }
}

/// A document of the same shape as a well formed one is well formed: no
/// move breaks the document's well-formedness.
pub proof fn law_shape_keeps_wf(d1: DocModel, d2: DocModel)
    requires
        same_shape(d1, d2),
        d1.wf(),
    ensures
        d2.wf(),
{
    assert forall|i: int| 0 <= i < d2.layouts.len() implies crate::primitives::all_below(
        (#[trigger] d2.layouts[i]).children,
        if d2.layouts[i].container {
            d2.layouts.len()
        } else {
            d2.lines.len()
        },
    ) by {
        assert(d1.layouts[i].container == d2.layouts[i].container);
    }
    assert forall|i: int| 0 <= i < d2.lines.len() implies crate::primitives::all_below(
        (#[trigger] d2.lines[i]).children,
        d2.spans.len(),
    ) by {
        assert(d1.lines[i].children == d2.lines[i].children);
    }
    assert forall|i: int| 0 <= i < d2.spans.len() implies crate::primitives::all_below(
        (#[trigger] d2.spans[i]).children,
        d2.chars.len(),
    ) by {
        assert(d1.spans[i].children == d2.spans[i].children);
    }
}

/// The cursor and document after the sister steps `steps` made with
/// `try_move_right` (`true`) and `try_move_left` (`false`), in order.
pub open spec fn sister_walk(z: ZipperModel, d: DocModel, steps: Seq<bool>) -> (
    ZipperModel,
    DocModel,
)
    decreases steps.len(),
{
    if steps.len() == 0 {
        (z, d)
    } else {
        let (z1, d1) = sister_walk(z, d, steps.drop_last());
        let r = if steps.last() {
            try_move_right_of(z1, d1)
        } else {
            try_move_left_of(z1, d1)
        };
        (inner(r.0), r.1)
    }
}

/// Any number of sister steps, whether they move or not, keeps the mother.
pub proof fn law_sister_walk_keeps_mother(z: ZipperModel, d: DocModel, steps: Seq<bool>)
    ensures
        mother_of(sister_walk(z, d, steps).0) == mother_of(z),
    decreases steps.len(),
{
    if steps.len() > 0 {
        law_sister_walk_keeps_mother(z, d, steps.drop_last());
        let (z1, d1) = sister_walk(z, d, steps.drop_last());
        law_sisters_keep_mother(z1, cleared_in(d1, z1.focus));
    }
}

/// Going down with `move_to_child`, then any number of sister steps, then
/// `go_back_to_parent` returns the cursor that went down.
pub proof fn law_child_sisters_then_parent(
    p: ZipperModel,
    d: DocModel,
    index: usize,
    steps: Seq<bool>,
)
    requires
        move_to_child_of(p, d, index).0 is Moved,
    ensures
        go_back_to_parent_of(
            sister_walk(
                inner(move_to_child_of(p, d, index).0),
                move_to_child_of(p, d, index).1,
                steps,
            ).0,
            sister_walk(
                inner(move_to_child_of(p, d, index).0),
                move_to_child_of(p, d, index).1,
                steps,
            ).1,
        ).0 == MoveModel::Moved(p),
{
    let c = inner(move_to_child_of(p, d, index).0);
    let dc = move_to_child_of(p, d, index).1;
    law_daughter_then_mother(p, cleared_in(d, p.focus), index);
    law_sister_walk_keeps_mother(c, dc, steps);
}

/// Going down with `move_to_child` and straight back with `move_to_prev`
/// returns the cursor that went down; the element it stands on ends drawn
/// black on white, and the child it left ends plain, unless the two are
/// one element.
pub proof fn law_move_to_child_then_back(x: ZipperModel, d: DocModel, index: usize)
    requires
        move_to_child_of(x, d, index).0 is Moved,
    ensures
        ({
            let y = inner(move_to_child_of(x, d, index).0);
            let b = back_of(y, move_to_child_of(x, d, index).1);
            &&& y.previous is Some
            &&& b.0 == x
            &&& names_element(d, x.focus) ==> is_highlighted(b.1, x.focus)
            &&& names_element(d, y.focus) && y.focus != x.focus ==> style_of(b.1, y.focus)
                == crate::style::Style::plain()
        }),
{
    let y = inner(move_to_child_of(x, d, index).0);
    let d1 = move_to_child_of(x, d, index).1;
    law_moves_keep_shape(x, d, index);
    let dc = cleared_in(d1, y.focus);
    law_style_keeps_shape(d1, y.focus, crate::style::Style::plain());
    lemma_shape_trans(d, d1, dc);
}

/// Setting the style of one element changes the style of that element
/// alone, and changes which handles name elements not at all.
pub proof fn law_style_of_with_style(d: DocModel, n: Node, s: crate::style::Style, m: Node)
    ensures
        style_of(with_style(d, n, s), m) == (if m == n && names_element(d, n) {
            s
        } else {
            style_of(d, m)
        }),
        names_element(with_style(d, n, s), m) == names_element(d, m),
{
}

/// Each of `try_move_right`, `try_move_left`, `move_to_child` and
/// `go_back_to_parent` leaves the element it moved away from in the plain
/// style: only the element it arrives on is drawn highlighted.
pub proof fn law_moves_clear_old_focus(z: ZipperModel, d: DocModel, index: usize)
    requires
        names_element(d, z.focus),
    ensures
        inner(try_move_right_of(z, d).0).focus != z.focus ==> style_of(
            try_move_right_of(z, d).1,
            z.focus,
        ) == crate::style::Style::plain(),
        inner(try_move_left_of(z, d).0).focus != z.focus ==> style_of(
            try_move_left_of(z, d).1,
            z.focus,
        ) == crate::style::Style::plain(),
        inner(move_to_child_of(z, d, index).0).focus != z.focus ==> style_of(
            move_to_child_of(z, d, index).1,
            z.focus,
        ) == crate::style::Style::plain(),
        inner(go_back_to_parent_of(z, d).0).focus != z.focus ==> style_of(
            go_back_to_parent_of(z, d).1,
            z.focus,
        ) == crate::style::Style::plain(),
{
    let plain = crate::style::Style::plain();
    let dc = cleared_in(d, z.focus);
    law_style_of_with_style(d, z.focus, plain, z.focus);
    assert(style_of(dc, z.focus) == plain);
    assert(names_element(dc, z.focus));
    // the sister steps
    if z.previous is Some {
        let p = *z.previous->0.zipper;
        let dcc = cleared_in(dc, z.focus);
        law_style_of_with_style(dc, z.focus, plain, z.focus);
        law_style_of_with_style(dcc, p.focus, style_of(dcc, p.focus).highlighted(), z.focus);
        law_style_of_with_style(
            highlighted_in(dcc, p.focus),
            p.focus,
            style_of(highlighted_in(dcc, p.focus), p.focus).highlighted(),
            z.focus,
        );
    }
    let (rr, dr) = right_sister_of(z, dc);
    law_style_of_with_style(dr, inner(rr).focus, style_of(dr, inner(rr).focus).highlighted(), z.focus);
    let (rl, dl) = left_sister_of(z, dc);
    law_style_of_with_style(dl, inner(rl).focus, style_of(dl, inner(rl).focus).highlighted(), z.focus);
    let rd = daughter_of(z, dc, index);
    law_style_of_with_style(dc, inner(rd).focus, style_of(dc, inner(rd).focus).highlighted(), z.focus);
    let rm = mother_of(z);
    law_style_of_with_style(dc, inner(rm).focus, style_of(dc, inner(rm).focus).highlighted(), z.focus);
}

/// On a well formed cursor with a sister to the right, `move_right_or_cousin`
/// is exactly `try_move_right`: it moves to that sister, keeps the row and
/// goes one place to the right.  With no sister to the right, on a cursor
/// built by moves, it moves exactly when the cursor has a mother, she has a
/// sister to her right, and that sister has children in the document; it
/// then stands on the first of them; otherwise it stays where it is.
pub proof fn law_move_right_or_cousin(z: ZipperModel, d: DocModel)
    requires
        well_formed(z),
    ensures
        z.right.len() > 0 ==> {
            &&& move_right_or_cousin_of(z, d) == try_move_right_of(z, d)
            &&& move_right_or_cousin_of(z, d).0 is Moved
            &&& inner(move_right_or_cousin_of(z, d).0).focus == z.right[0]
            &&& row(inner(move_right_or_cousin_of(z, d).0)) == row(z)
            &&& inner(move_right_or_cousin_of(z, d).0).left.len() == z.left.len() + 1
        },
        z.right.len() == 0 && built_by_moves(z, d) ==> {
            let m = inner(mother_of(z));
            let r = move_right_or_cousin_of(z, d).0;
            let cousins = children_or_empty(d, m.right[0]);
            &&& (r is Moved <==> (z.previous is Some && m.right.len() > 0 && cousins.len() > 0))
            &&& (r is Moved ==> inner(r).focus == cousins[0] && inner(r).left.len() == 0
                && row(inner(r)) == cousins)
            &&& (r is DidntMove ==> inner(r) == z)
        },
{
    let dc = cleared_in(d, z.focus);
    law_right_sister_shifts(z, dc);
    law_right_sister_or_cousin(z, dc);
    if z.right.len() == 0 && built_by_moves(z, d) {
        lemma_clear_highlight_shape(d, z.focus, z.focus);
        law_built_by_moves_shape(z, d, dc);
        law_mother_holds_row(z);
        lemma_mother_built(z, dc);
        let m = inner(mother_of(z));
        law_right_sister_shifts(m, dc);
        lemma_sisters_built(m, dc);
        lemma_sisters_shape(m, dc);
        let (ra, da) = right_sister_of(m, dc);
        let a = inner(ra);
        lemma_shape_trans(d, dc, da);
        law_daughter_row(a, da, 0);
        if m.right.len() > 0 {
            law_shape_keeps_children(d, da, m.right[0]);
        }
    }
}

/// On a well formed cursor with a sister to the left, `move_left_or_cousin`
/// is exactly `try_move_left`: it moves to that sister, keeps the row and
/// goes one place to the left.  With no sister to the left, on a cursor
/// built by moves, it moves exactly when the cursor has a mother, she has a
/// sister to her left, and that sister has children in the document; it
/// then stands on the last of them (as many as a vector holds); otherwise
/// it stays where it is.
pub proof fn law_move_left_or_cousin(z: ZipperModel, d: DocModel)
    requires
        well_formed(z),
    ensures
        z.left.len() > 0 ==> {
            &&& move_left_or_cousin_of(z, d) == try_move_left_of(z, d)
            &&& move_left_or_cousin_of(z, d).0 is Moved
            &&& inner(move_left_or_cousin_of(z, d).0).focus == z.left.last()
            &&& row(inner(move_left_or_cousin_of(z, d).0)) == row(z)
            &&& inner(move_left_or_cousin_of(z, d).0).left.len() + 1 == z.left.len()
        },
        z.left.len() == 0 && built_by_moves(z, d) ==> {
            let m = inner(mother_of(z));
            let r = move_left_or_cousin_of(z, d).0;
            let cousins = children_or_empty(d, m.left.last());
            &&& (r is Moved <==> (z.previous is Some && m.left.len() > 0 && cousins.len() > 0))
            &&& (r is Moved ==> row(inner(r)) == cousins)
            &&& (r is Moved && cousins.len() <= usize::MAX ==> inner(r).focus == cousins.last()
                && inner(r).left.len() + 1 == cousins.len())
            &&& (r is DidntMove ==> inner(r) == z)
        },
{
    let dc = cleared_in(d, z.focus);
    law_left_sister_shifts(z, dc);
    law_left_sister_or_cousin(z, dc);
    if z.left.len() == 0 && built_by_moves(z, d) {
        lemma_clear_highlight_shape(d, z.focus, z.focus);
        law_built_by_moves_shape(z, d, dc);
        law_mother_holds_row(z);
        lemma_mother_built(z, dc);
        let m = inner(mother_of(z));
        law_left_sister_shifts(m, dc);
        lemma_sisters_built(m, dc);
        lemma_sisters_shape(m, dc);
        let (la, da) = left_sister_of(m, dc);
        let a = inner(la);
        lemma_shape_trans(d, dc, da);
        law_daughter_row(a, da, usize::MAX);
        if m.left.len() > 0 {
            law_shape_keeps_children(d, da, m.left.last());
        }
    }
}

/// `add_child` changes only the children the cursor knows: below their
/// length it puts `node` at `index` and keeps every other child and the
/// length; at or beyond it appends `node` after all of them.
pub proof fn law_add_child(z: ZipperModel, node: Node, index: usize)
    ensures
        ({
            let r = with_child(z, node, index);
            &&& r.previous == z.previous
            &&& r.focus == z.focus
            &&& r.left == z.left
            &&& r.right == z.right
            &&& index < z.children.len() ==> {
                &&& r.children.len() == z.children.len()
                &&& r.children[index as int] == node
                &&& forall|j: int|
                    0 <= j < z.children.len() && j != index ==> r.children[j] == z.children[j]
            }
            &&& index >= z.children.len() ==> {
                &&& r.children.len() == z.children.len() + 1
                &&& r.children[z.children.len() as int] == node
                &&& forall|j: int| 0 <= j < z.children.len() ==> r.children[j] == z.children[j]
            }
        }),
{
}

/// `replace_focus` changes only the focus and the children: it keeps the
/// breadcrumb and the sisters, so the cursor keeps its place and its mother;
/// the children become those the document gives the new focus.
pub proof fn law_replace_focus(z: ZipperModel, d: DocModel, n: Node)
    ensures
        replaced_focus(z, d, n).previous == z.previous,
        replaced_focus(z, d, n).left == z.left,
        replaced_focus(z, d, n).right == z.right,
        replaced_focus(z, d, n).focus == n,
        children_of(d, n) is Some ==> children_of(d, n) == Some(replaced_focus(z, d, n).children),
        children_of(d, n) is None ==> replaced_focus(z, d, n).children.len() == 0,
        z.previous is Some ==> mother_of(replaced_focus(z, d, n)) == mother_of(z),
        prev_of(replaced_focus(z, d, n)) == prev_of(z),
{
}

} // verus!
