//! The cursor over a document.  It stands on one element (the focus),
//! knows the focus's children and its sisters to the left and to the
//! right, and keeps, as a breadcrumb, the whole cursor it came from and
//! the direction of that step.
use std::collections::VecDeque;
use vstd::prelude::*;

use crate::node::{
    accepts, added_in, children_of, children_or_empty, cleared_in, highlighted_in, Node, NodeError,
};
use crate::primitives::{DocModel, Document};

verus! {

/// Where the cursor that a breadcrumb keeps stands relative to the cursor
/// that holds the breadcrumb: its mother, its left sister or its right sister.
#[derive(Clone, Copy, PartialEq, Eq, Debug)]
pub enum PrevDir {
    Parent,
    Left,
    Right,
}

/// A breadcrumb of a layout cursor; it holds nothing.
pub struct LayoutCrumb {}

struct Breadcrumb {
    zipper: Box<LayoutZipper>,
    direction: PrevDir,
}

/// A cursor over a document.
pub struct LayoutZipper {
    previous: Option<Breadcrumb>,
    focus: Node,
    children: Vec<Node>,
    left: Vec<Node>,
    right: VecDeque<Node>,
}

/// The outcome of a move: the cursor after it, or the cursor that stands
/// where the move was refused.
pub enum MoveResult {
    Moved(LayoutZipper),
    DidntMove(LayoutZipper),
}

/// A breadcrumb as a value.
pub struct CrumbModel {
    pub zipper: Box<ZipperModel>,
    pub direction: PrevDir,
}

/// A cursor as a value.  `left` runs from the leftmost sister to the
/// nearest one, `right` from the nearest to the rightmost.
pub struct ZipperModel {
    pub previous: Option<CrumbModel>,
    pub focus: Node,
    pub children: Seq<Node>,
    pub left: Seq<Node>,
    pub right: Seq<Node>,
}

/// The outcome of a move as a value.
pub enum MoveModel {
    Moved(ZipperModel),
    DidntMove(ZipperModel),
}

impl LayoutZipper {
    /// The cursor as a value, breadcrumbs included.
    pub closed spec fn model(&self) -> ZipperModel
        decreases self,
    {
        ZipperModel {
            previous: match self.previous {
                Some(c) => Some(CrumbModel { zipper: Box::new(c.zipper.model()), direction: c.direction }),
                None => None,
            },
            focus: self.focus,
            children: self.children@,
            left: self.left@,
            right: self.right@,
        }
    }
}

impl View for LayoutZipper {
    type V = ZipperModel;

    closed spec fn view(&self) -> ZipperModel {
        self.model()
    }
}

impl View for MoveResult {
    type V = MoveModel;

    open spec fn view(&self) -> MoveModel {
        match self {
            MoveResult::Moved(z) => MoveModel::Moved(z@),
            MoveResult::DidntMove(z) => MoveModel::DidntMove(z@),
        }
    }
}

/// An optional cursor as a value.
pub open spec fn view_opt(o: Option<LayoutZipper>) -> Option<ZipperModel> {
    match o {
        Some(z) => Some(z@),
        None => None,
    }
}

/// The cursor inside an outcome, whether it moved or not.
pub open spec fn inner(m: MoveModel) -> ZipperModel {
    match m {
        MoveModel::Moved(z) => z,
        MoveModel::DidntMove(z) => z,
    }
}

/// A breadcrumb that keeps `z`, reached in direction `dir`.
pub open spec fn crumb(z: ZipperModel, dir: PrevDir) -> Option<CrumbModel> {
    Some(CrumbModel { zipper: Box::new(z), direction: dir })
}

/// The cursor kept in the breadcrumb, if there is one.
pub open spec fn prev_of(z: ZipperModel) -> Option<ZipperModel> {
    match z.previous {
        Some(c) => Some(*c.zipper),
        None => None,
    }
}

/// The cursor on the mother: follow the breadcrumbs past the sideways
/// steps to the first one that came down from a mother.  Where the trail
/// ends first, the cursor at its end, unmoved.
pub open spec fn mother_of(z: ZipperModel) -> MoveModel
    decreases z,
{
    match z.previous {
        None => MoveModel::DidntMove(z),
        Some(c) => if c.direction == PrevDir::Parent {
            MoveModel::Moved(*c.zipper)
        } else {
            mother_of(*c.zipper)
        },
    }
}

/// The position that `daughter` goes down to: `index`, or the last child
/// where `index` lies beyond the children.
pub open spec fn daughter_index(len: nat, index: usize) -> int {
    if index >= len {
        len - 1
    } else {
        index as int
    }
}

/// The cursor on child `index` (or on the last child where `index` lies
/// beyond them); unmoved where the focus has no children.
pub open spec fn daughter_of(z: ZipperModel, d: DocModel, index: usize) -> MoveModel {
    let len = z.children.len();
    if len == 0 {
        MoveModel::DidntMove(z)
    } else {
        let i = daughter_index(len, index);
        let f = z.children[i];
        MoveModel::Moved(
            ZipperModel {
                previous: crumb(z, PrevDir::Parent),
                focus: f,
                children: children_or_empty(d, f),
                left: z.children.take(i),
                right: z.children.skip(i + 1),
            },
        )
    }
}

/// Stepping back to the kept cursor: the focus is cleared and the focus of
/// the kept cursor highlighted.
pub open spec fn back_of(z: ZipperModel, d: DocModel) -> (ZipperModel, DocModel)
    recommends
        z.previous is Some,
{
    let p = *z.previous->0.zipper;
    (p, highlighted_in(cleared_in(d, z.focus), p.focus))
}

/// Whether the breadcrumb was left by a step in direction `dir`.
pub open spec fn came_from(z: ZipperModel, dir: PrevDir) -> bool {
    z.previous is Some && z.previous->0.direction == dir
}

/// The cursor on the left sister.  A cursor that got here from its left
/// sister steps back to it; otherwise it moves to the nearest left sister,
/// or stays where there is none.
pub open spec fn left_sister_of(z: ZipperModel, d: DocModel) -> (MoveModel, DocModel) {
    if came_from(z, PrevDir::Left) {
        let (p, d1) = back_of(z, d);
        (MoveModel::Moved(p), d1)
    } else if z.left.len() == 0 {
        (MoveModel::DidntMove(z), d)
    } else {
        let f = z.left.last();
        (
            MoveModel::Moved(
                ZipperModel {
                    previous: crumb(z, PrevDir::Right),
                    focus: f,
                    children: children_or_empty(d, f),
                    left: z.left.drop_last(),
                    right: seq![z.focus] + z.right,
                },
            ),
            d,
        )
    }
}

/// The cursor on the right sister, as `left_sister_of` to the other side.
pub open spec fn right_sister_of(z: ZipperModel, d: DocModel) -> (MoveModel, DocModel) {
    if came_from(z, PrevDir::Right) {
        let (p, d1) = back_of(z, d);
        (MoveModel::Moved(p), d1)
    } else if z.right.len() == 0 {
        (MoveModel::DidntMove(z), d)
    } else {
        let f = z.right[0];
        (
            MoveModel::Moved(
                ZipperModel {
                    previous: crumb(z, PrevDir::Left),
                    focus: f,
                    children: children_or_empty(d, f),
                    left: z.left.push(z.focus),
                    right: z.right.drop_first(),
                },
            ),
            d,
        )
    }
}

/// The cursor on the left sister of the mother; where either step is
/// refused, `z` unmoved.
pub open spec fn left_aunt_of(z: ZipperModel, d: DocModel) -> (MoveModel, DocModel) {
    match mother_of(z) {
        MoveModel::DidntMove(_) => (MoveModel::DidntMove(z), d),
        MoveModel::Moved(m) => {
            let (s, d1) = left_sister_of(m, d);
            if s is Moved {
                (s, d1)
            } else {
                (MoveModel::DidntMove(z), d1)
            }
        },
    }
}

/// The cursor on the right sister of the mother; where either step is
/// refused, `z` unmoved.
pub open spec fn right_aunt_of(z: ZipperModel, d: DocModel) -> (MoveModel, DocModel) {
    match mother_of(z) {
        MoveModel::DidntMove(_) => (MoveModel::DidntMove(z), d),
        MoveModel::Moved(m) => {
            let (s, d1) = right_sister_of(m, d);
            if s is Moved {
                (s, d1)
            } else {
                (MoveModel::DidntMove(z), d1)
            }
        },
    }
}

/// The cursor on child `index` of the left aunt; where a step is refused,
/// `z` unmoved.
pub open spec fn left_cousin_of(z: ZipperModel, d: DocModel, index: usize) -> (MoveModel, DocModel) {
    let (a, d1) = left_aunt_of(z, d);
    if a is DidntMove {
        (MoveModel::DidntMove(z), d1)
    } else {
        let r = daughter_of(inner(a), d1, index);
        if r is Moved {
            (r, d1)
        } else {
            (MoveModel::DidntMove(z), d1)
        }
    }
}

/// The cursor on child `index` of the right aunt; where a step is refused,
/// `z` unmoved.
pub open spec fn right_cousin_of(z: ZipperModel, d: DocModel, index: usize) -> (
    MoveModel,
    DocModel,
) {
    let (a, d1) = right_aunt_of(z, d);
    if a is DidntMove {
        (MoveModel::DidntMove(z), d1)
    } else {
        let r = daughter_of(inner(a), d1, index);
        if r is Moved {
            (r, d1)
        } else {
            (MoveModel::DidntMove(z), d1)
        }
    }
}

/// The left sister, or else the last child of the left aunt.
pub open spec fn left_sister_or_cousin_of(z: ZipperModel, d: DocModel) -> (MoveModel, DocModel) {
    let (s, d1) = left_sister_of(z, d);
    if s is Moved {
        (s, d1)
    } else {
        left_cousin_of(z, d1, usize::MAX)
    }
}

/// The right sister, or else the first child of the right aunt.
pub open spec fn right_sister_or_cousin_of(z: ZipperModel, d: DocModel) -> (MoveModel, DocModel) {
    let (s, d1) = right_sister_of(z, d);
    if s is Moved {
        (s, d1)
    } else {
        right_cousin_of(z, d1, 0)
    }
}

/// A move made the way the public moves make it: the focus is cleared
/// first, the move runs on the document as it then is (`step`), and the
/// focus of the outcome is highlighted last.
pub open spec fn framed(step: (MoveModel, DocModel)) -> (MoveModel, DocModel) {
    (step.0, highlighted_in(step.1, inner(step.0).focus))
}

/// `z` with `node` put in place of child `index`, or appended where
/// `index` lies beyond the children.
pub open spec fn with_child(z: ZipperModel, node: Node, index: usize) -> ZipperModel {
    ZipperModel {
        children: if index >= z.children.len() {
            z.children.push(node)
        } else {
            z.children.update(index as int, node)
        },
        ..z
    }
}

/// `children` with `x` inserted at `index`, or appended where `index` lies
/// beyond them.
pub open spec fn insert_node_clamped(s: Seq<Node>, index: usize, x: Node) -> Seq<Node> {
    if index < s.len() {
        s.insert(index as int, x)
    } else {
        s.push(x)
    }
}

/// `move_to_child`: clear the focus, go down to child `index`, highlight.
pub open spec fn move_to_child_of(z: ZipperModel, d: DocModel, index: usize) -> (MoveModel, DocModel) {
    let d1 = cleared_in(d, z.focus);
    framed((daughter_of(z, d1, index), d1))
}

/// `try_move_right`: clear the focus, step to the right sister, highlight.
pub open spec fn try_move_right_of(z: ZipperModel, d: DocModel) -> (MoveModel, DocModel) {
    framed(right_sister_of(z, cleared_in(d, z.focus)))
}

/// `try_move_left`: clear the focus, step to the left sister, highlight.
pub open spec fn try_move_left_of(z: ZipperModel, d: DocModel) -> (MoveModel, DocModel) {
    framed(left_sister_of(z, cleared_in(d, z.focus)))
}

/// `go_back_to_parent`: clear the focus, go to the mother, highlight.
pub open spec fn go_back_to_parent_of(z: ZipperModel, d: DocModel) -> (MoveModel, DocModel) {
    let d1 = cleared_in(d, z.focus);
    framed((mother_of(z), d1))
}

/// `move_right_or_cousin`: clear the focus, step to the right sister or
/// cousin, highlight.
pub open spec fn move_right_or_cousin_of(z: ZipperModel, d: DocModel) -> (MoveModel, DocModel) {
    framed(right_sister_or_cousin_of(z, cleared_in(d, z.focus)))
}

/// `move_left_or_cousin`: clear the focus, step to the left sister or
/// cousin, highlight.
pub open spec fn move_left_or_cousin_of(z: ZipperModel, d: DocModel) -> (MoveModel, DocModel) {
    framed(left_sister_or_cousin_of(z, cleared_in(d, z.focus)))
}

/// `z` with the focus replaced by `n` and the children by those of `n`.
pub open spec fn replaced_focus(z: ZipperModel, d: DocModel, n: Node) -> ZipperModel {
    ZipperModel { focus: n, children: children_or_empty(d, n), ..z }
}

/// `m` with the cursor inside replaced by `z`, keeping whether it moved.
pub open spec fn with_inner(m: MoveModel, z: ZipperModel) -> MoveModel {
    match m {
        MoveModel::Moved(_) => MoveModel::Moved(z),
        MoveModel::DidntMove(_) => MoveModel::DidntMove(z),
    }
}

/// The row the focus stands in: the left sisters, the focus, the right
/// sisters, left to right.
pub open spec fn row(z: ZipperModel) -> Seq<Node> {
    z.left + seq![z.focus] + z.right
}

/// A cursor as the moves build it: without a breadcrumb it has no sisters;
/// a breadcrumb from the mother keeps a cursor whose children are this
/// row; a breadcrumb from a sister keeps a cursor in the same row, one
/// place to the left (`Left`) or to the right (`Right`); and the kept
/// cursor is itself well formed.
pub open spec fn well_formed(z: ZipperModel) -> bool
    decreases z,
{
    match z.previous {
        None => z.left.len() == 0 && z.right.len() == 0,
        Some(c) => {
            let p = *c.zipper;
            &&& well_formed(p)
            &&& match c.direction {
                PrevDir::Parent => p.children == row(z),
                PrevDir::Left => row(p) == row(z) && z.left.len() == p.left.len() + 1,
                PrevDir::Right => row(p) == row(z) && z.left.len() + 1 == p.left.len(),
            }
        },
    }
}

/// A cursor as the moves build it from `LayoutZipper::new` over a document
/// whose shape is `d`: well formed as above, every cursor on the trail
/// (this one and every kept one) knows exactly the children that `d` gives
/// its focus, and a breadcrumb from a sister keeps a cursor that did not
/// itself arrive from the other side (a step that would have been a step
/// back is never recorded as a step forward).
pub open spec fn built_by_moves(z: ZipperModel, d: DocModel) -> bool
    decreases z,
{
    &&& z.children == children_or_empty(d, z.focus)
    &&& match z.previous {
        None => z.left.len() == 0 && z.right.len() == 0,
        Some(c) => {
            let p = *c.zipper;
            &&& built_by_moves(p, d)
            &&& match c.direction {
                PrevDir::Parent => p.children == row(z),
                PrevDir::Left => row(p) == row(z) && z.left.len() == p.left.len() + 1
                    && !came_from(p, PrevDir::Right),
                PrevDir::Right => row(p) == row(z) && z.left.len() + 1 == p.left.len()
                    && !came_from(p, PrevDir::Left),
            }
        },
    }
}

/// `v[lo..hi]` as a new vector.
fn copy_range(v: &Vec<Node>, lo: usize, hi: usize) -> (r: Vec<Node>)
    requires
        lo <= hi <= v.len(),
    ensures
        r@ == v@.subrange(lo as int, hi as int),
{
    let mut r: Vec<Node> = Vec::new();
    let mut k = lo;
    while k < hi
        invariant
            lo <= k <= hi <= v.len(),
            r@ == v@.subrange(lo as int, k as int),
        decreases hi - k,
    {
        r.push(v[k]);
        k = k + 1;
        assert(r@ =~= v@.subrange(lo as int, k as int));
    }
    r
}

/// `v[lo..hi]` as a new double-ended queue.
fn copy_range_deque(v: &Vec<Node>, lo: usize, hi: usize) -> (r: VecDeque<Node>)
    requires
        lo <= hi <= v.len(),
    ensures
        r@ == v@.subrange(lo as int, hi as int),
{
    let mut r: VecDeque<Node> = VecDeque::new();
    let mut k = lo;
    while k < hi
        invariant
            lo <= k <= hi <= v.len(),
            r@ == v@.subrange(lo as int, k as int),
        decreases hi - k,
    {
        r.push_back(v[k]);
        k = k + 1;
        assert(r@ =~= v@.subrange(lo as int, k as int));
    }
    r
}

fn copy_nodes(v: &Vec<Node>) -> (r: Vec<Node>)
    ensures
        r@ == v@,
{
    let r = v.clone();
    assert(r@ =~= v@);
    r
}

fn copy_deque(v: &VecDeque<Node>) -> (r: VecDeque<Node>)
    ensures
        r@ == v@,
{
    let r = v.clone();
    assert(r@ =~= v@);
    r
}

impl Clone for LayoutZipper {
    fn clone(&self) -> (r: Self)
        ensures
            r@ == self@,
        decreases self,
    {
        let previous = match &self.previous {
            Some(c) => Some(Breadcrumb { zipper: Box::new((&*c.zipper).clone()), direction: c.direction }),
            None => None,
        };
        LayoutZipper {
            previous,
            focus: self.focus,
            children: copy_nodes(&self.children),
            left: copy_nodes(&self.left),
            right: copy_deque(&self.right),
        }
    }
}

impl Clone for MoveResult {
    fn clone(&self) -> (r: Self)
        ensures
            r@ == self@,
    {
        match self {
            MoveResult::Moved(z) => MoveResult::Moved(z.clone()),
            MoveResult::DidntMove(z) => MoveResult::DidntMove(z.clone()),
        }
    }
}

impl LayoutZipper {
    /// A cursor on `root`, with no breadcrumb and no sisters.
    pub fn new(root: Node, doc: &Document) -> (z: Self)
        requires
            children_of(doc@, root) is Some,
        ensures
            z@ == (ZipperModel {
                previous: None,
                focus: root,
                children: children_of(doc@, root)->0,
                left: Seq::empty(),
                right: Seq::empty(),
            }),
            well_formed(z@),
            built_by_moves(z@, doc@),
    {
        let children = root.get_children(doc).unwrap();
        let z = LayoutZipper {
            focus: root,
            children,
            previous: None,
            left: Vec::new(),
            right: VecDeque::new(),
        };
        assert(z@.left =~= Seq::<Node>::empty());
        assert(z@.right =~= Seq::<Node>::empty());
        z
    }

    /// The element the cursor stands on.
    pub fn focus(&self) -> (n: Node)
        ensures
            n == self@.focus,
    {
        self.focus
    }

    /// Whether the cursor keeps a breadcrumb.
    pub fn has_previous(&self) -> (b: bool)
        ensures
            b == (self@.previous is Some),
    {
        self.previous.is_some()
    }

    /// The children of the focus, as the cursor knows them.
    pub fn children(&self) -> (v: Vec<Node>)
        ensures
            v@ == self@.children,
    {
        copy_nodes(&self.children)
    }

    /// The sisters to the left of the focus, leftmost first.
    pub fn left(&self) -> (v: Vec<Node>)
        ensures
            v@ == self@.left,
    {
        copy_nodes(&self.left)
    }

    /// The sisters to the right of the focus, nearest first.
    pub fn right(&self) -> (v: Vec<Node>)
        ensures
            v@ == self@.right,
    {
        let mut v: Vec<Node> = Vec::new();
        let mut k: usize = 0;
        while k < self.right.len()
            invariant
                k <= self.right@.len(),
                v@ == self.right@.subrange(0, k as int),
            decreases self.right@.len() - k,
        {
            v.push(self.right[k]);
            k = k + 1;
            assert(v@ =~= self.right@.subrange(0, k as int));
        }
        assert(v@ =~= self.right@);
        v
    }

    /// The cursor kept in the breadcrumb, if there is one.
    pub fn prev(self) -> (r: Option<LayoutZipper>)
        ensures
            view_opt(r) == prev_of(self@),
    {
        match self.previous {
            Some(c) => Some(*c.zipper),
            None => None,
        }
    }

    /// The cursor on the mother (see `mother_of`).
    pub fn mother(self) -> (r: MoveResult)
        ensures
            r@ == mother_of(self@),
        decreases self,
    {
        match self.previous {
            Some(c) => match c.direction {
                PrevDir::Parent => MoveResult::Moved(*c.zipper),
                PrevDir::Left => (*c.zipper).mother(),
                PrevDir::Right => (*c.zipper).mother(),
            },
            None => MoveResult::DidntMove(self),
        }
    }

    /// The cursor on child `index` of the focus (see `daughter_of`).
    pub fn daughter(self, doc: &Document, index: usize) -> (r: MoveResult)
        ensures
            r@ == daughter_of(self@, doc@, index),
    {
        let len = self.children.len();
        if len == 0 {
            return MoveResult::DidntMove(self);
        }
        let i = if index >= len {
            len - 1
        } else {
            index
        };
        let left = copy_range(&self.children, 0, i);
        let right = copy_range_deque(&self.children, i + 1, len);
        let focus = self.children[i];
        let children = focus.children_or_empty(doc);
        let ghost z = self@;
        let previous = Some(Breadcrumb { zipper: Box::new(self), direction: PrevDir::Parent });
        let r = LayoutZipper { previous, focus, children, left, right };
        proof {
            assert(r@.left =~= z.children.take(i as int));
            assert(r@.right =~= z.children.skip(i + 1));
        }
        MoveResult::Moved(r)
    }

    /// Steps back to the kept cursor: clears the focus, highlights the
    /// focus of the kept cursor, and returns that cursor.
    pub fn move_to_prev(self, doc: &mut Document) -> (r: Option<LayoutZipper>)
        requires
            self@.previous is Some,
        ensures
            view_opt(r) == Some(back_of(self@, old(doc)@).0),
            final(doc)@ == back_of(self@, old(doc)@).1,
    {
        self.focus.no_highlight(doc);
        let rv = self.prev().unwrap();
        rv.focus.highlight(doc);
        Some(rv)
    }

    /// The cursor on the left sister (see `left_sister_of`).
    pub fn left_sister(self, doc: &mut Document) -> (r: MoveResult)
        ensures
            r@ == left_sister_of(self@, old(doc)@).0,
            final(doc)@ == left_sister_of(self@, old(doc)@).1,
    {
        if let Some(prev) = self.previous.as_ref() {
            if let PrevDir::Left = prev.direction {
                return MoveResult::Moved(self.move_to_prev(doc).unwrap());
            }
        }
        let mut left = copy_nodes(&self.left);
        let focus = if let Some(node) = left.pop() {
            node
        } else {
            return MoveResult::DidntMove(self);
        };
        let mut right = copy_deque(&self.right);
        right.push_front(self.focus);
        let children = focus.children_or_empty(doc);
        let ghost z = self@;
        let previous = Some(Breadcrumb { zipper: Box::new(self), direction: PrevDir::Right });
        let r = LayoutZipper { focus, previous, children, left, right };
        proof {
            assert(r@.left =~= z.left.drop_last());
        }
        MoveResult::Moved(r)
    }

    /// The cursor on the right sister (see `right_sister_of`).
    pub fn right_sister(self, doc: &mut Document) -> (r: MoveResult)
        ensures
            r@ == right_sister_of(self@, old(doc)@).0,
            final(doc)@ == right_sister_of(self@, old(doc)@).1,
    {
        if let Some(prev) = self.previous.as_ref() {
            if let PrevDir::Right = prev.direction {
                return MoveResult::Moved(self.move_to_prev(doc).unwrap());
            }
        }
        let mut right = copy_deque(&self.right);
        let focus = if let Some(node) = right.pop_front() {
            node
        } else {
            return MoveResult::DidntMove(self);
        };
        let mut left = copy_nodes(&self.left);
        left.push(self.focus);
        let children = focus.children_or_empty(doc);
        let ghost z = self@;
        let previous = Some(Breadcrumb { zipper: Box::new(self), direction: PrevDir::Left });
        let r = LayoutZipper { focus, previous, children, left, right };
        proof {
            assert(r@.right =~= z.right.drop_first());
        }
        MoveResult::Moved(r)
    }

    /// The cursor on the left sister of the mother (see `left_aunt_of`).
    pub fn left_aunt(self, doc: &mut Document) -> (r: MoveResult)
        ensures
            r@ == left_aunt_of(self@, old(doc)@).0,
            final(doc)@ == left_aunt_of(self@, old(doc)@).1,
    {
        let og = self.clone();
        let result = self.mother();
        if let MoveResult::DidntMove(_) = result {
            return MoveResult::DidntMove(og);
        }
        let result = result.unwrap().left_sister(doc);
        if let MoveResult::DidntMove(_) = result {
            return MoveResult::DidntMove(og);
        }
        result
    }

    /// The cursor on the right sister of the mother (see `right_aunt_of`).
    pub fn right_aunt(self, doc: &mut Document) -> (r: MoveResult)
        ensures
            r@ == right_aunt_of(self@, old(doc)@).0,
            final(doc)@ == right_aunt_of(self@, old(doc)@).1,
    {
        let og = self.clone();
        let result = self.mother();
        if let MoveResult::DidntMove(_) = result {
            return MoveResult::DidntMove(og);
        }
        let result = result.unwrap().right_sister(doc);
        if let MoveResult::DidntMove(_) = result {
            return MoveResult::DidntMove(og);
        }
        result
    }

    /// The cursor on child `index` of the left aunt (see `left_cousin_of`).
    pub fn left_cousin(self, doc: &mut Document, index: usize) -> (r: MoveResult)
        ensures
            r@ == left_cousin_of(self@, old(doc)@, index).0,
            final(doc)@ == left_cousin_of(self@, old(doc)@, index).1,
    {
        let og = self.clone();
        let result = self.left_aunt(doc);
        if let MoveResult::DidntMove(_) = result {
            return MoveResult::DidntMove(og);
        }
        let result = result.unwrap().daughter(doc, index);
        if let MoveResult::DidntMove(_) = result {
            return MoveResult::DidntMove(og);
        }
        result
    }

    /// The cursor on child `index` of the right aunt (see `right_cousin_of`).
    pub fn right_cousin(self, doc: &mut Document, index: usize) -> (r: MoveResult)
        ensures
            r@ == right_cousin_of(self@, old(doc)@, index).0,
            final(doc)@ == right_cousin_of(self@, old(doc)@, index).1,
    {
        let og = self.clone();
        let result = self.right_aunt(doc);
        if let MoveResult::DidntMove(_) = result {
            return MoveResult::DidntMove(og);
        }
        let result = result.unwrap().daughter(doc, index);
        if let MoveResult::DidntMove(_) = result {
            return MoveResult::DidntMove(og);
        }
        result
    }

    /// The left sister, or else the last child of the left aunt.
    pub fn left_sister_or_cousin(self, doc: &mut Document) -> (r: MoveResult)
        ensures
            r@ == left_sister_or_cousin_of(self@, old(doc)@).0,
            final(doc)@ == left_sister_or_cousin_of(self@, old(doc)@).1,
    {
        let og = self.clone();
        let sister = self.left_sister(doc);
        if let MoveResult::Moved(_) = sister {
            return sister;
        }
        og.left_cousin(doc, usize::MAX)
    }

    /// The right sister, or else the first child of the right aunt.
    pub fn right_sister_or_cousin(self, doc: &mut Document) -> (r: MoveResult)
        ensures
            r@ == right_sister_or_cousin_of(self@, old(doc)@).0,
            final(doc)@ == right_sister_or_cousin_of(self@, old(doc)@).1,
    {
        let og = self.clone();
        let sister = self.right_sister(doc);
        if let MoveResult::Moved(_) = sister {
            return sister;
        }
        og.right_cousin(doc, 0)
    }
    /// Clears the focus, goes down to child `index` (see `daughter_of`),
    /// and highlights the focus of the outcome.
    pub fn move_to_child(self, doc: &mut Document, index: usize) -> (r: MoveResult)
        ensures
            r@ == move_to_child_of(self@, old(doc)@, index).0,
            final(doc)@ == move_to_child_of(self@, old(doc)@, index).1,
    {
        self.focus.no_highlight(doc);
        let mut result = self.daughter(doc, index);
        result.inner_mut().focus.highlight(doc);
        result
    }

    /// Clears the focus, steps to the right sister, and highlights the
    /// focus of the outcome.
    pub fn try_move_right(self, doc: &mut Document) -> (r: MoveResult)
        ensures
            r@ == try_move_right_of(self@, old(doc)@).0,
            final(doc)@ == try_move_right_of(self@, old(doc)@).1,
    {
        self.focus.no_highlight(doc);
        let mut result = self.right_sister(doc);
        result.inner_mut().focus.highlight(doc);
        result
    }

    /// Clears the focus, steps to the left sister, and highlights the focus
    /// of the outcome.
    pub fn try_move_left(self, doc: &mut Document) -> (r: MoveResult)
        ensures
            r@ == try_move_left_of(self@, old(doc)@).0,
            final(doc)@ == try_move_left_of(self@, old(doc)@).1,
    {
        self.focus.no_highlight(doc);
        let mut result = self.left_sister(doc);
        result.inner_mut().focus.highlight(doc);
        result
    }

    /// The cursor after `try_move_right`, whether or not it moved.
    pub fn move_left_catch_ignore(self, doc: &mut Document) -> (z: LayoutZipper)
        ensures
            z@ == inner(try_move_right_of(self@, old(doc)@).0),
            final(doc)@ == try_move_right_of(self@, old(doc)@).1,
    {
        self.try_move_right(doc).unwrap()
    }

    /// The cursor after `try_move_right`, whether or not it moved.
    pub fn move_right_catch_ignore(self, doc: &mut Document) -> (z: LayoutZipper)
        ensures
            z@ == inner(try_move_right_of(self@, old(doc)@).0),
            final(doc)@ == try_move_right_of(self@, old(doc)@).1,
    {
        self.try_move_right(doc).unwrap()
    }

    /// Clears the focus, goes to the mother (see `mother_of`), and
    /// highlights the focus of the outcome.
    pub fn go_back_to_parent(self, doc: &mut Document) -> (r: MoveResult)
        ensures
            r@ == go_back_to_parent_of(self@, old(doc)@).0,
            final(doc)@ == go_back_to_parent_of(self@, old(doc)@).1,
    {
        self.focus.no_highlight(doc);
        let mut result = self.mother();
        result.inner_mut().focus.highlight(doc);
        result
    }

    /// Clears the focus, steps to the right sister or else the first child
    /// of the right aunt, and highlights the focus of the outcome.
    pub fn move_right_or_cousin(self, doc: &mut Document) -> (r: MoveResult)
        ensures
            r@ == move_right_or_cousin_of(self@, old(doc)@).0,
            final(doc)@ == move_right_or_cousin_of(self@, old(doc)@).1,
    {
        self.focus.no_highlight(doc);
        let mut result = self.right_sister_or_cousin(doc);
        result.inner_mut().focus.highlight(doc);
        result
    }

    /// Clears the focus, steps to the left sister or else the last child of
    /// the left aunt, and highlights the focus of the outcome.
    pub fn move_left_or_cousin(self, doc: &mut Document) -> (r: MoveResult)
        ensures
            r@ == move_left_or_cousin_of(self@, old(doc)@).0,
            final(doc)@ == move_left_or_cousin_of(self@, old(doc)@).1,
    {
        self.focus.no_highlight(doc);
        let mut result = self.left_sister_or_cousin(doc);
        result.inner_mut().focus.highlight(doc);
        result
    }

    /// Puts `node` in place of child `index` of the cursor, or appends it
    /// where `index` lies beyond the children.  The document is untouched.
    pub fn add_child(self, node: Node, index: usize) -> (z: LayoutZipper)
        ensures
            z@ == with_child(self@, node, index),
    {
        let mut z = self;
        let len = z.children.len();
        if index >= len {
            z.children.push(node);
            return z;
        }
        z.children.set(index, node);
        z
    }

    /// The cursor with its focus replaced by `new_node` and its children by
    /// those of `new_node`.
    pub fn replace_focus(self, doc: &Document, new_node: Node) -> (z: LayoutZipper)
        ensures
            z@ == replaced_focus(self@, doc@, new_node),
    {
        let mut z = self;
        z.children = new_node.children_or_empty(doc);
        z.focus = new_node;
        z
    }

    /// Adds a copy of `child` to the focus in the document (see
    /// `Node::try_add_child`) and inserts `child` itself among the children
    /// the cursor knows, at `index` or at their end.
    pub fn try_add_child(&mut self, doc: &mut Document, child: Node, index: usize) -> (r: Result<
        (),
        NodeError,
    >)
        requires
            accepts(old(doc)@, old(self)@.focus, child),
        ensures
            r is Ok,
            final(doc)@ == added_in(old(doc)@, old(self)@.focus, child, index),
            final(self)@ == (ZipperModel {
                children: insert_node_clamped(old(self)@.children, index, child),
                ..old(self)@
            }),
    {
        let _ = self.focus.try_add_child(doc, child, index);
        let len = self.children.len();
        let at = if index < len {
            index
        } else {
            len
        };
        self.children.insert(at, child);
        proof {
            assert(self@.children =~= insert_node_clamped(old(self)@.children, index, child));
        }
        Ok(())
    }

    /// Inserts `child` among the children the cursor knows, at `index`.
    /// The document is untouched.
    pub fn insert_child(&mut self, child: Node, index: usize) -> (r: Result<(), NodeError>)
        requires
            index <= old(self)@.children.len(),
        ensures
            r is Ok,
            final(self)@ == (ZipperModel {
                children: old(self)@.children.insert(index as int, child),
                ..old(self)@
            }),
    {
        self.children.insert(index, child);
        Ok(())
    }
}

impl MoveResult {
    /// The cursor inside, whether it moved or not.
    pub fn unwrap(self) -> (z: LayoutZipper)
        ensures
            z@ == inner(self@),
    {
        match self {
            MoveResult::Moved(zip) => zip,
            MoveResult::DidntMove(zip) => zip,
        }
    }

    /// A mutable borrow of the cursor inside, whether it moved or not.
    pub fn inner_mut(&mut self) -> (z: &mut LayoutZipper)
        ensures
            z@ == inner(old(self)@),
            *final(self) == (match *old(self) {
                MoveResult::Moved(_) => MoveResult::Moved(*final(z)),
                MoveResult::DidntMove(_) => MoveResult::DidntMove(*final(z)),
            }),
    {
        match self {
            MoveResult::Moved(zip) => zip,
            MoveResult::DidntMove(zip) => zip,
        }
    }

    /// Goes on to the mother where the last move succeeded; otherwise this
    /// outcome unchanged.
    pub fn mother(self) -> (r: MoveResult)
        ensures
            r@ == (match self@ {
                MoveModel::Moved(z) => mother_of(z),
                MoveModel::DidntMove(_) => self@,
            }),
    {
        if let MoveResult::DidntMove(_) = self {
            return self;
        }
        self.unwrap().mother()
    }

    /// Adds a copy of `child` to the focus of the cursor inside (see
    /// `LayoutZipper::try_add_child`).
    pub fn try_add_child(&mut self, doc: &mut Document, child: Node, index: usize) -> (r: Result<
        (),
        NodeError,
    >)
        requires
            accepts(old(doc)@, inner(old(self)@).focus, child),
        ensures
            r is Ok,
            final(doc)@ == added_in(old(doc)@, inner(old(self)@).focus, child, index),
            final(self)@ == with_inner(
                old(self)@,
                ZipperModel {
                    children: insert_node_clamped(inner(old(self)@).children, index, child),
                    ..inner(old(self)@)
                },
            ),
    {
        self.inner_mut().try_add_child(doc, child, index)
    }

    /// The cursor with its focus replaced (see `LayoutZipper::replace_focus`)
    /// where the last move succeeded; otherwise the cursor inside unchanged.
    pub fn replace_focus(self, doc: &Document, new_node: Node) -> (z: LayoutZipper)
        ensures
            z@ == (match self@ {
                MoveModel::Moved(z) => replaced_focus(z, doc@, new_node),
                MoveModel::DidntMove(z) => z,
            }),
    {
        if let MoveResult::DidntMove(_) = self {
            return self.unwrap();
        }
        self.unwrap().replace_focus(doc, new_node)
    }

    /// Goes on to the right aunt where the last move succeeded; otherwise
    /// this outcome unchanged.
    pub fn right_aunt(self, doc: &mut Document) -> (r: MoveResult)
        ensures
            r@ == (match self@ {
                MoveModel::Moved(z) => right_aunt_of(z, old(doc)@).0,
                MoveModel::DidntMove(_) => self@,
            }),
            final(doc)@ == (match self@ {
                MoveModel::Moved(z) => right_aunt_of(z, old(doc)@).1,
                MoveModel::DidntMove(_) => old(doc)@,
            }),
    {
        if let MoveResult::DidntMove(_) = self {
            return self;
        }
        self.unwrap().right_aunt(doc)
    }

    /// Goes on to the left aunt where the last move succeeded; otherwise
    /// this outcome unchanged.
    pub fn left_aunt(self, doc: &mut Document) -> (r: MoveResult)
        ensures
            r@ == (match self@ {
                MoveModel::Moved(z) => left_aunt_of(z, old(doc)@).0,
                MoveModel::DidntMove(_) => self@,
            }),
            final(doc)@ == (match self@ {
                MoveModel::Moved(z) => left_aunt_of(z, old(doc)@).1,
                MoveModel::DidntMove(_) => old(doc)@,
            }),
    {
        if let MoveResult::DidntMove(_) = self {
            return self;
        }
        self.unwrap().left_aunt(doc)
    }

    /// Goes on to the right cousin where the last move succeeded; otherwise
    /// this outcome unchanged.
    pub fn right_cousin(self, doc: &mut Document, index: usize) -> (r: MoveResult)
        ensures
            r@ == (match self@ {
                MoveModel::Moved(z) => right_cousin_of(z, old(doc)@, index).0,
                MoveModel::DidntMove(_) => self@,
            }),
            final(doc)@ == (match self@ {
                MoveModel::Moved(z) => right_cousin_of(z, old(doc)@, index).1,
                MoveModel::DidntMove(_) => old(doc)@,
            }),
    {
        if let MoveResult::DidntMove(_) = self {
            return self;
        }
        self.unwrap().right_cousin(doc, index)
    }

    /// Goes on to the left cousin where the last move succeeded; otherwise
    /// this outcome unchanged.
    pub fn left_cousin(self, doc: &mut Document, index: usize) -> (r: MoveResult)
        ensures
            r@ == (match self@ {
                MoveModel::Moved(z) => left_cousin_of(z, old(doc)@, index).0,
                MoveModel::DidntMove(_) => self@,
            }),
            final(doc)@ == (match self@ {
                MoveModel::Moved(z) => left_cousin_of(z, old(doc)@, index).1,
                MoveModel::DidntMove(_) => old(doc)@,
            }),
    {
        if let MoveResult::DidntMove(_) = self {
            return self;
        }
        self.unwrap().left_cousin(doc, index)
    }

    /// Goes on down to child `index` where the last move succeeded;
    /// otherwise this outcome unchanged.
    pub fn daughter(self, doc: &Document, index: usize) -> (r: MoveResult)
        ensures
            r@ == (match self@ {
                MoveModel::Moved(z) => daughter_of(z, doc@, index),
                MoveModel::DidntMove(_) => self@,
            }),
    {
        if let MoveResult::DidntMove(_) = self {
            return self;
        }
        self.unwrap().daughter(doc, index)
    }

    /// Goes on to the left sister where the last move succeeded; otherwise
    /// this outcome unchanged.
    pub fn left_sister(self, doc: &mut Document) -> (r: MoveResult)
        ensures
            r@ == (match self@ {
                MoveModel::Moved(z) => left_sister_of(z, old(doc)@).0,
                MoveModel::DidntMove(_) => self@,
            }),
            final(doc)@ == (match self@ {
                MoveModel::Moved(z) => left_sister_of(z, old(doc)@).1,
                MoveModel::DidntMove(_) => old(doc)@,
            }),
    {
        if let MoveResult::DidntMove(_) = self {
            return self;
        }
        self.unwrap().left_sister(doc)
    }

    /// Goes on to the right sister where the last move succeeded; otherwise
    /// this outcome unchanged.
    pub fn right_sister(self, doc: &mut Document) -> (r: MoveResult)
        ensures
            r@ == (match self@ {
                MoveModel::Moved(z) => right_sister_of(z, old(doc)@).0,
                MoveModel::DidntMove(_) => self@,
            }),
            final(doc)@ == (match self@ {
                MoveModel::Moved(z) => right_sister_of(z, old(doc)@).1,
                MoveModel::DidntMove(_) => old(doc)@,
            }),
    {
        if let MoveResult::DidntMove(_) = self {
            return self;
        }
        self.unwrap().right_sister(doc)
    }

    /// Goes on to the left sister or cousin where the last move succeeded;
    /// otherwise this outcome unchanged.
    pub fn left_sister_or_cousin(self, doc: &mut Document) -> (r: MoveResult)
        ensures
            r@ == (match self@ {
                MoveModel::Moved(z) => left_sister_or_cousin_of(z, old(doc)@).0,
                MoveModel::DidntMove(_) => self@,
            }),
            final(doc)@ == (match self@ {
                MoveModel::Moved(z) => left_sister_or_cousin_of(z, old(doc)@).1,
                MoveModel::DidntMove(_) => old(doc)@,
            }),
    {
        if let MoveResult::DidntMove(_) = self {
            return self;
        }
        self.unwrap().left_sister_or_cousin(doc)
    }

    /// Goes on to the right sister or cousin where the last move succeeded;
    /// otherwise this outcome unchanged.
    pub fn right_sister_or_cousin(self, doc: &mut Document) -> (r: MoveResult)
        ensures
            r@ == (match self@ {
                MoveModel::Moved(z) => right_sister_or_cousin_of(z, old(doc)@).0,
                MoveModel::DidntMove(_) => self@,
            }),
            final(doc)@ == (match self@ {
                MoveModel::Moved(z) => right_sister_or_cousin_of(z, old(doc)@).1,
                MoveModel::DidntMove(_) => old(doc)@,
            }),
    {
        if let MoveResult::DidntMove(_) = self {
            return self;
        }
        self.unwrap().right_sister_or_cousin(doc)
    }

    /// The kept cursor where the last move succeeded; `None` where it did not.
    pub fn prev(self) -> (r: Option<LayoutZipper>)
        ensures
            view_opt(r) == (match self@ {
                MoveModel::Moved(z) => prev_of(z),
                MoveModel::DidntMove(_) => None,
            }),
    {
        if let MoveResult::DidntMove(_) = self {
            return None;
        }
        self.unwrap().prev()
    }

    /// Whether the move succeeded.
    pub fn moved(&self) -> (b: bool)
        ensures
            b == (self@ is Moved),
    {
        match self {
            MoveResult::Moved(_) => true,
            MoveResult::DidntMove(_) => false,
        }
    }
}

} // verus!
