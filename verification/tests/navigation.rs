use layout_tree::navigation::{LayoutCrumb, LayoutZipper, MoveResult};
use layout_tree::node::{Node, NodeError};
use layout_tree::primitives::Document;
use layout_tree::style::{Color, Style};

/// A container (layout 2) of two layouts of lines:
/// layout 0 holds line 0 (spans 0 and 1), layout 1 holds line 1 (span 2);
/// span 0 holds chars 0 and 1, span 1 char 2, span 2 char 3.
fn sample() -> Document {
    let mut doc = Document::new();
    let a = doc.add_char('a');
    let b = doc.add_char('b');
    let c = doc.add_char('c');
    let d = doc.add_char('d');
    let s0 = doc.add_span(vec![a, b]);
    let s1 = doc.add_span(vec![c]);
    let s2 = doc.add_span(vec![d]);
    let l0 = doc.add_line(vec![s0, s1]);
    let l1 = doc.add_line(vec![s2]);
    let c0 = doc.add_content(vec![l0]);
    let c1 = doc.add_content(vec![l1]);
    let root = doc.add_container(vec![c0, c1]);
    assert_eq!(root, 2);
    doc
}

fn highlighted() -> Style {
    Style { fg: Some(Color::Black), bg: Some(Color::White), underline_color: None, add_modifier: 0, sub_modifier: 0 }
}

fn root_cursor(doc: &Document) -> LayoutZipper {
    LayoutZipper::new(Node::Layout(2), doc)
}

#[test]
fn new_cursor_stands_on_root() {
    let doc = sample();
    let z = root_cursor(&doc);
    assert_eq!(z.focus(), Node::Layout(2));
    assert_eq!(z.children(), vec![Node::Layout(0), Node::Layout(1)]);
    assert!(z.left().is_empty());
    assert!(z.right().is_empty());
    assert!(!z.has_previous());
}

#[test]
fn get_children_of_each_kind() {
    let doc = sample();
    assert_eq!(Node::Layout(2).get_children(&doc), Some(vec![Node::Layout(0), Node::Layout(1)]));
    assert_eq!(Node::Layout(0).get_children(&doc), Some(vec![Node::Line(0)]));
    assert_eq!(Node::Line(0).get_children(&doc), Some(vec![Node::Span(0), Node::Span(1)]));
    assert_eq!(Node::Span(0).get_children(&doc), Some(vec![Node::Char(0), Node::Char(1)]));
    assert_eq!(Node::Char(0).get_children(&doc), None);
    assert_eq!(Node::Line(9).get_children(&doc), None);
    let mut empty = Document::new();
    let l = empty.add_content(vec![]);
    assert_eq!(Node::Layout(l).get_children(&empty), Some(vec![]));
}

#[test]
fn get_layout_only_for_layouts() {
    assert_eq!(Node::Layout(3).get_layout(), Some(3));
    assert_eq!(Node::Line(3).get_layout(), None);
    assert_eq!(Node::Char(0).get_layout(), None);
}

#[test]
fn move_to_child_highlights_child() {
    let mut doc = sample();
    let z = root_cursor(&doc);
    let r = z.move_to_child(&mut doc, 1);
    assert!(r.moved());
    let z = r.unwrap();
    assert_eq!(z.focus(), Node::Layout(1));
    assert_eq!(z.children(), vec![Node::Line(1)]);
    assert_eq!(z.left(), vec![Node::Layout(0)]);
    assert!(z.right().is_empty());
    assert!(z.has_previous());
    assert_eq!(doc.layouts[1].style, highlighted());
    assert_eq!(doc.layouts[2].style, Style::default());
}

#[test]
fn move_to_child_clamps_index() {
    let mut doc = sample();
    let z = root_cursor(&doc).move_to_child(&mut doc, 0).unwrap();
    let z = z.move_to_child(&mut doc, 0).unwrap();
    assert_eq!(z.focus(), Node::Line(0));
    let z = z.move_to_child(&mut doc, 99).unwrap();
    assert_eq!(z.focus(), Node::Span(1));
    assert_eq!(z.left(), vec![Node::Span(0)]);
    assert_eq!(z.children(), vec![Node::Char(2)]);
}

#[test]
fn move_to_child_without_children_stays() {
    let mut doc = sample();
    let mut z = root_cursor(&doc);
    for _ in 0..4 {
        z = z.move_to_child(&mut doc, 0).unwrap();
    }
    assert_eq!(z.focus(), Node::Char(0));
    let r = z.move_to_child(&mut doc, 0);
    assert!(!r.moved());
    assert_eq!(r.unwrap().focus(), Node::Char(0));
    assert_eq!(doc.chars[0].style, highlighted());
}

#[test]
fn sideways_moves_and_back() {
    let mut doc = sample();
    let z = root_cursor(&doc).move_to_child(&mut doc, 0).unwrap();
    let z = z.move_to_child(&mut doc, 0).unwrap();
    let z = z.move_to_child(&mut doc, 0).unwrap();
    assert_eq!(z.focus(), Node::Span(0));
    let r = z.try_move_left(&mut doc);
    assert!(!r.moved());
    let z = r.unwrap();
    let r = z.try_move_right(&mut doc);
    assert!(r.moved());
    let z = r.unwrap();
    assert_eq!(z.focus(), Node::Span(1));
    assert_eq!(z.left(), vec![Node::Span(0)]);
    assert_eq!(doc.spans[1].style, highlighted());
    assert_eq!(doc.spans[0].style, Style::default());
    let r = z.try_move_right(&mut doc);
    assert!(!r.moved());
    let z = r.unwrap().try_move_left(&mut doc).unwrap();
    assert_eq!(z.focus(), Node::Span(0));
    assert_eq!(z.right(), vec![Node::Span(1)]);
    assert_eq!(doc.spans[0].style, highlighted());
    assert_eq!(doc.spans[1].style, Style::default());
}

#[test]
fn right_then_left_returns_to_start() {
    let mut doc = sample();
    let z = root_cursor(&doc).move_to_child(&mut doc, 0).unwrap();
    let before = (z.focus(), z.left(), z.right(), z.children());
    let z = z.right_sister(&mut doc).unwrap();
    assert_eq!(z.focus(), Node::Layout(1));
    let z = z.left_sister(&mut doc).unwrap();
    assert_eq!((z.focus(), z.left(), z.right(), z.children()), before);
}

#[test]
fn go_back_to_parent_after_sideways_moves() {
    let mut doc = sample();
    let z = root_cursor(&doc).move_to_child(&mut doc, 0).unwrap();
    let z = z.try_move_right(&mut doc).unwrap();
    let r = z.go_back_to_parent(&mut doc);
    assert!(r.moved());
    let z = r.unwrap();
    assert_eq!(z.focus(), Node::Layout(2));
    assert!(!z.has_previous());
    assert_eq!(doc.layouts[2].style, highlighted());
    assert_eq!(doc.layouts[1].style, Style::default());
    let r = z.go_back_to_parent(&mut doc);
    assert!(!r.moved());
    assert_eq!(r.unwrap().focus(), Node::Layout(2));
}

#[test]
fn move_to_prev_returns_kept_cursor() {
    let mut doc = sample();
    let z = root_cursor(&doc).move_to_child(&mut doc, 1).unwrap();
    let p = z.move_to_prev(&mut doc).unwrap();
    assert_eq!(p.focus(), Node::Layout(2));
    assert_eq!(doc.layouts[2].style, highlighted());
    assert_eq!(doc.layouts[1].style, Style::default());
}

#[test]
fn move_right_or_cousin_goes_to_next_layout() {
    let mut doc = sample();
    let z = root_cursor(&doc).move_to_child(&mut doc, 0).unwrap();
    let z = z.move_to_child(&mut doc, 0).unwrap();
    assert_eq!(z.focus(), Node::Line(0));
    let r = z.move_right_or_cousin(&mut doc);
    assert!(r.moved());
    let z = r.unwrap();
    assert_eq!(z.focus(), Node::Line(1));
    assert_eq!(doc.lines[1].style, highlighted());
    assert_eq!(doc.lines[0].style, Style::default());
    let r = z.move_right_or_cousin(&mut doc);
    assert!(!r.moved());
    assert_eq!(r.unwrap().focus(), Node::Line(1));
}

#[test]
fn move_left_or_cousin_goes_to_last_child_of_left_aunt() {
    let mut doc = Document::new();
    let a = doc.add_char('a');
    let s0 = doc.add_span(vec![a]);
    let s1 = doc.add_span(vec![a]);
    let s2 = doc.add_span(vec![a]);
    let l0 = doc.add_line(vec![s0, s1]);
    let l1 = doc.add_line(vec![s2]);
    let c = doc.add_content(vec![l0, l1]);
    let z = LayoutZipper::new(Node::Layout(c), &doc);
    let z = z.move_to_child(&mut doc, 1).unwrap();
    let z = z.move_to_child(&mut doc, 0).unwrap();
    assert_eq!(z.focus(), Node::Span(s2));
    let r = z.move_left_or_cousin(&mut doc);
    assert!(r.moved());
    let z = r.unwrap();
    assert_eq!(z.focus(), Node::Span(s1));
    assert_eq!(z.left(), vec![Node::Span(s0)]);
}

#[test]
fn cousin_through_an_aunt_reached_by_stepping_back_leaves_it_highlighted() {
    let mut doc = sample();
    let z = root_cursor(&doc).move_to_child(&mut doc, 1).unwrap();
    let z = z.try_move_left(&mut doc).unwrap();
    assert_eq!(z.focus(), Node::Layout(0));
    let z = z.move_to_child(&mut doc, 0).unwrap();
    let r = z.move_right_or_cousin(&mut doc);
    assert!(r.moved());
    assert_eq!(r.unwrap().focus(), Node::Line(1));
    assert_eq!(doc.lines[1].style, highlighted());
    assert_eq!(doc.layouts[1].style, highlighted());
    assert_eq!(doc.layouts[0].style, Style::default());
}

#[test]
fn catch_ignore_moves_step_right() {
    let mut doc = sample();
    let z = root_cursor(&doc).move_to_child(&mut doc, 0).unwrap();
    let z = z.move_left_catch_ignore(&mut doc);
    assert_eq!(z.focus(), Node::Layout(1));
    let z = z.move_right_catch_ignore(&mut doc);
    assert_eq!(z.focus(), Node::Layout(1));
}

#[test]
fn add_child_replaces_or_appends() {
    let doc = sample();
    let z = root_cursor(&doc);
    let z = z.add_child(Node::Layout(7), 0);
    assert_eq!(z.children(), vec![Node::Layout(7), Node::Layout(1)]);
    let z = z.add_child(Node::Layout(8), 5);
    assert_eq!(z.children(), vec![Node::Layout(7), Node::Layout(1), Node::Layout(8)]);
    assert_eq!(Node::Layout(2).get_children(&doc), Some(vec![Node::Layout(0), Node::Layout(1)]));
}

#[test]
fn replace_focus_takes_children_of_new_node() {
    let doc = sample();
    let z = root_cursor(&doc).replace_focus(&doc, Node::Line(0));
    assert_eq!(z.focus(), Node::Line(0));
    assert_eq!(z.children(), vec![Node::Span(0), Node::Span(1)]);
    let z = z.replace_focus(&doc, Node::Char(0));
    assert!(z.children().is_empty());
}

#[test]
fn try_add_child_copies_into_document() {
    let mut doc = sample();
    let mut z = root_cursor(&doc).move_to_child(&mut doc, 0).unwrap();
    assert_eq!(z.try_add_child(&mut doc, Node::Line(1), 0), Ok(()));
    assert_eq!(z.children(), vec![Node::Line(1), Node::Line(0)]);
    assert_eq!(doc.lines.len(), 3);
    assert_eq!(doc.lines[2].spans, vec![2]);
    assert_eq!(Node::Layout(0).get_children(&doc), Some(vec![Node::Line(2), Node::Line(0)]));
    assert_eq!(z.try_add_child(&mut doc, Node::Line(0), 10), Ok(()));
    assert_eq!(z.children(), vec![Node::Line(1), Node::Line(0), Node::Line(0)]);
    assert_eq!(Node::Layout(0).get_children(&doc), Some(vec![Node::Line(2), Node::Line(0), Node::Line(3)]));
}

#[test]
fn node_try_add_child_results() {
    let mut doc = sample();
    assert_eq!(Node::Line(0).try_add_child(&mut doc, Node::Layout(0), 0), Err(NodeError::WrongKind));
    assert_eq!(Node::Layout(0).try_add_child(&mut doc, Node::Layout(1), 0), Err(NodeError::MotherRefused));
    assert_eq!(Node::Layout(2).try_add_child(&mut doc, Node::Line(0), 0), Err(NodeError::MotherRefused));
    assert_eq!(doc.layouts.len(), 3);
    assert_eq!(Node::Layout(2).try_add_child(&mut doc, Node::Layout(0), 1), Ok(Node::Layout(3)));
    assert_eq!(Node::Layout(2).get_children(&doc), Some(vec![Node::Layout(0), Node::Layout(3), Node::Layout(1)]));
    assert_eq!(Node::Layout(3).get_children(&doc), Node::Layout(0).get_children(&doc));
    assert_eq!(Node::Span(2).try_add_child(&mut doc, Node::Char(0), 0), Ok(Node::Char(4)));
    assert_eq!(doc.spans[2].characters, vec![4, 3]);
    assert_eq!(doc.chars[4].value, 'a');
    assert_eq!(Node::Line(1).try_add_child(&mut doc, Node::Span(0), 7), Ok(Node::Span(3)));
    assert_eq!(doc.lines[1].spans, vec![2, 3]);
}

#[test]
fn highlight_and_no_highlight() {
    let mut doc = sample();
    doc.chars[0].style.add_modifier = 1;
    doc.chars[0].style.underline_color = Some(Color::Red);
    Node::Char(0).highlight(&mut doc);
    assert_eq!(
        doc.chars[0].style,
        Style { add_modifier: 1, underline_color: Some(Color::Red), ..highlighted() }
    );
    Node::Char(0).no_highlight(&mut doc);
    assert_eq!(doc.chars[0].style, Style::default());
    Node::Char(42).highlight(&mut doc);
    assert_eq!(doc.chars.len(), 4);
}

#[test]
fn move_result_methods() {
    let mut doc = sample();
    let z = root_cursor(&doc);
    let mut r = MoveResult::DidntMove(z);
    assert_eq!(r.inner_mut().focus(), Node::Layout(2));
    let r2 = r.clone().daughter(&doc, 0);
    assert!(!r2.moved());
    assert!(r.clone().prev().is_none());
    assert_eq!(r.clone().replace_focus(&doc, Node::Line(0)).focus(), Node::Layout(2));
    let m = MoveResult::Moved(root_cursor(&doc)).daughter(&doc, 1);
    assert!(m.moved());
    assert_eq!(m.clone().unwrap().focus(), Node::Layout(1));
    assert_eq!(m.clone().prev().unwrap().focus(), Node::Layout(2));
    let back = m.clone().mother();
    assert!(back.moved());
    assert_eq!(back.unwrap().focus(), Node::Layout(2));
    let left = m.clone().left_sister(&mut doc);
    assert_eq!(left.unwrap().focus(), Node::Layout(0));
    let aunt = MoveResult::Moved(root_cursor(&doc)).right_aunt(&mut doc);
    assert!(!aunt.moved());
    let mut m2 = MoveResult::Moved(root_cursor(&doc));
    assert_eq!(m2.try_add_child(&mut doc, Node::Layout(0), 0), Ok(()));
    assert_eq!(m2.unwrap().children(), vec![Node::Layout(0), Node::Layout(0), Node::Layout(1)]);
}

#[test]
fn insert_child_at_index() {
    let doc = sample();
    let mut z = root_cursor(&doc);
    assert_eq!(z.insert_child(Node::Layout(5), 1), Ok(()));
    assert_eq!(z.children(), vec![Node::Layout(0), Node::Layout(5), Node::Layout(1)]);
}

#[test]
fn layout_crumb_is_empty() {
    let _c = LayoutCrumb {};
}

#[test]
fn moves_keep_document_shape() {
    let mut doc = sample();
    let before: Vec<Option<Vec<Node>>> = (0..3).map(|i| Node::Layout(i).get_children(&doc)).collect();
    let z = root_cursor(&doc).move_to_child(&mut doc, 0).unwrap();
    let z = z.move_to_child(&mut doc, 0).unwrap();
    let z = z.move_right_or_cousin(&mut doc).unwrap();
    let z = z.move_left_or_cousin(&mut doc).unwrap();
    let _ = z.go_back_to_parent(&mut doc);
    let after: Vec<Option<Vec<Node>>> = (0..3).map(|i| Node::Layout(i).get_children(&doc)).collect();
    assert_eq!(before, after);
    assert_eq!(doc.lines.len(), 2);
    assert_eq!(doc.spans.len(), 3);
    assert_eq!(doc.chars.len(), 4);
}

#[test]
fn takes_matches_try_add_child() {
    let doc = sample();
    assert!(Node::Layout(2).takes(&doc, Node::Layout(0)));
    assert!(!Node::Layout(2).takes(&doc, Node::Layout(2)));
    assert!(!Node::Layout(2).takes(&doc, Node::Line(0)));
    assert!(Node::Layout(0).takes(&doc, Node::Line(1)));
    assert!(Node::Line(0).takes(&doc, Node::Span(2)));
    assert!(Node::Span(0).takes(&doc, Node::Char(3)));
    assert!(!Node::Span(0).takes(&doc, Node::Char(9)));
    assert!(!Node::Char(0).takes(&doc, Node::Char(1)));
}

#[test]
fn style_default_is_plain() {
    let s = Style::default();
    assert_eq!(s, Style { fg: None, bg: None, underline_color: None, add_modifier: 0, sub_modifier: 0 });
    assert_eq!(Style::new(), s);
    assert_eq!(s.highlight(), highlighted());
}

#[test]
fn left_step_back_is_undone_by_right_step() {
    let mut doc = sample();
    let z = root_cursor(&doc).move_to_child(&mut doc, 0).unwrap();
    let x = z.try_move_right(&mut doc).unwrap();
    let before = (x.focus(), x.left(), x.right(), x.children(), x.has_previous());
    let y = x.try_move_left(&mut doc);
    assert!(y.moved());
    let z = y.unwrap().try_move_right(&mut doc);
    assert!(z.moved());
    let z = z.unwrap();
    assert_eq!((z.focus(), z.left(), z.right(), z.children(), z.has_previous()), before);
    assert_eq!(doc.layouts[1].style, highlighted());
    assert_eq!(doc.layouts[0].style, Style::default());
}

#[test]
fn highlight_twice_and_clear_after_highlight() {
    let mut doc = sample();
    doc.lines[0].style.sub_modifier = 4;
    Node::Line(0).highlight(&mut doc);
    let once = doc.lines[0].style;
    Node::Line(0).highlight(&mut doc);
    assert_eq!(doc.lines[0].style, once);
    Node::Line(0).no_highlight(&mut doc);
    assert_eq!(doc.lines[0].style, Style::default());
    Node::Line(0).highlight(&mut doc);
    assert_eq!(doc.lines[0].style, highlighted());
}

#[test]
fn parent_children_are_the_row_and_the_document_children() {
    let mut doc = sample();
    let z = root_cursor(&doc).move_to_child(&mut doc, 1).unwrap();
    let z = z.try_move_left(&mut doc).unwrap();
    let row: Vec<Node> = z.left().into_iter().chain(std::iter::once(z.focus())).chain(z.right()).collect();
    let m = z.go_back_to_parent(&mut doc).unwrap();
    assert_eq!(m.children(), row);
    assert_eq!(m.focus().get_children(&doc), Some(m.children()));
}

#[test]
fn child_then_sister_steps_then_parent_returns() {
    let mut doc = sample();
    let p = root_cursor(&doc);
    let mut y = p.move_to_child(&mut doc, 0).unwrap();
    for right in [true, true, false, false, false, true, false] {
        y = if right { y.try_move_right(&mut doc).unwrap() } else { y.try_move_left(&mut doc).unwrap() };
    }
    let m = y.go_back_to_parent(&mut doc);
    assert!(m.moved());
    let m = m.unwrap();
    assert_eq!(m.focus(), Node::Layout(2));
    assert_eq!(m.children(), vec![Node::Layout(0), Node::Layout(1)]);
    assert!(!m.has_previous());
    assert_eq!(doc.layouts[2].style, highlighted());
}

#[test]
fn move_to_child_then_back_restores_cursor() {
    let mut doc = sample();
    let x = root_cursor(&doc).move_to_child(&mut doc, 1).unwrap();
    let before = (x.focus(), x.left(), x.right(), x.children(), x.has_previous());
    let y = x.move_to_child(&mut doc, 0).unwrap();
    let z = y.move_to_prev(&mut doc).unwrap();
    assert_eq!((z.focus(), z.left(), z.right(), z.children(), z.has_previous()), before);
    assert_eq!(doc.layouts[1].style, highlighted());
    assert_eq!(doc.lines[1].style, Style::default());
}
