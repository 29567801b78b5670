use modal_overlay::geometry::{Point, Rect, Size};
use modal_overlay::modal::{
    Arrangement, Button, Forward, Input, Key, ModalOverlay, Node, Paint, Status,
};

fn overlay(backdrop: Option<u8>, esc: Option<u8>) -> ModalOverlay<u8, ()> {
    ModalOverlay::new(backdrop, esc, ())
}

fn standard_node() -> Node {
    Node {
        bounds: Rect::new(Point::new(0, 0), Size::new(400, 300)),
        content: Some(Rect::new(Point::new(150, 125), Size::new(100, 50))),
    }
}

fn bare_node() -> Node {
    Node { bounds: Rect::new(Point::new(0, 0), Size::new(400, 300)), content: None }
}

#[test]
fn content_centered_in_available_area() {
    let r = overlay(None, None).layout(Size::new(400, 300), Point::new(0, 0), Size::new(100, 50));
    assert_eq!(
        r,
        Arrangement {
            size: Size::new(400, 300),
            content_size: Size::new(100, 50),
            content_origin_doubled: Point::new(300, 250),
        }
    );
    assert_eq!(r.content_origin_doubled.x / 2, 150);
    assert_eq!(r.content_origin_doubled.y / 2, 125);
}

#[test]
fn centering_adds_anchor() {
    let r = overlay(None, None).layout(Size::new(400, 300), Point::new(-20, 7), Size::new(100, 50));
    assert_eq!(r.content_origin_doubled, Point::new(260, 264));
}

#[test]
fn centering_odd_difference_is_exact_half() {
    let m = overlay(None, None);
    let r = m.layout(Size::new(3, 5), Point::new(0, 0), Size::new(0, 0));
    assert_eq!(r.content_origin_doubled, Point::new(3, 5));
    let r = m.layout(Size::new(0, 10), Point::new(4, 0), Size::new(3, 10));
    assert_eq!(r.content_origin_doubled, Point::new(5, 0));
}

#[test]
fn centering_larger_content_moves_back() {
    let r = overlay(None, None).layout(Size::new(100, 100), Point::new(0, 0), Size::new(300, 140));
    assert_eq!(r.content_origin_doubled, Point::new(-200, -40));
    assert_eq!(r.content_size, Size::new(300, 140));
}

#[test]
fn centering_axes_independent() {
    let m = overlay(None, None);
    let a = m.layout(Size::new(400, 300), Point::new(5, 5), Size::new(100, 50));
    let b = m.layout(Size::new(400, 17), Point::new(5, 5), Size::new(100, 3));
    assert_eq!(a.content_origin_doubled.x, b.content_origin_doubled.x);
    assert_ne!(a.content_origin_doubled.y, b.content_origin_doubled.y);
}

#[test]
fn centering_extreme_sizes() {
    let r = overlay(None, None).layout(
        Size::new(u32::MAX, 0),
        Point::new(0, 0),
        Size::new(0, u32::MAX),
    );
    assert_eq!(r.content_origin_doubled, Point::new(u32::MAX as i64, -(u32::MAX as i64)));
}

#[test]
fn status_merge_table() {
    assert_eq!(Status::Ignored.merge(Status::Ignored), Status::Ignored);
    assert_eq!(Status::Ignored.merge(Status::Captured), Status::Captured);
    assert_eq!(Status::Captured.merge(Status::Ignored), Status::Captured);
    assert_eq!(Status::Captured.merge(Status::Captured), Status::Captured);
}

#[test]
fn escape_without_message_is_ignored() {
    let m = overlay(Some(1), None);
    let node = standard_node();
    let out = m.on_event(Input::KeyPressed(Key::Escape), &node, false);
    assert!(!out.publish_escape);
    assert!(!out.publish_backdrop);
    assert_eq!(out.status, Status::Ignored);
    assert!(out.forward.is_some());
}

#[test]
fn escape_with_message_is_captured() {
    let m = overlay(None, Some(2));
    let node = standard_node();
    let out = m.on_event(Input::KeyPressed(Key::Escape), &node, true);
    assert!(out.publish_escape);
    assert!(!out.publish_backdrop);
    assert_eq!(out.status, Status::Captured);
    assert_eq!(out.forward, None);
    assert_eq!(m.escape_status(Input::KeyPressed(Key::Escape)), Status::Captured);
    assert_eq!(m.escape_status(Input::KeyPressed(Key::Other)), Status::Ignored);
}

#[test]
fn escape_captured_without_content_layout() {
    let m = overlay(Some(1), Some(2));
    let out = m.on_event(Input::KeyPressed(Key::Escape), &bare_node(), false);
    assert!(out.publish_escape);
    assert_eq!(out.status, Status::Captured);
}

#[test]
fn press_outside_content_publishes_backdrop() {
    let m = overlay(Some(1), Some(2));
    let node = standard_node();
    for event in [Input::ButtonPressed(Button::Left), Input::FingerPressed] {
        let out = m.on_event(event, &node, false);
        assert!(out.publish_backdrop);
        assert!(!out.publish_escape);
        assert_eq!(out.status, Status::Captured);
        assert_eq!(out.forward, None);
    }
}

#[test]
fn press_inside_content_is_not_consumed() {
    let m = overlay(Some(1), Some(2));
    let node = standard_node();
    let out = m.on_event(Input::ButtonPressed(Button::Left), &node, true);
    assert!(!out.publish_backdrop);
    assert_eq!(out.status, Status::Ignored);
    assert_eq!(
        out.forward,
        Some(Forward { layout: node.content.unwrap(), viewport: node.bounds })
    );
}

#[test]
fn press_without_backdrop_message_is_forwarded() {
    let m = overlay(None, Some(2));
    let node = standard_node();
    let out = m.on_event(Input::ButtonPressed(Button::Left), &node, false);
    assert!(!out.publish_backdrop);
    assert_eq!(out.status, Status::Ignored);
    assert!(out.forward.is_some());
}

#[test]
fn press_without_content_layout_is_not_captured() {
    let m = overlay(Some(1), None);
    let out = m.on_event(Input::FingerPressed, &bare_node(), false);
    assert!(!out.publish_backdrop);
    assert_eq!(out.status, Status::Ignored);
    assert_eq!(out.forward, None);
}

#[test]
fn unmatched_event_is_forwarded_unchanged() {
    let m = overlay(Some(1), Some(2));
    let node = standard_node();
    for event in [
        Input::KeyPressed(Key::Other),
        Input::ButtonPressed(Button::Other),
        Input::Other,
    ] {
        let out = m.on_event(event, &node, false);
        assert!(!out.publish_escape);
        assert!(!out.publish_backdrop);
        assert_eq!(out.status, Status::Ignored);
        assert_eq!(
            out.forward,
            Some(Forward { layout: node.content.unwrap(), viewport: node.bounds })
        );
    }
}

#[test]
fn draw_paints_backdrop_before_content() {
    let m = overlay(None, None);
    let node = standard_node();
    let steps = m.draw(&node, "grey");
    assert_eq!(steps.len(), 2);
    match &steps[0] {
        Paint::Backdrop { bounds, background } => {
            assert_eq!(*bounds, node.bounds);
            assert_eq!(*background, "grey");
        }
        Paint::Content { .. } => panic!("content painted before the backdrop"),
    }
    match &steps[1] {
        Paint::Content { layout, viewport } => {
            assert_eq!(*layout, node.content.unwrap());
            assert_eq!(*viewport, node.bounds);
        }
        Paint::Backdrop { .. } => panic!("second step is not the content"),
    }
}

#[test]
fn draw_without_content_layout_paints_backdrop_only() {
    let steps = overlay(None, None).draw(&bare_node(), 7u8);
    assert_eq!(steps.len(), 1);
    assert!(matches!(steps[0], Paint::Backdrop { background: 7, .. }));
}
