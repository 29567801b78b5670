//! The modal overlay's own decisions: where its content goes, what an input
//! event does, and in which order the overlay is painted.
use vstd::prelude::*;

use crate::geometry::{Point, Rect, Size};

verus! {

/// The keys that the overlay tells apart.
#[derive(Clone, Copy, Debug, PartialEq, Eq, Structural)]
pub enum Key {
    Escape,
    Other,
}

/// The pointer buttons that the overlay tells apart.
#[derive(Clone, Copy, Debug, PartialEq, Eq, Structural)]
pub enum Button {
    Left,
    Other,
}

/// An input event, as far as the overlay reads it.
#[derive(Clone, Copy, Debug, PartialEq, Eq, Structural)]
pub enum Input {
    KeyPressed(Key),
    ButtonPressed(Button),
    FingerPressed,
    Other,
}

/// Whether an event was consumed.
#[derive(Clone, Copy, Debug, PartialEq, Eq, Structural)]
pub enum Status {
    Ignored,
    Captured,
}

/// Where the overlay's layout places things. The content's origin is kept in
/// half units, as twice its coordinates, so that the exact center of any
/// whole-unit extent can be held.
#[derive(Clone, Copy, Debug, PartialEq, Eq, Structural)]
pub struct Arrangement {
    /// The overlay's own size.
    pub size: Size,
    /// The content's size.
    pub content_size: Size,
    /// The content's top-left corner, with both coordinates doubled.
    pub content_origin_doubled: Point,
}

/// A laid-out overlay as the host hands it back: its own bounds and those of
/// its content, which a well-formed layout always has.
#[derive(Clone, Copy, Debug, PartialEq, Eq, Structural)]
pub struct Node {
    pub bounds: Rect,
    pub content: Option<Rect>,
}

/// How an event that the overlay did not consume is handed to the content.
#[derive(Clone, Copy, Debug, PartialEq, Eq, Structural)]
pub struct Forward {
    /// The content's layout.
    pub layout: Rect,
    /// The area the content may be drawn in: the overlay's bounds.
    pub viewport: Rect,
}

/// What the overlay does with one event.
#[derive(Clone, Copy, Debug, PartialEq, Eq, Structural)]
pub struct Outcome {
    /// The Escape message is published.
    pub publish_escape: bool,
    /// The backdrop message is published.
    pub publish_backdrop: bool,
    pub status: Status,
    /// Where the event goes on to the content; `None` when it was consumed,
    /// or when the layout lacks the content.
    pub forward: Option<Forward>,
}

/// One step of painting the overlay.
pub enum Paint<B> {
    /// Fill `bounds` with `background`.
    Backdrop { bounds: Rect, background: B },
    /// Draw the content at `layout`, clipped to `viewport`.
    Content { layout: Rect, viewport: Rect },
}

/// A modal overlay: its content is centered above a backdrop. `backdrop` is
/// published when the user presses outside the content, `esc` when the Escape
/// key is pressed; `style` selects the backdrop's appearance.
pub struct ModalOverlay<Message, Style> {
    pub backdrop: Option<Message>,
    pub esc: Option<Message>,
    pub style: Style,
}

impl Status {
    /// Captured when either status is.
    pub open spec fn spec_merge(self, other: Status) -> Status {
        if self is Captured || other is Captured {
            Status::Captured
        } else {
            Status::Ignored
        }
    }

    /// Captured when either status is.
    pub fn merge(self, other: Status) -> (r: Status)
        ensures
            r == self.spec_merge(other),
    {
        match self {
            Status::Ignored => other,
            Status::Captured => Status::Captured,
        }
    }
}

/// Twice the coordinate at which the content starts along one axis: the
/// anchor moved by half of what the available extent leaves beside the
/// content.
pub open spec fn centered_doubled(anchor: int, available: int, content: int) -> int {
    2 * anchor + available - content
}

/// The doubled centered position is a coordinate that `i64` holds.
pub open spec fn centered_fits(anchor: Point, available: Size, content: Size) -> bool {
    &&& i64::MIN <= centered_doubled(anchor.x as int, available.width as int, content.width as int)
        <= i64::MAX
    &&& i64::MIN <= centered_doubled(
        anchor.y as int,
        available.height as int,
        content.height as int,
    ) <= i64::MAX
}

/// The overlay takes the available size; the content keeps its natural size
/// and is centered on the available area placed at `anchor`.
pub open spec fn layout_of(available: Size, anchor: Point, content: Size) -> Arrangement {
    Arrangement {
        size: available,
        content_size: content,
        content_origin_doubled: Point {
            x: centered_doubled(anchor.x as int, available.width as int, content.width as int)
                as i64,
            y: centered_doubled(anchor.y as int, available.height as int, content.height as int)
                as i64,
        },
    }
}

/// A press of the Escape key.
pub open spec fn is_escape_press(event: Input) -> bool {
    event == Input::KeyPressed(Key::Escape)
}

/// A press of the primary button, or a finger touching the screen.
pub open spec fn is_primary_press(event: Input) -> bool {
    event == Input::ButtonPressed(Button::Left) || event is FingerPressed
}

/// The Escape message is registered and the event presses Escape.
pub open spec fn escape_fires(has_escape: bool, event: Input) -> bool {
    has_escape && is_escape_press(event)
}

/// The backdrop message is registered, the layout has its content and the
/// event presses outside it.
pub open spec fn backdrop_fires(
    has_backdrop: bool,
    event: Input,
    node: Node,
    over_content: bool,
) -> bool {
    has_backdrop && node.content is Some && is_primary_press(event) && !over_content
}

/// What the overlay does with `event`, where `over_content` tells whether the
/// cursor is over the content: it publishes the message of each condition
/// that fires and consumes the event if one did; otherwise the event goes on
/// to the content.
pub open spec fn outcome_of(
    has_escape: bool,
    has_backdrop: bool,
    event: Input,
    node: Node,
    over_content: bool,
) -> Outcome {
    let esc = escape_fires(has_escape, event);
    let back = backdrop_fires(has_backdrop, event, node, over_content);
    Outcome {
        publish_escape: esc,
        publish_backdrop: back,
        status: if esc || back {
            Status::Captured
        } else {
            Status::Ignored
        },
        forward: if esc || back {
            None
        } else {
            match node.content {
                Some(c) => Some(Forward { layout: c, viewport: node.bounds }),
                None => None,
            }
        },
    }
}

/// The backdrop over the whole overlay, then the content in its place.
pub open spec fn paint_order<B>(node: Node, background: B) -> Seq<Paint<B>> {
    let backdrop = seq![Paint::Backdrop { bounds: node.bounds, background }];
    match node.content {
        Some(c) => backdrop.push(Paint::Content { layout: c, viewport: node.bounds }),
        None => backdrop,
    }
}

impl<Message, Style> ModalOverlay<Message, Style> {
    /// An overlay with the given messages and style.
    pub fn new(backdrop: Option<Message>, esc: Option<Message>, style: Style) -> (r: Self)
        ensures
            r.backdrop == backdrop,
            r.esc == esc,
            r.style == style,
    {
        ModalOverlay { backdrop, esc, style }
    }

    /// Lays the overlay out over `available`, with the content, whose natural
    /// size is `content`, centered on the available area placed at `anchor`.
    pub fn layout(&self, available: Size, anchor: Point, content: Size) -> (r: Arrangement)
        requires
            centered_fits(anchor, available, content),
        ensures
            r == layout_of(available, anchor, content),
    {
        let x = 2 * (anchor.x as i128) + available.width as i128 - content.width as i128;
        let y = 2 * (anchor.y as i128) + available.height as i128 - content.height as i128;
        Arrangement {
            size: available,
            content_size: content,
            content_origin_doubled: Point { x: x as i64, y: y as i64 },
        }
    }

    /// Captured, after deciding to publish the Escape message, when that
    /// message is registered and `event` presses Escape.
    pub fn escape_status(&self, event: Input) -> (r: Status)
        ensures
            (r is Captured) == escape_fires(self.esc is Some, event),
    {
        match self.esc {
            Some(_) => match event {
                Input::KeyPressed(Key::Escape) => Status::Captured,
                _ => Status::Ignored,
            },
            None => Status::Ignored,
        }
    }

    /// Captured, after deciding to publish the backdrop message, when that
    /// message is registered, the layout has its content and `event` presses
    /// outside it.
    pub fn backdrop_status(&self, event: Input, node: &Node, over_content: bool) -> (r: Status)
        ensures
            (r is Captured) == backdrop_fires(self.backdrop is Some, event, *node, over_content),
    {
        match (&self.backdrop, &node.content) {
            (Some(_), Some(_)) => match event {
                Input::ButtonPressed(Button::Left) | Input::FingerPressed => {
                    if over_content {
                        Status::Ignored
                    } else {
                        Status::Captured
                    }
                },
                _ => Status::Ignored,
            },
            _ => Status::Ignored,
        }
    }

    /// Decides what `event` does on an overlay laid out as `node`, with the
    /// cursor over the content or not.
    pub fn on_event(&self, event: Input, node: &Node, over_content: bool) -> (r: Outcome)
        ensures
            r == outcome_of(self.esc is Some, self.backdrop is Some, event, *node, over_content),
    {
        let esc_status = self.escape_status(event);
        let backdrop_status = self.backdrop_status(event, node, over_content);
        let publish_escape = match esc_status {
            Status::Captured => true,
            Status::Ignored => false,
        };
        let publish_backdrop = match backdrop_status {
            Status::Captured => true,
            Status::Ignored => false,
        };
        let status = esc_status.merge(backdrop_status);
        let forward = match status {
            Status::Ignored => match node.content {
                Some(c) => Some(Forward { layout: c, viewport: node.bounds }),
                None => None,
            },
            Status::Captured => None,
        };
        Outcome { publish_escape, publish_backdrop, status, forward }
    }

    /// The steps that paint an overlay laid out as `node`, whose style gives
    /// `background`.
    pub fn draw<B>(&self, node: &Node, background: B) -> (r: Vec<Paint<B>>)
        ensures
            r@ == paint_order(*node, background),
    {
        let mut steps: Vec<Paint<B>> = Vec::new();
        steps.push(Paint::Backdrop { bounds: node.bounds, background });
        match node.content {
            Some(c) => steps.push(Paint::Content { layout: c, viewport: node.bounds }),
            None => {},
        }
        proof {
            assert(steps@ =~= paint_order(*node, background));
        }
        steps
    }
}

/// On each axis the content is moved from the anchor by exactly half the
/// difference between the available extent and the content's: twice the
/// offset is that difference. The overlay takes the available size and the
/// content keeps its natural size.
pub proof fn lemma_content_centered(available: Size, anchor: Point, content: Size)
    requires
        centered_fits(anchor, available, content),
    ensures
        ({
            let r = layout_of(available, anchor, content);
            &&& r.content_origin_doubled.x - 2 * anchor.x == available.width - content.width
            &&& r.content_origin_doubled.y - 2 * anchor.y == available.height - content.height
            &&& r.size == available
            &&& r.content_size == content
        }),
{
}

/// The horizontal position of the content depends on the widths alone, and
/// the vertical one on the heights alone.
pub proof fn lemma_axes_independent(
    anchor: Point,
    available1: Size,
    content1: Size,
    available2: Size,
    content2: Size,
)
    requires
        centered_fits(anchor, available1, content1),
        centered_fits(anchor, available2, content2),
    ensures
        available1.width == available2.width && content1.width == content2.width ==> layout_of(
            available1,
            anchor,
            content1,
        ).content_origin_doubled.x == layout_of(available2, anchor, content2).content_origin_doubled.x,
        available1.height == available2.height && content1.height == content2.height ==> layout_of(
            available1,
            anchor,
            content1,
        ).content_origin_doubled.y == layout_of(available2, anchor, content2).content_origin_doubled.y,
{
}

/// Without an Escape message, pressing Escape publishes nothing and is not
/// consumed: the event goes on to the content.
pub proof fn lemma_escape_unregistered(has_backdrop: bool, node: Node, over_content: bool)
    requires
        node.content is Some,
    ensures
        ({
            let r = outcome_of(
                false,
                has_backdrop,
                Input::KeyPressed(Key::Escape),
                node,
                over_content,
            );
            &&& !r.publish_escape && !r.publish_backdrop
            &&& r.status == Status::Ignored
            &&& r.forward is Some
        }),
{
}

/// With a backdrop message, a primary press outside the content publishes
/// that message alone and consumes the event; a press over the content is
/// never consumed by the overlay, whatever is registered.
pub proof fn lemma_press_on_backdrop(
    has_escape: bool,
    has_backdrop: bool,
    event: Input,
    node: Node,
    over_content: bool,
)
    requires
        is_primary_press(event),
        node.content is Some,
    ensures
        has_backdrop && !over_content ==> {
            let r = outcome_of(has_escape, has_backdrop, event, node, over_content);
            &&& r.publish_backdrop && !r.publish_escape
            &&& r.status == Status::Captured
            &&& r.forward is None
        },
        over_content ==> {
            let r = outcome_of(has_escape, has_backdrop, event, node, over_content);
            &&& !r.publish_backdrop && !r.publish_escape
            &&& r.status == Status::Ignored
        },
{
}

/// With both messages registered, an event that neither presses Escape nor
/// presses outside the content publishes nothing and goes on to the content
/// at its layout, within the overlay's bounds.
pub proof fn lemma_unmatched_forwarded(event: Input, node: Node, over_content: bool)
    requires
        node.content is Some,
        !is_escape_press(event),
        !(is_primary_press(event) && !over_content),
    ensures
        ({
            let r = outcome_of(true, true, event, node, over_content);
            &&& !r.publish_escape && !r.publish_backdrop
            &&& r.status == Status::Ignored
            &&& r.forward == Some(Forward { layout: node.content->0, viewport: node.bounds })
        }),
{
}

/// Painting starts with the backdrop over the whole overlay in the style's
/// background; every content step comes after it.
pub proof fn lemma_backdrop_painted_first<B>(node: Node, background: B)
    ensures
        paint_order(node, background).len() > 0,
        paint_order(node, background)[0] == (Paint::Backdrop { bounds: node.bounds, background }),
        forall|i: int|
            0 <= i < paint_order(node, background).len() && (#[trigger] paint_order(
                node,
                background,
            )[i]) is Content ==> 0 < i,
{
}

} // verus!
