//! Interactive glass controls: segment content and enablement, and the
//! pointer decisions of glass buttons and segmented controls. The widget
//! layer measures where the cursor is; these rules decide what a pointer
//! event means.

use vstd::prelude::*;

verus! {

/// Optional icon content for compact glass buttons.
#[derive(Clone, Copy, Debug, PartialEq, Eq, Structural)]
pub enum GlassButtonIcon {
    Back,
    Forward,
}

/// Content rendered in one equal-width glass control segment.
#[derive(Clone, Debug, PartialEq, Eq)]
pub enum GlassSegmentContent {
    ChevronLeft,
    ChevronRight,
    Glyph(String),
}

impl GlassSegmentContent {
    /// A segment showing the text `value`.
    pub fn glyph(value: &str) -> (r: Self)
        ensures
            r matches GlassSegmentContent::Glyph(s) && s@ == value@,
    {
        GlassSegmentContent::Glyph(value.to_string())
    }
}

/// One independently enabled item in a segmented control.
#[derive(Clone, Debug)]
pub struct GlassSegment<Message> {
    content: GlassSegmentContent,
    on_press: Message,
    enabled: bool,
}

impl<Message> GlassSegment<Message> {
    /// What the segment shows.
    pub closed spec fn spec_content(&self) -> GlassSegmentContent {
        self.content
    }

    /// The message published when the segment is activated.
    pub closed spec fn spec_on_press(&self) -> Message {
        self.on_press
    }

    /// Whether the segment reacts to the pointer.
    pub closed spec fn spec_enabled(&self) -> bool {
        self.enabled
    }

    /// A new segment is enabled.
    pub fn new(content: GlassSegmentContent, on_press: Message) -> (r: Self)
        ensures
            r.spec_content() == content,
            r.spec_on_press() == on_press,
            r.spec_enabled(),
    {
        GlassSegment { content, on_press, enabled: true }
    }

    /// Returns the segment with its enablement set to `enabled`.
    pub fn enabled(self, enabled: bool) -> (r: Self)
        ensures
            r.spec_content() == self.spec_content(),
            r.spec_on_press() == self.spec_on_press(),
            r.spec_enabled() == enabled,
    {
        GlassSegment { enabled, ..self }
    }

    pub fn is_enabled(&self) -> (r: bool)
        ensures
            r == self.spec_enabled(),
    {
        self.enabled
    }

    pub fn content(&self) -> (r: &GlassSegmentContent)
        ensures
            *r == self.spec_content(),
    {
        &self.content
    }

    /// The message to publish when the segment is activated.
    pub fn on_press_message(&self) -> (r: &Message)
        ensures
            *r == self.spec_on_press(),
    {
        &self.on_press
    }
}

/// A segmented control holds at least one and at most 65,535 segments.
pub fn supports_segment_count(count: usize) -> (r: bool)
    ensures
        r == (1 <= count && count <= 65535),
{
    count >= 1 && count <= 65535
}

/// The segment under the pointer, kept only when that segment is enabled.
pub open spec fn enabled_segment_spec<Message>(segments: Seq<GlassSegment<Message>>, index: Option<usize>) -> Option<usize> {
    match index {
        Some(i) => if segments[i as int].spec_enabled() {
            Some(i)
        } else {
            None
        },
        None => None,
    }
}

/// Keeps the hit segment `index` only when it is enabled, so disabled
/// segments never hover or press.
pub fn enabled_segment<Message>(segments: &[GlassSegment<Message>], index: Option<usize>) -> (r: Option<usize>)
    requires
        index matches Some(i) ==> i < segments@.len(),
    ensures
        r == enabled_segment_spec(segments@, index),
{
    match index {
        Some(i) => if segments[i].is_enabled() {
            Some(i)
        } else {
            None
        },
        None => None,
    }
}

/// Whether the divider at `divider_index` (the boundary before segment
/// `divider_index`) touches the hovered segment, i.e. is one of its two edges.
pub open spec fn divider_touches_hovered_spec(divider_index: usize, hovered: Option<usize>) -> bool {
    match hovered {
        Some(i) => divider_index == i || divider_index as int == (if i < usize::MAX { i + 1 } else { i as int }),
        None => false,
    }
}

/// Dividers next to the hovered segment are hidden behind its highlight.
pub fn divider_touches_hovered(divider_index: usize, hovered: Option<usize>) -> (r: bool)
    ensures
        r == divider_touches_hovered_spec(divider_index, hovered),
{
    match hovered {
        Some(index) => divider_index == index || divider_index == index.saturating_add(1),
        None => false,
    }
}

/// The kind of pointer event a control reacts to.
#[derive(Clone, Copy, Debug, PartialEq, Eq, Structural)]
pub enum PointerEvent {
    /// The left mouse button went down.
    LeftPressed,
    /// The left mouse button went up.
    LeftReleased,
    /// Any other event (movement, other buttons, keyboard, ...).
    Other,
}

/// Pointer state of a glass button.
#[derive(Clone, Copy, Debug, Default, PartialEq, Eq, Structural)]
pub struct ButtonPointer {
    pub hovered: bool,
    pub pressed: bool,
}

/// What a glass button does in response to one event, in publishing order:
/// the cancel message, then the press-start message, or the press-end
/// message followed by the activation message.
#[derive(Clone, Copy, Debug, PartialEq, Eq, Structural)]
pub struct ButtonResponse {
    /// A captured press left the button.
    pub cancel: bool,
    /// A press began inside the button.
    pub start: bool,
    /// A captured press was released (inside or outside the button).
    pub end: bool,
    /// The button was clicked: a captured press was released inside it.
    pub activate: bool,
    /// The event is consumed by the button.
    pub capture: bool,
    /// The button must be redrawn.
    pub redraw: bool,
}

/// The state of a glass button after an event, with the cursor now
/// `hovered` over it or not.
pub open spec fn button_next(s: ButtonPointer, hovered: bool, event: PointerEvent) -> ButtonPointer {
    ButtonPointer {
        hovered,
        pressed: match event {
            PointerEvent::LeftPressed => if hovered { true } else { s.pressed },
            PointerEvent::LeftReleased => false,
            PointerEvent::Other => s.pressed,
        },
    }
}

/// The response of a glass button to an event.
pub open spec fn button_response(s: ButtonPointer, hovered: bool, event: PointerEvent) -> ButtonResponse {
    let next = button_next(s, hovered, event);
    let pressing = event == PointerEvent::LeftPressed && hovered;
    let releasing = event == PointerEvent::LeftReleased && s.pressed;
    ButtonResponse {
        cancel: s.pressed && s.hovered && !hovered,
        start: pressing,
        end: releasing,
        activate: releasing && hovered,
        capture: pressing || releasing,
        redraw: s.hovered != next.hovered || s.pressed != next.pressed,
    }
}

impl ButtonPointer {
    /// Applies one event, with the cursor now `hovered` over the button or not.
    pub fn update(&mut self, hovered: bool, event: PointerEvent) -> (r: ButtonResponse)
        ensures
            *final(self) == button_next(*old(self), hovered, event),
            r == button_response(*old(self), hovered, event),
            r.cancel <==> (old(self).pressed && old(self).hovered && !hovered),
            final(self).hovered == hovered,
    {
        let was_hovered = self.hovered;
        let was_pressed = self.pressed;
        self.hovered = hovered;
        let cancel = was_pressed && was_hovered && !hovered;
        let mut start = false;
        let mut end = false;
        let mut activate = false;
        let mut capture = false;
        match event {
            PointerEvent::LeftPressed => {
                if hovered {
                    self.pressed = true;
                    capture = true;
                    start = true;
                }
            },
            PointerEvent::LeftReleased => {
                if self.pressed {
                    self.pressed = false;
                    capture = true;
                    end = true;
                    activate = hovered;
                }
            },
            PointerEvent::Other => {},
        }
        let redraw = was_hovered != self.hovered || was_pressed != self.pressed;
        ButtonResponse { cancel, start, end, activate, capture, redraw }
    }
}

/// Cancellation is reported exactly when a captured press leaves the button:
/// the cursor was over the pressed button and no longer is. Once the cursor is
/// outside, no further event reports a cancel.
pub proof fn lemma_button_cancel_only_on_leaving(s: ButtonPointer, hovered: bool, event: PointerEvent)
    ensures
        button_response(s, hovered, event).cancel <==> (s.pressed && s.hovered && !hovered),
        !s.hovered ==> !button_response(s, hovered, event).cancel,
        hovered ==> !button_response(s, hovered, event).cancel,
        button_next(s, hovered, event).hovered == hovered,
{
}

/// A click activates a button: pressing inside an idle button and releasing
/// inside it reports press start, then press end together with activation,
/// and leaves the button unpressed.
pub proof fn lemma_button_click_activates(s: ButtonPointer)
    requires
        !s.pressed,
    ensures
        button_response(s, true, PointerEvent::LeftPressed).start,
        button_response(button_next(s, true, PointerEvent::LeftPressed), true, PointerEvent::LeftReleased).end,
        button_response(button_next(s, true, PointerEvent::LeftPressed), true, PointerEvent::LeftReleased).activate,
        !button_next(button_next(s, true, PointerEvent::LeftPressed), true, PointerEvent::LeftReleased).pressed,
{
}

/// A button activates only when a press it captured is released while the
/// cursor is over it; a captured press released elsewhere still reports its
/// end, and any release leaves the button unpressed.
pub proof fn lemma_button_activation_needs_captured_release(s: ButtonPointer, hovered: bool, event: PointerEvent)
    ensures
        button_response(s, hovered, event).activate ==> s.pressed && hovered && event == PointerEvent::LeftReleased,
        (s.pressed && event == PointerEvent::LeftReleased) ==> button_response(s, hovered, event).end,
        event == PointerEvent::LeftReleased ==> !button_next(s, hovered, event).pressed,
{
}

/// Pointer state of a segmented control: the enabled segment under the
/// cursor and the segment a captured press started on.
#[derive(Clone, Copy, Debug, Default, PartialEq, Eq)]
pub struct SegmentedPointer {
    pub hovered: Option<usize>,
    pub pressed: Option<usize>,
}

/// What a segmented control does in response to one event.
#[derive(Clone, Copy, Debug, PartialEq, Eq)]
pub struct SegmentedResponse {
    /// The event is consumed by the control.
    pub capture: bool,
    /// The segment whose message is published, if any.
    pub publish: Option<usize>,
    /// The control must be redrawn.
    pub redraw: bool,
}

/// The state of a segmented control after an event, with the enabled segment
/// under the cursor now `hovered`.
pub open spec fn segmented_next(s: SegmentedPointer, hovered: Option<usize>, event: PointerEvent) -> SegmentedPointer {
    SegmentedPointer {
        hovered,
        pressed: match event {
            PointerEvent::LeftPressed => if hovered is Some { hovered } else { s.pressed },
            PointerEvent::LeftReleased => None,
            PointerEvent::Other => s.pressed,
        },
    }
}

/// The response of a segmented control to an event: a press on an enabled
/// segment is captured; releasing a captured press is captured, and
/// publishes the segment when the release happens on the segment the press
/// started on.
pub open spec fn segmented_response(s: SegmentedPointer, hovered: Option<usize>, event: PointerEvent) -> SegmentedResponse {
    let next = segmented_next(s, hovered, event);
    let pressing = event == PointerEvent::LeftPressed && hovered is Some;
    let releasing = event == PointerEvent::LeftReleased && s.pressed is Some;
    SegmentedResponse {
        capture: pressing || releasing,
        publish: if releasing && s.pressed == hovered { s.pressed } else { None },
        redraw: s.hovered != next.hovered || s.pressed != next.pressed,
    }
}

fn same_segment(a: Option<usize>, b: Option<usize>) -> (r: bool)
    ensures
        r == (a == b),
{
    match (a, b) {
        (Some(x), Some(y)) => x == y,
        (None, None) => true,
        _ => false,
    }
}

impl SegmentedPointer {
    /// Applies one event, with the enabled segment under the cursor now `hovered`.
    pub fn update(&mut self, hovered: Option<usize>, event: PointerEvent) -> (r: SegmentedResponse)
        ensures
            *final(self) == segmented_next(*old(self), hovered, event),
            r == segmented_response(*old(self), hovered, event),
            event == PointerEvent::Other ==> final(self).pressed == old(self).pressed,
            event == PointerEvent::LeftPressed && hovered is Some ==> final(self).pressed == hovered,
            event == PointerEvent::LeftPressed && hovered is None ==> final(self).pressed == old(self).pressed,
            event == PointerEvent::LeftReleased ==> final(self).pressed is None,
            final(self).hovered == hovered,
    {
        let previous_hovered = self.hovered;
        let previous_pressed = self.pressed;
        self.hovered = hovered;
        let mut capture = false;
        let mut publish: Option<usize> = None;
        match event {
            PointerEvent::LeftPressed => {
                if hovered.is_some() {
                    self.pressed = hovered;
                    capture = true;
                }
            },
            PointerEvent::LeftReleased => {
                if self.pressed.is_some() {
                    let pressed = self.pressed;
                    self.pressed = None;
                    capture = true;
                    if same_segment(pressed, hovered) {
                        publish = pressed;
                    }
                }
            },
            PointerEvent::Other => {},
        }
        let redraw = !same_segment(previous_hovered, self.hovered) || !same_segment(
            previous_pressed,
            self.pressed,
        );
        SegmentedResponse { capture, publish, redraw }
    }
}

/// A segmented control publishes segment `i` only when a press that started
/// on `i` is released on `i`, and every release clears the captured press.
pub proof fn lemma_segment_published_only_on_matching_release(
    s: SegmentedPointer,
    hovered: Option<usize>,
    event: PointerEvent,
    i: usize,
)
    ensures
        segmented_response(s, hovered, event).publish == Some(i) ==> event == PointerEvent::LeftReleased
            && s.pressed == Some(i) && hovered == Some(i),
        event == PointerEvent::LeftReleased ==> segmented_next(s, hovered, event).pressed is None,
{
}

/// Only a release, or a press on an enabled segment, changes the captured
/// press: any other event keeps it, wherever the cursor is.
pub proof fn lemma_segment_press_survives_moves(s: SegmentedPointer, hovered: Option<usize>)
    ensures
        segmented_next(s, hovered, PointerEvent::Other).pressed == s.pressed,
        segmented_next(s, hovered, PointerEvent::Other).hovered == hovered,
        !segmented_response(s, hovered, PointerEvent::Other).capture,
        segmented_response(s, hovered, PointerEvent::Other).publish is None,
        hovered is None ==> segmented_next(s, hovered, PointerEvent::LeftPressed).pressed == s.pressed,
{
}

/// The state after the cursor moves over each of `moves` in turn.
pub open spec fn after_moves(s: SegmentedPointer, moves: Seq<Option<usize>>) -> SegmentedPointer
    decreases moves.len(),
{
    if moves.len() == 0 {
        s
    } else {
        after_moves(segmented_next(s, moves[0], PointerEvent::Other), moves.skip(1))
    }
}

proof fn lemma_moves_keep_press(s: SegmentedPointer, moves: Seq<Option<usize>>)
    ensures
        after_moves(s, moves).pressed == s.pressed,
    decreases moves.len(),
{
    if moves.len() > 0 {
        lemma_moves_keep_press(segmented_next(s, moves[0], PointerEvent::Other), moves.skip(1));
    }
}

/// Pressing segment `i`, moving the cursor anywhere (even off the control)
/// any number of times, and releasing on segment `i` captures the release
/// and publishes `i`.
pub proof fn lemma_segment_press_drag_release_publishes(s: SegmentedPointer, i: usize, moves: Seq<Option<usize>>)
    ensures
        segmented_response(
            after_moves(segmented_next(s, Some(i), PointerEvent::LeftPressed), moves),
            Some(i),
            PointerEvent::LeftReleased,
        ).publish == Some(i),
        segmented_response(
            after_moves(segmented_next(s, Some(i), PointerEvent::LeftPressed), moves),
            Some(i),
            PointerEvent::LeftReleased,
        ).capture,
{
    lemma_moves_keep_press(segmented_next(s, Some(i), PointerEvent::LeftPressed), moves);
}

/// Pressing an enabled segment and releasing on the same segment publishes it.
pub proof fn lemma_segment_click_publishes(s: SegmentedPointer, i: usize)
    ensures
        segmented_response(
            segmented_next(s, Some(i), PointerEvent::LeftPressed),
            Some(i),
            PointerEvent::LeftReleased,
        ).publish == Some(i),
{
}

} // verus!
