use liquid_glass::controls::{
    divider_touches_hovered, enabled_segment, ButtonPointer, GlassButtonIcon, GlassSegment,
    GlassSegmentContent, PointerEvent, SegmentedPointer,
};

#[test]
fn button_publishes_message_on_click_release() {
    let on_press = 42_u8;
    let on_press_start = Some(7_u8);
    let on_press_cancel: Option<u8> = None;
    let on_press_end = Some(8_u8);
    let mut state = ButtonPointer::default();
    let mut messages = Vec::new();
    // The cursor at (12, 12) lies inside the 120 by 48 button.
    for event in [PointerEvent::LeftPressed, PointerEvent::LeftReleased] {
        let response = state.update(true, event);
        if response.cancel {
            messages.extend(on_press_cancel);
        }
        if response.start {
            messages.extend(on_press_start);
        }
        if response.end {
            messages.extend(on_press_end);
        }
        if response.activate {
            messages.push(on_press);
        }
    }

    assert_eq!(messages, vec![7, 8, 42]);
    assert!(!state.pressed);
}

#[test]
fn leaving_a_pressed_button_cancels_and_release_outside_does_not_activate() {
    let mut state = ButtonPointer::default();
    let first = state.update(true, PointerEvent::Other);
    assert!(first.redraw && !first.capture);
    let press = state.update(true, PointerEvent::LeftPressed);
    assert!(press.start && press.capture && press.redraw);
    let leave = state.update(false, PointerEvent::Other);
    assert!(leave.cancel && !leave.activate && leave.redraw);
    let release = state.update(false, PointerEvent::LeftReleased);
    assert!(release.end && release.capture && !release.activate);
    assert_eq!(state, ButtonPointer { hovered: false, pressed: false });
    let stray = state.update(false, PointerEvent::LeftReleased);
    assert!(!stray.end && !stray.capture && !stray.redraw);
    let outside_press = state.update(false, PointerEvent::LeftPressed);
    assert!(!outside_press.start && !outside_press.capture);
}

#[test]
fn segmented_control_publishes_the_released_segment() {
    let mut state = SegmentedPointer::default();
    let press = state.update(Some(1), PointerEvent::LeftPressed);
    assert!(press.capture && press.redraw);
    assert_eq!(press.publish, None);
    let release = state.update(Some(1), PointerEvent::LeftReleased);
    assert!(release.capture);
    assert_eq!(release.publish, Some(1));
    assert_eq!(state, SegmentedPointer { hovered: Some(1), pressed: None });

    state.update(Some(0), PointerEvent::LeftPressed);
    let moved = state.update(Some(1), PointerEvent::LeftReleased);
    assert!(moved.capture);
    assert_eq!(moved.publish, None);

    let idle = state.update(None, PointerEvent::LeftPressed);
    assert!(!idle.capture && idle.redraw);
    assert_eq!(state, SegmentedPointer { hovered: None, pressed: None });
}

#[test]
fn disabled_segment_is_not_hovered_and_keeps_its_dividers() {
    let segments = [
        GlassSegment::new(GlassSegmentContent::ChevronLeft, 1_u8),
        GlassSegment::new(GlassSegmentContent::ChevronRight, 2_u8).enabled(false),
    ];
    // The cursor is over the second segment.
    let hovered = enabled_segment(&segments, Some(1));

    assert_eq!(hovered, None);
    assert!(!divider_touches_hovered(1, hovered));
    assert_eq!(enabled_segment(&segments, Some(0)), Some(0));
    assert_eq!(enabled_segment(&segments, None), None);
}

#[test]
fn dividers_touch_both_edges_of_the_hovered_segment() {
    assert!(divider_touches_hovered(1, Some(1)));
    assert!(divider_touches_hovered(2, Some(1)));
    assert!(!divider_touches_hovered(0, Some(1)));
    assert!(!divider_touches_hovered(3, Some(1)));
    assert!(divider_touches_hovered(usize::MAX, Some(usize::MAX)));
}

#[test]
fn segments_keep_content_and_messages() {
    let segments = [
        GlassSegment::new(GlassSegmentContent::ChevronLeft, 1_u8),
        GlassSegment::new(GlassSegmentContent::glyph("⌂"), 2_u8),
        GlassSegment::new(GlassSegmentContent::ChevronRight, 3_u8),
    ];

    assert_eq!(segments.len(), 3);
    assert_eq!(segments[1].content(), &GlassSegmentContent::glyph("⌂"));
    assert_eq!(*segments[2].on_press_message(), 3);
    assert!(segments[0].is_enabled());
    assert!(!segments[0].clone().enabled(false).is_enabled());
    assert_ne!(GlassButtonIcon::Back, GlassButtonIcon::Forward);
}
