use iced_core::window::Id;
use liquid_glass::icon::UiIcon;
use liquid_glass::platform::{BackdropSource, WindowConfig};
use liquid_glass::windowing::{
    fullscreen_toggle_target, IcedWindowController, IcedWindowPolicy, WindowCommand, WindowEvent,
    WindowExpandBehavior, WindowMode, DEFAULT_WINDOW_CORNER_RADIUS,
};

#[test]
fn liquid_glass_policy_is_borderless_and_auto_close() {
    let policy = IcedWindowPolicy::liquid_glass();
    assert!(!policy.decorations);
    assert!(policy.transparent);
    assert!(policy.exit_on_close_request);
    assert_eq!(policy.expand_behavior, WindowExpandBehavior::Fullscreen);
    assert_eq!(policy.corner_radius(), DEFAULT_WINDOW_CORNER_RADIUS);
    assert!(!policy.manual_close().exit_on_close_request);
}

#[test]
fn window_corner_radius_is_configurable_without_changing_window_semantics() {
    let policy = IcedWindowPolicy::liquid_glass().with_corner_radius(22);

    assert_eq!(policy.corner_radius(), 22);
    assert!(!policy.decorations);
    assert!(policy.transparent);
}

#[test]
fn expand_behavior_maps_to_the_matching_window_command() {
    assert_eq!(WindowExpandBehavior::Fullscreen.command(), WindowCommand::ToggleFullscreen);
    assert_eq!(WindowExpandBehavior::Maximize.command(), WindowCommand::ToggleMaximize);
    assert_eq!(
        IcedWindowPolicy::default()
            .with_expand_behavior(WindowExpandBehavior::Maximize)
            .expand_behavior,
        WindowExpandBehavior::Maximize
    );
}

#[test]
fn controller_attaches_on_open_and_tracks_focus() {
    let id = Id::unique();
    let mut controller = IcedWindowController::new();

    controller.observe(id, WindowEvent::Opened);
    assert_eq!(controller.id(), Some(id));

    controller.observe(id, WindowEvent::Focused);
    assert!(controller.is_focused());
    controller.observe(id, WindowEvent::Unfocused);
    assert!(!controller.is_focused());

    controller.observe(id, WindowEvent::Closed);
    assert_eq!(controller.id(), None);
}

#[test]
fn controller_ignores_another_window() {
    let first = Id::unique();
    let second = Id::unique();
    let mut controller = IcedWindowController::from_id(first);

    controller.observe(second, WindowEvent::Focused);
    assert!(!controller.is_focused());
    assert_eq!(controller.id(), Some(first));
}

#[test]
fn controller_keeps_its_window_when_another_opens_or_closes() {
    let first = Id::unique();
    let second = Id::unique();
    let mut controller = IcedWindowController::new();
    controller.observe(first, WindowEvent::Opened);
    controller.observe(first, WindowEvent::Focused);
    controller.observe(second, WindowEvent::Opened);
    controller.observe(second, WindowEvent::Closed);
    controller.observe(second, WindowEvent::Unfocused);
    controller.observe(first, WindowEvent::Other);
    assert_eq!(controller.id(), Some(first));
    assert!(controller.is_focused());
}

#[test]
fn closing_clears_focus_and_the_next_window_is_adopted() {
    let first = Id::unique();
    let second = Id::unique();
    let mut controller = IcedWindowController::from_id(first);
    controller.observe(first, WindowEvent::Focused);
    controller.observe(first, WindowEvent::Closed);
    assert_eq!(controller.id(), None);
    assert!(!controller.is_focused());
    controller.observe(second, WindowEvent::Opened);
    assert_eq!(controller.id(), Some(second));
    controller.attach(first);
    assert_eq!(controller.id(), Some(first));
}

#[test]
fn default_policy_is_decorated_and_opaque() {
    let policy = IcedWindowPolicy::default();
    assert!(policy.decorations);
    assert!(policy.resizable);
    assert!(policy.closeable);
    assert!(policy.minimizable);
    assert!(!policy.transparent);
    assert!(!policy.blur);
    assert!(!policy.extend_into_titlebar);
    assert!(policy.exit_on_close_request);
    assert_eq!(policy.expand_behavior, WindowExpandBehavior::Fullscreen);
    assert_eq!(policy.corner_radius(), 0);
}

#[test]
fn builders_change_only_their_own_field() {
    let base = IcedWindowPolicy::liquid_glass();
    let changed = base.with_expand_behavior(WindowExpandBehavior::Maximize).manual_close();
    assert_eq!(
        changed,
        IcedWindowPolicy {
            expand_behavior: WindowExpandBehavior::Maximize,
            exit_on_close_request: false,
            ..base
        }
    );
    assert_eq!(
        changed.expand_command(),
        WindowCommand::ToggleExpand(WindowExpandBehavior::Maximize)
    );
    assert_eq!(changed.expand_command().resolved(), WindowCommand::ToggleMaximize);
    assert_eq!(WindowCommand::Close.resolved(), WindowCommand::Close);
}

#[test]
fn expand_behaviors_have_matching_icons() {
    assert_eq!(WindowExpandBehavior::Fullscreen.icon(), UiIcon::WindowZoom);
    assert_eq!(WindowExpandBehavior::Maximize.icon(), UiIcon::WindowMaximize);
    assert_eq!(WindowExpandBehavior::default(), WindowExpandBehavior::Fullscreen);
}

#[test]
fn fullscreen_toggle_alternates_modes() {
    assert_eq!(fullscreen_toggle_target(WindowMode::Fullscreen), WindowMode::Windowed);
    assert_eq!(fullscreen_toggle_target(WindowMode::Windowed), WindowMode::Fullscreen);
    assert_eq!(fullscreen_toggle_target(WindowMode::Hidden), WindowMode::Fullscreen);
}

#[test]
fn desktop_backdrop_requires_transparency_and_blur() {
    let config = WindowConfig::desktop_backdrop();

    assert!(config.transparent);
    assert!(config.blur);
    assert_eq!(config.backdrop, BackdropSource::Desktop);
}

#[test]
fn default_window_config_draws_its_own_background() {
    let config = WindowConfig::default();
    assert!(!config.transparent);
    assert!(!config.blur);
    assert_eq!(config.backdrop, BackdropSource::Application);
    assert!(config.decorations);
    assert!(config.resizable);
    assert_eq!(BackdropSource::default(), BackdropSource::Application);
}
