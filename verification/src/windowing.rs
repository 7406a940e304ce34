//! Reusable window semantics for applications with custom chrome.
//!
//! The visual titlebar and its controls only emit a [`WindowCommand`]. The
//! policy describes how a window is configured, and the controller tracks
//! which window it belongs to and whether that window has focus.

use vstd::prelude::*;
use iced_core::window::Id;
use crate::icon::UiIcon;

verus! {

/// An opaque window identifier handed out by the windowing toolkit.
#[verifier::external_type_specification]
#[verifier::external_body]
pub struct ExWindowId(Id);

/// Compares two identifiers with `Id`'s derived `PartialEq`. `Id` wraps a
/// single counter value, so the derived comparison holds exactly when the two
/// identifiers are the same value, which is what the contract claims.
#[verifier::external_body]
fn same_window(a: &Id, b: &Id) -> (r: bool)
    ensures
        r == (*a == *b),
{
    a == b
}

/// Default radius of a borderless Liquid Glass window in logical points (`H / 2`).
pub const DEFAULT_WINDOW_CORNER_RADIUS: u16 = 26;

/// The semantic action represented by a macOS-style green traffic light.
#[derive(Clone, Copy, Debug, PartialEq, Eq, Structural)]
pub enum WindowExpandBehavior {
    /// Enter true fullscreen and return to windowed mode on the next press.
    Fullscreen,
    /// Maximize into the current work area and restore the previous frame.
    Maximize,
}

impl Default for WindowExpandBehavior {
    fn default() -> (r: Self)
        ensures
            r == WindowExpandBehavior::Fullscreen,
    {
        WindowExpandBehavior::Fullscreen
    }
}

/// A semantic action that can be emitted by a custom window chrome.
#[derive(Clone, Copy, Debug, PartialEq, Eq, Structural)]
pub enum WindowCommand {
    /// Close the target window.
    Close,
    /// Minimize the target window.
    Minimize,
    /// Toggle the target window between maximized and normal states.
    ToggleMaximize,
    /// Toggle the target window between windowed and fullscreen modes.
    ToggleFullscreen,
    /// Execute the window's configured green traffic-light behavior.
    ToggleExpand(WindowExpandBehavior),
    /// Start moving the target window while the left mouse button is held.
    BeginDrag,
}

/// The command that each expand behavior stands for.
pub open spec fn expand_command_of(behavior: WindowExpandBehavior) -> WindowCommand {
    match behavior {
        WindowExpandBehavior::Fullscreen => WindowCommand::ToggleFullscreen,
        WindowExpandBehavior::Maximize => WindowCommand::ToggleMaximize,
    }
}

/// The concrete command that a command resolves to once a configured expand
/// behavior is looked up; every other command stands for itself.
pub open spec fn resolved_command(command: WindowCommand) -> WindowCommand {
    match command {
        WindowCommand::ToggleExpand(behavior) => expand_command_of(behavior),
        other => other,
    }
}

impl WindowCommand {
    /// Resolves [`WindowCommand::ToggleExpand`] to the command of its behavior,
    /// leaving every other command unchanged. This is the command whose window
    /// task is issued for `self`.
    pub fn resolved(self) -> (r: WindowCommand)
        ensures
            r == resolved_command(self),
            !(r is ToggleExpand),
    {
        match self {
            WindowCommand::ToggleExpand(behavior) => behavior.command(),
            other => other,
        }
    }
}

/// The presentation mode of a window.
#[derive(Clone, Copy, Debug, PartialEq, Eq, Structural)]
pub enum WindowMode {
    Windowed,
    Fullscreen,
    Hidden,
}

/// The mode that toggling fullscreen moves a window to: a fullscreen window
/// returns to windowed mode, any other window enters fullscreen.
pub open spec fn toggled_mode(mode: WindowMode) -> WindowMode {
    if mode == WindowMode::Fullscreen {
        WindowMode::Windowed
    } else {
        WindowMode::Fullscreen
    }
}

/// The mode a window moves to when fullscreen is toggled.
pub fn fullscreen_toggle_target(mode: WindowMode) -> (r: WindowMode)
    ensures
        r == toggled_mode(mode),
{
    match mode {
        WindowMode::Fullscreen => WindowMode::Windowed,
        WindowMode::Windowed | WindowMode::Hidden => WindowMode::Fullscreen,
    }
}

/// Toggling fullscreen twice returns a windowed or fullscreen window to the
/// mode it started in, and a toggle always changes the mode.
pub proof fn lemma_fullscreen_toggle_round_trip(mode: WindowMode)
    ensures
        toggled_mode(mode) != mode,
        mode != WindowMode::Hidden ==> toggled_mode(toggled_mode(mode)) == mode,
{
}

impl WindowExpandBehavior {
    /// Returns the concrete window command for this behavior.
    pub fn command(self) -> (r: WindowCommand)
        ensures
            r == expand_command_of(self),
    {
        match self {
            WindowExpandBehavior::Fullscreen => WindowCommand::ToggleFullscreen,
            WindowExpandBehavior::Maximize => WindowCommand::ToggleMaximize,
        }
    }

    /// Returns the matching icon for a custom green traffic-light control.
    pub fn icon(self) -> (r: UiIcon)
        ensures
            self == WindowExpandBehavior::Fullscreen ==> r == UiIcon::WindowZoom,
            self == WindowExpandBehavior::Maximize ==> r == UiIcon::WindowMaximize,
    {
        match self {
            WindowExpandBehavior::Fullscreen => UiIcon::WindowZoom,
            WindowExpandBehavior::Maximize => UiIcon::WindowMaximize,
        }
    }
}

/// Common settings for a custom or native window shell.
///
/// [`IcedWindowPolicy::liquid_glass`] is the prepared configuration for
/// borderless transparent windows. Applications that use native decorations
/// can start from [`Default::default`] instead.
#[derive(Clone, Copy, Debug, PartialEq, Eq, Structural)]
pub struct IcedWindowPolicy {
    /// Whether the window has native decorations.
    pub decorations: bool,
    /// Whether the window can be resized.
    pub resizable: bool,
    /// Whether the native close affordance is available when decorations are shown.
    pub closeable: bool,
    /// Whether the native minimize affordance is available when decorations are shown.
    pub minimizable: bool,
    /// Whether the surface is transparent.
    pub transparent: bool,
    /// Whether the platform compositor should blur the transparent surface.
    pub blur: bool,
    /// On macOS, whether content extends beneath the titlebar.
    pub extend_into_titlebar: bool,
    /// Whether a native close request closes the window automatically.
    pub exit_on_close_request: bool,
    /// The action and icon used by the custom green traffic-light control.
    pub expand_behavior: WindowExpandBehavior,
    /// Radius applied to the final compositor output of a transparent window.
    pub corner_radius: u16,
}

impl Default for IcedWindowPolicy {
    /// A natively decorated, opaque window that closes on request.
    fn default() -> (r: Self)
        ensures
            r == (IcedWindowPolicy {
                decorations: true,
                resizable: true,
                closeable: true,
                minimizable: true,
                transparent: false,
                blur: false,
                extend_into_titlebar: false,
                exit_on_close_request: true,
                expand_behavior: WindowExpandBehavior::Fullscreen,
                corner_radius: 0,
            }),
    {
        IcedWindowPolicy {
            decorations: true,
            resizable: true,
            closeable: true,
            minimizable: true,
            transparent: false,
            blur: false,
            extend_into_titlebar: false,
            exit_on_close_request: true,
            expand_behavior: WindowExpandBehavior::default(),
            corner_radius: 0,
        }
    }
}

impl IcedWindowPolicy {
    /// Returns the prepared policy for a borderless Liquid Glass window.
    pub fn liquid_glass() -> (r: Self)
        ensures
            r == (IcedWindowPolicy {
                decorations: false,
                resizable: true,
                closeable: true,
                minimizable: true,
                transparent: true,
                blur: true,
                extend_into_titlebar: true,
                exit_on_close_request: true,
                expand_behavior: WindowExpandBehavior::Fullscreen,
                corner_radius: DEFAULT_WINDOW_CORNER_RADIUS,
            }),
    {
        IcedWindowPolicy {
            decorations: false,
            resizable: true,
            closeable: true,
            minimizable: true,
            transparent: true,
            blur: true,
            extend_into_titlebar: true,
            exit_on_close_request: true,
            expand_behavior: WindowExpandBehavior::Fullscreen,
            corner_radius: DEFAULT_WINDOW_CORNER_RADIUS,
        }
    }

    /// Returns a copy that lets the application handle close requests first.
    pub fn manual_close(self) -> (r: Self)
        ensures
            r == (IcedWindowPolicy { exit_on_close_request: false, ..self }),
    {
        IcedWindowPolicy { exit_on_close_request: false, ..self }
    }

    /// Returns a copy using `behavior` for the green traffic-light control.
    pub fn with_expand_behavior(self, behavior: WindowExpandBehavior) -> (r: Self)
        ensures
            r == (IcedWindowPolicy { expand_behavior: behavior, ..self }),
    {
        IcedWindowPolicy { expand_behavior: behavior, ..self }
    }

    /// Returns a copy with a custom compositor window radius.
    pub fn with_corner_radius(self, radius: u16) -> (r: Self)
        ensures
            r == (IcedWindowPolicy { corner_radius: radius, ..self }),
    {
        IcedWindowPolicy { corner_radius: radius, ..self }
    }

    /// Returns the compositor window radius in logical points.
    pub fn corner_radius(self) -> (r: u16)
        ensures
            r == self.corner_radius,
    {
        self.corner_radius
    }

    /// Whether the compositor blurs the window: the policy asks for blur and
    /// the platform (Linux or macOS) can blur a transparent surface.
    pub fn compositor_blur(self, platform_supports_blur: bool) -> (r: bool)
        ensures
            r == (self.blur && platform_supports_blur),
    {
        self.blur && platform_supports_blur
    }

    /// Returns the command represented by this window's green control.
    pub fn expand_command(self) -> (r: WindowCommand)
        ensures
            r == WindowCommand::ToggleExpand(self.expand_behavior),
    {
        WindowCommand::ToggleExpand(self.expand_behavior)
    }
}

/// The part of a window event that the controller reacts to.
#[derive(Clone, Copy, Debug, PartialEq, Eq, Structural)]
pub enum WindowEvent {
    /// A window was opened.
    Opened,
    /// A window was closed.
    Closed,
    /// A window gained focus.
    Focused,
    /// A window lost focus.
    Unfocused,
    /// Any other window event (moves, resizes, redraws, ...).
    Other,
}

/// The abstract state of a controller: the attached window, if any, and
/// whether that window is focused.
pub struct ControllerState {
    pub id: Option<Id>,
    pub focused: bool,
}

/// The state a controller moves to when it observes `event` for window `id`.
pub open spec fn observe_spec(s: ControllerState, id: Id, event: WindowEvent) -> ControllerState {
    match event {
        WindowEvent::Opened => if s.id is None {
            ControllerState { id: Some(id), focused: s.focused }
        } else {
            s
        },
        WindowEvent::Closed => if s.id == Some(id) {
            ControllerState { id: None, focused: false }
        } else {
            s
        },
        WindowEvent::Focused => if s.id == Some(id) {
            ControllerState { id: s.id, focused: true }
        } else {
            s
        },
        WindowEvent::Unfocused => if s.id == Some(id) {
            ControllerState { id: s.id, focused: false }
        } else {
            s
        },
        WindowEvent::Other => s,
    }
}

/// Small reusable controller that owns the target window ID and lifecycle state.
///
/// The controller deliberately does not own application state or decide what
/// a close request means. It only tracks the window and whether it is focused.
#[derive(Clone, Copy, Debug, PartialEq, Eq)]
pub struct IcedWindowController {
    id: Option<Id>,
    focused: bool,
}

impl View for IcedWindowController {
    type V = ControllerState;

    closed spec fn view(&self) -> ControllerState {
        ControllerState { id: self.id, focused: self.focused }
    }
}

impl IcedWindowController {
    /// Creates a controller that is not attached to a window yet.
    pub fn new() -> (r: Self)
        ensures
            r@.id is None,
            !r@.focused,
    {
        IcedWindowController { id: None, focused: false }
    }

    /// Creates a controller attached to an existing window ID.
    pub fn from_id(id: Id) -> (r: Self)
        ensures
            r@.id == Some(id),
            !r@.focused,
    {
        IcedWindowController { id: Some(id), focused: false }
    }

    /// Returns the currently attached window ID, if the window is open.
    pub fn id(self) -> (r: Option<Id>)
        ensures
            r == self@.id,
    {
        self.id
    }

    /// Returns whether the tracked window is currently focused.
    pub fn is_focused(self) -> (r: bool)
        ensures
            r == self@.focused,
    {
        self.focused
    }

    /// Attaches the controller to `id`.
    pub fn attach(&mut self, id: Id)
        ensures
            final(self)@.id == Some(id),
            final(self)@.focused == old(self)@.focused,
    {
        self.id = Some(id);
    }

    /// Whether the controller is attached to exactly the window `id`.
    fn tracks(&self, id: &Id) -> (r: bool)
        ensures
            r == (self@.id == Some(*id)),
    {
        match &self.id {
            Some(current) => same_window(current, id),
            None => false,
        }
    }

    /// Applies one window event to the controller.
    ///
    /// A controller ignores events belonging to another window. This makes it
    /// safe to use one controller per window when an application opens more
    /// than one document or preferences window.
    pub fn observe(&mut self, id: Id, event: WindowEvent)
        ensures
            final(self)@ == observe_spec(old(self)@, id, event),
            old(self)@.id is None && event != WindowEvent::Opened ==> final(self)@ == old(self)@,
            old(self)@.id != Some(id) && event != WindowEvent::Opened ==> final(self)@ == old(self)@,
            event == WindowEvent::Opened && old(self)@.id is None ==> final(self)@.id == Some(id)
                && final(self)@.focused == old(self)@.focused,
            event == WindowEvent::Opened && old(self)@.id is Some ==> final(self)@ == old(self)@,
            old(self)@.id == Some(id) && event == WindowEvent::Focused ==> final(self)@.id == Some(id)
                && final(self)@.focused,
            old(self)@.id == Some(id) && event == WindowEvent::Unfocused ==> final(self)@.id == Some(id)
                && !final(self)@.focused,
            old(self)@.id == Some(id) && event == WindowEvent::Closed ==> final(self)@.id is None
                && !final(self)@.focused,
    {
        match event {
            WindowEvent::Opened => {
                if self.id.is_none() {
                    self.id = Some(id);
                }
            },
            WindowEvent::Closed => {
                if self.tracks(&id) {
                    self.id = None;
                    self.focused = false;
                }
            },
            WindowEvent::Focused => {
                if self.tracks(&id) {
                    self.focused = true;
                }
            },
            WindowEvent::Unfocused => {
                if self.tracks(&id) {
                    self.focused = false;
                }
            },
            WindowEvent::Other => {},
        }
    }
}

/// Once a controller is attached, events that belong to any other window
/// leave it exactly as it was.
pub proof fn lemma_other_windows_are_ignored(s: ControllerState, id: Id, event: WindowEvent)
    requires
        s.id is Some,
        s.id != Some(id),
    ensures
        observe_spec(s, id, event) == s,
{
}

/// Only an Opened event attaches a detached controller: every other event,
/// whatever window it belongs to, leaves a detached controller unchanged.
/// Focus, unfocus and close events change a controller only when they
/// belong to the window it tracks.
pub proof fn lemma_only_open_attaches(s: ControllerState, id: Id, event: WindowEvent)
    ensures
        s.id is None && event != WindowEvent::Opened ==> observe_spec(s, id, event) == s,
        s.id != Some(id) && event != WindowEvent::Opened ==> observe_spec(s, id, event) == s,
        s.id is Some && event == WindowEvent::Opened ==> observe_spec(s, id, event) == s,
        observe_spec(s, id, event).id is Some && s.id is None ==> event == WindowEvent::Opened && observe_spec(s, id, event).id == Some(id),
{
}

/// Closing the tracked window detaches the controller and clears its focus;
/// after that, the next window that opens is adopted.
pub proof fn lemma_close_detaches_then_reopen_attaches(s: ControllerState, id: Id, next: Id)
    requires
        s.id == Some(id),
    ensures
        observe_spec(s, id, WindowEvent::Closed) == (ControllerState { id: None, focused: false }),
        observe_spec(observe_spec(s, id, WindowEvent::Closed), next, WindowEvent::Opened)
            == (ControllerState { id: Some(next), focused: false }),
{
}

/// Focus tracking follows the last focus event of the tracked window:
/// focusing then unfocusing leaves the window unfocused and still attached.
pub proof fn lemma_focus_follows_last_event(s: ControllerState, id: Id)
    requires
        s.id == Some(id),
    ensures
        observe_spec(s, id, WindowEvent::Focused).focused,
        observe_spec(s, id, WindowEvent::Focused).id == s.id,
        !observe_spec(observe_spec(s, id, WindowEvent::Focused), id, WindowEvent::Unfocused).focused,
        observe_spec(observe_spec(s, id, WindowEvent::Focused), id, WindowEvent::Unfocused).id == s.id,
{
}

} // verus!
