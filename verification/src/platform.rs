//! Platform boundary for window and display concerns.

use vstd::prelude::*;

verus! {

/// Where a transparent surface obtains the pixels behind the application.
#[derive(Clone, Copy, Debug, PartialEq, Eq, Structural)]
pub enum BackdropSource {
    /// The application owns an opaque background.
    Application,
    /// The operating-system compositor owns the pixels behind the window.
    Desktop,
    /// A caller-provided texture, commonly used for previews or tests.
    Texture,
}

impl Default for BackdropSource {
    fn default() -> (r: Self)
        ensures
            r == BackdropSource::Application,
    {
        BackdropSource::Application
    }
}

/// Window configuration that remains independent from any specific windowing backend.
#[derive(Clone, Copy, Debug, PartialEq, Eq, Structural)]
pub struct WindowConfig {
    pub transparent: bool,
    pub blur: bool,
    pub backdrop: BackdropSource,
    pub decorations: bool,
    pub resizable: bool,
}

impl Default for WindowConfig {
    /// An opaque, decorated, resizable window whose application draws its own background.
    fn default() -> (r: Self)
        ensures
            !r.transparent,
            !r.blur,
            r.backdrop == BackdropSource::Application,
            r.decorations,
            r.resizable,
    {
        WindowConfig {
            transparent: false,
            blur: false,
            backdrop: BackdropSource::Application,
            decorations: true,
            resizable: true,
        }
    }
}

impl WindowConfig {
    /// Configures a transparent window whose backdrop is supplied by the OS.
    pub fn desktop_backdrop() -> (r: Self)
        ensures
            r.transparent,
            r.blur,
            r.backdrop == BackdropSource::Desktop,
            r.decorations,
            r.resizable,
    {
        WindowConfig {
            transparent: true,
            blur: true,
            backdrop: BackdropSource::Desktop,
            decorations: true,
            resizable: true,
        }
    }
}

} // verus!
