//! Dock shelf model: the wallpaper pixel buffer, wallpaper and blur presets,
//! and the applications featured on the dock.

use vstd::prelude::*;
use std::sync::Arc;

verus! {

/// In-memory RGBA wallpaper buffer sampled by the dock's optical effects.
#[derive(Debug, Clone)]
pub struct WallpaperBuffer {
    pub width: u32,
    pub height: u32,
    pub pixels: Arc<Vec<u8>>,
}

impl WallpaperBuffer {
    /// Wraps `pixels` (RGBA, row-major) as a `width` by `height` buffer.
    pub fn new(width: u32, height: u32, pixels: Vec<u8>) -> (r: Self)
        ensures
            r.width == width,
            r.height == height,
            *r.pixels == pixels,
    {
        WallpaperBuffer { width, height, pixels: Arc::new(pixels) }
    }
}

/// Available colorful test patterns and atmospheric wallpapers.
#[derive(Debug, Clone, Copy, PartialEq, Eq, Structural)]
pub enum WallpaperStyle {
    /// Fully transparent through to the desktop wallpaper.
    DesktopTransparent,
    AuroraMesh,
    SunsetGaze,
    TvColorBars,
    TvSmpteSplit,
    TvColorGrid,
    PureWhite,
    PureBlack,
}

impl Default for WallpaperStyle {
    fn default() -> (r: Self)
        ensures
            r == WallpaperStyle::DesktopTransparent,
    {
        WallpaperStyle::DesktopTransparent
    }
}

/// The picker label of each wallpaper style.
pub open spec fn wallpaper_label(style: WallpaperStyle) -> Seq<char> {
    match style {
        WallpaperStyle::DesktopTransparent => "🖥️ 系统壁纸"@,
        WallpaperStyle::AuroraMesh => "极光"@,
        WallpaperStyle::SunsetGaze => "日落"@,
        WallpaperStyle::TvColorBars => "彩条"@,
        WallpaperStyle::TvSmpteSplit => "SMPTE"@,
        WallpaperStyle::TvColorGrid => "网格"@,
        WallpaperStyle::PureWhite => "纯白"@,
        WallpaperStyle::PureBlack => "纯黑"@,
    }
}

impl WallpaperStyle {
    /// Every style, in picker order.
    pub const ALL: [WallpaperStyle; 8] = [
        WallpaperStyle::DesktopTransparent,
        WallpaperStyle::AuroraMesh,
        WallpaperStyle::SunsetGaze,
        WallpaperStyle::TvColorBars,
        WallpaperStyle::TvSmpteSplit,
        WallpaperStyle::TvColorGrid,
        WallpaperStyle::PureWhite,
        WallpaperStyle::PureBlack,
    ];

    pub fn label(self) -> (r: &'static str)
        ensures
            r@ == wallpaper_label(self),
    {
        match self {
            WallpaperStyle::DesktopTransparent => "🖥️ 系统壁纸",
            WallpaperStyle::AuroraMesh => "极光",
            WallpaperStyle::SunsetGaze => "日落",
            WallpaperStyle::TvColorBars => "彩条",
            WallpaperStyle::TvSmpteSplit => "SMPTE",
            WallpaperStyle::TvColorGrid => "网格",
            WallpaperStyle::PureWhite => "纯白",
            WallpaperStyle::PureBlack => "纯黑",
        }
    }
}

/// Blur strength presets with fine-grained low-radius resolution (0pt to 16pt)
/// and high-end diffusion capping at 64pt.
#[derive(Debug, Clone, Copy, PartialEq, Eq, Structural)]
pub enum BlurPreset {
    Zero0,
    Subtle2,
    Subtle4,
    Subtle8,
    Medium12,
    Standard16,
    Enhanced24,
    Heavy32,
    Ultra48,
    Max64,
}

impl Default for BlurPreset {
    fn default() -> (r: Self)
        ensures
            r == BlurPreset::Standard16,
    {
        BlurPreset::Standard16
    }
}

/// The descriptive label of each blur preset.
pub open spec fn blur_label(preset: BlurPreset) -> Seq<char> {
    match preset {
        BlurPreset::Zero0 => "0pt 纯透无磨砂"@,
        BlurPreset::Subtle2 => "2pt 极微折射"@,
        BlurPreset::Subtle4 => "4pt 轻微雾面"@,
        BlurPreset::Subtle8 => "8pt 经典微磨砂"@,
        BlurPreset::Medium12 => "12pt 浅层高斯"@,
        BlurPreset::Standard16 => "16pt 标准毛玻璃"@,
        BlurPreset::Enhanced24 => "24pt 强磨砂"@,
        BlurPreset::Heavy32 => "32pt 深度弥散"@,
        BlurPreset::Ultra48 => "48pt 极深毛玻璃"@,
        BlurPreset::Max64 => "64pt 全弥散上限"@,
    }
}

/// The compact label of each blur preset: its radius in points.
pub open spec fn blur_short_label(preset: BlurPreset) -> Seq<char> {
    match preset {
        BlurPreset::Zero0 => "0pt"@,
        BlurPreset::Subtle2 => "2pt"@,
        BlurPreset::Subtle4 => "4pt"@,
        BlurPreset::Subtle8 => "8pt"@,
        BlurPreset::Medium12 => "12pt"@,
        BlurPreset::Standard16 => "16pt"@,
        BlurPreset::Enhanced24 => "24pt"@,
        BlurPreset::Heavy32 => "32pt"@,
        BlurPreset::Ultra48 => "48pt"@,
        BlurPreset::Max64 => "64pt"@,
    }
}

impl BlurPreset {
    /// Every preset, from no blur to the strongest.
    pub const ALL: [BlurPreset; 10] = [
        BlurPreset::Zero0,
        BlurPreset::Subtle2,
        BlurPreset::Subtle4,
        BlurPreset::Subtle8,
        BlurPreset::Medium12,
        BlurPreset::Standard16,
        BlurPreset::Enhanced24,
        BlurPreset::Heavy32,
        BlurPreset::Ultra48,
        BlurPreset::Max64,
    ];

    pub fn label(self) -> (r: &'static str)
        ensures
            r@ == blur_label(self),
    {
        match self {
            BlurPreset::Zero0 => "0pt 纯透无磨砂",
            BlurPreset::Subtle2 => "2pt 极微折射",
            BlurPreset::Subtle4 => "4pt 轻微雾面",
            BlurPreset::Subtle8 => "8pt 经典微磨砂",
            BlurPreset::Medium12 => "12pt 浅层高斯",
            BlurPreset::Standard16 => "16pt 标准毛玻璃",
            BlurPreset::Enhanced24 => "24pt 强磨砂",
            BlurPreset::Heavy32 => "32pt 深度弥散",
            BlurPreset::Ultra48 => "48pt 极深毛玻璃",
            BlurPreset::Max64 => "64pt 全弥散上限",
        }
    }

    pub fn short_label(self) -> (r: &'static str)
        ensures
            r@ == blur_short_label(self),
    {
        match self {
            BlurPreset::Zero0 => "0pt",
            BlurPreset::Subtle2 => "2pt",
            BlurPreset::Subtle4 => "4pt",
            BlurPreset::Subtle8 => "8pt",
            BlurPreset::Medium12 => "12pt",
            BlurPreset::Standard16 => "16pt",
            BlurPreset::Enhanced24 => "24pt",
            BlurPreset::Heavy32 => "32pt",
            BlurPreset::Ultra48 => "48pt",
            BlurPreset::Max64 => "64pt",
        }
    }
}

/// Application icons featured on the frosted dock.
#[derive(Debug, Clone, Copy, PartialEq, Eq, Structural)]
pub enum DockApp {
    Finder,
    Safari,
    Messages,
    Mail,
    Music,
    Photos,
    Terminal,
    Settings,
    Trash,
}

/// The display name of each dock application.
pub open spec fn dock_app_name(app: DockApp) -> Seq<char> {
    match app {
        DockApp::Finder => "访达"@,
        DockApp::Safari => "Safari浏览器"@,
        DockApp::Messages => "信息"@,
        DockApp::Mail => "邮件"@,
        DockApp::Music => "音乐"@,
        DockApp::Photos => "照片"@,
        DockApp::Terminal => "终端"@,
        DockApp::Settings => "系统设置"@,
        DockApp::Trash => "废纸篓"@,
    }
}

/// Where each dock application's icon is loaded from: an application bundle
/// path, or a `named:` system image.
pub open spec fn dock_app_path(app: DockApp) -> Seq<char> {
    match app {
        DockApp::Finder => "/System/Library/CoreServices/Finder.app"@,
        DockApp::Safari => "/Applications/Safari.app"@,
        DockApp::Messages => "/System/Applications/Messages.app"@,
        DockApp::Mail => "/System/Applications/Mail.app"@,
        DockApp::Music => "/System/Applications/Music.app"@,
        DockApp::Photos => "/System/Applications/Photos.app"@,
        DockApp::Terminal => "/System/Applications/Utilities/Terminal.app"@,
        DockApp::Settings => "/System/Applications/System Settings.app"@,
        DockApp::Trash => "named:NSTrashEmpty"@,
    }
}

impl DockApp {
    /// Every application, in dock order.
    pub const ALL: [DockApp; 9] = [
        DockApp::Finder,
        DockApp::Safari,
        DockApp::Messages,
        DockApp::Mail,
        DockApp::Music,
        DockApp::Photos,
        DockApp::Terminal,
        DockApp::Settings,
        DockApp::Trash,
    ];

    pub fn name(self) -> (r: &'static str)
        ensures
            r@ == dock_app_name(self),
    {
        match self {
            DockApp::Finder => "访达",
            DockApp::Safari => "Safari浏览器",
            DockApp::Messages => "信息",
            DockApp::Mail => "邮件",
            DockApp::Music => "音乐",
            DockApp::Photos => "照片",
            DockApp::Terminal => "终端",
            DockApp::Settings => "系统设置",
            DockApp::Trash => "废纸篓",
        }
    }

    pub fn system_app_path(self) -> (r: &'static str)
        ensures
            r@ == dock_app_path(self),
    {
        match self {
            DockApp::Finder => "/System/Library/CoreServices/Finder.app",
            DockApp::Safari => "/Applications/Safari.app",
            DockApp::Messages => "/System/Applications/Messages.app",
            DockApp::Mail => "/System/Applications/Mail.app",
            DockApp::Music => "/System/Applications/Music.app",
            DockApp::Photos => "/System/Applications/Photos.app",
            DockApp::Terminal => "/System/Applications/Utilities/Terminal.app",
            DockApp::Settings => "/System/Applications/System Settings.app",
            DockApp::Trash => "named:NSTrashEmpty",
        }
    }
}

} // verus!
