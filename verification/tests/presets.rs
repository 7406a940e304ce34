use liquid_glass::dock::{BlurPreset, DockApp, WallpaperBuffer, WallpaperStyle};
use liquid_glass::geometry::CapsuleAxis;
use liquid_glass::icon::{UiIcon, UiIconFormat};
use liquid_glass::theme::{GlassRole, ThemeMode, UiColorScheme, UiTheme};

#[test]
fn wallpaper_buffer_keeps_its_pixels() {
    let buffer = WallpaperBuffer::new(2, 1, vec![1, 2, 3, 255, 4, 5, 6, 255]);
    assert_eq!(buffer.width, 2);
    assert_eq!(buffer.height, 1);
    assert_eq!(*buffer.pixels, vec![1, 2, 3, 255, 4, 5, 6, 255]);
}

#[test]
fn wallpaper_styles_have_labels() {
    assert_eq!(WallpaperStyle::ALL.len(), 8);
    assert_eq!(WallpaperStyle::default(), WallpaperStyle::DesktopTransparent);
    assert_eq!(WallpaperStyle::DesktopTransparent.label(), "🖥️ 系统壁纸");
    assert_eq!(WallpaperStyle::TvSmpteSplit.label(), "SMPTE");
    assert_eq!(WallpaperStyle::PureBlack.label(), "纯黑");
}

#[test]
fn blur_presets_label_their_radius() {
    assert_eq!(BlurPreset::ALL.len(), 10);
    assert_eq!(BlurPreset::default(), BlurPreset::Standard16);
    assert_eq!(BlurPreset::Standard16.label(), "16pt 标准毛玻璃");
    assert_eq!(BlurPreset::Max64.short_label(), "64pt");
    for preset in BlurPreset::ALL {
        assert!(preset.label().starts_with(preset.short_label()));
    }
}

#[test]
fn dock_apps_know_their_bundles() {
    assert_eq!(DockApp::ALL.len(), 9);
    assert_eq!(DockApp::ALL[0], DockApp::Finder);
    assert_eq!(DockApp::Finder.name(), "访达");
    assert_eq!(DockApp::Safari.system_app_path(), "/Applications/Safari.app");
    assert_eq!(DockApp::Trash.system_app_path(), "named:NSTrashEmpty");
    assert_eq!(DockApp::Settings.system_app_path(), "/System/Applications/System Settings.app");
}

#[test]
fn icon_assets_are_vector_or_raster() {
    for icon in [
        UiIcon::Gear,
        UiIcon::Appearance,
        UiIcon::AppearanceDark,
        UiIcon::ChevronRight,
        UiIcon::Wifi,
        UiIcon::SystemAppleAccount,
        UiIcon::SystemPrintersScanners,
    ] {
        assert_eq!(icon.asset_format(), Some(UiIconFormat::Svg), "{icon:?}");
        assert!(icon.asset_path().unwrap().ends_with(".svg"), "{icon:?}");
    }
    for icon in [
        UiIcon::Bluetooth,
        UiIcon::SoftwareUpdateBadge,
        UiIcon::FileVault,
        UiIcon::Notifications,
        UiIcon::SystemGeneral,
    ] {
        assert_eq!(icon.asset_format(), Some(UiIconFormat::Png), "{icon:?}");
        assert!(icon.asset_path().unwrap().ends_with(".png"), "{icon:?}");
    }
    assert_eq!(UiIcon::Gear.asset_path(), Some("icons/gear.svg"));
    assert_eq!(UiIcon::SystemGeneral.asset_path(), Some("system-settings/08-general.png"));
    assert_eq!(UiIcon::WindowZoom.asset_path(), None);
    assert_eq!(UiIcon::WindowMaximize.asset_format(), None);
}

#[test]
fn themes_resolve_their_scheme() {
    assert_eq!(UiTheme::light().scheme(), UiColorScheme::Light);
    assert_eq!(UiTheme::dark().scheme(), UiColorScheme::Dark);
    assert_eq!(UiTheme::default(), UiTheme::dark());
    assert_eq!(UiTheme::new(UiColorScheme::Light), UiTheme::light());
    assert_eq!(UiColorScheme::default(), UiColorScheme::Dark);
    assert_eq!(UiColorScheme::from_mode(ThemeMode::Light), UiColorScheme::Light);
    assert_eq!(UiColorScheme::from_mode(ThemeMode::Dark), UiColorScheme::Dark);
    assert_eq!(UiColorScheme::from_mode(ThemeMode::Unspecified), UiColorScheme::Dark);
    assert_ne!(GlassRole::InputField, GlassRole::SearchField);
    assert_ne!(CapsuleAxis::Horizontal, CapsuleAxis::Circle);
}
