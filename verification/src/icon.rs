//! System icons available to UI components and the embedded assets behind them.

use vstd::prelude::*;

verus! {

/// A system icon available to UI components.
///
/// Most icons are SF Symbols extracted as vector SVG. A few are bespoke
/// colored assets that Apple ships only as raster images inside feature
/// bundles; those are extracted as PNG and never tinted.
#[derive(Clone, Copy, Debug, PartialEq, Eq, Hash, Structural)]
pub enum UiIcon {
    Gear,
    /// The Appearance tile glyph; automatically swaps between its light and
    /// dark renditions with the active color scheme, like the real Settings
    /// sidebar does.
    Appearance,
    /// The dark-scheme rendition of [`UiIcon::Appearance`]; rarely needed
    /// directly since `Appearance` self-themes.
    AppearanceDark,
    Bell,
    Privacy,
    Search,
    ChevronLeft,
    ChevronRight,
    Question,
    Info,
    Laptop,
    SoftwareUpdate,
    Keyboard,
    Mouse,
    Sound,
    Wifi,
    Bluetooth,
    SoftwareUpdateBadge,
    FileVault,
    Notifications,
    // System Settings sidebar assets. These are kept separate from the older
    // demo glyphs above because the sidebar assets include Apple's baked-in
    // color treatment where available.
    SystemAppleAccount,
    SystemFamilySharing,
    SystemWifi,
    SystemBluetooth,
    SystemNetwork,
    SystemVpn,
    SystemBattery,
    SystemGeneral,
    SystemAccessibility,
    SystemMenuBar,
    SystemSpotlight,
    SystemWallpaper,
    SystemAppearance,
    SystemDisplays,
    SystemDock,
    SystemSiri,
    SystemNotifications,
    SystemSound,
    SystemFocus,
    SystemScreenTime,
    SystemLockScreen,
    SystemPrivacySecurity,
    SystemTouchId,
    SystemUsersGroups,
    SystemInternetAccounts,
    SystemWallet,
    SystemGameCenter,
    SystemICloud,
    SystemAirPods,
    SystemKeyboard,
    SystemTrackpad,
    SystemGameController,
    SystemPrintersScanners,
    /// The glyph of a green traffic light that enters fullscreen.
    WindowZoom,
    /// The glyph of a green traffic light that maximizes into the work area.
    WindowMaximize,
}

/// The encoding of the asset embedded for a [`UiIcon`].
#[derive(Clone, Copy, Debug, PartialEq, Eq, Structural)]
pub enum UiIconFormat {
    /// A monochrome vector path, recolored through a color filter.
    Svg,
    /// A colored raster image whose baked-in colors are kept.
    Png,
}

/// The asset format of each icon.
pub open spec fn format_of(icon: UiIcon) -> Option<UiIconFormat> {
    match icon {
        UiIcon::Gear => Some(UiIconFormat::Svg),
        UiIcon::Appearance => Some(UiIconFormat::Svg),
        UiIcon::AppearanceDark => Some(UiIconFormat::Svg),
        UiIcon::Bell => Some(UiIconFormat::Svg),
        UiIcon::Privacy => Some(UiIconFormat::Svg),
        UiIcon::Search => Some(UiIconFormat::Svg),
        UiIcon::ChevronLeft => Some(UiIconFormat::Svg),
        UiIcon::ChevronRight => Some(UiIconFormat::Svg),
        UiIcon::Question => Some(UiIconFormat::Svg),
        UiIcon::Info => Some(UiIconFormat::Svg),
        UiIcon::Laptop => Some(UiIconFormat::Svg),
        UiIcon::SoftwareUpdate => Some(UiIconFormat::Svg),
        UiIcon::Keyboard => Some(UiIconFormat::Svg),
        UiIcon::Mouse => Some(UiIconFormat::Svg),
        UiIcon::Sound => Some(UiIconFormat::Svg),
        UiIcon::Wifi => Some(UiIconFormat::Svg),
        UiIcon::Bluetooth => Some(UiIconFormat::Png),
        UiIcon::SoftwareUpdateBadge => Some(UiIconFormat::Png),
        UiIcon::FileVault => Some(UiIconFormat::Png),
        UiIcon::Notifications => Some(UiIconFormat::Png),
        UiIcon::SystemAppleAccount => Some(UiIconFormat::Svg),
        UiIcon::SystemFamilySharing => Some(UiIconFormat::Png),
        UiIcon::SystemWifi => Some(UiIconFormat::Png),
        UiIcon::SystemBluetooth => Some(UiIconFormat::Png),
        UiIcon::SystemNetwork => Some(UiIconFormat::Png),
        UiIcon::SystemVpn => Some(UiIconFormat::Png),
        UiIcon::SystemBattery => Some(UiIconFormat::Png),
        UiIcon::SystemGeneral => Some(UiIconFormat::Png),
        UiIcon::SystemAccessibility => Some(UiIconFormat::Png),
        UiIcon::SystemMenuBar => Some(UiIconFormat::Png),
        UiIcon::SystemSpotlight => Some(UiIconFormat::Png),
        UiIcon::SystemWallpaper => Some(UiIconFormat::Svg),
        UiIcon::SystemAppearance => Some(UiIconFormat::Svg),
        UiIcon::SystemDisplays => Some(UiIconFormat::Png),
        UiIcon::SystemDock => Some(UiIconFormat::Png),
        UiIcon::SystemSiri => Some(UiIconFormat::Png),
        UiIcon::SystemNotifications => Some(UiIconFormat::Png),
        UiIcon::SystemSound => Some(UiIconFormat::Png),
        UiIcon::SystemFocus => Some(UiIconFormat::Png),
        UiIcon::SystemScreenTime => Some(UiIconFormat::Png),
        UiIcon::SystemLockScreen => Some(UiIconFormat::Svg),
        UiIcon::SystemPrivacySecurity => Some(UiIconFormat::Png),
        UiIcon::SystemTouchId => Some(UiIconFormat::Png),
        UiIcon::SystemUsersGroups => Some(UiIconFormat::Svg),
        UiIcon::SystemInternetAccounts => Some(UiIconFormat::Png),
        UiIcon::SystemWallet => Some(UiIconFormat::Png),
        UiIcon::SystemGameCenter => Some(UiIconFormat::Png),
        UiIcon::SystemICloud => Some(UiIconFormat::Png),
        UiIcon::SystemAirPods => Some(UiIconFormat::Png),
        UiIcon::SystemKeyboard => Some(UiIconFormat::Png),
        UiIcon::SystemTrackpad => Some(UiIconFormat::Png),
        UiIcon::SystemGameController => Some(UiIconFormat::Svg),
        UiIcon::SystemPrintersScanners => Some(UiIconFormat::Svg),
        UiIcon::WindowZoom | UiIcon::WindowMaximize => None,
    }
}

/// The asset file of each icon, relative to the crate's asset directory.
pub open spec fn asset_path_of(icon: UiIcon) -> Option<Seq<char>> {
    match icon {
        UiIcon::Gear => Some("icons/gear.svg"@),
        UiIcon::Appearance => Some("icons/appearance.svg"@),
        UiIcon::AppearanceDark => Some("icons/appearance_dark.svg"@),
        UiIcon::Bell => Some("icons/bell.svg"@),
        UiIcon::Privacy => Some("icons/privacy.svg"@),
        UiIcon::Search => Some("icons/search.svg"@),
        UiIcon::ChevronLeft => Some("icons/chevron_left.svg"@),
        UiIcon::ChevronRight => Some("icons/chevron_right.svg"@),
        UiIcon::Question => Some("icons/question.svg"@),
        UiIcon::Info => Some("icons/info.svg"@),
        UiIcon::Laptop => Some("icons/laptop.svg"@),
        UiIcon::SoftwareUpdate => Some("icons/software_update.svg"@),
        UiIcon::Keyboard => Some("icons/keyboard.svg"@),
        UiIcon::Mouse => Some("icons/mouse.svg"@),
        UiIcon::Sound => Some("icons/sound.svg"@),
        UiIcon::Wifi => Some("icons/wifi.svg"@),
        UiIcon::Bluetooth => Some("icons/bluetooth.png"@),
        UiIcon::SoftwareUpdateBadge => Some("icons/software_update_badge.png"@),
        UiIcon::FileVault => Some("icons/filevault.png"@),
        UiIcon::Notifications => Some("icons/notifications.png"@),
        UiIcon::SystemAppleAccount => Some("system-settings/01-apple-account.svg"@),
        UiIcon::SystemFamilySharing => Some("system-settings/02-family-sharing.png"@),
        UiIcon::SystemWifi => Some("system-settings/03-wifi.png"@),
        UiIcon::SystemBluetooth => Some("system-settings/04-bluetooth.png"@),
        UiIcon::SystemNetwork => Some("system-settings/05-network.png"@),
        UiIcon::SystemVpn => Some("system-settings/06-vpn.png"@),
        UiIcon::SystemBattery => Some("system-settings/07-battery.png"@),
        UiIcon::SystemGeneral => Some("system-settings/08-general.png"@),
        UiIcon::SystemAccessibility => Some("system-settings/09-accessibility.png"@),
        UiIcon::SystemMenuBar => Some("system-settings/10-menu-bar.png"@),
        UiIcon::SystemSpotlight => Some("system-settings/11-spotlight.png"@),
        UiIcon::SystemWallpaper => Some("system-settings/12-wallpaper.svg"@),
        UiIcon::SystemAppearance => Some("system-settings/13-appearance.svg"@),
        UiIcon::SystemDisplays => Some("system-settings/14-displays.png"@),
        UiIcon::SystemDock => Some("system-settings/15-dock.png"@),
        UiIcon::SystemSiri => Some("system-settings/16-siri.png"@),
        UiIcon::SystemNotifications => Some("system-settings/17-notifications.png"@),
        UiIcon::SystemSound => Some("system-settings/18-sound.png"@),
        UiIcon::SystemFocus => Some("system-settings/19-focus.png"@),
        UiIcon::SystemScreenTime => Some("system-settings/20-screen-time.png"@),
        UiIcon::SystemLockScreen => Some("system-settings/21-lock-screen.svg"@),
        UiIcon::SystemPrivacySecurity => Some("system-settings/22-privacy-security.png"@),
        UiIcon::SystemTouchId => Some("system-settings/23-touch-id.png"@),
        UiIcon::SystemUsersGroups => Some("system-settings/24-users-groups.svg"@),
        UiIcon::SystemInternetAccounts => Some("system-settings/25-internet-accounts.png"@),
        UiIcon::SystemWallet => Some("system-settings/26-wallet.png"@),
        UiIcon::SystemGameCenter => Some("system-settings/27-game-center.png"@),
        UiIcon::SystemICloud => Some("system-settings/28-icloud.png"@),
        UiIcon::SystemAirPods => Some("system-settings/29-airpods.png"@),
        UiIcon::SystemKeyboard => Some("system-settings/30-keyboard.png"@),
        UiIcon::SystemTrackpad => Some("system-settings/31-trackpad.png"@),
        UiIcon::SystemGameController => Some("system-settings/32-game-controller.svg"@),
        UiIcon::SystemPrintersScanners => Some("system-settings/33-printers-scanners.svg"@),
        UiIcon::WindowZoom | UiIcon::WindowMaximize => None,
    }
}

impl UiIcon {
    /// Whether the asset behind this icon is a vector (SVG) or raster (PNG)
    /// image; `None` for the traffic-light glyphs, which have no entry in the
    /// embedded asset table.
    pub fn asset_format(self) -> (r: Option<UiIconFormat>)
        ensures
            r == format_of(self),
    {
        match self {
            UiIcon::Gear => Some(UiIconFormat::Svg),
            UiIcon::Appearance => Some(UiIconFormat::Svg),
            UiIcon::AppearanceDark => Some(UiIconFormat::Svg),
            UiIcon::Bell => Some(UiIconFormat::Svg),
            UiIcon::Privacy => Some(UiIconFormat::Svg),
            UiIcon::Search => Some(UiIconFormat::Svg),
            UiIcon::ChevronLeft => Some(UiIconFormat::Svg),
            UiIcon::ChevronRight => Some(UiIconFormat::Svg),
            UiIcon::Question => Some(UiIconFormat::Svg),
            UiIcon::Info => Some(UiIconFormat::Svg),
            UiIcon::Laptop => Some(UiIconFormat::Svg),
            UiIcon::SoftwareUpdate => Some(UiIconFormat::Svg),
            UiIcon::Keyboard => Some(UiIconFormat::Svg),
            UiIcon::Mouse => Some(UiIconFormat::Svg),
            UiIcon::Sound => Some(UiIconFormat::Svg),
            UiIcon::Wifi => Some(UiIconFormat::Svg),
            UiIcon::Bluetooth => Some(UiIconFormat::Png),
            UiIcon::SoftwareUpdateBadge => Some(UiIconFormat::Png),
            UiIcon::FileVault => Some(UiIconFormat::Png),
            UiIcon::Notifications => Some(UiIconFormat::Png),
            UiIcon::SystemAppleAccount => Some(UiIconFormat::Svg),
            UiIcon::SystemFamilySharing => Some(UiIconFormat::Png),
            UiIcon::SystemWifi => Some(UiIconFormat::Png),
            UiIcon::SystemBluetooth => Some(UiIconFormat::Png),
            UiIcon::SystemNetwork => Some(UiIconFormat::Png),
            UiIcon::SystemVpn => Some(UiIconFormat::Png),
            UiIcon::SystemBattery => Some(UiIconFormat::Png),
            UiIcon::SystemGeneral => Some(UiIconFormat::Png),
            UiIcon::SystemAccessibility => Some(UiIconFormat::Png),
            UiIcon::SystemMenuBar => Some(UiIconFormat::Png),
            UiIcon::SystemSpotlight => Some(UiIconFormat::Png),
            UiIcon::SystemWallpaper => Some(UiIconFormat::Svg),
            UiIcon::SystemAppearance => Some(UiIconFormat::Svg),
            UiIcon::SystemDisplays => Some(UiIconFormat::Png),
            UiIcon::SystemDock => Some(UiIconFormat::Png),
            UiIcon::SystemSiri => Some(UiIconFormat::Png),
            UiIcon::SystemNotifications => Some(UiIconFormat::Png),
            UiIcon::SystemSound => Some(UiIconFormat::Png),
            UiIcon::SystemFocus => Some(UiIconFormat::Png),
            UiIcon::SystemScreenTime => Some(UiIconFormat::Png),
            UiIcon::SystemLockScreen => Some(UiIconFormat::Svg),
            UiIcon::SystemPrivacySecurity => Some(UiIconFormat::Png),
            UiIcon::SystemTouchId => Some(UiIconFormat::Png),
            UiIcon::SystemUsersGroups => Some(UiIconFormat::Svg),
            UiIcon::SystemInternetAccounts => Some(UiIconFormat::Png),
            UiIcon::SystemWallet => Some(UiIconFormat::Png),
            UiIcon::SystemGameCenter => Some(UiIconFormat::Png),
            UiIcon::SystemICloud => Some(UiIconFormat::Png),
            UiIcon::SystemAirPods => Some(UiIconFormat::Png),
            UiIcon::SystemKeyboard => Some(UiIconFormat::Png),
            UiIcon::SystemTrackpad => Some(UiIconFormat::Png),
            UiIcon::SystemGameController => Some(UiIconFormat::Svg),
            UiIcon::SystemPrintersScanners => Some(UiIconFormat::Svg),
            UiIcon::WindowZoom | UiIcon::WindowMaximize => None,
        }
    }

    /// The asset file embedded for this icon, relative to the asset directory;
    /// `None` for the traffic-light glyphs, which have no entry in the table.
    pub fn asset_path(self) -> (r: Option<&'static str>)
        ensures
            r is Some <==> asset_path_of(self) is Some,
            r is Some ==> r->0@ == asset_path_of(self)->0,
    {
        match self {
            UiIcon::Gear => Some("icons/gear.svg"),
            UiIcon::Appearance => Some("icons/appearance.svg"),
            UiIcon::AppearanceDark => Some("icons/appearance_dark.svg"),
            UiIcon::Bell => Some("icons/bell.svg"),
            UiIcon::Privacy => Some("icons/privacy.svg"),
            UiIcon::Search => Some("icons/search.svg"),
            UiIcon::ChevronLeft => Some("icons/chevron_left.svg"),
            UiIcon::ChevronRight => Some("icons/chevron_right.svg"),
            UiIcon::Question => Some("icons/question.svg"),
            UiIcon::Info => Some("icons/info.svg"),
            UiIcon::Laptop => Some("icons/laptop.svg"),
            UiIcon::SoftwareUpdate => Some("icons/software_update.svg"),
            UiIcon::Keyboard => Some("icons/keyboard.svg"),
            UiIcon::Mouse => Some("icons/mouse.svg"),
            UiIcon::Sound => Some("icons/sound.svg"),
            UiIcon::Wifi => Some("icons/wifi.svg"),
            UiIcon::Bluetooth => Some("icons/bluetooth.png"),
            UiIcon::SoftwareUpdateBadge => Some("icons/software_update_badge.png"),
            UiIcon::FileVault => Some("icons/filevault.png"),
            UiIcon::Notifications => Some("icons/notifications.png"),
            UiIcon::SystemAppleAccount => Some("system-settings/01-apple-account.svg"),
            UiIcon::SystemFamilySharing => Some("system-settings/02-family-sharing.png"),
            UiIcon::SystemWifi => Some("system-settings/03-wifi.png"),
            UiIcon::SystemBluetooth => Some("system-settings/04-bluetooth.png"),
            UiIcon::SystemNetwork => Some("system-settings/05-network.png"),
            UiIcon::SystemVpn => Some("system-settings/06-vpn.png"),
            UiIcon::SystemBattery => Some("system-settings/07-battery.png"),
            UiIcon::SystemGeneral => Some("system-settings/08-general.png"),
            UiIcon::SystemAccessibility => Some("system-settings/09-accessibility.png"),
            UiIcon::SystemMenuBar => Some("system-settings/10-menu-bar.png"),
            UiIcon::SystemSpotlight => Some("system-settings/11-spotlight.png"),
            UiIcon::SystemWallpaper => Some("system-settings/12-wallpaper.svg"),
            UiIcon::SystemAppearance => Some("system-settings/13-appearance.svg"),
            UiIcon::SystemDisplays => Some("system-settings/14-displays.png"),
            UiIcon::SystemDock => Some("system-settings/15-dock.png"),
            UiIcon::SystemSiri => Some("system-settings/16-siri.png"),
            UiIcon::SystemNotifications => Some("system-settings/17-notifications.png"),
            UiIcon::SystemSound => Some("system-settings/18-sound.png"),
            UiIcon::SystemFocus => Some("system-settings/19-focus.png"),
            UiIcon::SystemScreenTime => Some("system-settings/20-screen-time.png"),
            UiIcon::SystemLockScreen => Some("system-settings/21-lock-screen.svg"),
            UiIcon::SystemPrivacySecurity => Some("system-settings/22-privacy-security.png"),
            UiIcon::SystemTouchId => Some("system-settings/23-touch-id.png"),
            UiIcon::SystemUsersGroups => Some("system-settings/24-users-groups.svg"),
            UiIcon::SystemInternetAccounts => Some("system-settings/25-internet-accounts.png"),
            UiIcon::SystemWallet => Some("system-settings/26-wallet.png"),
            UiIcon::SystemGameCenter => Some("system-settings/27-game-center.png"),
            UiIcon::SystemICloud => Some("system-settings/28-icloud.png"),
            UiIcon::SystemAirPods => Some("system-settings/29-airpods.png"),
            UiIcon::SystemKeyboard => Some("system-settings/30-keyboard.png"),
            UiIcon::SystemTrackpad => Some("system-settings/31-trackpad.png"),
            UiIcon::SystemGameController => Some("system-settings/32-game-controller.svg"),
            UiIcon::SystemPrintersScanners => Some("system-settings/33-printers-scanners.svg"),
            UiIcon::WindowZoom | UiIcon::WindowMaximize => None,
        }
    }
}

} // verus!
