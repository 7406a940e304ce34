use liquid_glass::context_menu::{
    accessory_tone, has_leading_slot, icon_tone, leading_slot, pill_appearance, trailing_slot,
    LeadingSlot, MenuItem, MenuTone, PillAppearance, PillFill, RowStatus, TrailingSlot,
};
use liquid_glass::icon::UiIcon;

#[derive(Debug, Clone, PartialEq, Eq)]
enum TestMsg {
    Cut,
    Delete,
    ToggleLineNumbers,
}

#[test]
fn test_menu_item_builders() {
    let cut = MenuItem::action("Settings")
        .with_shortcut("⌘,")
        .with_icon(UiIcon::Gear)
        .on_press(TestMsg::Cut);

    if let MenuItem::Action { label, shortcut, icon, destructive, disabled, on_press } = cut {
        assert_eq!(label, "Settings");
        assert_eq!(shortcut.as_deref(), Some("⌘,"));
        assert_eq!(icon, Some(UiIcon::Gear));
        assert!(!destructive);
        assert!(!disabled);
        assert_eq!(on_press, Some(TestMsg::Cut));
    } else {
        panic!("Expected Action variant");
    }

    let delete = MenuItem::action("Delete")
        .with_destructive(true)
        .with_disabled(true)
        .on_press(TestMsg::Delete);

    if let MenuItem::Action { destructive, disabled, .. } = delete {
        assert!(destructive);
        assert!(disabled);
    } else {
        panic!("Expected Action variant");
    }

    let chk = MenuItem::checkbox("Show Line Numbers", true).on_toggle(TestMsg::ToggleLineNumbers);

    if let MenuItem::Checkbox { label, checked, on_toggle, .. } = chk {
        assert_eq!(label, "Show Line Numbers");
        assert!(checked);
        assert_eq!(on_toggle, Some(TestMsg::ToggleLineNumbers));
    } else {
        panic!("Expected Checkbox variant");
    }

    let sub = MenuItem::<TestMsg>::submenu("Share");
    if let MenuItem::Submenu { label, .. } = sub {
        assert_eq!(label, "Share");
    } else {
        panic!("Expected Submenu variant");
    }

    let sec = MenuItem::<TestMsg>::section("EDITING");
    if let MenuItem::Section(title) = sec {
        assert_eq!(title, "EDITING");
    } else {
        panic!("Expected Section variant");
    }

    let sep = MenuItem::<TestMsg>::separator();
    assert!(matches!(sep, MenuItem::Separator));
}

#[test]
fn builders_ignore_items_they_do_not_apply_to() {
    let sep = MenuItem::<TestMsg>::separator()
        .with_shortcut("⌘X")
        .with_icon(UiIcon::Gear)
        .with_destructive(true)
        .with_disabled(true)
        .on_press(TestMsg::Cut)
        .on_toggle(TestMsg::Cut);
    assert!(matches!(sep, MenuItem::Separator));

    let check = MenuItem::checkbox("Wrap", false)
        .with_shortcut("⌘W")
        .with_icon(UiIcon::Gear)
        .on_press(TestMsg::Cut)
        .with_disabled(true);
    if let MenuItem::Checkbox { label, checked, disabled, on_toggle } = check {
        assert_eq!(label, "Wrap");
        assert!(!checked);
        assert!(disabled);
        assert_eq!(on_toggle, None);
    } else {
        panic!("Expected Checkbox variant");
    }

    let sub = MenuItem::<TestMsg>::submenu("Share").with_icon(UiIcon::Bell).with_destructive(true);
    if let MenuItem::Submenu { icon, disabled, on_hover, .. } = sub {
        assert_eq!(icon, Some(UiIcon::Bell));
        assert!(!disabled);
        assert_eq!(on_hover, None);
    } else {
        panic!("Expected Submenu variant");
    }
}

#[test]
fn leading_column_appears_for_checkmarks_and_icons() {
    let plain: Vec<MenuItem<TestMsg>> =
        vec![MenuItem::section("CLIPBOARD"), MenuItem::action("Cut"), MenuItem::separator()];
    assert!(!has_leading_slot(&plain));

    let with_check = vec![MenuItem::<TestMsg>::action("Cut"), MenuItem::checkbox("Numbers", false)];
    assert!(has_leading_slot(&with_check));

    let with_icon = vec![MenuItem::<TestMsg>::submenu("Share").with_icon(UiIcon::Gear)];
    assert!(has_leading_slot(&with_icon));
    assert!(!has_leading_slot::<TestMsg>(&[]));

    assert_eq!(leading_slot(false, true, Some(UiIcon::Gear)), LeadingSlot::Absent);
    assert_eq!(leading_slot(true, true, Some(UiIcon::Gear)), LeadingSlot::Checkmark);
    assert_eq!(leading_slot(true, false, Some(UiIcon::Gear)), LeadingSlot::Icon(UiIcon::Gear));
    assert_eq!(leading_slot(true, false, None), LeadingSlot::Spacer);

    assert_eq!(trailing_slot(true, true), TrailingSlot::Shortcut);
    assert_eq!(trailing_slot(false, true), TrailingSlot::Chevron);
    assert_eq!(trailing_slot(false, false), TrailingSlot::Nothing);
}

#[test]
fn row_tones_and_highlights_follow_state() {
    assert_eq!(icon_tone(true, true), MenuTone::Tertiary);
    assert_eq!(icon_tone(false, true), MenuTone::Destructive);
    assert_eq!(icon_tone(false, false), MenuTone::Secondary);
    assert_eq!(accessory_tone(true), MenuTone::Tertiary);
    assert_eq!(accessory_tone(false), MenuTone::Secondary);

    let disabled = PillAppearance { fill: PillFill::Clear, text: MenuTone::Tertiary, rounded: false };
    assert_eq!(pill_appearance(RowStatus::Hovered, true, true), disabled);
    assert_eq!(
        pill_appearance(RowStatus::Pressed, false, false),
        PillAppearance { fill: PillFill::Accent, text: MenuTone::White, rounded: true }
    );
    assert_eq!(
        pill_appearance(RowStatus::Hovered, true, false),
        PillAppearance { fill: PillFill::Destructive, text: MenuTone::White, rounded: true }
    );
    assert_eq!(
        pill_appearance(RowStatus::Active, true, false),
        PillAppearance { fill: PillFill::Clear, text: MenuTone::Destructive, rounded: false }
    );
    assert_eq!(
        pill_appearance(RowStatus::Disabled, false, false),
        PillAppearance { fill: PillFill::Clear, text: MenuTone::Primary, rounded: false }
    );
}
