//! Context menu entries: actions, checkable toggles, submenus, section
//! headers and separators, with builder methods that only touch the fields
//! of the kinds of entry they apply to.

use vstd::prelude::*;
use crate::icon::UiIcon;

verus! {

/// A single item entry within a context menu.
#[derive(Debug, Clone)]
pub enum MenuItem<Message> {
    /// A clickable action item with optional shortcut, icon, and destructive styling.
    Action {
        label: String,
        shortcut: Option<String>,
        icon: Option<UiIcon>,
        destructive: bool,
        disabled: bool,
        on_press: Option<Message>,
    },
    /// A toggleable item displaying a leading checkmark when active.
    Checkbox { label: String, checked: bool, disabled: bool, on_toggle: Option<Message> },
    /// A submenu item with a trailing disclosure chevron indicating hierarchy.
    Submenu { label: String, icon: Option<UiIcon>, disabled: bool, on_hover: Option<Message> },
    /// An informational non-clickable section header.
    Section(String),
    /// A subtle divider line separating logical item groups.
    Separator,
}

/// The text view of an optional string.
pub open spec fn optional_chars(o: Option<String>) -> Option<Seq<char>> {
    match o {
        Some(s) => Some(s@),
        None => None,
    }
}

impl<Message: Clone> MenuItem<Message> {
    /// Creates a standard clickable action item.
    pub fn action(label: &str) -> (r: Self)
        ensures
            r matches MenuItem::Action { label: l, shortcut, icon, destructive, disabled, on_press }
                && l@ == label@ && shortcut is None && icon is None && !destructive && !disabled
                && on_press is None,
    {
        MenuItem::Action {
            label: label.to_string(),
            shortcut: None,
            icon: None,
            destructive: false,
            disabled: false,
            on_press: None,
        }
    }

    /// Creates a checkable toggle item.
    pub fn checkbox(label: &str, checked: bool) -> (r: Self)
        ensures
            r matches MenuItem::Checkbox { label: l, checked: c, disabled, on_toggle } && l@ == label@
                && c == checked && !disabled && on_toggle is None,
    {
        MenuItem::Checkbox { label: label.to_string(), checked, disabled: false, on_toggle: None }
    }

    /// Creates a submenu item pointing to an expanded submenu.
    pub fn submenu(label: &str) -> (r: Self)
        ensures
            r matches MenuItem::Submenu { label: l, icon, disabled, on_hover } && l@ == label@
                && icon is None && !disabled && on_hover is None,
    {
        MenuItem::Submenu { label: label.to_string(), icon: None, disabled: false, on_hover: None }
    }

    /// Creates an informational section header label.
    pub fn section(label: &str) -> (r: Self)
        ensures
            r matches MenuItem::Section(l) && l@ == label@,
    {
        MenuItem::Section(label.to_string())
    }

    /// Creates a thin horizontal separator line.
    pub fn separator() -> (r: Self)
        ensures
            r is Separator,
    {
        MenuItem::Separator
    }

    /// Attaches a keyboard shortcut string (e.g. `"⌘C"`) to an action item;
    /// other items are returned unchanged.
    pub fn with_shortcut(self, shortcut: &str) -> (r: Self)
        ensures
            self is Action ==> (r matches MenuItem::Action {
                label,
                shortcut: s,
                icon,
                destructive,
                disabled,
                on_press,
            } && label == self->Action_label && optional_chars(s) == Some(shortcut@) && icon
                == self->Action_icon && destructive == self->Action_destructive && disabled
                == self->Action_disabled && on_press == self->Action_on_press),
            !(self is Action) ==> r == self,
    {
        match self {
            MenuItem::Action { label, shortcut: _, icon, destructive, disabled, on_press } => {
                MenuItem::Action {
                    label,
                    shortcut: Some(shortcut.to_string()),
                    icon,
                    destructive,
                    disabled,
                    on_press,
                }
            },
            other => other,
        }
    }

    /// Attaches an icon displayed in the leading slot of an action or submenu
    /// item; other items are returned unchanged.
    pub fn with_icon(self, icon: UiIcon) -> (r: Self)
        ensures
            self is Action ==> r == (MenuItem::Action {
                label: self->Action_label,
                shortcut: self->Action_shortcut,
                icon: Some(icon),
                destructive: self->Action_destructive,
                disabled: self->Action_disabled,
                on_press: self->Action_on_press,
            }),
            self is Submenu ==> r == (MenuItem::Submenu {
                label: self->Submenu_label,
                icon: Some(icon),
                disabled: self->Submenu_disabled,
                on_hover: self->Submenu_on_hover,
            }),
            !(self is Action) && !(self is Submenu) ==> r == self,
    {
        match self {
            MenuItem::Action { label, shortcut, icon: _, destructive, disabled, on_press } => {
                MenuItem::Action { label, shortcut, icon: Some(icon), destructive, disabled, on_press }
            },
            MenuItem::Submenu { label, icon: _, disabled, on_hover } => {
                MenuItem::Submenu { label, icon: Some(icon), disabled, on_hover }
            },
            other => other,
        }
    }

    /// Marks an action item as destructive (rendered in red with a red hover
    /// highlight); other items are returned unchanged.
    pub fn with_destructive(self, is_destructive: bool) -> (r: Self)
        ensures
            self is Action ==> r == (MenuItem::Action {
                label: self->Action_label,
                shortcut: self->Action_shortcut,
                icon: self->Action_icon,
                destructive: is_destructive,
                disabled: self->Action_disabled,
                on_press: self->Action_on_press,
            }),
            !(self is Action) ==> r == self,
    {
        match self {
            MenuItem::Action { label, shortcut, icon, destructive: _, disabled, on_press } => {
                MenuItem::Action { label, shortcut, icon, destructive: is_destructive, disabled, on_press }
            },
            other => other,
        }
    }

    /// Marks an action, checkbox or submenu item as disabled (non-interactive,
    /// visually muted); headers and separators are returned unchanged.
    pub fn with_disabled(self, is_disabled: bool) -> (r: Self)
        ensures
            self is Action ==> r == (MenuItem::Action {
                label: self->Action_label,
                shortcut: self->Action_shortcut,
                icon: self->Action_icon,
                destructive: self->Action_destructive,
                disabled: is_disabled,
                on_press: self->Action_on_press,
            }),
            self is Checkbox ==> r == (MenuItem::Checkbox {
                label: self->Checkbox_label,
                checked: self->Checkbox_checked,
                disabled: is_disabled,
                on_toggle: self->Checkbox_on_toggle,
            }),
            self is Submenu ==> r == (MenuItem::Submenu {
                label: self->Submenu_label,
                icon: self->Submenu_icon,
                disabled: is_disabled,
                on_hover: self->Submenu_on_hover,
            }),
            self is Section || self is Separator ==> r == self,
    {
        match self {
            MenuItem::Action { label, shortcut, icon, destructive, disabled: _, on_press } => {
                MenuItem::Action { label, shortcut, icon, destructive, disabled: is_disabled, on_press }
            },
            MenuItem::Checkbox { label, checked, disabled: _, on_toggle } => {
                MenuItem::Checkbox { label, checked, disabled: is_disabled, on_toggle }
            },
            MenuItem::Submenu { label, icon, disabled: _, on_hover } => {
                MenuItem::Submenu { label, icon, disabled: is_disabled, on_hover }
            },
            other => other,
        }
    }

    /// Sets the message emitted when an action item is clicked; other items
    /// are returned unchanged.
    pub fn on_press(self, msg: Message) -> (r: Self)
        ensures
            self is Action ==> r == (MenuItem::Action {
                label: self->Action_label,
                shortcut: self->Action_shortcut,
                icon: self->Action_icon,
                destructive: self->Action_destructive,
                disabled: self->Action_disabled,
                on_press: Some(msg),
            }),
            !(self is Action) ==> r == self,
    {
        match self {
            MenuItem::Action { label, shortcut, icon, destructive, disabled, on_press: _ } => {
                MenuItem::Action { label, shortcut, icon, destructive, disabled, on_press: Some(msg) }
            },
            other => other,
        }
    }

    /// Sets the message emitted when a checkbox item is clicked; other items
    /// are returned unchanged.
    pub fn on_toggle(self, msg: Message) -> (r: Self)
        ensures
            self is Checkbox ==> r == (MenuItem::Checkbox {
                label: self->Checkbox_label,
                checked: self->Checkbox_checked,
                disabled: self->Checkbox_disabled,
                on_toggle: Some(msg),
            }),
            !(self is Checkbox) ==> r == self,
    {
        match self {
            MenuItem::Checkbox { label, checked, disabled, on_toggle: _ } => {
                MenuItem::Checkbox { label, checked, disabled, on_toggle: Some(msg) }
            },
            other => other,
        }
    }
}

/// Whether an item draws something in the leading slot: a checkbox's
/// checkmark, or the icon of an action or submenu.
pub open spec fn needs_leading_slot<Message>(item: MenuItem<Message>) -> bool {
    match item {
        MenuItem::Checkbox { .. } => true,
        MenuItem::Action { icon, .. } => icon is Some,
        MenuItem::Submenu { icon, .. } => icon is Some,
        _ => false,
    }
}

/// Checkboxes always draw in the leading column, actions and submenus do
/// when they carry an icon, and section headers and separators never do.
pub proof fn lemma_leading_slot_items<Message>(item: MenuItem<Message>)
    ensures
        item is Checkbox ==> needs_leading_slot(item),
        (item matches MenuItem::Action { icon: Some(_), .. }) ==> needs_leading_slot(item),
        (item matches MenuItem::Submenu { icon: Some(_), .. }) ==> needs_leading_slot(item),
        (item matches MenuItem::Action { icon: None, .. }) ==> !needs_leading_slot(item),
        (item matches MenuItem::Submenu { icon: None, .. }) ==> !needs_leading_slot(item),
        (item is Section || item is Separator) ==> !needs_leading_slot(item),
{
}

/// Whether the menu reserves a leading column: rows align their labels when
/// any item draws a checkmark or an icon.
pub fn has_leading_slot<Message>(items: &[MenuItem<Message>]) -> (r: bool)
    ensures
        r == exists|i: int| 0 <= i < items@.len() && #[trigger] needs_leading_slot(items@[i]),
        forall|i: int| 0 <= i < items@.len() && #[trigger] items@[i] is Checkbox ==> r,
        forall|i: int|
            0 <= i < items@.len() && (#[trigger] items@[i] matches MenuItem::Action { icon: Some(_), .. })
                ==> r,
        forall|i: int|
            0 <= i < items@.len() && (#[trigger] items@[i] matches MenuItem::Submenu { icon: Some(_), .. })
                ==> r,
        r ==> exists|i: int|
            0 <= i < items@.len() && ((#[trigger] items@[i] is Checkbox) || (items@[i] matches MenuItem::Action {
                icon: Some(_),
                ..
            }) || (items@[i] matches MenuItem::Submenu { icon: Some(_), .. })),
{
    let mut i: usize = 0;
    while i < items.len()
        invariant
            i <= items@.len(),
            forall|j: int| 0 <= j < i ==> !needs_leading_slot(#[trigger] items@[j]),
        decreases items@.len() - i,
    {
        let needs = match &items[i] {
            MenuItem::Checkbox { .. } => true,
            MenuItem::Action { icon, .. } => icon.is_some(),
            MenuItem::Submenu { icon, .. } => icon.is_some(),
            _ => false,
        };
        if needs {
            assert(needs_leading_slot(items@[i as int]));
            return true;
        }
        i = i + 1;
    }
    false
}

/// What a row draws in its leading column.
#[derive(Clone, Copy, Debug, PartialEq, Eq, Structural)]
pub enum LeadingSlot {
    /// The menu has no leading column.
    Absent,
    /// A checkmark for a checked toggle.
    Checkmark,
    /// The item's icon.
    Icon(UiIcon),
    /// Empty space that keeps the label aligned with the other rows.
    Spacer,
}

/// The leading column of a row: a checkmark for a checked toggle, else the
/// item's icon, else aligning space; nothing when the menu has no column.
pub fn leading_slot(has_leading: bool, checked: bool, icon: Option<UiIcon>) -> (r: LeadingSlot)
    ensures
        r == (if !has_leading {
            LeadingSlot::Absent
        } else if checked {
            LeadingSlot::Checkmark
        } else if icon is Some {
            LeadingSlot::Icon(icon->0)
        } else {
            LeadingSlot::Spacer
        }),
{
    if !has_leading {
        LeadingSlot::Absent
    } else if checked {
        LeadingSlot::Checkmark
    } else {
        match icon {
            Some(i) => LeadingSlot::Icon(i),
            None => LeadingSlot::Spacer,
        }
    }
}

/// What a row draws at its trailing edge.
#[derive(Clone, Copy, Debug, PartialEq, Eq, Structural)]
pub enum TrailingSlot {
    Nothing,
    /// The keyboard shortcut text.
    Shortcut,
    /// A disclosure chevron pointing into a submenu.
    Chevron,
}

/// A row shows its shortcut when it has one, otherwise a chevron when it
/// opens a submenu.
pub fn trailing_slot(has_shortcut: bool, is_submenu: bool) -> (r: TrailingSlot)
    ensures
        r == (if has_shortcut {
            TrailingSlot::Shortcut
        } else if is_submenu {
            TrailingSlot::Chevron
        } else {
            TrailingSlot::Nothing
        }),
{
    if has_shortcut {
        TrailingSlot::Shortcut
    } else if is_submenu {
        TrailingSlot::Chevron
    } else {
        TrailingSlot::Nothing
    }
}

/// The palette tone a menu element is drawn with.
#[derive(Clone, Copy, Debug, PartialEq, Eq, Structural)]
pub enum MenuTone {
    Primary,
    Secondary,
    Tertiary,
    /// The red of destructive actions.
    Destructive,
    /// White text over a highlight pill.
    White,
}

/// The tone of a row's leading icon: muted when disabled, red for a
/// destructive action, secondary otherwise.
pub fn icon_tone(disabled: bool, destructive: bool) -> (r: MenuTone)
    ensures
        r == (if disabled {
            MenuTone::Tertiary
        } else if destructive {
            MenuTone::Destructive
        } else {
            MenuTone::Secondary
        }),
{
    if disabled {
        MenuTone::Tertiary
    } else if destructive {
        MenuTone::Destructive
    } else {
        MenuTone::Secondary
    }
}

/// The tone of a row's shortcut text or chevron: muted when disabled.
pub fn accessory_tone(disabled: bool) -> (r: MenuTone)
    ensures
        r == (if disabled { MenuTone::Tertiary } else { MenuTone::Secondary }),
{
    if disabled {
        MenuTone::Tertiary
    } else {
        MenuTone::Secondary
    }
}

/// The interaction status of a row button.
#[derive(Clone, Copy, Debug, PartialEq, Eq, Structural)]
pub enum RowStatus {
    Active,
    Hovered,
    Pressed,
    Disabled,
}

/// The fill behind a row.
#[derive(Clone, Copy, Debug, PartialEq, Eq, Structural)]
pub enum PillFill {
    /// No background.
    Clear,
    /// The accent-colored highlight pill.
    Accent,
    /// The red highlight pill of a destructive action.
    Destructive,
}

/// How a row is drawn in a given status.
#[derive(Clone, Copy, Debug, PartialEq, Eq, Structural)]
pub struct PillAppearance {
    pub fill: PillFill,
    pub text: MenuTone,
    /// Whether the fill uses the rounded highlight shape.
    pub rounded: bool,
}

/// The row highlight: disabled rows stay clear with muted text; a hovered or
/// pressed row gets a rounded accent pill (red for destructive actions) with
/// white text; otherwise the row is clear with primary (or red) text.
pub fn pill_appearance(status: RowStatus, destructive: bool, disabled: bool) -> (r: PillAppearance)
    ensures
        disabled ==> r == (PillAppearance { fill: PillFill::Clear, text: MenuTone::Tertiary, rounded: false }),
        !disabled && (status == RowStatus::Hovered || status == RowStatus::Pressed) ==> r == (PillAppearance {
            fill: if destructive { PillFill::Destructive } else { PillFill::Accent },
            text: MenuTone::White,
            rounded: true,
        }),
        !disabled && !(status == RowStatus::Hovered || status == RowStatus::Pressed) ==> r == (PillAppearance {
            fill: PillFill::Clear,
            text: if destructive { MenuTone::Destructive } else { MenuTone::Primary },
            rounded: false,
        }),
{
    if disabled {
        return PillAppearance { fill: PillFill::Clear, text: MenuTone::Tertiary, rounded: false };
    }
    match status {
        RowStatus::Hovered | RowStatus::Pressed => PillAppearance {
            fill: if destructive { PillFill::Destructive } else { PillFill::Accent },
            text: MenuTone::White,
            rounded: true,
        },
        _ => PillAppearance {
            fill: PillFill::Clear,
            text: if destructive { MenuTone::Destructive } else { MenuTone::Primary },
            rounded: false,
        },
    }
}

} // verus!
