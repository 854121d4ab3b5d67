//! The control surface as data: one submenu per option, one item per value,
//! and which item carries the check mark.
//!
//! The native widgets are built from this description. The check marks
//! follow the stored preference; the renderer follows the scheme in effect.

use vstd::prelude::*;
use crate::control::{SharedSettings, Write};
use crate::preferences::{OptionKind, UserPreferences};
use crate::settings::CUSTOM_IMAGE_SCHEME;

verus! {

/// Number of submenus: one per option.
pub const SUBMENU_COUNT: usize = 7;

/// Tag of the run-on-login item.
pub const LOGIN_ITEM_TAG: u32 = 100;

/// One item of a submenu.
#[derive(Clone, Copy, Debug, PartialEq, Eq)]
pub struct MenuItem {
    pub label: &'static str,
    /// The option value that the item stands for.
    pub tag: u32,
    pub checked: bool,
    /// Whether a separator stands before the item.
    pub separator_before: bool,
}

/// The submenu of one option.
#[derive(Clone, Debug, PartialEq, Eq)]
pub struct Submenu {
    pub title: &'static str,
    pub kind: OptionKind,
    pub items: Vec<MenuItem>,
}

/// The whole control surface, with the shared state it starts from.
#[derive(Clone, Debug, PartialEq, Eq)]
pub struct MenuBar {
    pub shared: SharedSettings,
    pub submenus: Vec<Submenu>,
    /// Whether the run-on-login item carries the check mark.
    pub run_on_login: bool,
}

/// The option of submenu `position`, in the order the submenus stand in.
pub open spec fn spec_kind_at(position: int) -> OptionKind {
    if position == 0 {
        OptionKind::ColorScheme
    } else if position == 1 {
        OptionKind::Density
    } else if position == 2 {
        OptionKind::NoiseStrength
    } else if position == 3 {
        OptionKind::LineLength
    } else if position == 4 {
        OptionKind::LineWidth
    } else if position == 5 {
        OptionKind::ViewScale
    } else {
        OptionKind::Brightness
    }
}

/// The position of the submenu of `kind`.
pub open spec fn spec_position_of(kind: OptionKind) -> int {
    match kind {
        OptionKind::ColorScheme => 0,
        OptionKind::Density => 1,
        OptionKind::NoiseStrength => 2,
        OptionKind::LineLength => 3,
        OptionKind::LineWidth => 4,
        OptionKind::ViewScale => 5,
        OptionKind::Brightness => 6,
    }
}

/// Number of values that `kind` offers.
pub open spec fn spec_option_count(kind: OptionKind) -> u32 {
    match kind {
        OptionKind::ColorScheme => 5,
        OptionKind::Density => 3,
        OptionKind::NoiseStrength => 4,
        OptionKind::LineLength => 4,
        OptionKind::LineWidth => 3,
        OptionKind::ViewScale => 3,
        OptionKind::Brightness => 4,
    }
}

/// The title of the submenu of `kind`.
pub open spec fn spec_option_title(kind: OptionKind) -> &'static str {
    match kind {
        OptionKind::ColorScheme => "Color Scheme",
        OptionKind::Density => "Density",
        OptionKind::NoiseStrength => "Noise Strength",
        OptionKind::LineLength => "Line Length",
        OptionKind::LineWidth => "Line Width",
        OptionKind::ViewScale => "View Scale",
        OptionKind::Brightness => "Brightness",
    }
}

/// The label of value `index` of `kind`.
pub open spec fn spec_option_label(kind: OptionKind, index: u32) -> &'static str {
    match kind {
        OptionKind::ColorScheme => if index == 0 {
            "Original"
        } else if index == 1 {
            "Plasma"
        } else if index == 2 {
            "Poolside"
        } else if index == 3 {
            "Space Grey"
        } else {
            "Custom Image..."
        },
        OptionKind::Density => if index == 0 {
            "Sparse"
        } else if index == 1 {
            "Normal"
        } else {
            "Dense"
        },
        OptionKind::NoiseStrength => if index == 0 {
            "Low"
        } else if index == 1 {
            "Medium"
        } else if index == 2 {
            "High"
        } else {
            "Max"
        },
        OptionKind::LineLength => if index == 0 {
            "Short"
        } else if index == 1 {
            "Medium"
        } else if index == 2 {
            "Long"
        } else {
            "Extra Long"
        },
        OptionKind::LineWidth => if index == 0 {
            "Thin"
        } else if index == 1 {
            "Medium"
        } else {
            "Thick"
        },
        OptionKind::ViewScale => if index == 0 {
            "Compact"
        } else if index == 1 {
            "Normal"
        } else {
            "Wide"
        },
        OptionKind::Brightness => if index == 0 {
            "Dim"
        } else if index == 1 {
            "Normal"
        } else if index == 2 {
            "Bright"
        } else {
            "Vivid"
        },
    }
}

/// Item `index` of the submenu of `kind` while `selected` is chosen: its tag
/// is its index, it is checked exactly when it is the chosen one, and the
/// custom-image item stands behind a separator.
pub open spec fn spec_menu_item(kind: OptionKind, index: u32, selected: u32) -> MenuItem {
    MenuItem {
        label: spec_option_label(kind, index),
        tag: index,
        checked: index == selected,
        separator_before: kind == OptionKind::ColorScheme && index == CUSTOM_IMAGE_SCHEME,
    }
}

/// The items of the submenu of `kind` while `selected` is chosen.
pub open spec fn spec_items(kind: OptionKind, selected: u32) -> Seq<MenuItem> {
    Seq::new(spec_option_count(kind) as nat, |i: int| spec_menu_item(kind, i as u32, selected))
}

impl Submenu {
    /// Whether this is the submenu of `kind` while `selected` is chosen:
    /// its title, one item per value in order, and the one check mark.
    pub open spec fn shows(self, kind: OptionKind, selected: u32) -> bool {
        &&& self.title == spec_option_title(kind)
        &&& self.kind == kind
        &&& self.items@ == spec_items(kind, selected)
    }
}

impl MenuBar {
    /// Whether the submenus stand in order and show `selection`.
    pub open spec fn shows(self, selection: crate::settings::Selection) -> bool {
        &&& self.submenus.len() == SUBMENU_COUNT
        &&& forall|p: int|
            0 <= p < SUBMENU_COUNT ==> (#[trigger] self.submenus[p]).shows(
                spec_kind_at(p),
                selection.spec_get(spec_kind_at(p)),
            )
    }
}

/// The option of submenu `position`.
pub fn kind_at(position: usize) -> (kind: OptionKind)
    ensures
        kind == spec_kind_at(position as int),
{
    if position == 0 {
        OptionKind::ColorScheme
    } else if position == 1 {
        OptionKind::Density
    } else if position == 2 {
        OptionKind::NoiseStrength
    } else if position == 3 {
        OptionKind::LineLength
    } else if position == 4 {
        OptionKind::LineWidth
    } else if position == 5 {
        OptionKind::ViewScale
    } else {
        OptionKind::Brightness
    }
}

/// The position of the submenu of `kind`.
pub fn position_of(kind: OptionKind) -> (position: usize)
    ensures
        position == spec_position_of(kind),
        position < SUBMENU_COUNT,
        spec_kind_at(position as int) == kind,
{
    match kind {
        OptionKind::ColorScheme => 0,
        OptionKind::Density => 1,
        OptionKind::NoiseStrength => 2,
        OptionKind::LineLength => 3,
        OptionKind::LineWidth => 4,
        OptionKind::ViewScale => 5,
        OptionKind::Brightness => 6,
    }
}

/// Number of values that `kind` offers.
pub fn option_count(kind: OptionKind) -> (count: u32)
    ensures
        count == spec_option_count(kind),
{
    match kind {
        OptionKind::ColorScheme => 5,
        OptionKind::Density => 3,
        OptionKind::NoiseStrength => 4,
        OptionKind::LineLength => 4,
        OptionKind::LineWidth => 3,
        OptionKind::ViewScale => 3,
        OptionKind::Brightness => 4,
    }
}

/// The title of the submenu of `kind`.
pub fn option_title(kind: OptionKind) -> (title: &'static str)
    ensures
        title == spec_option_title(kind),
{
    match kind {
        OptionKind::ColorScheme => "Color Scheme",
        OptionKind::Density => "Density",
        OptionKind::NoiseStrength => "Noise Strength",
        OptionKind::LineLength => "Line Length",
        OptionKind::LineWidth => "Line Width",
        OptionKind::ViewScale => "View Scale",
        OptionKind::Brightness => "Brightness",
    }
}

/// The label of value `index` of `kind`.
pub fn option_label(kind: OptionKind, index: u32) -> (label: &'static str)
    ensures
        label == spec_option_label(kind, index),
{
    match kind {
        OptionKind::ColorScheme => if index == 0 {
            "Original"
        } else if index == 1 {
            "Plasma"
        } else if index == 2 {
            "Poolside"
        } else if index == 3 {
            "Space Grey"
        } else {
            "Custom Image..."
        },
        OptionKind::Density => if index == 0 {
            "Sparse"
        } else if index == 1 {
            "Normal"
        } else {
            "Dense"
        },
        OptionKind::NoiseStrength => if index == 0 {
            "Low"
        } else if index == 1 {
            "Medium"
        } else if index == 2 {
            "High"
        } else {
            "Max"
        },
        OptionKind::LineLength => if index == 0 {
            "Short"
        } else if index == 1 {
            "Medium"
        } else if index == 2 {
            "Long"
        } else {
            "Extra Long"
        },
        OptionKind::LineWidth => if index == 0 {
            "Thin"
        } else if index == 1 {
            "Medium"
        } else {
            "Thick"
        },
        OptionKind::ViewScale => if index == 0 {
            "Compact"
        } else if index == 1 {
            "Normal"
        } else {
            "Wide"
        },
        OptionKind::Brightness => if index == 0 {
            "Dim"
        } else if index == 1 {
            "Normal"
        } else if index == 2 {
            "Bright"
        } else {
            "Vivid"
        },
    }
}

/// Builds the submenu of `kind` with the check mark on `selected`. Where
/// `selected` is none of the values on offer, no item is checked.
pub fn build_submenu(kind: OptionKind, selected: u32) -> (submenu: Submenu)
    ensures
        submenu.shows(kind, selected),
{
    let count = option_count(kind);
    let mut items: Vec<MenuItem> = Vec::new();
    let mut index: u32 = 0;
    while index < count
        invariant
            index <= count,
            count == spec_option_count(kind),
            items.len() == index,
            forall|i: int|
                0 <= i < index ==> #[trigger] items[i] == spec_menu_item(kind, i as u32, selected),
        decreases count - index,
    {
        let separator_before = match kind {
            OptionKind::ColorScheme => index == CUSTOM_IMAGE_SCHEME,
            _ => false,
        };
        items.push(
            MenuItem {
                label: option_label(kind, index),
                tag: index,
                checked: index == selected,
                separator_before,
            },
        );
        index += 1;
    }
    assert(items@ =~= spec_items(kind, selected));
    Submenu { title: option_title(kind), kind, items }
}

/// Sets up the control surface from the preferences: the shared state the
/// render loop starts from, and the seven submenus with their check marks on
/// the stored values. The preferences are read, not changed.
pub fn setup_menu_bar(prefs: &UserPreferences, run_on_login: bool) -> (bar: MenuBar)
    ensures
        bar.shared == SharedSettings::spec_from_preferences(*prefs),
        bar.shows(prefs.spec_stored_selection()),
        bar.run_on_login == run_on_login,
{
    let stored = prefs.stored_selection();
    let mut submenus: Vec<Submenu> = Vec::new();
    let mut position: usize = 0;
    while position < SUBMENU_COUNT
        invariant
            position <= SUBMENU_COUNT,
            submenus.len() == position,
            forall|p: int|
                0 <= p < position ==> (#[trigger] submenus[p]).shows(
                    spec_kind_at(p),
                    stored.spec_get(spec_kind_at(p)),
                ),
        decreases SUBMENU_COUNT - position,
    {
        let kind = kind_at(position);
        submenus.push(build_submenu(kind, stored.get(kind)));
        position += 1;
    }
    MenuBar { shared: SharedSettings::from_preferences(prefs), submenus, run_on_login }
}

impl MenuBar {
    /// The user picked `value` of `kind`: the value is written to the shared
    /// state with the flag raised, stored in the preferences, and the check
    /// mark of that submenu moves to it. The other submenus stay as they
    /// are.
    pub fn select(&mut self, prefs: &mut UserPreferences, kind: OptionKind, value: u32)
        requires
            old(self).submenus.len() == SUBMENU_COUNT,
        ensures
            final(self).shared == old(self).shared.spec_after_write(Write { kind, value }),
            final(self).run_on_login == old(self).run_on_login,
            final(self).submenus.len() == SUBMENU_COUNT,
            final(self).submenus[spec_position_of(kind)].shows(kind, value),
            forall|p: int|
                0 <= p < SUBMENU_COUNT && p != spec_position_of(kind) ==> final(self).submenus[p]
                    == old(self).submenus[p],
            final(prefs).spec_stored_selection() == old(prefs).spec_stored_selection().spec_with(
                kind,
                value,
            ),
            final(prefs).fps == old(prefs).fps,
            final(prefs).run_on_login == old(prefs).run_on_login,
            final(prefs).custom_color_wheel == old(prefs).custom_color_wheel,
            final(prefs).custom_image_path == old(prefs).custom_image_path,
    {
        self.shared.select(kind, value);
        prefs.set_option(kind, value);
        self.submenus.set(position_of(kind), build_submenu(kind, value));
    }

    /// The user opened the custom-image item: its check mark is set at
    /// once, whatever comes of the choice of a file.
    pub fn mark_custom_image(&mut self)
        requires
            old(self).submenus.len() == SUBMENU_COUNT,
        ensures
            final(self).shared == old(self).shared,
            final(self).run_on_login == old(self).run_on_login,
            final(self).submenus.len() == SUBMENU_COUNT,
            final(self).submenus[0].shows(OptionKind::ColorScheme, CUSTOM_IMAGE_SCHEME),
            forall|p: int| 1 <= p < SUBMENU_COUNT ==> final(self).submenus[p] == old(
                self,
            ).submenus[p],
    {
        self.submenus.set(0, build_submenu(OptionKind::ColorScheme, CUSTOM_IMAGE_SCHEME));
    }

    /// The menu is about to open: the run-on-login item shows what the
    /// system reports.
    pub fn refresh_run_on_login(&mut self, enabled: bool)
        ensures
            *final(self) == (MenuBar { run_on_login: enabled, ..*old(self) }),
    {
        self.run_on_login = enabled;
    }
}

} // verus!
