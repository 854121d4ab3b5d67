use flux_desktop::control::SharedSettings;
use flux_desktop::menu::{
    build_submenu, kind_at, option_count, option_label, option_title, position_of, setup_menu_bar,
    MenuItem,
};
use flux_desktop::preferences::{OptionKind, UserPreferences};

#[test]
fn seven_submenus_in_order() {
    let bar = setup_menu_bar(&UserPreferences::default(), false);
    let titles: Vec<&str> = bar.submenus.iter().map(|s| s.title).collect();
    assert_eq!(
        titles,
        vec![
            "Color Scheme",
            "Density",
            "Noise Strength",
            "Line Length",
            "Line Width",
            "View Scale",
            "Brightness"
        ]
    );
    for (position, submenu) in bar.submenus.iter().enumerate() {
        assert_eq!(submenu.kind, kind_at(position));
        assert_eq!(position_of(submenu.kind), position);
        assert_eq!(submenu.items.len() as u32, option_count(submenu.kind));
        assert_eq!(option_title(submenu.kind), submenu.title);
    }
    assert!(!bar.run_on_login);
}

#[test]
fn color_submenu_items() {
    let submenu = build_submenu(OptionKind::ColorScheme, 2);
    let item = |label, tag, checked, separator_before| MenuItem {
        label,
        tag,
        checked,
        separator_before,
    };
    assert_eq!(
        submenu.items,
        vec![
            item("Original", 0, false, false),
            item("Plasma", 1, false, false),
            item("Poolside", 2, true, false),
            item("Space Grey", 3, false, false),
            item("Custom Image...", 4, false, true),
        ]
    );
}

#[test]
fn labels_of_every_option() {
    let labels = |kind| -> Vec<&str> {
        (0..option_count(kind)).map(|index| option_label(kind, index)).collect()
    };
    assert_eq!(labels(OptionKind::Density), vec!["Sparse", "Normal", "Dense"]);
    assert_eq!(labels(OptionKind::NoiseStrength), vec!["Low", "Medium", "High", "Max"]);
    assert_eq!(labels(OptionKind::LineLength), vec!["Short", "Medium", "Long", "Extra Long"]);
    assert_eq!(labels(OptionKind::LineWidth), vec!["Thin", "Medium", "Thick"]);
    assert_eq!(labels(OptionKind::ViewScale), vec!["Compact", "Normal", "Wide"]);
    assert_eq!(labels(OptionKind::Brightness), vec!["Dim", "Normal", "Bright", "Vivid"]);
}

#[test]
fn check_marks_follow_the_stored_preferences() {
    let mut prefs = UserPreferences::default();
    prefs.brightness = 3;
    prefs.color_scheme = 4;
    let bar = setup_menu_bar(&prefs, true);
    assert!(bar.run_on_login);
    let checked = |position: usize| -> Vec<u32> {
        bar.submenus[position].items.iter().filter(|i| i.checked).map(|i| i.tag).collect()
    };
    // The custom-image item is checked though Original is in effect.
    assert_eq!(checked(0), vec![4]);
    assert_eq!(bar.shared.selection.color_scheme, 0);
    assert_eq!(checked(1), vec![1]);
    assert_eq!(checked(6), vec![3]);
    assert_eq!(bar.shared, SharedSettings::from_preferences(&prefs));
}

#[test]
fn unknown_stored_value_checks_no_item() {
    let mut prefs = UserPreferences::default();
    prefs.density = 9;
    let bar = setup_menu_bar(&prefs, false);
    assert!(bar.submenus[1].items.iter().all(|item| !item.checked));
}

#[test]
fn selecting_moves_the_check_mark_and_writes_the_value() {
    let mut prefs = UserPreferences::default();
    let mut bar = setup_menu_bar(&prefs, false);
    let before = bar.clone();
    bar.select(&mut prefs, OptionKind::NoiseStrength, 3);
    assert_eq!(prefs.noise_strength, 3);
    assert_eq!(bar.shared.selection.noise_strength, 3);
    assert!(bar.shared.settings_changed);
    assert_eq!(bar.submenus[2], build_submenu(OptionKind::NoiseStrength, 3));
    for position in [0, 1, 3, 4, 5, 6] {
        assert_eq!(bar.submenus[position], before.submenus[position]);
    }
    let mut expected = UserPreferences::default();
    expected.noise_strength = 3;
    assert_eq!(prefs, expected);
}

#[test]
fn custom_image_item_is_marked_at_once() {
    let mut bar = setup_menu_bar(&UserPreferences::default(), false);
    let shared = bar.shared;
    bar.mark_custom_image();
    assert_eq!(bar.submenus[0], build_submenu(OptionKind::ColorScheme, 4));
    assert_eq!(bar.shared, shared);
}

#[test]
fn login_item_shows_what_the_system_reports() {
    let mut bar = setup_menu_bar(&UserPreferences::default(), false);
    bar.refresh_run_on_login(true);
    assert!(bar.run_on_login);
    bar.refresh_run_on_login(false);
    assert!(!bar.run_on_login);
}
