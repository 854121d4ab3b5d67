use flux_desktop::control::SharedSettings;
use flux_desktop::display::{
    get_all_displays, setup_screen_change_observer, DisplayInfo, Platform,
};
use flux_desktop::preferences::UserPreferences;

fn display(x: i32, y: i32, width: u32, height: u32, scale: u32) -> DisplayInfo {
    DisplayInfo {
        origin_x: x,
        origin_y: y,
        width,
        height,
        pixels_wide: width * scale,
        pixels_high: height * scale,
    }
}

#[test]
fn fallback_display_is_full_hd_at_the_origin() {
    assert_eq!(DisplayInfo::fallback(), display(0, 0, 1920, 1080, 1));
}

#[test]
fn found_displays_are_kept_in_order() {
    let found = vec![display(0, 0, 1440, 900, 2), display(-1920, 0, 1920, 1080, 1)];
    assert_eq!(get_all_displays(found.clone(), None), found);
    assert_eq!(get_all_displays(found.clone(), Some(display(0, 0, 800, 600, 1))), found);
}

#[test]
fn no_display_found_gives_the_main_display_or_the_fallback() {
    let main = display(0, 0, 2560, 1440, 1);
    assert_eq!(get_all_displays(Vec::new(), Some(main)), vec![main]);
    assert_eq!(get_all_displays(Vec::new(), None), vec![DisplayInfo::fallback()]);
}

#[test]
fn monitor_rect_becomes_a_display() {
    let left = DisplayInfo::from_monitor_rect(-1920, 0, 0, 1080);
    assert_eq!(left, display(-1920, 0, 1920, 1080, 1));
    let wide = DisplayInfo::from_monitor_rect(i32::MIN, -5, i32::MAX, 5);
    assert_eq!(wide.width, u32::MAX);
    assert_eq!(wide.height, 10);
    let empty = DisplayInfo::from_monitor_rect(10, 10, 10, 0);
    assert_eq!((empty.width, empty.height), (0, 0));
}

#[test]
fn only_one_platform_delivers_screen_changes() {
    assert!(setup_screen_change_observer(Platform::MacOs).registered);
    assert!(!setup_screen_change_observer(Platform::Windows).registered);
    assert!(!setup_screen_change_observer(Platform::Other).registered);
}

#[test]
fn registered_observer_raises_the_topology_flag() {
    let mut shared = SharedSettings::from_preferences(&UserPreferences::default());
    setup_screen_change_observer(Platform::Windows).screen_did_change(&mut shared);
    assert!(!shared.screen_config_changed);
    setup_screen_change_observer(Platform::MacOs).screen_did_change(&mut shared);
    assert!(shared.screen_config_changed);
    assert!(!shared.settings_changed);
}
