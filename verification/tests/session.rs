use flux_desktop::color::Rgb;
use flux_desktop::control::{SettingsUpdate, SharedSettings};
use flux_desktop::display::DisplayInfo;
use flux_desktop::palette::ColorWheel;
use flux_desktop::preferences::{OptionKind, UserPreferences};
use flux_desktop::registry::{begin_iteration, SessionRegistry};
use flux_desktop::session::{
    get_preferred_format, surface_extent, RenderSession, RendererResize, SessionCommand,
    SessionError, SurfaceFormat,
};
use flux_desktop::settings::{MappingProfile, Selection, Settings};

fn retina() -> DisplayInfo {
    DisplayInfo {
        origin_x: 0,
        origin_y: 0,
        width: 1440,
        height: 900,
        pixels_wide: 1440,
        pixels_high: 900,
    }
}

fn settings_with_density(density: u32) -> Settings {
    let mut selection: Selection = UserPreferences::default().stored_selection();
    selection.density = density;
    Settings::standard(selection)
}

fn update_with_density(density: u32) -> SettingsUpdate {
    SettingsUpdate { settings: settings_with_density(density), custom_wheel: None }
}

fn session() -> RenderSession {
    RenderSession::create(retina(), 2880, 1800, true, true, &settings_with_density(1)).unwrap()
}

#[test]
fn surface_is_never_empty() {
    assert_eq!(surface_extent(0), 1);
    assert_eq!(surface_extent(1), 1);
    assert_eq!(surface_extent(2880), 2880);
}

#[test]
fn session_goes_by_the_window_not_by_the_display_hint() {
    let created = session();
    assert_eq!((created.surface_width, created.surface_height), (2880, 1800));
    assert_eq!((created.window_width, created.window_height), (2880, 1800));
    assert_eq!(created.display, retina());
    assert_eq!(created.grid_spacing, 15);
    assert_eq!(
        created.renderer_size(),
        RendererResize {
            logical_width: 1440,
            logical_height: 900,
            physical_width: 2880,
            physical_height: 1800
        }
    );
}

#[test]
fn session_creation_errors() {
    let settings = settings_with_density(1);
    assert_eq!(
        RenderSession::create(retina(), 10, 10, false, false, &settings),
        Err(SessionError::AdapterUnavailable)
    );
    assert_eq!(
        RenderSession::create(retina(), 10, 10, false, true, &settings),
        Err(SessionError::AdapterUnavailable)
    );
    assert_eq!(
        RenderSession::create(retina(), 10, 10, true, false, &settings),
        Err(SessionError::DeviceCreationFailed)
    );
}

#[test]
fn window_resize_reconfigures_the_surface() {
    let mut resized = session();
    let command = resized.resize(0, 0, 0, 600);
    assert_eq!((resized.surface_width, resized.surface_height), (1, 600));
    assert_eq!((resized.window_width, resized.window_height), (0, 600));
    assert_eq!(
        command,
        RendererResize { logical_width: 0, logical_height: 0, physical_width: 0, physical_height: 600 }
    );
    assert_eq!(resized.grid_spacing, 15);
}

#[test]
fn density_change_resizes_only_when_spacing_changes() {
    let mut changed = session();
    let same = changed.apply_settings(&update_with_density(1));
    assert_eq!(same, SessionCommand { resize: None, inject: None });
    // An unknown density has the spacing of Normal: no resize either.
    let unknown = changed.apply_settings(&update_with_density(7));
    assert_eq!(unknown.resize, None);
    let dense = changed.apply_settings(&update_with_density(2));
    assert_eq!(
        dense.resize,
        Some(RendererResize {
            logical_width: 1440,
            logical_height: 900,
            physical_width: 2880,
            physical_height: 1800
        })
    );
    assert_eq!(changed.grid_spacing, 10);
    assert_eq!(changed.apply_settings(&update_with_density(2)).resize, None);
    assert_eq!((changed.surface_width, changed.surface_height), (2880, 1800));
}

#[test]
fn palette_of_the_update_is_injected() {
    let palette = ColorWheel { colors: [Rgb { red: 1, green: 2, blue: 3 }; 6] };
    let mut update = update_with_density(1);
    update.custom_wheel = Some(palette);
    assert_eq!(session().apply_settings(&update).inject, Some(palette));
}

#[test]
fn display_change_takes_the_new_display_and_window_size() {
    let mut moved = session();
    let external = DisplayInfo {
        origin_x: 1440,
        origin_y: 0,
        width: 1920,
        height: 1080,
        pixels_wide: 1920,
        pixels_high: 1080,
    };
    let command = moved.display_changed(external, 1920, 0);
    assert_eq!(moved.display, external);
    assert_eq!((moved.surface_width, moved.surface_height), (1920, 1));
    assert_eq!(
        command,
        RendererResize {
            logical_width: 1920,
            logical_height: 1080,
            physical_width: 1920,
            physical_height: 0
        }
    );
}

#[test]
fn preferred_format_by_rank() {
    let other = SurfaceFormat::Other;
    let deep = SurfaceFormat::Rgb10a2Unorm;
    let bgra = SurfaceFormat::Bgra8Unorm;
    let rgba = SurfaceFormat::Rgba8Unorm;
    let bgra_srgb = SurfaceFormat::Bgra8UnormSrgb;
    let rgba_srgb = SurfaceFormat::Rgba8UnormSrgb;
    assert_eq!(get_preferred_format(&[bgra_srgb, bgra, rgba]), 1);
    assert_eq!(get_preferred_format(&[other, rgba_srgb, deep, deep]), 2);
    assert_eq!(get_preferred_format(&[other, other]), 0);
    assert_eq!(get_preferred_format(&[other, rgba_srgb]), 1);
    assert_eq!(get_preferred_format(&[rgba]), 0);
}

#[test]
fn registry_applies_settings_to_every_session() {
    let mut registry = SessionRegistry::new();
    registry.add(session());
    let mut dense = session();
    dense.apply_settings(&update_with_density(2));
    registry.add(dense);
    let commands = registry.apply_settings(&update_with_density(2));
    assert_eq!(commands.len(), 2);
    assert!(commands[0].resize.is_some());
    assert!(commands[1].resize.is_none());
    assert!(registry.sessions.iter().all(|s| s.grid_spacing == 10));
}

#[test]
fn registry_matches_sessions_and_displays_by_position() {
    let mut registry = SessionRegistry::new();
    registry.add(session());
    registry.add(session());
    let one = vec![retina()];
    let three = vec![retina(), retina(), retina()];
    assert_eq!(registry.matched(&one), 1);
    assert_eq!(registry.matched(&three), 2);
    assert!(registry.count_mismatch(&one));
    assert!(registry.count_mismatch(&three));
    assert!(!registry.count_mismatch(&vec![retina(), retina()]));
    let other = DisplayInfo { origin_x: 5, ..retina() };
    registry.display_changed(1, other, 100, 50);
    assert_eq!(registry.sessions[0], session());
    assert_eq!(registry.sessions[1].display, other);
    assert_eq!(registry.sessions[1].surface_width, 100);
    registry.window_resized(0, 7, 8, 14, 16);
    assert_eq!((registry.sessions[0].surface_width, registry.sessions[0].surface_height), (14, 16));
    assert_eq!(registry.sessions[0].display, retina());
}

#[test]
fn iteration_applies_a_change_once_to_all_sessions() {
    let profile = MappingProfile::standard();
    let mut shared = SharedSettings::from_preferences(&UserPreferences::default());
    let mut registry = SessionRegistry::new();
    registry.add(session());
    registry.add(session());
    let idle = begin_iteration(&mut shared, &mut registry, &profile);
    assert!(!idle.exit && idle.settings.is_none() && !idle.reconcile);
    shared.select(OptionKind::Density, 2);
    shared.select(OptionKind::Density, 0);
    shared.notify_screen_change();
    let plan = begin_iteration(&mut shared, &mut registry, &profile);
    assert!(!plan.exit);
    assert!(plan.reconcile);
    let pass = plan.settings.unwrap();
    assert_eq!(pass.settings.grid_spacing, 25);
    assert_eq!(pass.commands.len(), 2);
    assert!(pass.commands.iter().all(|c| c.resize.is_some()));
    assert!(registry.sessions.iter().all(|s| s.grid_spacing == 25));
    let next = begin_iteration(&mut shared, &mut registry, &profile);
    assert!(next.settings.is_none() && !next.reconcile);
}

#[test]
fn quit_request_ends_the_loop_and_touches_nothing() {
    let profile = MappingProfile::standard();
    let mut shared = SharedSettings::from_preferences(&UserPreferences::default());
    let mut registry = SessionRegistry::new();
    registry.add(session());
    shared.select(OptionKind::Density, 2);
    shared.request_quit();
    let before = shared;
    let plan = begin_iteration(&mut shared, &mut registry, &profile);
    assert!(plan.exit);
    assert!(plan.settings.is_none());
    assert!(!plan.reconcile);
    assert_eq!(shared, before);
    assert_eq!(registry.sessions[0], session());
}
