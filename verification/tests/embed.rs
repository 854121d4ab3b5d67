use flux_desktop::depth::{depth_plan, reassert_steps};
use flux_desktop::display::{DisplayInfo, Platform};
use flux_desktop::embed::{
    child_style, layered_style, setup_wallpaper_window, shell_extent, strategy_for, DepthStep,
    EmbedError, EmbedPlan, EmbedProbe, EmbedState, ShellProbe, ShellStep, Strategy, TopLevelProbe,
    ViewHierarchy, ViewTarget, WindowEmbedding,
};
use flux_desktop::shell::{locate_worker, place_flags, reorder_flags, setup_as_wallpaper};

fn display() -> DisplayInfo {
    DisplayInfo {
        origin_x: -1440,
        origin_y: 120,
        width: 1440,
        height: 900,
        pixels_wide: 2880,
        pixels_high: 1800,
    }
}

fn window_steps() -> Vec<DepthStep> {
    vec![
        DepthStep::Borderless,
        DepthStep::NoShadow,
        DepthStep::NotOpaque,
        DepthStep::ClearBackground,
        DepthStep::Level(-2147483623),
        DepthStep::StayWhenDeactivated,
        DepthStep::KeepWhenClosed,
        DepthStep::Alpha(990),
        DepthStep::JoinAllSpaces,
        DepthStep::IgnoreMouseEvents,
        DepthStep::RejectMouseMoved,
        DepthStep::ExcludeFromWindowsMenu,
    ]
}

fn placement_steps() -> Vec<DepthStep> {
    vec![
        DepthStep::ResignKey,
        DepthStep::ResignMain,
        DepthStep::OrderBack,
        DepthStep::SetFrame { x: -1440, y: 120, width: 1440, height: 900 },
    ]
}

#[test]
fn strategy_of_each_platform() {
    assert_eq!(strategy_for(Platform::MacOs), Strategy::DepthAndTransparency);
    assert_eq!(strategy_for(Platform::Windows), Strategy::ShellReparenting);
    assert_eq!(strategy_for(Platform::Other), Strategy::PlainWindow);
}

#[test]
fn depth_plan_where_the_render_view_is_the_content_view() {
    let views = ViewHierarchy { render_view: 7, content_view: 7, superview: 0, layer: 9 };
    let mut expected = window_steps();
    expected.extend([
        DepthStep::RejectTouch(ViewTarget::ContentView),
        DepthStep::RejectTouch(ViewTarget::RenderView),
        DepthStep::OverrideHitTest(ViewTarget::RenderView),
    ]);
    expected.extend(placement_steps());
    expected.extend([
        DepthStep::AutoresizeContent(0x12),
        DepthStep::FillContent,
        DepthStep::FillLayer,
        DepthStep::Relayout(ViewTarget::ContentView),
        DepthStep::Relayout(ViewTarget::RenderView),
    ]);
    assert_eq!(depth_plan(&display(), &views), expected);
}

#[test]
fn depth_plan_where_the_render_view_is_a_subview() {
    let views = ViewHierarchy { render_view: 7, content_view: 5, superview: 5, layer: 0 };
    let mut expected = window_steps();
    expected.extend([
        DepthStep::RejectTouch(ViewTarget::ContentView),
        DepthStep::RejectTouch(ViewTarget::RenderView),
        DepthStep::OverrideHitTest(ViewTarget::RenderView),
        DepthStep::OverrideHitTest(ViewTarget::ContentView),
    ]);
    expected.extend(placement_steps());
    expected.extend([
        DepthStep::AutoresizeContent(0x12),
        DepthStep::FillContent,
        DepthStep::Relayout(ViewTarget::ContentView),
        DepthStep::Relayout(ViewTarget::RenderView),
        DepthStep::FillSuperview,
    ]);
    assert_eq!(depth_plan(&display(), &views), expected);
}

#[test]
fn depth_plan_without_a_content_view() {
    let views = ViewHierarchy { render_view: 7, content_view: 0, superview: 0, layer: 3 };
    let mut expected = window_steps();
    expected.extend([
        DepthStep::RejectTouch(ViewTarget::RenderView),
        DepthStep::OverrideHitTest(ViewTarget::RenderView),
    ]);
    expected.extend(placement_steps());
    assert_eq!(depth_plan(&display(), &views), expected);
}

#[test]
fn steps_taken_again_once_visible() {
    assert_eq!(
        reassert_steps(),
        vec![DepthStep::Level(-2147483623), DepthStep::IgnoreMouseEvents, DepthStep::OrderBack]
    );
}

#[test]
fn child_style_clears_popup_and_disabled() {
    assert_eq!(child_style(0x8000_0000), 0x4000_0000);
    assert_eq!(child_style(0x9800_0000), 0x5000_0000);
    assert_eq!(child_style(0x16CF_0000), 0x56CF_0000);
    assert_eq!(child_style(0xFFFF_FFFF_0000_0000), 0xFFFF_FFFF_4000_0000);
    assert_eq!(child_style(0), 0x4000_0000);
}

#[test]
fn layered_style_sets_one_bit() {
    assert_eq!(layered_style(0), 0x0008_0000);
    assert_eq!(layered_style(0x0000_0100), 0x0008_0100);
    assert_eq!(layered_style(0x0008_0000), 0x0008_0000);
}

#[test]
fn placement_flags() {
    assert_eq!(place_flags(), 0x0030);
    assert_eq!(reorder_flags(), 0x0013);
}

#[test]
fn shell_plan_behind_the_icons_view() {
    let probe =
        ShellProbe { progman: 100, shell_view: 200, worker: 300, progman_width: 3840, progman_height: 1080 };
    assert_eq!(
        setup_as_wallpaper(&probe, 1920, 1080),
        Ok(vec![
            ShellStep::MakeChild,
            ShellStep::SetParent(100),
            ShellStep::MakeLayered,
            ShellStep::Place {
                insert_after: 200,
                x: 0,
                y: 0,
                width: 3840,
                height: 1080,
                flags: 0x0030
            },
            ShellStep::PlaceBehindSelf { window: 300, flags: 0x0013 },
            ShellStep::ShowInactive,
        ])
    );
    let no_worker = ShellProbe { worker: 0, ..probe };
    let steps = setup_as_wallpaper(&no_worker, 1920, 1080).unwrap();
    assert_eq!(steps.len(), 5);
    assert!(!steps.iter().any(|s| matches!(s, ShellStep::PlaceBehindSelf { .. })));
}

#[test]
fn shell_plan_under_the_background_container() {
    let probe =
        ShellProbe { progman: 100, shell_view: 0, worker: 300, progman_width: 3840, progman_height: 1080 };
    assert_eq!(
        setup_as_wallpaper(&probe, 1920, 1200),
        Ok(vec![
            ShellStep::MakeChild,
            ShellStep::SetParent(300),
            ShellStep::MakeLayered,
            ShellStep::Place { insert_after: 0, x: 0, y: 0, width: 1920, height: 1200, flags: 0x0030 },
            ShellStep::ShowInactive,
        ])
    );
}

#[test]
fn shell_plan_fails_softly() {
    let none = ShellProbe { progman: 0, shell_view: 5, worker: 6, progman_width: 1, progman_height: 1 };
    assert_eq!(setup_as_wallpaper(&none, 10, 10), Err(EmbedError::ShellNotFound));
    let bare = ShellProbe { progman: 9, shell_view: 0, worker: 0, progman_width: 1, progman_height: 1 };
    assert_eq!(setup_as_wallpaper(&bare, 10, 10), Err(EmbedError::ContainerNotFound));
}

#[test]
fn background_container_follows_the_window_with_the_icons_view() {
    let windows = [
        TopLevelProbe { shell_view: 0, next_worker: 40 },
        TopLevelProbe { shell_view: 7, next_worker: 0 },
        TopLevelProbe { shell_view: 8, next_worker: 50 },
        TopLevelProbe { shell_view: 9, next_worker: 60 },
    ];
    assert_eq!(locate_worker(&windows), 50);
    assert_eq!(locate_worker(&windows[..2]), 0);
    assert_eq!(locate_worker(&[]), 0);
}

#[test]
fn shell_takes_physical_pixels_as_signed() {
    assert_eq!(shell_extent(0), 0);
    assert_eq!(shell_extent(2880), 2880);
    assert_eq!(shell_extent(0x7fff_ffff), i32::MAX);
    assert_eq!(shell_extent(0x8000_0000), i32::MIN);
    assert_eq!(shell_extent(u32::MAX), -1);
}

#[test]
fn wallpaper_window_setup_by_platform() {
    let views = ViewHierarchy { render_view: 7, content_view: 0, superview: 0, layer: 0 };
    let shell =
        ShellProbe { progman: 100, shell_view: 0, worker: 300, progman_width: 1, progman_height: 1 };
    let depth = setup_wallpaper_window(Platform::MacOs, &display(), &EmbedProbe::Views(views));
    assert_eq!(depth, Ok(EmbedPlan::Depth(depth_plan(&display(), &views))));
    let reparent = setup_wallpaper_window(Platform::Windows, &display(), &EmbedProbe::Shell(shell));
    assert_eq!(reparent, Ok(EmbedPlan::Shell(setup_as_wallpaper(&shell, 2880, 1800).unwrap())));
    let missing = ShellProbe { progman: 0, ..shell };
    assert_eq!(
        setup_wallpaper_window(Platform::Windows, &display(), &EmbedProbe::Shell(missing)),
        Err(EmbedError::ShellNotFound)
    );
    for probe in [EmbedProbe::Views(views), EmbedProbe::Shell(shell), EmbedProbe::Nothing] {
        assert_eq!(setup_wallpaper_window(Platform::Other, &display(), &probe), Ok(EmbedPlan::Plain));
    }
    assert_eq!(
        setup_wallpaper_window(Platform::MacOs, &display(), &EmbedProbe::Shell(shell)),
        Ok(EmbedPlan::Plain)
    );
    assert_eq!(
        setup_wallpaper_window(Platform::Windows, &display(), &EmbedProbe::Nothing),
        Ok(EmbedPlan::Plain)
    );
}

#[test]
fn window_goes_from_created_to_embedded_to_visible() {
    let mut embedding = WindowEmbedding::new(Strategy::DepthAndTransparency);
    assert_eq!(embedding.state, EmbedState::Created);
    // A window cannot become visible before it was embedded.
    assert!(embedding.shown().is_empty());
    assert_eq!(embedding.state, EmbedState::Created);
    assert!(embedding.embedded(true));
    assert_eq!(embedding.state, EmbedState::Embedded);
    assert!(embedding.as_wallpaper);
    // The embedded state is entered once.
    assert!(!embedding.embedded(false));
    assert!(embedding.as_wallpaper);
    assert_eq!(embedding.shown(), reassert_steps());
    assert_eq!(embedding.state, EmbedState::Visible);
    assert!(embedding.shown().is_empty());
    assert!(!embedding.embedded(true));
    assert_eq!(embedding.state, EmbedState::Visible);
}

#[test]
fn failed_embedding_leaves_an_ordinary_window() {
    let mut embedding = WindowEmbedding::new(Strategy::ShellReparenting);
    assert!(embedding.embedded(false));
    assert!(!embedding.as_wallpaper);
    assert!(embedding.shown().is_empty());
    assert_eq!(embedding.state, EmbedState::Visible);
    let mut plain = WindowEmbedding::new(Strategy::PlainWindow);
    assert!(plain.embedded(true));
    assert!(!plain.as_wallpaper);
    let mut reparented = WindowEmbedding::new(Strategy::ShellReparenting);
    reparented.embedded(true);
    assert!(reparented.as_wallpaper);
    assert!(reparented.shown().is_empty());
}
