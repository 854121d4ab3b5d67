//! The depth-and-transparency strategy: the window takes the level of the
//! desktop icons, lets every input through, shows on every space and fills
//! the frame of its display.

use vstd::prelude::*;
use crate::display::DisplayInfo;
use crate::embed::{
    DepthStep, ViewHierarchy, ViewTarget, AUTORESIZE_WIDTH_HEIGHT, DESKTOP_WINDOW_LEVEL,
    WALLPAPER_ALPHA,
};

verus! {

/// The steps that every window takes first, whatever its views.
pub open spec fn window_steps() -> Seq<DepthStep> {
    seq![
        DepthStep::Borderless,
        DepthStep::NoShadow,
        DepthStep::NotOpaque,
        DepthStep::ClearBackground,
        DepthStep::Level(DESKTOP_WINDOW_LEVEL),
        DepthStep::StayWhenDeactivated,
        DepthStep::KeepWhenClosed,
        DepthStep::Alpha(WALLPAPER_ALPHA),
        DepthStep::JoinAllSpaces,
        DepthStep::IgnoreMouseEvents,
        DepthStep::RejectMouseMoved,
        DepthStep::ExcludeFromWindowsMenu,
    ]
}

/// The steps that take input away from the views: no touch events, and hit
/// tests that find nothing. The content view takes them where there is one;
/// its hit test is overridden only where it is not the render view itself.
pub open spec fn view_steps(views: ViewHierarchy) -> Seq<DepthStep> {
    let touch = if views.content_view != 0 {
        seq![DepthStep::RejectTouch(ViewTarget::ContentView)]
    } else {
        Seq::empty()
    };
    let hit = if views.content_view != views.render_view && views.content_view != 0 {
        seq![DepthStep::OverrideHitTest(ViewTarget::ContentView)]
    } else {
        Seq::empty()
    };
    touch + seq![
        DepthStep::RejectTouch(ViewTarget::RenderView),
        DepthStep::OverrideHitTest(ViewTarget::RenderView),
    ] + hit
}

/// The steps that put the window in its place: out of focus, to the back
/// of its level, onto the frame of the display.
pub open spec fn placement_steps(display: DisplayInfo) -> Seq<DepthStep> {
    seq![
        DepthStep::ResignKey,
        DepthStep::ResignMain,
        DepthStep::OrderBack,
        DepthStep::SetFrame {
            x: display.origin_x,
            y: display.origin_y,
            width: display.width,
            height: display.height,
        },
    ]
}

/// The steps that make the views fill the window.
pub open spec fn fill_steps(views: ViewHierarchy) -> Seq<DepthStep> {
    let content = if views.content_view != 0 {
        let layer = if views.layer != 0 {
            seq![DepthStep::FillLayer]
        } else {
            Seq::empty()
        };
        seq![DepthStep::AutoresizeContent(AUTORESIZE_WIDTH_HEIGHT), DepthStep::FillContent]
            + layer + seq![
            DepthStep::Relayout(ViewTarget::ContentView),
            DepthStep::Relayout(ViewTarget::RenderView),
        ]
    } else {
        Seq::empty()
    };
    let superview = if views.render_view != views.content_view && views.superview != 0 {
        seq![DepthStep::FillSuperview]
    } else {
        Seq::empty()
    };
    content + superview
}

/// All steps that embed a window on `display`, in their order.
pub open spec fn spec_depth_plan(display: DisplayInfo, views: ViewHierarchy) -> Seq<DepthStep> {
    window_steps() + view_steps(views) + placement_steps(display) + fill_steps(views)
}

/// The steps that are taken again once the window is visible: showing a
/// window can reset them.
pub open spec fn spec_reassert_steps() -> Seq<DepthStep> {
    seq![
        DepthStep::Level(DESKTOP_WINDOW_LEVEL),
        DepthStep::IgnoreMouseEvents,
        DepthStep::OrderBack,
    ]
}

/// Plans the embedding of a window on `display` by depth and transparency.
pub fn depth_plan(display: &DisplayInfo, views: &ViewHierarchy) -> (steps: Vec<DepthStep>)
    ensures
        steps@ == spec_depth_plan(*display, *views),
{
    let mut steps: Vec<DepthStep> = Vec::new();
    steps.push(DepthStep::Borderless);
    steps.push(DepthStep::NoShadow);
    steps.push(DepthStep::NotOpaque);
    steps.push(DepthStep::ClearBackground);
    steps.push(DepthStep::Level(DESKTOP_WINDOW_LEVEL));
    steps.push(DepthStep::StayWhenDeactivated);
    steps.push(DepthStep::KeepWhenClosed);
    steps.push(DepthStep::Alpha(WALLPAPER_ALPHA));
    steps.push(DepthStep::JoinAllSpaces);
    steps.push(DepthStep::IgnoreMouseEvents);
    steps.push(DepthStep::RejectMouseMoved);
    steps.push(DepthStep::ExcludeFromWindowsMenu);
    assert(steps@ =~= window_steps());
    if views.content_view != 0 {
        steps.push(DepthStep::RejectTouch(ViewTarget::ContentView));
    }
    steps.push(DepthStep::RejectTouch(ViewTarget::RenderView));
    steps.push(DepthStep::OverrideHitTest(ViewTarget::RenderView));
    if views.content_view != views.render_view && views.content_view != 0 {
        steps.push(DepthStep::OverrideHitTest(ViewTarget::ContentView));
    }
    assert(steps@ =~= window_steps() + view_steps(*views));
    steps.push(DepthStep::ResignKey);
    steps.push(DepthStep::ResignMain);
    steps.push(DepthStep::OrderBack);
    steps.push(
        DepthStep::SetFrame {
            x: display.origin_x,
            y: display.origin_y,
            width: display.width,
            height: display.height,
        },
    );
    assert(steps@ =~= window_steps() + view_steps(*views) + placement_steps(*display));
    let ghost placed = steps@;
    if views.content_view != 0 {
        steps.push(DepthStep::AutoresizeContent(AUTORESIZE_WIDTH_HEIGHT));
        steps.push(DepthStep::FillContent);
        if views.layer != 0 {
            steps.push(DepthStep::FillLayer);
        }
        steps.push(DepthStep::Relayout(ViewTarget::ContentView));
        steps.push(DepthStep::Relayout(ViewTarget::RenderView));
    }
    if views.render_view != views.content_view && views.superview != 0 {
        steps.push(DepthStep::FillSuperview);
    }
    assert(steps@ =~= placed + fill_steps(*views));
    steps
}

/// The steps to take again once the window is visible.
pub fn reassert_steps() -> (steps: Vec<DepthStep>)
    ensures
        steps@ == spec_reassert_steps(),
{
    let mut steps: Vec<DepthStep> = Vec::new();
    steps.push(DepthStep::Level(DESKTOP_WINDOW_LEVEL));
    steps.push(DepthStep::IgnoreMouseEvents);
    steps.push(DepthStep::OrderBack);
    assert(steps@ =~= spec_reassert_steps());
    steps
}

/// Every plan puts the window at the depth of the desktop, lets mouse
/// events through the window and the render view, keeps it on all spaces and
/// gives it the frame of its display; and it takes the borderless style
/// before it sets the frame.
pub proof fn lemma_depth_plan_covers(display: DisplayInfo, views: ViewHierarchy)
    ensures
        ({
            let steps = spec_depth_plan(display, views);
            let frame = DepthStep::SetFrame {
                x: display.origin_x,
                y: display.origin_y,
                width: display.width,
                height: display.height,
            };
            &&& steps[0] == DepthStep::Borderless
            &&& steps.contains(DepthStep::Level(DESKTOP_WINDOW_LEVEL))
            &&& steps.contains(DepthStep::IgnoreMouseEvents)
            &&& steps.contains(DepthStep::OverrideHitTest(ViewTarget::RenderView))
            &&& steps.contains(DepthStep::JoinAllSpaces)
            &&& steps.contains(DepthStep::OrderBack)
            &&& steps.contains(frame)
            &&& steps.index_of(frame) > 0
        }),
{
    let steps = spec_depth_plan(display, views);
    let frame = DepthStep::SetFrame {
        x: display.origin_x,
        y: display.origin_y,
        width: display.width,
        height: display.height,
    };
    let w = window_steps();
    let v = view_steps(views);
    let p = placement_steps(display);
    assert(steps[0] == w[0]);
    assert(steps[4] == w[4]);
    assert(steps[8] == w[8]);
    assert(steps[9] == w[9]);
    let hit = if views.content_view != 0 {
        2int
    } else {
        1int
    };
    assert(v[hit] == DepthStep::OverrideHitTest(ViewTarget::RenderView));
    assert(steps[12 + hit] == v[hit]);
    let base: int = 12 + v.len() as int;
    assert(steps[base + 2] == p[2]);
    assert(steps[base + 3] == p[3]);
    assert(steps.contains(frame));
    assert(steps[0] != frame);
}

} // verus!
