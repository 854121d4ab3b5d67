//! Embedding a window as wallpaper: which strategy a platform takes, the
//! steps of each strategy in their order, and the life of a window from
//! created to visible.
//!
//! The steps are carried out by the caller against the window system. What
//! is decided here is which steps, in which order, with which values.

use vstd::prelude::*;
use crate::depth::{depth_plan, reassert_steps, spec_depth_plan, spec_reassert_steps};
use crate::display::{DisplayInfo, Platform};
use crate::shell::{setup_as_wallpaper, spec_setup_as_wallpaper};

verus! {

/// Window level of the desktop icons: the depth that a wallpaper window
/// takes.
pub const DESKTOP_WINDOW_LEVEL: i64 = -2147483623;

/// Alpha of a wallpaper window, in thousandths: just short of opaque.
pub const WALLPAPER_ALPHA: u32 = 990;

/// Autoresizing mask of a view that follows its window in width and height.
pub const AUTORESIZE_WIDTH_HEIGHT: u64 = 0x12;

/// Style bit of a pop-up window.
pub const WS_POPUP: u64 = 0x8000_0000;

/// Style bit of a child window.
pub const WS_CHILD: u64 = 0x4000_0000;

/// Style bit of a disabled window.
pub const WS_DISABLED: u64 = 0x0800_0000;

/// Extended style bit of a layered window.
pub const WS_EX_LAYERED: u64 = 0x0008_0000;

/// Placement flag: keep the position.
pub const SWP_NOMOVE: u32 = 0x0002;

/// Placement flag: keep the size.
pub const SWP_NOSIZE: u32 = 0x0001;

/// Placement flag: do not activate the window.
pub const SWP_NOACTIVATE: u32 = 0x0010;

/// Placement flag: the frame changed.
pub const SWP_FRAMECHANGED: u32 = 0x0020;

/// The message that makes the shell bring out its background container.
pub const SPAWN_WORKER_MESSAGE: u32 = 0x052C;

/// First parameter of [`SPAWN_WORKER_MESSAGE`].
pub const SPAWN_WORKER_WPARAM: usize = 0xD;

/// Second parameter of [`SPAWN_WORKER_MESSAGE`].
pub const SPAWN_WORKER_LPARAM: isize = 0x1;

/// How long the shell is given to answer, in milliseconds.
pub const SPAWN_WORKER_TIMEOUT_MS: u32 = 1000;

/// How long the shell is given to settle after the message, in
/// milliseconds.
pub const SPAWN_WORKER_SETTLE_MS: u64 = 100;

/// How a platform makes a window behave as wallpaper.
#[derive(Clone, Copy, Debug, PartialEq, Eq, Structural)]
pub enum Strategy {
    /// The window takes the depth of the desktop and lets every input
    /// through.
    DepthAndTransparency,
    /// The window becomes a child of the shell's background container.
    ShellReparenting,
    /// The platform has no desktop shell to embed in: the window stays an
    /// ordinary one.
    PlainWindow,
}

/// Where a window stands in its life.
#[derive(Clone, Copy, Debug, PartialEq, Eq, Structural)]
pub enum EmbedState {
    Created,
    Embedded,
    Visible,
}

/// Why a window could not be embedded. Neither is fatal: the window stays an
/// ordinary top-level window.
#[derive(Clone, Copy, Debug, PartialEq, Eq, Structural)]
pub enum EmbedError {
    /// The shell's program manager window was not found.
    ShellNotFound,
    /// Neither the desktop-icons view nor the background container was
    /// found.
    ContainerNotFound,
}

/// A view of the window, for the steps that name one.
#[derive(Clone, Copy, Debug, PartialEq, Eq, Structural)]
pub enum ViewTarget {
    /// The view that the renderer draws to.
    RenderView,
    /// The window's content view.
    ContentView,
}

/// What the window system reports of the views of a window. A handle of
/// zero stands for a view that is not there.
#[derive(Clone, Copy, Debug, PartialEq, Eq, Structural)]
pub struct ViewHierarchy {
    pub render_view: usize,
    pub content_view: usize,
    pub superview: usize,
    pub layer: usize,
}

/// One step of the depth-and-transparency strategy.
#[derive(Clone, Copy, Debug, PartialEq, Eq, Structural)]
pub enum DepthStep {
    /// Take the borderless style. Comes before the frame is set.
    Borderless,
    NoShadow,
    NotOpaque,
    ClearBackground,
    /// Take the given window level.
    Level(i64),
    StayWhenDeactivated,
    KeepWhenClosed,
    /// Take the given alpha, in thousandths.
    Alpha(u32),
    /// Join all spaces, stay in place, keep out of window cycling.
    JoinAllSpaces,
    IgnoreMouseEvents,
    RejectMouseMoved,
    ExcludeFromWindowsMenu,
    /// The view takes no touch events.
    RejectTouch(ViewTarget),
    /// Every hit test on the view's class finds nothing.
    OverrideHitTest(ViewTarget),
    ResignKey,
    ResignMain,
    /// Go to the back of the window's level.
    OrderBack,
    /// Take the display's frame: origin and logical size.
    SetFrame { x: i32, y: i32, width: u32, height: u32 },
    /// The content view follows the window's size, by the given mask.
    AutoresizeContent(u64),
    /// The content view takes the window's bounds.
    FillContent,
    /// The render view's layer takes the content view's frame.
    FillLayer,
    /// The view lays out anew.
    Relayout(ViewTarget),
    /// The render view takes its superview's bounds.
    FillSuperview,
}

/// One step of the shell-reparenting strategy.
#[derive(Clone, Copy, Debug, PartialEq, Eq, Structural)]
pub enum ShellStep {
    /// Replace the window's style by [`child_style`] of it.
    MakeChild,
    /// Make the window a child of the given window.
    SetParent(isize),
    /// Replace the window's extended style by [`layered_style`] of it, and
    /// make the layer fully opaque.
    MakeLayered,
    /// Place the window behind `insert_after` (zero: at the top) with the
    /// given frame and flags.
    Place { insert_after: isize, x: i32, y: i32, width: i32, height: i32, flags: u32 },
    /// Place the given window behind this one, leaving its frame alone.
    PlaceBehindSelf { window: isize, flags: u32 },
    /// Show the window without activating it.
    ShowInactive,
}

/// What was found of the shell's windows. A handle of zero stands for a
/// window that was not found.
#[derive(Clone, Copy, Debug, PartialEq, Eq, Structural)]
pub struct ShellProbe {
    /// The program manager window.
    pub progman: isize,
    /// The desktop-icons view inside the program manager.
    pub shell_view: isize,
    /// The background container.
    pub worker: isize,
    /// Size of the program manager window.
    pub progman_width: i32,
    pub progman_height: i32,
}

/// What one top-level window shows when it is probed for the background
/// container.
#[derive(Clone, Copy, Debug, PartialEq, Eq, Structural)]
pub struct TopLevelProbe {
    /// The desktop-icons view among the window's children, or zero.
    pub shell_view: isize,
    /// The next background container after the window among its siblings,
    /// or zero.
    pub next_worker: isize,
}

/// The embedding of one window.
#[derive(Clone, Copy, Debug, PartialEq, Eq, Structural)]
pub struct WindowEmbedding {
    pub strategy: Strategy,
    pub state: EmbedState,
    /// Whether the window was embedded as wallpaper. False for a window that
    /// stays an ordinary one.
    pub as_wallpaper: bool,
}

/// The strategy of a platform.
pub open spec fn spec_strategy_for(platform: Platform) -> Strategy {
    match platform {
        Platform::MacOs => Strategy::DepthAndTransparency,
        Platform::Windows => Strategy::ShellReparenting,
        Platform::Other => Strategy::PlainWindow,
    }
}

/// The strategy of a platform.
#[verifier::when_used_as_spec(spec_strategy_for)]
pub fn strategy_for(platform: Platform) -> (strategy: Strategy)
    ensures
        strategy == spec_strategy_for(platform),
{
    match platform {
        Platform::MacOs => Strategy::DepthAndTransparency,
        Platform::Windows => Strategy::ShellReparenting,
        Platform::Other => Strategy::PlainWindow,
    }
}

/// A window style turned into that of a child: the pop-up and the disabled
/// bit cleared, the child bit set.
pub open spec fn spec_child_style(style: u64) -> u64 {
    (style & !WS_POPUP & !WS_DISABLED) | WS_CHILD
}

/// Turns a window style into that of a child.
#[verifier::when_used_as_spec(spec_child_style)]
pub fn child_style(style: u64) -> (styled: u64)
    ensures
        styled == spec_child_style(style),
        styled & WS_CHILD == WS_CHILD,
        styled & WS_POPUP == 0,
        styled & WS_DISABLED == 0,
        styled & !(WS_POPUP | WS_DISABLED | WS_CHILD) == style & !(WS_POPUP | WS_DISABLED
            | WS_CHILD),
{
    let styled = (style & !WS_POPUP & !WS_DISABLED) | WS_CHILD;
    assert(styled & 0x4000_0000 == 0x4000_0000 && styled & 0x8000_0000 == 0 && styled
        & 0x0800_0000 == 0 && styled & !(0x8000_0000u64 | 0x0800_0000 | 0x4000_0000) == style & !(
    0x8000_0000u64 | 0x0800_0000 | 0x4000_0000)) by (bit_vector)
        requires
            styled == (style & !0x8000_0000u64 & !0x0800_0000u64) | 0x4000_0000u64,
    ;
    styled
}

/// An extended window style with the layered bit set.
pub open spec fn spec_layered_style(ex_style: u64) -> u64 {
    ex_style | WS_EX_LAYERED
}

/// Sets the layered bit of an extended window style.
#[verifier::when_used_as_spec(spec_layered_style)]
pub fn layered_style(ex_style: u64) -> (styled: u64)
    ensures
        styled == spec_layered_style(ex_style),
        styled & WS_EX_LAYERED == WS_EX_LAYERED,
        styled & !WS_EX_LAYERED == ex_style & !WS_EX_LAYERED,
{
    let styled = ex_style | WS_EX_LAYERED;
    assert(styled & 0x0008_0000 == 0x0008_0000 && styled & !0x0008_0000u64 == ex_style
        & !0x0008_0000u64) by (bit_vector)
        requires
            styled == ex_style | 0x0008_0000u64,
    ;
    styled
}

/// What was found of the window before it is embedded: its views where the
/// window system has views, the shell's windows where it has a shell.
#[derive(Clone, Copy, Debug, PartialEq, Eq, Structural)]
pub enum EmbedProbe {
    Views(ViewHierarchy),
    Shell(ShellProbe),
    Nothing,
}

/// The steps that embed a window.
#[derive(Clone, Debug, PartialEq, Eq)]
pub enum EmbedPlan {
    Depth(Vec<DepthStep>),
    Shell(Vec<ShellStep>),
    /// Nothing to do: the window stays an ordinary one.
    Plain,
}

/// A size in physical pixels as the shell takes it: the same bits, signed.
pub open spec fn spec_shell_extent(pixels: u32) -> i32 {
    if pixels <= i32::MAX {
        pixels as i32
    } else {
        (pixels - 0x1_0000_0000) as i32
    }
}

/// A size in physical pixels as the shell takes it.
#[verifier::when_used_as_spec(spec_shell_extent)]
pub fn shell_extent(pixels: u32) -> (extent: i32)
    ensures
        extent == spec_shell_extent(pixels),
{
    if pixels <= 0x7fff_ffff {
        pixels as i32
    } else {
        (pixels as i64 - 0x1_0000_0000) as i32
    }
}

/// Plans the embedding of a window on `display`. The platform's strategy
/// is planned where the probe is of its kind; the window stays an ordinary
/// one where the platform has no strategy or the probe is of another kind.
/// Under the shell the window takes the display's size in physical pixels.
pub fn setup_wallpaper_window(platform: Platform, display: &DisplayInfo, probe: &EmbedProbe)
    -> (plan: Result<EmbedPlan, EmbedError>)
    ensures
        match (spec_strategy_for(platform), *probe) {
            (Strategy::DepthAndTransparency, EmbedProbe::Views(views)) => plan matches Ok(
                EmbedPlan::Depth(steps),
            ) && steps@ == spec_depth_plan(*display, views),
            (Strategy::ShellReparenting, EmbedProbe::Shell(shell)) => match spec_setup_as_wallpaper(
                shell,
                spec_shell_extent(display.pixels_wide),
                spec_shell_extent(display.pixels_high),
            ) {
                Ok(expected) => plan matches Ok(EmbedPlan::Shell(steps)) && steps@ == expected,
                Err(e) => plan == Err::<EmbedPlan, EmbedError>(e),
            },
            _ => plan == Ok::<EmbedPlan, EmbedError>(EmbedPlan::Plain),
        },
{
    match (strategy_for(platform), probe) {
        (Strategy::DepthAndTransparency, EmbedProbe::Views(views)) => Ok(
            EmbedPlan::Depth(depth_plan(display, views)),
        ),
        (Strategy::ShellReparenting, EmbedProbe::Shell(shell)) => {
            let width = shell_extent(display.pixels_wide);
            let height = shell_extent(display.pixels_high);
            match setup_as_wallpaper(shell, width, height) {
                Ok(steps) => Ok(EmbedPlan::Shell(steps)),
                Err(e) => Err(e),
            }
        },
        _ => Ok(EmbedPlan::Plain),
    }
}

/// What happens to a window's embedding.
#[derive(Clone, Copy, Debug, PartialEq, Eq, Structural)]
pub enum EmbedEvent {
    /// The plan was carried out, or failed softly.
    Embedded { succeeded: bool },
    /// The window was made visible.
    Shown,
}

/// How far a state is along the life of a window.
pub open spec fn state_rank(state: EmbedState) -> int {
    match state {
        EmbedState::Created => 0,
        EmbedState::Embedded => 1,
        EmbedState::Visible => 2,
    }
}

impl WindowEmbedding {
    /// The embedding of a window that was just created.
    pub open spec fn spec_new(strategy: Strategy) -> WindowEmbedding {
        WindowEmbedding { strategy, state: EmbedState::Created, as_wallpaper: false }
    }

    /// The embedding after `event`. A created window becomes embedded, an
    /// embedded one visible; any other event leaves the embedding as it is.
    pub open spec fn spec_after(self, event: EmbedEvent) -> WindowEmbedding {
        match event {
            EmbedEvent::Embedded { succeeded } => if self.state == EmbedState::Created {
                WindowEmbedding {
                    state: EmbedState::Embedded,
                    as_wallpaper: succeeded && self.strategy != Strategy::PlainWindow,
                    ..self
                }
            } else {
                self
            },
            EmbedEvent::Shown => if self.state == EmbedState::Embedded {
                WindowEmbedding { state: EmbedState::Visible, ..self }
            } else {
                self
            },
        }
    }

    /// The embedding after a sequence of events, first to last.
    pub open spec fn spec_after_all(self, events: Seq<EmbedEvent>) -> WindowEmbedding
        decreases events.len(),
    {
        if events.len() == 0 {
            self
        } else {
            self.spec_after_all(events.drop_last()).spec_after(events.last())
        }
    }

    /// The steps to take again when the window becomes visible: those of
    /// the depth strategy where the window was embedded by it, none
    /// otherwise.
    pub open spec fn spec_steps_when_shown(self) -> Seq<DepthStep> {
        if self.state == EmbedState::Embedded && self.as_wallpaper && self.strategy
            == Strategy::DepthAndTransparency {
            spec_reassert_steps()
        } else {
            Seq::empty()
        }
    }

    /// The embedding of a window that was just created.
    pub fn new(strategy: Strategy) -> (embedding: WindowEmbedding)
        ensures
            embedding == Self::spec_new(strategy),
    {
        WindowEmbedding { strategy, state: EmbedState::Created, as_wallpaper: false }
    }

    /// The plan was carried out, or failed softly. Tells whether the window
    /// entered the embedded state by this call.
    pub fn embedded(&mut self, succeeded: bool) -> (entered: bool)
        ensures
            *final(self) == old(self).spec_after(EmbedEvent::Embedded { succeeded }),
            entered == (old(self).state == EmbedState::Created),
    {
        if self.state == EmbedState::Created {
            self.state = EmbedState::Embedded;
            self.as_wallpaper = succeeded && self.strategy != Strategy::PlainWindow;
            true
        } else {
            false
        }
    }

    /// The window was made visible. Returns the steps to take again now.
    pub fn shown(&mut self) -> (steps: Vec<DepthStep>)
        ensures
            *final(self) == old(self).spec_after(EmbedEvent::Shown),
            steps@ == old(self).spec_steps_when_shown(),
    {
        if self.state == EmbedState::Embedded {
            self.state = EmbedState::Visible;
            if self.as_wallpaper && self.strategy == Strategy::DepthAndTransparency {
                return reassert_steps();
            }
        }
        Vec::new()
    }
}

/// Whatever happens to a window, its embedding never goes back: not to
/// created, not from visible to embedded. So the embedded state is entered
/// at most once.
pub proof fn lemma_embedding_never_goes_back(start: WindowEmbedding, events: Seq<EmbedEvent>)
    ensures
        state_rank(start.spec_after_all(events).state) >= state_rank(start.state),
        start.spec_after_all(events).strategy == start.strategy,
        forall|k: int|
            0 <= k < events.len() ==> state_rank(
                #[trigger] start.spec_after_all(events.take(k + 1)).state,
            ) >= state_rank(start.spec_after_all(events.take(k)).state),
    decreases events.len(),
{
    if events.len() > 0 {
        lemma_embedding_never_goes_back(start, events.drop_last());
        assert forall|k: int| 0 <= k < events.len() implies state_rank(
            #[trigger] start.spec_after_all(events.take(k + 1)).state,
        ) >= state_rank(start.spec_after_all(events.take(k)).state) by {
            assert(events.take(k + 1).drop_last() =~= events.take(k));
        }
    }
}

} // verus!
