//! Display topology: the displays as the system last enumerated them, and
//! the notice that they changed.
//!
//! A display is known by its place in the enumeration, nothing else. A new
//! enumeration replaces the old one whole.

use vstd::prelude::*;
use crate::control::SharedSettings;

verus! {

/// Logical width of the display that stands in where none is found.
pub const FALLBACK_WIDTH: u32 = 1920;

/// Logical height of the display that stands in where none is found.
pub const FALLBACK_HEIGHT: u32 = 1080;

/// The platform that the process runs on.
#[derive(Clone, Copy, Debug, PartialEq, Eq, Structural)]
pub enum Platform {
    MacOs,
    Windows,
    Other,
}

/// One physical display.
#[derive(Clone, Copy, Debug, PartialEq, Eq, Structural)]
pub struct DisplayInfo {
    /// Origin in the desktop's logical coordinates. May be negative.
    pub origin_x: i32,
    pub origin_y: i32,
    /// Logical size.
    pub width: u32,
    pub height: u32,
    /// Size of the backing store in physical pixels. A hint: a session goes
    /// by what its window reports.
    pub pixels_wide: u32,
    pub pixels_high: u32,
}

/// Whether notices of topology changes reach the process.
#[derive(Clone, Copy, Debug, PartialEq, Eq, Structural)]
pub struct ScreenChangeObserver {
    /// True where the system delivers a notice on every change. False where
    /// the topology is read at startup only.
    pub registered: bool,
}

impl DisplayInfo {
    /// The backing store is at least as large as the logical size.
    pub open spec fn is_valid(self) -> bool {
        &&& self.pixels_wide >= self.width
        &&& self.pixels_high >= self.height
    }

    /// The display that stands in where none is found.
    pub open spec fn spec_fallback() -> DisplayInfo {
        DisplayInfo {
            origin_x: 0,
            origin_y: 0,
            width: FALLBACK_WIDTH,
            height: FALLBACK_HEIGHT,
            pixels_wide: FALLBACK_WIDTH,
            pixels_high: FALLBACK_HEIGHT,
        }
    }

    /// The display that stands in where none is found.
    #[verifier::when_used_as_spec(spec_fallback)]
    pub fn fallback() -> (display: DisplayInfo)
        ensures
            display == Self::spec_fallback(),
            display.is_valid(),
    {
        DisplayInfo {
            origin_x: 0,
            origin_y: 0,
            width: FALLBACK_WIDTH,
            height: FALLBACK_HEIGHT,
            pixels_wide: FALLBACK_WIDTH,
            pixels_high: FALLBACK_HEIGHT,
        }
    }

    /// The extent of a monitor rectangle along one axis: nothing where the
    /// far edge does not lie beyond the near one.
    pub open spec fn spec_extent(near: i32, far: i32) -> u32 {
        if far > near {
            (far - near) as u32
        } else {
            0
        }
    }

    /// The display of a monitor rectangle whose pixels are its logical
    /// units.
    pub open spec fn spec_from_monitor_rect(left: i32, top: i32, right: i32, bottom: i32)
        -> DisplayInfo {
        DisplayInfo {
            origin_x: left,
            origin_y: top,
            width: Self::spec_extent(left, right),
            height: Self::spec_extent(top, bottom),
            pixels_wide: Self::spec_extent(left, right),
            pixels_high: Self::spec_extent(top, bottom),
        }
    }

    /// Builds the display of a monitor rectangle whose pixels are its
    /// logical units.
    pub fn from_monitor_rect(left: i32, top: i32, right: i32, bottom: i32) -> (display:
        DisplayInfo)
        ensures
            display == Self::spec_from_monitor_rect(left, top, right, bottom),
            display.is_valid(),
    {
        let width: u32 = if right > left {
            (right as i64 - left as i64) as u32
        } else {
            0
        };
        let height: u32 = if bottom > top {
            (bottom as i64 - top as i64) as u32
        } else {
            0
        };
        DisplayInfo {
            origin_x: left,
            origin_y: top,
            width,
            height,
            pixels_wide: width,
            pixels_high: height,
        }
    }
}

/// The displays to work with: those that the system enumerated, in its
/// order; where it enumerated none, the main display if one is known, and
/// the fallback display otherwise.
pub open spec fn spec_get_all_displays(found: Seq<DisplayInfo>, main: Option<DisplayInfo>) -> Seq<
    DisplayInfo,
> {
    if found.len() > 0 {
        found
    } else {
        match main {
            Some(display) => seq![display],
            None => seq![DisplayInfo::spec_fallback()],
        }
    }
}

/// Settles the displays to work with. Never returns an empty enumeration.
pub fn get_all_displays(found: Vec<DisplayInfo>, main: Option<DisplayInfo>) -> (displays: Vec<
    DisplayInfo,
>)
    ensures
        displays@ == spec_get_all_displays(found@, main),
        displays.len() > 0,
{
    if found.len() > 0 {
        found
    } else {
        let mut displays: Vec<DisplayInfo> = Vec::new();
        match main {
            Some(display) => displays.push(display),
            None => displays.push(DisplayInfo::fallback()),
        }
        assert(displays@ =~= spec_get_all_displays(found@, main));
        displays
    }
}

/// Whether the platform delivers a notice when the topology changes.
pub open spec fn delivers_screen_changes(platform: Platform) -> bool {
    platform == Platform::MacOs
}

/// Sets up the watch on the display topology for `platform`.
pub fn setup_screen_change_observer(platform: Platform) -> (observer: ScreenChangeObserver)
    ensures
        observer.registered == delivers_screen_changes(platform),
{
    match platform {
        Platform::MacOs => ScreenChangeObserver { registered: true },
        _ => ScreenChangeObserver { registered: false },
    }
}

impl ScreenChangeObserver {
    /// The system reported a change of the screen parameters. Where the
    /// observer is registered the topology flag is raised; anything else
    /// stays as it is.
    pub fn screen_did_change(&self, shared: &mut SharedSettings)
        ensures
            *final(shared) == (SharedSettings {
                screen_config_changed: old(shared).screen_config_changed || self.registered,
                ..*old(shared)
            }),
    {
        if self.registered {
            shared.notify_screen_change();
        }
    }
}

} // verus!
