//! Render sessions: one per display, each with its own surface, device and
//! renderer.
//!
//! A session here is the record of what its GPU objects were last told. The
//! caller owns the objects and carries out the commands that the session
//! returns. The surface always has the size that the window last reported,
//! whatever the display descriptor hints at.

use vstd::prelude::*;
use crate::control::SettingsUpdate;
use crate::display::DisplayInfo;
use crate::palette::ColorWheel;
use crate::settings::Settings;

verus! {

/// Why a session could not be created.
#[derive(Clone, Copy, Debug, PartialEq, Eq, Structural)]
pub enum SessionError {
    /// No GPU adapter can draw to the window's surface.
    AdapterUnavailable,
    /// The adapter would not hand out a device.
    DeviceCreationFailed,
}

/// A texture format that a surface can have, as far as the choice among
/// them goes.
#[derive(Clone, Copy, Debug, PartialEq, Eq, Structural)]
pub enum SurfaceFormat {
    Rgb10a2Unorm,
    Bgra8Unorm,
    Rgba8Unorm,
    Bgra8UnormSrgb,
    Rgba8UnormSrgb,
    /// Any other format.
    Other,
}

/// The sizes that a renderer is rebuilt with.
#[derive(Clone, Copy, Debug, PartialEq, Eq, Structural)]
pub struct RendererResize {
    pub logical_width: u32,
    pub logical_height: u32,
    pub physical_width: u32,
    pub physical_height: u32,
}

/// What a session asks of its GPU objects when settings are applied. The
/// renderer is always updated with the new snapshot first.
#[derive(Clone, Copy, Debug, PartialEq, Eq)]
pub struct SessionCommand {
    /// Rebuild the renderer's line grid with these sizes.
    pub resize: Option<RendererResize>,
    /// Inject this palette into the renderer's color buffer.
    pub inject: Option<ColorWheel>,
}

/// The record of one session.
#[derive(Clone, Copy, Debug, PartialEq, Eq, Structural)]
pub struct RenderSession {
    /// The display that the session was last matched with.
    pub display: DisplayInfo,
    /// The physical size that the window last reported.
    pub window_width: u32,
    pub window_height: u32,
    /// The size that the surface is configured with.
    pub surface_width: u32,
    pub surface_height: u32,
    /// The grid spacing that the renderer last took.
    pub grid_spacing: u32,
}

/// A surface extent: the window's, but never nothing.
pub open spec fn spec_surface_extent(window_extent: u32) -> u32 {
    if window_extent == 0 {
        1
    } else {
        window_extent
    }
}

/// The surface extent for a window extent.
#[verifier::when_used_as_spec(spec_surface_extent)]
pub fn surface_extent(window_extent: u32) -> (extent: u32)
    ensures
        extent == spec_surface_extent(window_extent),
        extent >= 1,
{
    if window_extent == 0 {
        1
    } else {
        window_extent
    }
}

/// Place of a format in the order of preference. A lower rank is preferred;
/// formats that are not preferred at all share the last rank.
pub open spec fn format_rank(format: SurfaceFormat) -> int {
    match format {
        SurfaceFormat::Rgb10a2Unorm => 0,
        SurfaceFormat::Bgra8Unorm => 1,
        SurfaceFormat::Rgba8Unorm => 2,
        SurfaceFormat::Bgra8UnormSrgb => 3,
        SurfaceFormat::Rgba8UnormSrgb => 4,
        SurfaceFormat::Other => 5,
    }
}

/// Place of a format in the order of preference.
pub fn rank_of(format: SurfaceFormat) -> (rank: u8)
    ensures
        rank == format_rank(format),
{
    match format {
        SurfaceFormat::Rgb10a2Unorm => 0,
        SurfaceFormat::Bgra8Unorm => 1,
        SurfaceFormat::Rgba8Unorm => 2,
        SurfaceFormat::Bgra8UnormSrgb => 3,
        SurfaceFormat::Rgba8UnormSrgb => 4,
        SurfaceFormat::Other => 5,
    }
}

/// Picks the surface format among those that the surface can have: the
/// index of the most preferred one, at its first place in the list; the
/// first of the list where none is preferred.
pub fn get_preferred_format(formats: &[SurfaceFormat]) -> (index: usize)
    requires
        formats@.len() > 0,
    ensures
        index < formats@.len(),
        forall|j: int| 0 <= j < formats@.len() ==> format_rank(formats@[index as int])
            <= format_rank(formats@[j]),
        forall|j: int| 0 <= j < index ==> format_rank(formats@[j]) > format_rank(
            formats@[index as int],
        ),
{
    let mut best: usize = 0;
    let mut i: usize = 1;
    while i < formats.len()
        invariant
            1 <= i <= formats@.len(),
            best < i,
            forall|j: int| 0 <= j < i ==> format_rank(formats@[best as int]) <= format_rank(
                formats@[j],
            ),
            forall|j: int| 0 <= j < best ==> format_rank(formats@[j]) > format_rank(
                formats@[best as int],
            ),
        decreases formats@.len() - i,
    {
        if rank_of(formats[i]) < rank_of(formats[best]) {
            best = i;
        }
        i += 1;
    }
    best
}

impl RenderSession {
    /// The surface has the size of the window, but never nothing.
    pub open spec fn is_valid(self) -> bool {
        &&& self.surface_width == spec_surface_extent(self.window_width)
        &&& self.surface_height == spec_surface_extent(self.window_height)
    }

    /// The sizes a renderer on this session's display is built with: the
    /// display's logical size and the window's physical size.
    pub open spec fn spec_renderer_size(self) -> RendererResize {
        RendererResize {
            logical_width: self.display.width,
            logical_height: self.display.height,
            physical_width: self.window_width,
            physical_height: self.window_height,
        }
    }

    /// The session of a new window on `display`.
    pub open spec fn spec_new(
        display: DisplayInfo,
        window_width: u32,
        window_height: u32,
        settings: Settings,
    ) -> RenderSession {
        RenderSession {
            display,
            window_width,
            window_height,
            surface_width: spec_surface_extent(window_width),
            surface_height: spec_surface_extent(window_height),
            grid_spacing: settings.grid_spacing,
        }
    }

    /// Creates the session of a window on `display`, given whether an
    /// adapter was found and whether it handed out a device, the physical
    /// size that the window reports and the settings the renderer starts
    /// with.
    pub fn create(
        display: DisplayInfo,
        window_width: u32,
        window_height: u32,
        adapter_found: bool,
        device_created: bool,
        settings: &Settings,
    ) -> (created: Result<RenderSession, SessionError>)
        ensures
            !adapter_found ==> created == Err::<RenderSession, SessionError>(
                SessionError::AdapterUnavailable,
            ),
            adapter_found && !device_created ==> created == Err::<RenderSession, SessionError>(
                SessionError::DeviceCreationFailed,
            ),
            adapter_found && device_created ==> created == Ok::<RenderSession, SessionError>(
                Self::spec_new(display, window_width, window_height, *settings),
            ),
            created matches Ok(session) ==> session.is_valid(),
    {
        if !adapter_found {
            return Err(SessionError::AdapterUnavailable);
        }
        if !device_created {
            return Err(SessionError::DeviceCreationFailed);
        }
        Ok(
            RenderSession {
                display,
                window_width,
                window_height,
                surface_width: surface_extent(window_width),
                surface_height: surface_extent(window_height),
                grid_spacing: settings.grid_spacing,
            },
        )
    }

    /// The sizes a renderer on this session's display is built with.
    pub fn renderer_size(&self) -> (size: RendererResize)
        ensures
            size == self.spec_renderer_size(),
    {
        RendererResize {
            logical_width: self.display.width,
            logical_height: self.display.height,
            physical_width: self.window_width,
            physical_height: self.window_height,
        }
    }

    /// The window reported a new size. The surface follows it, and the
    /// renderer is rebuilt with the sizes as given.
    pub fn resize(
        &mut self,
        logical_width: u32,
        logical_height: u32,
        physical_width: u32,
        physical_height: u32,
    ) -> (command: RendererResize)
        ensures
            *final(self) == (RenderSession {
                window_width: physical_width,
                window_height: physical_height,
                surface_width: spec_surface_extent(physical_width),
                surface_height: spec_surface_extent(physical_height),
                ..*old(self)
            }),
            final(self).is_valid(),
            command == (RendererResize {
                logical_width,
                logical_height,
                physical_width,
                physical_height,
            }),
    {
        self.window_width = physical_width;
        self.window_height = physical_height;
        self.surface_width = surface_extent(physical_width);
        self.surface_height = surface_extent(physical_height);
        RendererResize { logical_width, logical_height, physical_width, physical_height }
    }

    /// Applies a settings update. The renderer is rebuilt exactly when its
    /// grid spacing differs from the new one; the palette of the update, if
    /// any, is injected. The surface is left alone.
    pub fn apply_settings(&mut self, update: &SettingsUpdate) -> (command: SessionCommand)
        ensures
            *final(self) == (RenderSession {
                grid_spacing: update.settings.grid_spacing,
                ..*old(self)
            }),
            command.resize.is_some() <==> old(self).grid_spacing != update.settings.grid_spacing,
            command.resize matches Some(size) ==> size == old(self).spec_renderer_size(),
            command.inject == update.custom_wheel,
    {
        let density_changed = self.grid_spacing != update.settings.grid_spacing;
        self.grid_spacing = update.settings.grid_spacing;
        let resize = if density_changed {
            Some(self.renderer_size())
        } else {
            None
        };
        SessionCommand { resize, inject: update.custom_wheel }
    }

    /// The topology changed and `display` now stands at this session's
    /// place. The surface takes the size that the window reports after it
    /// was moved, and the renderer is rebuilt for the new display.
    pub fn display_changed(&mut self, display: DisplayInfo, window_width: u32, window_height: u32)
        -> (command: RendererResize)
        ensures
            *final(self) == (RenderSession {
                display,
                window_width,
                window_height,
                surface_width: spec_surface_extent(window_width),
                surface_height: spec_surface_extent(window_height),
                ..*old(self)
            }),
            final(self).is_valid(),
            command == final(self).spec_renderer_size(),
    {
        self.display = display;
        self.window_width = window_width;
        self.window_height = window_height;
        self.surface_width = surface_extent(window_width);
        self.surface_height = surface_extent(window_height);
        self.renderer_size()
    }
}

/// A change of density rebuilds the renderer if and only if the grid spacing
/// changes; applying the same settings again rebuilds nothing.
pub proof fn lemma_resize_iff_spacing_changes(session: RenderSession, update: SettingsUpdate)
    ensures
        ({
            let needs = session.grid_spacing != update.settings.grid_spacing;
            let after = RenderSession { grid_spacing: update.settings.grid_spacing, ..session };
            &&& spec_needs_resize(session, update.settings) == needs
            &&& !spec_needs_resize(after, update.settings)
        }),
{
}

/// Whether applying `settings` to `session` rebuilds its renderer.
pub open spec fn spec_needs_resize(session: RenderSession, settings: Settings) -> bool {
    session.grid_spacing != settings.grid_spacing
}

} // verus!
