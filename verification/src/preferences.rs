//! The persisted preferences: the discrete options as the user left them,
//! and a few toggles of the process.
//!
//! A field that a stored record lacks takes the value that
//! [`UserPreferences::default`] gives it.

use vstd::prelude::*;
use crate::palette::ColorWheel;
use crate::settings::{Selection, CUSTOM_IMAGE_SCHEME};

verus! {

/// Frames per second where the preferences name none.
pub const DEFAULT_FPS: u32 = 30;

/// One of the options that the control surface offers.
#[derive(Clone, Copy, Debug, PartialEq, Eq, Structural)]
pub enum OptionKind {
    ColorScheme,
    Density,
    NoiseStrength,
    LineLength,
    LineWidth,
    ViewScale,
    Brightness,
}

/// The persisted preferences.
#[derive(Clone, Debug, PartialEq, Eq)]
pub struct UserPreferences {
    pub color_scheme: u32,
    pub density: u32,
    pub noise_strength: u32,
    pub line_length: u32,
    pub line_width: u32,
    pub view_scale: u32,
    pub brightness: u32,
    pub fps: u32,
    pub run_on_login: bool,
    /// The palette of the last custom image, kept so that the image need not
    /// be processed again.
    pub custom_color_wheel: Option<ColorWheel>,
    /// Where the last custom image was read from.
    pub custom_image_path: Option<String>,
}

impl Selection {
    /// The selection that a fresh installation starts with.
    pub open spec fn spec_initial() -> Selection {
        Selection {
            color_scheme: 0,
            density: 1,
            noise_strength: 1,
            line_length: 1,
            line_width: 1,
            view_scale: 1,
            brightness: 1,
        }
    }

    /// The value chosen for `kind`.
    pub open spec fn spec_get(self, kind: OptionKind) -> u32 {
        match kind {
            OptionKind::ColorScheme => self.color_scheme,
            OptionKind::Density => self.density,
            OptionKind::NoiseStrength => self.noise_strength,
            OptionKind::LineLength => self.line_length,
            OptionKind::LineWidth => self.line_width,
            OptionKind::ViewScale => self.view_scale,
            OptionKind::Brightness => self.brightness,
        }
    }

    /// This selection with `value` chosen for `kind` and every other option
    /// as it was.
    pub open spec fn spec_with(self, kind: OptionKind, value: u32) -> Selection {
        match kind {
            OptionKind::ColorScheme => Selection { color_scheme: value, ..self },
            OptionKind::Density => Selection { density: value, ..self },
            OptionKind::NoiseStrength => Selection { noise_strength: value, ..self },
            OptionKind::LineLength => Selection { line_length: value, ..self },
            OptionKind::LineWidth => Selection { line_width: value, ..self },
            OptionKind::ViewScale => Selection { view_scale: value, ..self },
            OptionKind::Brightness => Selection { brightness: value, ..self },
        }
    }

    /// The value chosen for `kind`.
    #[verifier::when_used_as_spec(spec_get)]
    pub fn get(self, kind: OptionKind) -> (value: u32)
        ensures
            value == self.spec_get(kind),
    {
        match kind {
            OptionKind::ColorScheme => self.color_scheme,
            OptionKind::Density => self.density,
            OptionKind::NoiseStrength => self.noise_strength,
            OptionKind::LineLength => self.line_length,
            OptionKind::LineWidth => self.line_width,
            OptionKind::ViewScale => self.view_scale,
            OptionKind::Brightness => self.brightness,
        }
    }

    /// This selection with `value` chosen for `kind`.
    #[verifier::when_used_as_spec(spec_with)]
    pub fn with(self, kind: OptionKind, value: u32) -> (changed: Selection)
        ensures
            changed == self.spec_with(kind, value),
    {
        let mut changed = self;
        match kind {
            OptionKind::ColorScheme => {
                changed.color_scheme = value;
            },
            OptionKind::Density => {
                changed.density = value;
            },
            OptionKind::NoiseStrength => {
                changed.noise_strength = value;
            },
            OptionKind::LineLength => {
                changed.line_length = value;
            },
            OptionKind::LineWidth => {
                changed.line_width = value;
            },
            OptionKind::ViewScale => {
                changed.view_scale = value;
            },
            OptionKind::Brightness => {
                changed.brightness = value;
            },
        }
        changed
    }
}

impl UserPreferences {
    /// The options as they are stored.
    pub open spec fn spec_stored_selection(self) -> Selection {
        Selection {
            color_scheme: self.color_scheme,
            density: self.density,
            noise_strength: self.noise_strength,
            line_length: self.line_length,
            line_width: self.line_width,
            view_scale: self.view_scale,
            brightness: self.brightness,
        }
    }

    /// The color scheme in effect: the stored one, but Original where the
    /// custom-image scheme is stored without a cached palette.
    pub open spec fn spec_effective_color_scheme(self) -> u32 {
        if self.color_scheme == CUSTOM_IMAGE_SCHEME && self.custom_color_wheel.is_none() {
            0
        } else {
            self.color_scheme
        }
    }

    /// The options in effect: as stored, with the color scheme in effect.
    pub open spec fn spec_effective_selection(self) -> Selection {
        Selection {
            color_scheme: self.spec_effective_color_scheme(),
            ..self.spec_stored_selection()
        }
    }

    /// The cached palette, where the custom-image scheme is stored.
    pub open spec fn spec_cached_wheel(self) -> Option<ColorWheel> {
        if self.color_scheme == CUSTOM_IMAGE_SCHEME {
            self.custom_color_wheel
        } else {
            None
        }
    }

    /// The options as they are stored.
    pub fn stored_selection(&self) -> (selection: Selection)
        ensures
            selection == self.spec_stored_selection(),
    {
        Selection {
            color_scheme: self.color_scheme,
            density: self.density,
            noise_strength: self.noise_strength,
            line_length: self.line_length,
            line_width: self.line_width,
            view_scale: self.view_scale,
            brightness: self.brightness,
        }
    }

    /// The color scheme in effect. The stored value is left as it is.
    pub fn effective_color_scheme(&self) -> (scheme: u32)
        ensures
            scheme == self.spec_effective_color_scheme(),
    {
        if self.color_scheme == CUSTOM_IMAGE_SCHEME && self.custom_color_wheel.is_none() {
            0
        } else {
            self.color_scheme
        }
    }

    /// The options in effect.
    pub fn effective_selection(&self) -> (selection: Selection)
        ensures
            selection == self.spec_effective_selection(),
    {
        let mut selection = self.stored_selection();
        selection.color_scheme = self.effective_color_scheme();
        selection
    }

    /// The cached palette, where the custom-image scheme is stored.
    pub fn cached_wheel(&self) -> (wheel: Option<ColorWheel>)
        ensures
            wheel == self.spec_cached_wheel(),
    {
        if self.color_scheme == CUSTOM_IMAGE_SCHEME {
            self.custom_color_wheel
        } else {
            None
        }
    }

    /// Stores `value` for `kind` and leaves every other field as it was.
    pub fn set_option(&mut self, kind: OptionKind, value: u32)
        ensures
            final(self).spec_stored_selection() == old(self).spec_stored_selection().spec_with(
                kind,
                value,
            ),
            final(self).fps == old(self).fps,
            final(self).run_on_login == old(self).run_on_login,
            final(self).custom_color_wheel == old(self).custom_color_wheel,
            final(self).custom_image_path == old(self).custom_image_path,
    {
        match kind {
            OptionKind::ColorScheme => {
                self.color_scheme = value;
            },
            OptionKind::Density => {
                self.density = value;
            },
            OptionKind::NoiseStrength => {
                self.noise_strength = value;
            },
            OptionKind::LineLength => {
                self.line_length = value;
            },
            OptionKind::LineWidth => {
                self.line_width = value;
            },
            OptionKind::ViewScale => {
                self.view_scale = value;
            },
            OptionKind::Brightness => {
                self.brightness = value;
            },
        }
    }

    /// Stores the palette of a custom image with the path it came from, and
    /// the custom-image scheme with them.
    pub fn set_custom_image(&mut self, wheel: ColorWheel, path: String)
        ensures
            final(self).color_scheme == CUSTOM_IMAGE_SCHEME,
            final(self).custom_color_wheel == Some(wheel),
            final(self).custom_image_path == Some(path),
            final(self).spec_stored_selection() == old(self).spec_stored_selection().spec_with(
                OptionKind::ColorScheme,
                CUSTOM_IMAGE_SCHEME,
            ),
            final(self).fps == old(self).fps,
            final(self).run_on_login == old(self).run_on_login,
    {
        self.color_scheme = CUSTOM_IMAGE_SCHEME;
        self.custom_color_wheel = Some(wheel);
        self.custom_image_path = Some(path);
    }

    /// The preferences that were loaded, or the defaults where none could be.
    pub fn loaded_or_default(loaded: Option<UserPreferences>) -> (prefs: UserPreferences)
        ensures
            match loaded {
                Some(p) => prefs == p,
                None => prefs == Self::spec_default(),
            },
    {
        match loaded {
            Some(p) => p,
            None => UserPreferences::default(),
        }
    }

    /// The preferences of a fresh installation.
    pub open spec fn spec_default() -> UserPreferences {
        UserPreferences {
            color_scheme: 0,
            density: 1,
            noise_strength: 1,
            line_length: 1,
            line_width: 1,
            view_scale: 1,
            brightness: 1,
            fps: DEFAULT_FPS,
            run_on_login: false,
            custom_color_wheel: None,
            custom_image_path: None,
        }
    }
}

impl Default for UserPreferences {
    fn default() -> (prefs: Self)
        ensures
            prefs == Self::spec_default(),
            prefs.spec_stored_selection() == Selection::spec_initial(),
    {
        UserPreferences {
            color_scheme: 0,
            density: 1,
            noise_strength: 1,
            line_length: 1,
            line_width: 1,
            view_scale: 1,
            brightness: 1,
            fps: DEFAULT_FPS,
            run_on_login: false,
            custom_color_wheel: None,
            custom_image_path: None,
        }
    }
}

} // verus!
