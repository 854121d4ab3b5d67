//! Discrete option values and the renderer parameters they stand for.
//!
//! Every option the control surface offers is a small index. A
//! [`MappingProfile`] holds, for each numeric option, the table that turns an
//! index into the renderer's parameter. An index the table does not hold maps
//! to the entry of [`FALLBACK_INDEX`], never to an error.
//!
//! Continuous parameters are fixed-point: they count thousandths, so a noise
//! multiplier of 0.45 is `450`.

use vstd::prelude::*;

verus! {

/// The index every numeric option falls back to when its value is unknown.
pub const FALLBACK_INDEX: usize = 1;

/// Scheme index of the palette taken from a user image.
pub const CUSTOM_IMAGE_SCHEME: u32 = 4;

/// A built-in color preset of the renderer.
#[derive(Clone, Copy, Debug, PartialEq, Eq, Structural)]
pub enum ColorPreset {
    Original,
    Plasma,
    Poolside,
    SpaceGrey,
}

/// How the renderer colors its lines.
#[derive(Clone, Copy, Debug, PartialEq, Eq, Structural)]
pub enum ColorMode {
    Preset(ColorPreset),
}

/// The tables that turn option indices into renderer parameters.
#[derive(Clone, Copy, Debug, PartialEq, Eq)]
pub struct MappingProfile {
    /// Grid spacing for Sparse, Normal, Dense. Larger spacing, fewer lines.
    pub grid_spacing: [u32; 3],
    /// Noise multiplier for Low, Medium, High, Max, in thousandths.
    pub noise_multiplier: [u32; 4],
    /// Line length for Short, Medium, Long, Extra Long, in thousandths.
    pub line_length: [u32; 4],
    /// Line width for Thin, Medium, Thick, in thousandths.
    pub line_width: [u32; 3],
    /// View scale for Compact, Normal, Wide, in thousandths.
    pub view_scale: [u32; 3],
    /// Brightness multiplier for Dim, Normal, Bright, Vivid, in thousandths.
    pub brightness_multiplier: [u32; 4],
}

/// The entry of `table` that `index` selects: its own where the table holds
/// it, the fallback entry otherwise.
pub open spec fn table_entry(table: Seq<u32>, index: u32) -> u32
    recommends
        table.len() > FALLBACK_INDEX,
{
    if (index as int) < table.len() {
        table[index as int]
    } else {
        table[FALLBACK_INDEX as int]
    }
}

/// Looks `index` up in a table of three entries.
pub fn lookup3(table: &[u32; 3], index: u32) -> (value: u32)
    ensures
        value == table_entry(table@, index),
{
    if index < 3 {
        table[index as usize]
    } else {
        table[FALLBACK_INDEX]
    }
}

/// Looks `index` up in a table of four entries.
pub fn lookup4(table: &[u32; 4], index: u32) -> (value: u32)
    ensures
        value == table_entry(table@, index),
{
    if index < 4 {
        table[index as usize]
    } else {
        table[FALLBACK_INDEX]
    }
}

impl MappingProfile {
    /// The canonical tables.
    pub open spec fn spec_standard() -> MappingProfile {
        MappingProfile {
            grid_spacing: [25u32, 15u32, 10u32],
            noise_multiplier: [150u32, 450u32, 750u32, 1000u32],
            line_length: [63000u32, 142000u32, 220000u32, 315000u32],
            line_width: [4000u32, 9000u32, 16000u32],
            view_scale: [1000u32, 1600u32, 2200u32],
            brightness_multiplier: [500u32, 1000u32, 2000u32, 3500u32],
        }
    }

    /// The canonical tables.
    #[verifier::when_used_as_spec(spec_standard)]
    pub fn standard() -> (profile: MappingProfile)
        ensures
            profile == Self::spec_standard(),
    {
        MappingProfile {
            grid_spacing: [25u32, 15u32, 10u32],
            noise_multiplier: [150u32, 450u32, 750u32, 1000u32],
            line_length: [63000u32, 142000u32, 220000u32, 315000u32],
            line_width: [4000u32, 9000u32, 16000u32],
            view_scale: [1000u32, 1600u32, 2200u32],
            brightness_multiplier: [500u32, 1000u32, 2000u32, 3500u32],
        }
    }
}

/// Grid spacing of a density index under the canonical tables.
pub open spec fn spec_density_to_grid_spacing(density: u32) -> u32 {
    if density == 0 {
        25
    } else if density == 2 {
        10
    } else {
        15
    }
}

/// Converts a density index to the renderer's grid spacing.
#[verifier::when_used_as_spec(spec_density_to_grid_spacing)]
pub fn density_to_grid_spacing(density: u32) -> (spacing: u32)
    ensures
        spacing == spec_density_to_grid_spacing(density),
        spacing == table_entry(MappingProfile::spec_standard().grid_spacing@, density),
{
    let profile = MappingProfile::standard();
    lookup3(&profile.grid_spacing, density)
}

/// Color mode of a scheme index. The custom-image scheme keeps the Original
/// preset in place: its palette reaches the renderer as a separate injection.
pub open spec fn spec_scheme_to_color_mode(scheme: u32) -> ColorMode {
    if scheme == 1 {
        ColorMode::Preset(ColorPreset::Plasma)
    } else if scheme == 2 {
        ColorMode::Preset(ColorPreset::Poolside)
    } else if scheme == 3 {
        ColorMode::Preset(ColorPreset::SpaceGrey)
    } else {
        ColorMode::Preset(ColorPreset::Original)
    }
}

/// Converts a color-scheme index to the renderer's color mode.
#[verifier::when_used_as_spec(spec_scheme_to_color_mode)]
pub fn scheme_to_color_mode(scheme: u32) -> (mode: ColorMode)
    ensures
        mode == spec_scheme_to_color_mode(scheme),
{
    match scheme {
        0 => ColorMode::Preset(ColorPreset::Original),
        1 => ColorMode::Preset(ColorPreset::Plasma),
        2 => ColorMode::Preset(ColorPreset::Poolside),
        3 => ColorMode::Preset(ColorPreset::SpaceGrey),
        _ => ColorMode::Preset(ColorPreset::Original),
    }
}

/// Noise multiplier of a strength index under the canonical tables, in
/// thousandths.
pub open spec fn spec_noise_strength_to_multiplier(strength: u32) -> u32 {
    if strength == 0 {
        150
    } else if strength == 2 {
        750
    } else if strength == 3 {
        1000
    } else {
        450
    }
}

/// Converts a noise-strength index to the noise multiplier, in thousandths.
#[verifier::when_used_as_spec(spec_noise_strength_to_multiplier)]
pub fn noise_strength_to_multiplier(strength: u32) -> (multiplier: u32)
    ensures
        multiplier == spec_noise_strength_to_multiplier(strength),
        multiplier == table_entry(MappingProfile::spec_standard().noise_multiplier@, strength),
{
    let profile = MappingProfile::standard();
    lookup4(&profile.noise_multiplier, strength)
}

/// Line length of a length index under the canonical tables, in thousandths.
pub open spec fn spec_line_length_to_value(length: u32) -> u32 {
    if length == 0 {
        63000
    } else if length == 2 {
        220000
    } else if length == 3 {
        315000
    } else {
        142000
    }
}

/// Converts a line-length index to the line length, in thousandths.
#[verifier::when_used_as_spec(spec_line_length_to_value)]
pub fn line_length_to_value(length: u32) -> (value: u32)
    ensures
        value == spec_line_length_to_value(length),
        value == table_entry(MappingProfile::spec_standard().line_length@, length),
{
    let profile = MappingProfile::standard();
    lookup4(&profile.line_length, length)
}

/// Line width of a width index under the canonical tables, in thousandths.
pub open spec fn spec_line_width_to_value(width: u32) -> u32 {
    if width == 0 {
        4000
    } else if width == 2 {
        16000
    } else {
        9000
    }
}

/// Converts a line-width index to the line width, in thousandths.
#[verifier::when_used_as_spec(spec_line_width_to_value)]
pub fn line_width_to_value(width: u32) -> (value: u32)
    ensures
        value == spec_line_width_to_value(width),
        value == table_entry(MappingProfile::spec_standard().line_width@, width),
{
    let profile = MappingProfile::standard();
    lookup3(&profile.line_width, width)
}

/// View scale of a scale index under the canonical tables, in thousandths.
pub open spec fn spec_view_scale_to_value(scale: u32) -> u32 {
    if scale == 0 {
        1000
    } else if scale == 2 {
        2200
    } else {
        1600
    }
}

/// Converts a view-scale index to the view scale, in thousandths.
#[verifier::when_used_as_spec(spec_view_scale_to_value)]
pub fn view_scale_to_value(scale: u32) -> (value: u32)
    ensures
        value == spec_view_scale_to_value(scale),
        value == table_entry(MappingProfile::spec_standard().view_scale@, scale),
{
    let profile = MappingProfile::standard();
    lookup3(&profile.view_scale, scale)
}

/// Brightness multiplier of a brightness index under the canonical tables,
/// in thousandths.
pub open spec fn spec_brightness_to_multiplier(brightness: u32) -> u32 {
    if brightness == 0 {
        500
    } else if brightness == 2 {
        2000
    } else if brightness == 3 {
        3500
    } else {
        1000
    }
}

/// Converts a brightness index to the brightness multiplier, in thousandths.
#[verifier::when_used_as_spec(spec_brightness_to_multiplier)]
pub fn brightness_to_multiplier(brightness: u32) -> (multiplier: u32)
    ensures
        multiplier == spec_brightness_to_multiplier(brightness),
        multiplier == table_entry(
            MappingProfile::spec_standard().brightness_multiplier@,
            brightness,
        ),
{
    let profile = MappingProfile::standard();
    lookup4(&profile.brightness_multiplier, brightness)
}

/// The discrete values the control surface has chosen, one per option.
#[derive(Clone, Copy, Debug, PartialEq, Eq, Structural)]
pub struct Selection {
    pub color_scheme: u32,
    pub density: u32,
    pub noise_strength: u32,
    pub line_length: u32,
    pub line_width: u32,
    pub view_scale: u32,
    pub brightness: u32,
}

/// One immutable bundle of renderer parameters. A change of any option
/// replaces the whole snapshot.
#[derive(Clone, Copy, Debug, PartialEq, Eq, Structural)]
pub struct Settings {
    pub color_mode: ColorMode,
    pub grid_spacing: u32,
    /// In thousandths.
    pub noise_multiplier: u32,
    /// In thousandths.
    pub line_length: u32,
    /// In thousandths.
    pub line_width: u32,
    /// In thousandths.
    pub view_scale: u32,
    /// In thousandths.
    pub brightness_multiplier: u32,
}

impl Settings {
    /// The snapshot that `selection` stands for under `profile`: each field
    /// mapped on its own, each unknown index by its table's fallback.
    pub open spec fn spec_from_selection(profile: MappingProfile, selection: Selection) -> Settings {
        Settings {
            color_mode: spec_scheme_to_color_mode(selection.color_scheme),
            grid_spacing: table_entry(profile.grid_spacing@, selection.density),
            noise_multiplier: table_entry(profile.noise_multiplier@, selection.noise_strength),
            line_length: table_entry(profile.line_length@, selection.line_length),
            line_width: table_entry(profile.line_width@, selection.line_width),
            view_scale: table_entry(profile.view_scale@, selection.view_scale),
            brightness_multiplier: table_entry(
                profile.brightness_multiplier@,
                selection.brightness,
            ),
        }
    }

    /// Builds the full snapshot for `selection` under `profile`. Defined for
    /// every selection.
    pub fn from_selection(profile: &MappingProfile, selection: &Selection) -> (settings: Settings)
        ensures
            settings == Self::spec_from_selection(*profile, *selection),
    {
        Settings {
            color_mode: scheme_to_color_mode(selection.color_scheme),
            grid_spacing: lookup3(&profile.grid_spacing, selection.density),
            noise_multiplier: lookup4(&profile.noise_multiplier, selection.noise_strength),
            line_length: lookup4(&profile.line_length, selection.line_length),
            line_width: lookup3(&profile.line_width, selection.line_width),
            view_scale: lookup3(&profile.view_scale, selection.view_scale),
            brightness_multiplier: lookup4(&profile.brightness_multiplier, selection.brightness),
        }
    }

    /// The snapshot that `selection` stands for under the canonical tables.
    pub open spec fn spec_standard(selection: Selection) -> Settings {
        Settings {
            color_mode: spec_scheme_to_color_mode(selection.color_scheme),
            grid_spacing: spec_density_to_grid_spacing(selection.density),
            noise_multiplier: spec_noise_strength_to_multiplier(selection.noise_strength),
            line_length: spec_line_length_to_value(selection.line_length),
            line_width: spec_line_width_to_value(selection.line_width),
            view_scale: spec_view_scale_to_value(selection.view_scale),
            brightness_multiplier: spec_brightness_to_multiplier(selection.brightness),
        }
    }

    /// Builds the full snapshot for `selection` under the canonical tables.
    #[verifier::when_used_as_spec(spec_standard)]
    pub fn standard(selection: Selection) -> (settings: Settings)
        ensures
            settings == Self::spec_standard(selection),
            settings == Self::spec_from_selection(MappingProfile::spec_standard(), selection),
    {
        let profile = MappingProfile::standard();
        Settings::from_selection(&profile, &selection)
    }
}

/// Every selection has a snapshot, and each of its fields is an entry of the
/// profile's table for that option: the selected entry where the table holds
/// the index, the fallback entry for every other index.
pub proof fn lemma_every_selection_is_mapped(profile: MappingProfile, selection: Selection)
    ensures
        ({
            let s = Settings::spec_from_selection(profile, selection);
            &&& profile.grid_spacing@.contains(s.grid_spacing)
            &&& profile.noise_multiplier@.contains(s.noise_multiplier)
            &&& profile.line_length@.contains(s.line_length)
            &&& profile.line_width@.contains(s.line_width)
            &&& profile.view_scale@.contains(s.view_scale)
            &&& profile.brightness_multiplier@.contains(s.brightness_multiplier)
            &&& selection.density >= 3 ==> s.grid_spacing == profile.grid_spacing@[1]
            &&& selection.noise_strength >= 4 ==> s.noise_multiplier == profile.noise_multiplier@[1]
            &&& selection.line_length >= 4 ==> s.line_length == profile.line_length@[1]
            &&& selection.line_width >= 3 ==> s.line_width == profile.line_width@[1]
            &&& selection.view_scale >= 3 ==> s.view_scale == profile.view_scale@[1]
            &&& selection.brightness >= 4 ==> s.brightness_multiplier
                == profile.brightness_multiplier@[1]
            &&& selection.color_scheme >= 4 ==> s.color_mode == ColorMode::Preset(
                ColorPreset::Original,
            )
        }),
{
    let s = Settings::spec_from_selection(profile, selection);
    lemma_entry_in_table(profile.grid_spacing@, selection.density);
    lemma_entry_in_table(profile.noise_multiplier@, selection.noise_strength);
    lemma_entry_in_table(profile.line_length@, selection.line_length);
    lemma_entry_in_table(profile.line_width@, selection.line_width);
    lemma_entry_in_table(profile.view_scale@, selection.view_scale);
    lemma_entry_in_table(profile.brightness_multiplier@, selection.brightness);
}

/// The entry that an index selects is one of the table's entries.
pub proof fn lemma_entry_in_table(table: Seq<u32>, index: u32)
    requires
        table.len() > FALLBACK_INDEX,
    ensures
        table.contains(table_entry(table, index)),
{
    if (index as int) < table.len() {
        assert(table[index as int] == table_entry(table, index));
    } else {
        assert(table[FALLBACK_INDEX as int] == table_entry(table, index));
    }
}

} // verus!
