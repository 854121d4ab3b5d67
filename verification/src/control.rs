//! Live settings: what the control surface writes and the render loop reads.
//!
//! The control side stores a value and raises a flag; the render loop tests
//! and clears the flag once per iteration and, where it was raised, rebuilds
//! the whole snapshot from the values as they then stand. Raising the flag
//! twice before the loop looks is the same as raising it once.

use vstd::prelude::*;
use crate::decode::{extract_colors_from_image, is_extraction_of, ExtractError};
use crate::palette::ColorWheel;
use crate::preferences::{OptionKind, UserPreferences};
use crate::settings::{MappingProfile, Selection, Settings, CUSTOM_IMAGE_SCHEME};

verus! {

/// The state that the control side and the render loop share.
#[derive(Clone, Copy, Debug, PartialEq, Eq)]
pub struct SharedSettings {
    /// The values last written, one per option.
    pub selection: Selection,
    /// Raised by every write; cleared by the render loop.
    pub settings_changed: bool,
    /// Raised when the display topology changed; cleared by the render loop.
    pub screen_config_changed: bool,
    /// Raised when the user asked to quit. Never cleared.
    pub should_quit: bool,
    /// The palette of the custom image, staged for the renderers.
    pub custom_color_wheel: Option<ColorWheel>,
}

/// What the render loop applies to every session after a change.
#[derive(Clone, Copy, Debug, PartialEq, Eq)]
pub struct SettingsUpdate {
    /// The full snapshot, built from the values last written.
    pub settings: Settings,
    /// The palette to inject, where the custom-image scheme is chosen and a
    /// palette is staged.
    pub custom_wheel: Option<ColorWheel>,
}

/// What one write from the control surface is.
#[derive(Clone, Copy, Debug, PartialEq, Eq, Structural)]
pub struct Write {
    pub kind: OptionKind,
    pub value: u32,
}

impl SharedSettings {
    /// The shared state at startup: the options in effect, no flag raised,
    /// and the cached palette where the custom-image scheme is stored.
    pub open spec fn spec_from_preferences(prefs: UserPreferences) -> SharedSettings {
        SharedSettings {
            selection: prefs.spec_effective_selection(),
            settings_changed: false,
            screen_config_changed: false,
            should_quit: false,
            custom_color_wheel: prefs.spec_cached_wheel(),
        }
    }

    /// The palette to inject under the values as they stand.
    pub open spec fn spec_wheel_to_inject(self) -> Option<ColorWheel> {
        if self.selection.color_scheme == CUSTOM_IMAGE_SCHEME {
            self.custom_color_wheel
        } else {
            None
        }
    }

    /// The update that the values as they stand amount to.
    pub open spec fn spec_update(self, profile: MappingProfile) -> SettingsUpdate {
        SettingsUpdate {
            settings: Settings::spec_from_selection(profile, self.selection),
            custom_wheel: self.spec_wheel_to_inject(),
        }
    }

    /// This state after one write.
    pub open spec fn spec_after_write(self, write: Write) -> SharedSettings {
        SharedSettings {
            selection: self.selection.spec_with(write.kind, write.value),
            settings_changed: true,
            ..self
        }
    }

    /// This state after a sequence of writes, first to last.
    pub open spec fn spec_after_writes(self, writes: Seq<Write>) -> SharedSettings
        decreases writes.len(),
    {
        if writes.len() == 0 {
            self
        } else {
            self.spec_after_writes(writes.drop_last()).spec_after_write(writes.last())
        }
    }

    /// What a poll of the render loop returns.
    pub open spec fn spec_polled(self, profile: MappingProfile) -> Option<SettingsUpdate> {
        if self.settings_changed {
            Some(self.spec_update(profile))
        } else {
            None
        }
    }

    /// This state after a poll of the render loop.
    pub open spec fn spec_after_poll(self) -> SharedSettings {
        SharedSettings { settings_changed: false, ..self }
    }

    /// Builds the shared state at startup. The preferences are read, not
    /// changed.
    pub fn from_preferences(prefs: &UserPreferences) -> (shared: SharedSettings)
        ensures
            shared == Self::spec_from_preferences(*prefs),
    {
        SharedSettings {
            selection: prefs.effective_selection(),
            settings_changed: false,
            screen_config_changed: false,
            should_quit: false,
            custom_color_wheel: prefs.cached_wheel(),
        }
    }

    /// Control side: writes `value` for `kind` and raises the flag.
    pub fn select(&mut self, kind: OptionKind, value: u32)
        ensures
            *final(self) == old(self).spec_after_write(Write { kind, value }),
    {
        self.selection = self.selection.with(kind, value);
        self.settings_changed = true;
    }

    /// Control side: stages the palette of a custom image, chooses the
    /// custom-image scheme and raises the flag.
    pub fn stage_custom_wheel(&mut self, wheel: ColorWheel)
        ensures
            *final(self) == (SharedSettings {
                custom_color_wheel: Some(wheel),
                ..old(self).spec_after_write(
                    Write { kind: OptionKind::ColorScheme, value: CUSTOM_IMAGE_SCHEME },
                )
            }),
    {
        self.custom_color_wheel = Some(wheel);
        self.selection = self.selection.with(OptionKind::ColorScheme, CUSTOM_IMAGE_SCHEME);
        self.settings_changed = true;
    }

    /// Control side: asks the render loop to quit.
    pub fn request_quit(&mut self)
        ensures
            *final(self) == (SharedSettings { should_quit: true, ..*old(self) }),
    {
        self.should_quit = true;
    }

    /// Notification side: records that the display topology changed.
    pub fn notify_screen_change(&mut self)
        ensures
            *final(self) == (SharedSettings { screen_config_changed: true, ..*old(self) }),
    {
        self.screen_config_changed = true;
    }

    /// Render loop: tests and clears the settings flag. Where it was raised,
    /// returns the full update built from the values as they stand.
    pub fn take_settings_change(&mut self, profile: &MappingProfile) -> (update: Option<
        SettingsUpdate,
    >)
        ensures
            update == old(self).spec_polled(*profile),
            *final(self) == old(self).spec_after_poll(),
    {
        if self.settings_changed {
            self.settings_changed = false;
            let custom_wheel = if self.selection.color_scheme == CUSTOM_IMAGE_SCHEME {
                self.custom_color_wheel
            } else {
                None
            };
            Some(
                SettingsUpdate {
                    settings: Settings::from_selection(profile, &self.selection),
                    custom_wheel,
                },
            )
        } else {
            None
        }
    }

    /// Render loop: tests and clears the topology flag.
    pub fn take_screen_change(&mut self) -> (changed: bool)
        ensures
            changed == old(self).screen_config_changed,
            *final(self) == (SharedSettings { screen_config_changed: false, ..*old(self) }),
    {
        let changed = self.screen_config_changed;
        self.screen_config_changed = false;
        changed
    }
}

/// The value that the last write of `writes` to `kind` left, or `before`
/// where none wrote to it.
pub open spec fn last_written(writes: Seq<Write>, kind: OptionKind, before: u32) -> u32
    decreases writes.len(),
{
    if writes.len() == 0 {
        before
    } else if writes.last().kind == kind {
        writes.last().value
    } else {
        last_written(writes.drop_last(), kind, before)
    }
}

/// After any writes, every option holds the value last written to it, the
/// flag is raised if there was a write, and nothing else has changed.
pub proof fn lemma_writes_keep_last_values(shared: SharedSettings, writes: Seq<Write>)
    ensures
        forall|kind: OptionKind|
            shared.spec_after_writes(writes).selection.spec_get(kind) == last_written(
                writes,
                kind,
                #[trigger] shared.selection.spec_get(kind),
            ),
        shared.spec_after_writes(writes).settings_changed == (shared.settings_changed
            || writes.len() > 0),
        shared.spec_after_writes(writes).screen_config_changed == shared.screen_config_changed,
        shared.spec_after_writes(writes).should_quit == shared.should_quit,
        shared.spec_after_writes(writes).custom_color_wheel == shared.custom_color_wheel,
    decreases writes.len(),
{
    if writes.len() > 0 {
        lemma_writes_keep_last_values(shared, writes.drop_last());
        let before = shared.spec_after_writes(writes.drop_last());
        let w = writes.last();
        assert forall|kind: OptionKind|
            shared.spec_after_writes(writes).selection.spec_get(kind) == last_written(
                writes,
                kind,
                #[trigger] shared.selection.spec_get(kind),
            ) by {
            assert(before.selection.spec_get(kind) == last_written(
                writes.drop_last(),
                kind,
                shared.selection.spec_get(kind),
            ));
        }
    }
}

/// However many writes raise the flag between two polls, the next poll
/// applies settings exactly once: it returns the one update built from the
/// values last written, and the poll after it returns nothing.
pub proof fn lemma_writes_coalesce(
    shared: SharedSettings,
    writes: Seq<Write>,
    profile: MappingProfile,
)
    requires
        writes.len() > 0,
    ensures
        ({
            let written = shared.spec_after_writes(writes);
            &&& written.spec_polled(profile) == Some(written.spec_update(profile))
            &&& written.spec_update(profile).settings == Settings::spec_from_selection(
                profile,
                written.selection,
            )
            &&& forall|kind: OptionKind|
                written.selection.spec_get(kind) == last_written(
                    writes,
                    kind,
                    #[trigger] shared.selection.spec_get(kind),
                )
            &&& written.spec_after_poll().spec_polled(profile).is_none()
            &&& written.spec_after_poll().selection == written.selection
        }),
{
    lemma_writes_keep_last_values(shared, writes);
}

/// Control side: takes the outcome of extracting a custom image's palette.
/// On success the palette is staged and stored with its path, the
/// custom-image scheme is chosen and the flag is raised. On failure nothing
/// changes and the flag is not raised.
pub fn apply_custom_image(
    shared: &mut SharedSettings,
    prefs: &mut UserPreferences,
    extracted: Result<ColorWheel, ExtractError>,
    path: String,
) -> (applied: bool)
    ensures
        applied == extracted.is_ok(),
        match extracted {
            Ok(wheel) => {
                &&& *final(shared) == (SharedSettings {
                    custom_color_wheel: Some(wheel),
                    ..old(shared).spec_after_write(
                        Write { kind: OptionKind::ColorScheme, value: CUSTOM_IMAGE_SCHEME },
                    )
                })
                &&& final(prefs).color_scheme == CUSTOM_IMAGE_SCHEME
                &&& final(prefs).custom_color_wheel == Some(wheel)
                &&& final(prefs).custom_image_path == Some(path)
                &&& final(prefs).spec_stored_selection() == old(
                    prefs,
                ).spec_stored_selection().spec_with(OptionKind::ColorScheme, CUSTOM_IMAGE_SCHEME)
                &&& final(prefs).fps == old(prefs).fps
                &&& final(prefs).run_on_login == old(prefs).run_on_login
            },
            Err(_) => *final(shared) == *old(shared) && *final(prefs) == *old(prefs),
        },
{
    match extracted {
        Ok(wheel) => {
            shared.stage_custom_wheel(wheel);
            prefs.set_custom_image(wheel, path);
            true
        },
        Err(_) => false,
    }
}

/// Control side: extracts the palette of the encoded image that the user
/// chose at `path` and applies the outcome. On success the palette is staged
/// and stored with its path, the custom-image scheme is chosen and the flag
/// is raised; every other preference stays as it was. On failure nothing
/// changes and the flag is not raised.
pub fn choose_custom_image(
    shared: &mut SharedSettings,
    prefs: &mut UserPreferences,
    encoded: &[u8],
    path: String,
) -> (outcome: Result<ColorWheel, ExtractError>)
    ensures
        is_extraction_of(encoded@, outcome),
        match outcome {
            Ok(wheel) => {
                &&& wheel.is_valid()
                &&& *final(shared) == (SharedSettings {
                    custom_color_wheel: Some(wheel),
                    ..old(shared).spec_after_write(
                        Write { kind: OptionKind::ColorScheme, value: CUSTOM_IMAGE_SCHEME },
                    )
                })
                &&& final(prefs).color_scheme == CUSTOM_IMAGE_SCHEME
                &&& final(prefs).custom_color_wheel == Some(wheel)
                &&& final(prefs).custom_image_path == Some(path)
                &&& final(prefs).spec_stored_selection() == old(
                    prefs,
                ).spec_stored_selection().spec_with(OptionKind::ColorScheme, CUSTOM_IMAGE_SCHEME)
                &&& final(prefs).fps == old(prefs).fps
                &&& final(prefs).run_on_login == old(prefs).run_on_login
            },
            Err(_) => *final(shared) == *old(shared) && *final(prefs) == *old(prefs),
        },
{
    match extract_colors_from_image(encoded) {
        Ok(wheel) => {
            shared.stage_custom_wheel(wheel);
            prefs.set_custom_image(wheel, path);
            Ok(wheel)
        },
        Err(e) => Err(e),
    }
}

/// Control side: flips run-on-login from what the system reports and stores
/// the new state. Returns the state to bring the system to.
pub fn toggle_run_on_login(prefs: &mut UserPreferences, currently_enabled: bool) -> (enable: bool)
    ensures
        enable == !currently_enabled,
        *final(prefs) == (UserPreferences { run_on_login: !currently_enabled, ..*old(prefs) }),
{
    prefs.run_on_login = !currently_enabled;
    !currently_enabled
}

} // verus!
