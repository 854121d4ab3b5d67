//! The registry of render sessions and what the render loop does with it at
//! the start of every iteration.
//!
//! Sessions and displays are matched by position. A display that moved to
//! another place in the enumeration counts as a change of topology.

use vstd::prelude::*;
use crate::control::{SettingsUpdate, SharedSettings};
use crate::display::DisplayInfo;
use crate::session::{RenderSession, RendererResize, SessionCommand};
use crate::settings::{MappingProfile, Settings};

verus! {

/// All sessions, in the order of the displays they were created for.
#[derive(Clone, Debug, PartialEq, Eq)]
pub struct SessionRegistry {
    pub sessions: Vec<RenderSession>,
}

/// A settings change to carry out on every session before any of them draws
/// its next frame.
#[derive(Clone, Debug, PartialEq, Eq)]
pub struct SettingsPass {
    /// The snapshot that every renderer is updated with.
    pub settings: Settings,
    /// What else each session asks for, one entry per session.
    pub commands: Vec<SessionCommand>,
}

/// What the render loop is to do at the start of an iteration.
#[derive(Clone, Debug, PartialEq, Eq)]
pub struct IterationPlan {
    /// Leave the loop. Nothing else is planned then.
    pub exit: bool,
    /// Apply a settings change to every session.
    pub settings: Option<SettingsPass>,
    /// Enumerate the displays anew and match the sessions with them.
    pub reconcile: bool,
}

/// `session` after a settings update.
pub open spec fn session_after_update(session: RenderSession, update: SettingsUpdate)
    -> RenderSession {
    RenderSession { grid_spacing: update.settings.grid_spacing, ..session }
}

/// What `session` asks for when `update` is applied to it: a rebuild of the
/// renderer exactly when the grid spacing changes, and the palette of the
/// update.
pub open spec fn command_for_update(session: RenderSession, update: SettingsUpdate)
    -> SessionCommand {
    SessionCommand {
        resize: if session.grid_spacing != update.settings.grid_spacing {
            Some(session.spec_renderer_size())
        } else {
            None
        },
        inject: update.custom_wheel,
    }
}

impl SessionRegistry {
    /// Every session's surface has the size of its window.
    pub open spec fn is_valid(self) -> bool {
        forall|i: int| 0 <= i < self.sessions.len() ==> (#[trigger] self.sessions[i]).is_valid()
    }

    /// Number of sessions that have a display at their place in an
    /// enumeration of `displays` displays.
    pub open spec fn spec_matched(self, displays: nat) -> nat {
        if self.sessions@.len() <= displays {
            self.sessions@.len()
        } else {
            displays
        }
    }

    /// A registry without sessions.
    pub fn new() -> (registry: SessionRegistry)
        ensures
            registry.sessions@ == Seq::<RenderSession>::empty(),
            registry.is_valid(),
    {
        SessionRegistry { sessions: Vec::new() }
    }

    /// Adds the session of the next display.
    pub fn add(&mut self, session: RenderSession)
        ensures
            final(self).sessions@ == old(self).sessions@.push(session),
            old(self).is_valid() && session.is_valid() ==> final(self).is_valid(),
    {
        self.sessions.push(session);
    }

    /// Applies a settings update to every session, each one in turn and all
    /// of them before the call returns.
    pub fn apply_settings(&mut self, update: &SettingsUpdate) -> (commands: Vec<SessionCommand>)
        ensures
            final(self).sessions.len() == old(self).sessions.len(),
            commands.len() == old(self).sessions.len(),
            forall|i: int|
                0 <= i < old(self).sessions.len() ==> {
                    &&& #[trigger] final(self).sessions[i] == session_after_update(
                        old(self).sessions[i],
                        *update,
                    )
                    &&& commands[i] == command_for_update(old(self).sessions[i], *update)
                },
            old(self).is_valid() ==> final(self).is_valid(),
    {
        let mut commands: Vec<SessionCommand> = Vec::new();
        let mut i: usize = 0;
        let n = self.sessions.len();
        while i < n
            invariant
                i <= n,
                n == old(self).sessions.len(),
                self.sessions.len() == n,
                commands.len() == i,
                forall|k: int|
                    0 <= k < i ==> {
                        &&& #[trigger] self.sessions[k] == session_after_update(
                            old(self).sessions[k],
                            *update,
                        )
                        &&& commands[k] == command_for_update(old(self).sessions[k], *update)
                    },
                forall|k: int| i <= k < n ==> #[trigger] self.sessions[k] == old(self).sessions[k],
            decreases n - i,
        {
            let mut session = self.sessions[i];
            let command = session.apply_settings(update);
            assert(command == command_for_update(old(self).sessions[i as int], *update));
            self.sessions.set(i, session);
            commands.push(command);
            i += 1;
        }
        commands
    }

    /// Number of sessions that have a display at their place in the new
    /// enumeration.
    pub fn matched(&self, displays: &Vec<DisplayInfo>) -> (count: usize)
        ensures
            count == self.spec_matched(displays.len() as nat),
            count <= self.sessions.len(),
            count <= displays.len(),
    {
        if self.sessions.len() <= displays.len() {
            self.sessions.len()
        } else {
            displays.len()
        }
    }

    /// Whether the new enumeration has another number of displays than
    /// there are sessions. Such a mismatch is reported, not repaired.
    pub fn count_mismatch(&self, displays: &Vec<DisplayInfo>) -> (mismatch: bool)
        ensures
            mismatch == (self.sessions.len() != displays.len()),
    {
        self.sessions.len() != displays.len()
    }

    /// Session `index` takes `display`, with the size its window reports
    /// after it was moved there. The other sessions stay as they are.
    pub fn display_changed(
        &mut self,
        index: usize,
        display: DisplayInfo,
        window_width: u32,
        window_height: u32,
    ) -> (command: RendererResize)
        requires
            index < old(self).sessions.len(),
        ensures
            final(self).sessions@ == old(self).sessions@.update(
                index as int,
                final(self).sessions[index as int],
            ),
            final(self).sessions[index as int].display == display,
            final(self).sessions[index as int].window_width == window_width,
            final(self).sessions[index as int].window_height == window_height,
            final(self).sessions[index as int].grid_spacing == old(
                self,
            ).sessions[index as int].grid_spacing,
            final(self).sessions[index as int].is_valid(),
            command == final(self).sessions[index as int].spec_renderer_size(),
            old(self).is_valid() ==> final(self).is_valid(),
    {
        let mut session = self.sessions[index];
        let command = session.display_changed(display, window_width, window_height);
        self.sessions.set(index, session);
        command
    }

    /// The window of session `index` reported a new size. The other
    /// sessions stay as they are.
    pub fn window_resized(
        &mut self,
        index: usize,
        logical_width: u32,
        logical_height: u32,
        physical_width: u32,
        physical_height: u32,
    ) -> (command: RendererResize)
        requires
            index < old(self).sessions.len(),
        ensures
            final(self).sessions@ == old(self).sessions@.update(
                index as int,
                final(self).sessions[index as int],
            ),
            final(self).sessions[index as int].window_width == physical_width,
            final(self).sessions[index as int].window_height == physical_height,
            final(self).sessions[index as int].display == old(self).sessions[index as int].display,
            final(self).sessions[index as int].grid_spacing == old(
                self,
            ).sessions[index as int].grid_spacing,
            final(self).sessions[index as int].is_valid(),
            command == (RendererResize {
                logical_width,
                logical_height,
                physical_width,
                physical_height,
            }),
            old(self).is_valid() ==> final(self).is_valid(),
    {
        let mut session = self.sessions[index];
        let command = session.resize(
            logical_width,
            logical_height,
            physical_width,
            physical_height,
        );
        self.sessions.set(index, session);
        command
    }
}

/// Starts an iteration of the render loop. A request to quit ends the loop
/// and leaves everything else untouched. Otherwise the settings flag is
/// tested and cleared and, where it was raised, the update built from the
/// values last written is applied to every session; then the topology flag
/// is tested and cleared.
pub fn begin_iteration(
    shared: &mut SharedSettings,
    registry: &mut SessionRegistry,
    profile: &MappingProfile,
) -> (plan: IterationPlan)
    ensures
        plan.exit == old(shared).should_quit,
        old(shared).should_quit ==> {
            &&& *final(shared) == *old(shared)
            &&& *final(registry) == *old(registry)
            &&& plan.settings.is_none()
            &&& !plan.reconcile
        },
        !old(shared).should_quit ==> {
            &&& *final(shared) == (SharedSettings {
                settings_changed: false,
                screen_config_changed: false,
                ..*old(shared)
            })
            &&& plan.reconcile == old(shared).screen_config_changed
            &&& plan.settings.is_some() == old(shared).settings_changed
            &&& final(registry).sessions.len() == old(registry).sessions.len()
            &&& !old(shared).settings_changed ==> *final(registry) == *old(registry)
            &&& plan.settings matches Some(pass) ==> {
                let update = old(shared).spec_update(*profile);
                &&& pass.settings == update.settings
                &&& pass.commands.len() == old(registry).sessions.len()
                &&& forall|i: int|
                    0 <= i < old(registry).sessions.len() ==> {
                        &&& #[trigger] final(registry).sessions[i] == session_after_update(
                            old(registry).sessions[i],
                            update,
                        )
                        &&& pass.commands[i] == command_for_update(
                            old(registry).sessions[i],
                            update,
                        )
                    }
            }
        },
        old(registry).is_valid() ==> final(registry).is_valid(),
{
    if shared.should_quit {
        return IterationPlan { exit: true, settings: None, reconcile: false };
    }
    let settings = match shared.take_settings_change(profile) {
        Some(update) => {
            let commands = registry.apply_settings(&update);
            Some(SettingsPass { settings: update.settings, commands })
        },
        None => None,
    };
    let reconcile = shared.take_screen_change();
    IterationPlan { exit: false, settings, reconcile }
}

} // verus!
