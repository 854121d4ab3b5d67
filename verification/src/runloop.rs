//! Decisions of the event loop: when a frame is due, what a window event
//! asks for, which session an event belongs to, and what becomes of an image
//! that was decoded off the loop.

use vstd::prelude::*;

verus! {

/// Nanoseconds in a second.
pub const NANOS_PER_SECOND: u64 = 1_000_000_000;

/// How the process runs.
#[derive(Clone, Copy, Debug, PartialEq, Eq, Structural)]
pub enum RunMode {
    /// One borderless window per display, behind the desktop icons.
    Wallpaper,
    /// One ordinary window.
    Windowed,
}

/// A key, as far as the loop tells keys apart.
#[derive(Clone, Copy, Debug, PartialEq, Eq, Structural)]
pub enum Key {
    Q,
    Escape,
    Other,
}

/// An event of one window.
#[derive(Clone, Copy, Debug, PartialEq, Eq, Structural)]
pub enum WindowInput {
    CloseRequested,
    KeyReleased(Key),
    Resized,
    RedrawRequested,
    DroppedFile,
    Other,
}

/// What the loop does about a window event.
#[derive(Clone, Copy, Debug, PartialEq, Eq, Structural)]
pub enum WindowAction {
    /// Leave the loop.
    Exit,
    /// Reconfigure the surface and rebuild the renderer for the new size.
    Resize,
    /// Draw and present one frame.
    Draw,
    /// Read the dropped file and decode it off the loop.
    DecodeDroppedFile,
    Ignore,
}

/// What the loop does about a window event, and whether it asks for a
/// redraw at once.
#[derive(Clone, Copy, Debug, PartialEq, Eq, Structural)]
pub struct WindowResponse {
    pub action: WindowAction,
    pub request_redraw: bool,
}

/// Paces frames to a target rate.
#[derive(Clone, Copy, Debug, PartialEq, Eq, Structural)]
pub struct FramePacer {
    /// Time between two frames.
    pub interval_nanos: u64,
    /// When the last frame was asked for.
    pub last_frame_nanos: u64,
}

/// A message from a decoding task to the loop.
#[derive(Clone, Copy, Debug, PartialEq, Eq, Structural)]
pub enum Msg {
    DecodedImage,
}

/// Where decoding tasks leave their images for the loop.
#[derive(Debug)]
pub struct ImageMailbox<I> {
    /// The image decoded last.
    pub color_image: Option<I>,
    /// Messages that the loop has not handled yet, oldest first.
    pub pending: Vec<Msg>,
}

/// The action that `input` asks for in `mode`.
pub open spec fn spec_window_action(mode: RunMode, input: WindowInput) -> WindowAction {
    match input {
        WindowInput::CloseRequested => WindowAction::Exit,
        WindowInput::KeyReleased(key) => match mode {
            RunMode::Wallpaper => if key == Key::Q {
                WindowAction::Exit
            } else {
                WindowAction::Ignore
            },
            RunMode::Windowed => if key == Key::Escape {
                WindowAction::Exit
            } else {
                WindowAction::Ignore
            },
        },
        WindowInput::Resized => WindowAction::Resize,
        WindowInput::RedrawRequested => WindowAction::Draw,
        WindowInput::DroppedFile => match mode {
            RunMode::Wallpaper => WindowAction::Ignore,
            RunMode::Windowed => WindowAction::DecodeDroppedFile,
        },
        WindowInput::Other => WindowAction::Ignore,
    }
}

/// What the loop does about `input` in `mode`. An ordinary window redraws
/// at once after a resize and after a dropped file; a wallpaper window
/// waits for its next frame.
pub open spec fn spec_on_window_input(mode: RunMode, input: WindowInput) -> WindowResponse {
    let action = spec_window_action(mode, input);
    WindowResponse {
        action,
        request_redraw: mode == RunMode::Windowed && (action == WindowAction::Resize || action
            == WindowAction::DecodeDroppedFile),
    }
}

/// Decides what the loop does about a window event.
#[verifier::when_used_as_spec(spec_on_window_input)]
pub fn on_window_input(mode: RunMode, input: WindowInput) -> (response: WindowResponse)
    ensures
        response == spec_on_window_input(mode, input),
{
    let action = match input {
        WindowInput::CloseRequested => WindowAction::Exit,
        WindowInput::KeyReleased(key) => match (mode, key) {
            (RunMode::Wallpaper, Key::Q) => WindowAction::Exit,
            (RunMode::Windowed, Key::Escape) => WindowAction::Exit,
            _ => WindowAction::Ignore,
        },
        WindowInput::Resized => WindowAction::Resize,
        WindowInput::RedrawRequested => WindowAction::Draw,
        WindowInput::DroppedFile => match mode {
            RunMode::Wallpaper => WindowAction::Ignore,
            RunMode::Windowed => WindowAction::DecodeDroppedFile,
        },
        WindowInput::Other => WindowAction::Ignore,
    };
    let request_redraw = match (mode, action) {
        (RunMode::Windowed, WindowAction::Resize) => true,
        (RunMode::Windowed, WindowAction::DecodeDroppedFile) => true,
        _ => false,
    };
    WindowResponse { action, request_redraw }
}

/// Finds the session that a window event belongs to: the first place at
/// which `window_ids` holds `id`.
pub fn find_session(window_ids: &[u64], id: u64) -> (found: Option<usize>)
    ensures
        match found {
            Some(index) => {
                &&& index < window_ids@.len()
                &&& window_ids@[index as int] == id
                &&& forall|j: int| 0 <= j < index ==> window_ids@[j] != id
            },
            None => forall|j: int| 0 <= j < window_ids@.len() ==> window_ids@[j] != id,
        },
{
    let mut i: usize = 0;
    while i < window_ids.len()
        invariant
            i <= window_ids@.len(),
            forall|j: int| 0 <= j < i ==> window_ids@[j] != id,
        decreases window_ids@.len() - i,
    {
        if window_ids[i] == id {
            return Some(i);
        }
        i += 1;
    }
    None
}

impl FramePacer {
    /// Time between two frames at `fps` frames per second.
    pub open spec fn spec_interval(fps: u32) -> u64 {
        (NANOS_PER_SECOND / (fps as u64)) as u64
    }

    /// Whether a frame is due at `now`.
    pub open spec fn spec_is_due(self, now_nanos: u64) -> bool {
        now_nanos >= self.last_frame_nanos && now_nanos - self.last_frame_nanos
            >= self.interval_nanos
    }

    /// When the loop is to wake next, at the latest.
    pub open spec fn spec_deadline(self) -> u64 {
        if self.last_frame_nanos + self.interval_nanos <= u64::MAX {
            (self.last_frame_nanos + self.interval_nanos) as u64
        } else {
            u64::MAX
        }
    }

    /// A pacer for `fps` frames per second whose last frame was at `now`.
    pub fn new(fps: u32, now_nanos: u64) -> (pacer: FramePacer)
        requires
            fps > 0,
        ensures
            pacer.interval_nanos == Self::spec_interval(fps),
            pacer.last_frame_nanos == now_nanos,
    {
        FramePacer { interval_nanos: NANOS_PER_SECOND / (fps as u64), last_frame_nanos: now_nanos }
    }

    /// When the loop is to wake next, at the latest.
    pub fn deadline(&self) -> (at: u64)
        ensures
            at == self.spec_deadline(),
    {
        if self.interval_nanos <= u64::MAX - self.last_frame_nanos {
            self.last_frame_nanos + self.interval_nanos
        } else {
            u64::MAX
        }
    }

    /// The loop is about to wait at `now`. Tells whether every window is to
    /// be redrawn; if so, the frame counts as asked for at `now`.
    pub fn about_to_wait(&mut self, now_nanos: u64) -> (redraw: bool)
        ensures
            redraw == old(self).spec_is_due(now_nanos),
            final(self).interval_nanos == old(self).interval_nanos,
            final(self).last_frame_nanos == if redraw {
                now_nanos
            } else {
                old(self).last_frame_nanos
            },
    {
        if now_nanos >= self.last_frame_nanos && now_nanos - self.last_frame_nanos
            >= self.interval_nanos {
            self.last_frame_nanos = now_nanos;
            true
        } else {
            false
        }
    }
}

impl<I> ImageMailbox<I> {
    /// An empty mailbox.
    pub fn new() -> (mailbox: ImageMailbox<I>)
        ensures
            mailbox.color_image.is_none(),
            mailbox.pending@ == Seq::<Msg>::empty(),
    {
        ImageMailbox { color_image: None, pending: Vec::new() }
    }

    /// A decoding task ended. Where it has an image, the image replaces the
    /// one held and the loop is sent a message. Where it failed, nothing
    /// changes and no message is sent.
    pub fn image_decoded(&mut self, decoded: Option<I>) -> (accepted: bool)
        ensures
            accepted == decoded.is_some(),
            match decoded {
                Some(image) => {
                    &&& final(self).color_image == Some(image)
                    &&& final(self).pending@ == old(self).pending@.push(Msg::DecodedImage)
                },
                None => *final(self) == *old(self),
            },
    {
        match decoded {
            Some(image) => {
                self.color_image = Some(image);
                self.pending.push(Msg::DecodedImage);
                true
            },
            None => false,
        }
    }

    /// The loop handles every pending message. Returns how often the
    /// renderer is to sample its colors from the image held: once per
    /// message where an image is held, never where none is.
    pub fn handle_pending_messages(&mut self) -> (samplings: usize)
        ensures
            final(self).color_image == old(self).color_image,
            final(self).pending@ == Seq::<Msg>::empty(),
            samplings == if old(self).color_image.is_some() {
                old(self).pending@.len()
            } else {
                0
            },
    {
        let messages = self.pending.len();
        self.pending.clear();
        if self.color_image.is_some() {
            messages
        } else {
            0
        }
    }
}

} // verus!
