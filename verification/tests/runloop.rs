use flux_desktop::runloop::{
    find_session, on_window_input, FramePacer, ImageMailbox, Key, Msg, RunMode, WindowAction,
    WindowInput, WindowResponse,
};

fn response(action: WindowAction, request_redraw: bool) -> WindowResponse {
    WindowResponse { action, request_redraw }
}

#[test]
fn wallpaper_window_events() {
    let on = |input| on_window_input(RunMode::Wallpaper, input);
    assert_eq!(on(WindowInput::CloseRequested), response(WindowAction::Exit, false));
    assert_eq!(on(WindowInput::KeyReleased(Key::Q)), response(WindowAction::Exit, false));
    assert_eq!(on(WindowInput::KeyReleased(Key::Escape)), response(WindowAction::Ignore, false));
    assert_eq!(on(WindowInput::Resized), response(WindowAction::Resize, false));
    assert_eq!(on(WindowInput::RedrawRequested), response(WindowAction::Draw, false));
    assert_eq!(on(WindowInput::DroppedFile), response(WindowAction::Ignore, false));
    assert_eq!(on(WindowInput::Other), response(WindowAction::Ignore, false));
}

#[test]
fn ordinary_window_events() {
    let on = |input| on_window_input(RunMode::Windowed, input);
    assert_eq!(on(WindowInput::CloseRequested), response(WindowAction::Exit, false));
    assert_eq!(on(WindowInput::KeyReleased(Key::Escape)), response(WindowAction::Exit, false));
    assert_eq!(on(WindowInput::KeyReleased(Key::Q)), response(WindowAction::Ignore, false));
    assert_eq!(on(WindowInput::KeyReleased(Key::Other)), response(WindowAction::Ignore, false));
    assert_eq!(on(WindowInput::Resized), response(WindowAction::Resize, true));
    assert_eq!(on(WindowInput::RedrawRequested), response(WindowAction::Draw, false));
    assert_eq!(on(WindowInput::DroppedFile), response(WindowAction::DecodeDroppedFile, true));
}

#[test]
fn events_find_their_session_by_window() {
    assert_eq!(find_session(&[11, 22, 33, 22], 22), Some(1));
    assert_eq!(find_session(&[11, 22, 33], 33), Some(2));
    assert_eq!(find_session(&[11, 22, 33], 44), None);
    assert_eq!(find_session(&[], 0), None);
}

#[test]
fn pacer_interval_at_thirty_and_sixty_frames() {
    assert_eq!(FramePacer::new(30, 0).interval_nanos, 33_333_333);
    assert_eq!(FramePacer::new(60, 0).interval_nanos, 16_666_666);
    assert_eq!(FramePacer::new(1, 5).interval_nanos, 1_000_000_000);
    assert_eq!(FramePacer::new(1, 5).last_frame_nanos, 5);
}

#[test]
fn frame_is_due_once_the_interval_has_passed() {
    let mut pacer = FramePacer::new(60, 1_000);
    assert!(!pacer.about_to_wait(1_000));
    assert!(!pacer.about_to_wait(16_667_665));
    assert_eq!(pacer.last_frame_nanos, 1_000);
    assert!(pacer.about_to_wait(16_667_666));
    assert_eq!(pacer.last_frame_nanos, 16_667_666);
    assert!(!pacer.about_to_wait(16_667_667));
    // A clock that went back asks for no frame.
    assert!(!pacer.about_to_wait(0));
    assert_eq!(pacer.deadline(), 16_667_666 + 16_666_666);
}

#[test]
fn deadline_saturates() {
    let pacer = FramePacer { interval_nanos: 10, last_frame_nanos: u64::MAX - 3 };
    assert_eq!(pacer.deadline(), u64::MAX);
}

#[test]
fn decoded_image_is_held_and_announced() {
    let mut mailbox: ImageMailbox<Vec<u8>> = ImageMailbox::new();
    assert_eq!(mailbox.handle_pending_messages(), 0);
    assert!(mailbox.image_decoded(Some(vec![1, 2, 3])));
    assert_eq!(mailbox.pending, vec![Msg::DecodedImage]);
    assert!(mailbox.image_decoded(Some(vec![4])));
    assert_eq!(mailbox.color_image, Some(vec![4]));
    assert_eq!(mailbox.handle_pending_messages(), 2);
    assert!(mailbox.pending.is_empty());
    assert_eq!(mailbox.color_image, Some(vec![4]));
    assert_eq!(mailbox.handle_pending_messages(), 0);
}

#[test]
fn failed_decoding_sends_no_message() {
    let mut mailbox: ImageMailbox<Vec<u8>> = ImageMailbox::new();
    assert!(!mailbox.image_decoded(None));
    assert!(mailbox.pending.is_empty());
    assert_eq!(mailbox.color_image, None);
    mailbox.image_decoded(Some(vec![9]));
    assert!(!mailbox.image_decoded(None));
    assert_eq!(mailbox.color_image, Some(vec![9]));
    assert_eq!(mailbox.pending.len(), 1);
}
