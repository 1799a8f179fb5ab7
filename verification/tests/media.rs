use fv::component::audio_player::{AudioCommand, AudioPlayerComponent};
use fv::component::image_preview::ImagePreviewComponent;
use fv::component::Action;
use fv::key::Key;

fn png_head(w: u32, h: u32) -> Vec<u8> {
    let mut v = vec![0x89, b'P', b'N', b'G', 0x0D, 0x0A, 0x1A, 0x0A, 0, 0, 0, 13, b'I', b'H', b'D', b'R'];
    v.extend_from_slice(&w.to_be_bytes());
    v.extend_from_slice(&h.to_be_bytes());
    v.extend_from_slice(&[8, 6, 0, 0, 0, 0, 0, 0, 0]);
    v
}

#[test]
fn a_huge_image_is_not_previewed() {
    match ImagePreviewComponent::new("big.png", &png_head(5000, 5000), false) {
        Err(e) => assert_eq!(e, "Image too large (5000 x 5000 px)"),
        Ok(_) => panic!("expected an error"),
    }
}

#[test]
fn a_small_or_unreadable_image_is_previewed() {
    let c = ImagePreviewComponent::new("cat.png", &png_head(10, 10), true).unwrap();
    assert_eq!(c.title, "Preview - cat.png");
    assert!(c.is_halfblocks);
    assert!(ImagePreviewComponent::new("odd.bin", b"not an image", false).is_ok());
}

#[test]
fn image_keys_step_and_close() {
    let c = ImagePreviewComponent::new("cat.png", &png_head(10, 10), false).unwrap();
    assert!(matches!(c.handle_event(Key::Char('n')), Action::PreviewNext));
    assert!(matches!(c.handle_event(Key::Char('p')), Action::PreviewPrev));
    assert!(matches!(c.handle_event(Key::Esc), Action::CloseSidePanel));
    assert!(matches!(c.handle_event(Key::Char('x')), Action::Nothing));
}

#[test]
fn audio_seeks_stay_within_the_recording() {
    let c = AudioPlayerComponent::new("song.mp3", Some(125));
    assert_eq!(c.title, "Audio - song.mp3");
    assert_eq!(c.duration_ms, Some(125_000));
    assert!(matches!(c.handle_event(Key::Right, 123_000), (Action::Nothing, AudioCommand::SeekTo(125_000))));
    assert!(matches!(c.handle_event(Key::Right, 10_000), (Action::Nothing, AudioCommand::SeekTo(15_000))));
    assert!(matches!(c.handle_event(Key::Left, 3_000), (Action::Nothing, AudioCommand::SeekTo(0))));
    assert!(matches!(c.handle_event(Key::Char(' '), 0), (Action::Nothing, AudioCommand::TogglePlayPause)));
    assert!(matches!(c.handle_event(Key::Char('v'), 0), (Action::CloseSidePanel, AudioCommand::Nothing)));
}

#[test]
fn audio_time_line_shows_position_and_length() {
    let c = AudioPlayerComponent::new("song.mp3", Some(125));
    assert_eq!(c.time_line(65), "1:05/2:05");
    let unknown = AudioPlayerComponent::new("stream", None);
    assert_eq!(unknown.time_line(3725), "1:02:05");
    assert!(matches!(unknown.handle_event(Key::Right, 1_000), (Action::Nothing, AudioCommand::SeekTo(6_000))));
}
