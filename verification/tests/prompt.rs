use std::sync::atomic::{AtomicBool, Ordering};
use std::sync::mpsc::{self, Sender};
use std::sync::Arc;

use fv::component::prompt::{PromptComponent, PromptFrame};
use fv::component::Action;
use fv::fs::file::VFile;
use fv::jobs::AsyncJobHandle;
use fv::key::Key;
use fv::state::{Phase, ProgressMessage, PromptMode, SelectAction, TextAction};

struct ProgressFixture {
    prompt: PromptComponent,
    worker_tx: Sender<ProgressMessage>,
    cancel: Arc<AtomicBool>,
}

fn prompt_with_running_job(initial_phase: Phase) -> ProgressFixture {
    let (tx, rx) = mpsc::channel::<ProgressMessage>();
    let cancel = Arc::new(AtomicBool::new(false));
    let handle = AsyncJobHandle { rx, cancel: cancel.clone() };
    let mut prompt = PromptComponent::new();
    prompt.start_async_job(handle, initial_phase);
    ProgressFixture { prompt, worker_tx: tx, cancel }
}

fn no_listing(_: &str) -> Result<Vec<VFile>, String> {
    Ok(Vec::new())
}

#[test]
fn esc_during_progress_triggers_cancel_and_phase_switch() {
    let mut fx = prompt_with_running_job(Phase::Extracting);

    let action = fx.prompt.handle_event(Key::Esc, &no_listing).expect("handle_event ok");

    assert!(matches!(action, Action::Nothing));
    assert!(fx.cancel.load(Ordering::Relaxed));
    match fx.prompt.mode {
        PromptMode::Progress { phase, .. } => assert_eq!(phase, Phase::Cancelling),
        other => panic!("expected Progress mode after Esc, got {other:?}"),
    }
}

#[test]
fn tick_with_complete_clears_handle_and_returns_to_none_mode() {
    let mut fx = prompt_with_running_job(Phase::Extracting);
    fx.worker_tx.send(ProgressMessage::Complete).unwrap();

    fx.prompt.tick();

    assert!(matches!(fx.prompt.mode, PromptMode::Idle));
    assert!(!fx.prompt.is_job_running());
}

#[test]
fn tick_with_error_switches_to_error_mode_with_message() {
    let mut fx = prompt_with_running_job(Phase::Extracting);
    fx.worker_tx.send(ProgressMessage::Error("disk full".into())).unwrap();

    fx.prompt.tick();

    match &fx.prompt.mode {
        PromptMode::Error { message } => assert_eq!(message, "disk full"),
        other => panic!("expected Error mode, got {other:?}"),
    }
    assert!(!fx.prompt.is_job_running());
}

#[test]
fn tick_reflects_received_update_into_progress_mode() {
    let mut fx = prompt_with_running_job(Phase::Extracting);
    fx.worker_tx
        .send(ProgressMessage::Update { phase: Phase::Extracting, processed: 7, total: Some(50) })
        .unwrap();

    fx.prompt.tick();

    match fx.prompt.mode {
        PromptMode::Progress { phase, processed, total } => {
            assert_eq!(phase, Phase::Extracting);
            assert_eq!(processed, 7);
            assert_eq!(total, Some(50));
        }
        other => panic!("expected Progress mode, got {other:?}"),
    }
    assert!(fx.prompt.is_job_running());
    assert_eq!(fx.prompt.progress_buf, "Extracting 7/50 files");
}

#[test]
fn tick_keeps_cancelling_phase_and_takes_only_the_latest_update() {
    let mut fx = prompt_with_running_job(Phase::Copying);
    fx.prompt.request_cancel();
    fx.worker_tx.send(ProgressMessage::Update { phase: Phase::Copying, processed: 1, total: None }).unwrap();
    fx.worker_tx.send(ProgressMessage::Update { phase: Phase::Copying, processed: 2, total: None }).unwrap();

    fx.prompt.tick();

    match fx.prompt.mode {
        PromptMode::Progress { phase, processed, total } => {
            assert_eq!(phase, Phase::Cancelling);
            assert_eq!(processed, 2);
            assert_eq!(total, None);
        }
        ref other => panic!("expected Progress mode, got {other:?}"),
    }
    assert_eq!(fx.prompt.progress_buf, "Cancelling... 2 files");
}

#[test]
fn tick_with_closed_channel_reports_the_disconnect() {
    let mut fx = prompt_with_running_job(Phase::Deleting);
    drop(fx.worker_tx);

    fx.prompt.tick();

    match &fx.prompt.mode {
        PromptMode::Error { message } => assert_eq!(message, "Progress channel disconnected unexpectedly"),
        other => panic!("expected Error mode, got {other:?}"),
    }
    assert!(!fx.prompt.is_job_running());
}

#[test]
fn tick_without_messages_leaves_progress_as_is() {
    let mut fx = prompt_with_running_job(Phase::Zipping);
    fx.prompt.tick();
    assert!(matches!(fx.prompt.mode, PromptMode::Progress { phase: Phase::Zipping, processed: 0, total: None }));
    assert!(fx.prompt.is_job_running());
    assert_eq!(fx.prompt.progress_buf, "Zipping... 0 files");
}

#[test]
fn typing_and_backspace_edit_at_the_cursor() {
    let mut prompt = PromptComponent::new();
    prompt.set_mode(PromptMode::Text {
        title: "Mkdir".to_string(),
        value: "ac".to_string(),
        cursor: 1,
        action: Box::new(TextAction::Mkdir { dir: VFile::new("/tmp".to_string(), None) }),
    });
    let a = prompt.handle_event(Key::Char('b'), &no_listing).unwrap();
    assert!(matches!(a, Action::Nothing));
    match &prompt.mode {
        PromptMode::Text { value, cursor, .. } => {
            assert_eq!(value, "abc");
            assert_eq!(*cursor, 2);
        }
        other => panic!("expected Text mode, got {other:?}"),
    }
    prompt.handle_event(Key::Backspace, &no_listing).unwrap();
    prompt.handle_event(Key::Left, &no_listing).unwrap();
    prompt.handle_event(Key::Left, &no_listing).unwrap();
    match &prompt.mode {
        PromptMode::Text { value, cursor, .. } => {
            assert_eq!(value, "ac");
            assert_eq!(*cursor, 0);
        }
        other => panic!("expected Text mode, got {other:?}"),
    }
    let a = prompt.handle_event(Key::Enter, &no_listing).unwrap();
    assert!(matches!(prompt.mode, PromptMode::Idle));
    match a {
        Action::ExecutePrompt(mode) => match *mode {
            PromptMode::Text { value, .. } => assert_eq!(value, "ac"),
            other => panic!("expected Text mode, got {other:?}"),
        },
        _ => panic!("expected ExecutePrompt"),
    }
}

#[test]
fn select_wraps_around_both_ways() {
    let mut prompt = PromptComponent::new();
    prompt.set_mode(PromptMode::Select {
        title: "Sort".to_string(),
        options: vec!["a".to_string(), "b".to_string(), "c".to_string()],
        selected_index: 0,
        action: fv::state::SelectAction::Sort,
    });
    prompt.handle_event(Key::Left, &no_listing).unwrap();
    assert!(matches!(prompt.mode, PromptMode::Select { selected_index: 2, .. }));
    prompt.handle_event(Key::Right, &no_listing).unwrap();
    assert!(matches!(prompt.mode, PromptMode::Select { selected_index: 0, .. }));
    let a = prompt.handle_event(Key::Esc, &no_listing).unwrap();
    assert!(matches!(a, Action::CancelPrompt));
}

#[test]
fn error_mode_is_dismissed_by_enter() {
    let mut prompt = PromptComponent::new();
    prompt.set_error("boom".to_string());
    let a = prompt.handle_event(Key::Char('x'), &no_listing).unwrap();
    assert!(matches!(a, Action::Nothing));
    let a = prompt.handle_event(Key::Enter, &no_listing).unwrap();
    assert!(matches!(a, Action::CancelPrompt));
}

#[test]
fn idle_prompt_shows_the_keymap_under_commands() {
    let prompt = PromptComponent::new();
    let (title, text, frame) = prompt.prompt_view("q: Quit  ?: Help");
    assert_eq!(title, "Commands");
    assert_eq!(text, "q: Quit  ?: Help");
    assert_eq!(frame, PromptFrame::Inactive);
}

#[test]
fn active_prompt_shows_its_value_and_not_the_keymap() {
    let mut prompt = PromptComponent::new();
    prompt.mode = PromptMode::Text { title: "Grep".to_string(), value: "needle".to_string(), cursor: 0, action: Box::new(TextAction::Grep) };
    let (title, text, frame) = prompt.prompt_view("q: Quit  ?: Help");
    assert_eq!(title, "Grep");
    assert_eq!(text, "needle");
    assert_eq!(frame, PromptFrame::Active);
}

#[test]
fn choice_prompt_brackets_the_selected_option() {
    let mut prompt = PromptComponent::new();
    prompt.mode = PromptMode::Select {
        title: "Sort by".to_string(),
        options: vec!["Name".to_string(), "Size".to_string(), "Modified".to_string()],
        selected_index: 1,
        action: SelectAction::Sort,
    };
    let (title, text, _) = prompt.prompt_view("");
    assert_eq!(title, "Sort by");
    assert_eq!(text, " Name  [Size]  Modified ");
}

#[test]
fn error_prompt_shows_the_message_under_error() {
    let mut prompt = PromptComponent::new();
    prompt.mode = PromptMode::Error { message: "boom".to_string() };
    assert_eq!(prompt.prompt_view("keys"), ("Error".to_string(), "boom".to_string(), PromptFrame::Error));
}
