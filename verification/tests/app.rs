use fv::app::{App, AppEffect};
use fv::component::prompt::PromptEffect;
use fv::component::Action;
use fv::fs::file::VFile;
use fv::state::{FileAction, FileActionCandidateType, PromptMode, StartupDirectory, TextAction};
use fv::store::RootStore;

fn app_in(dir: &str) -> App {
    let mut app = App::new(RootStore::new());
    app.ctx.init(Some(dir.to_string()), "/").unwrap();
    app
}

fn dirs_only(p: &str) -> bool {
    !p.contains('.')
}

fn text_prompt(value: &str, action: TextAction) -> Box<PromptMode> {
    Box::new(PromptMode::Text { title: String::new(), value: value.to_string(), cursor: 0, action: Box::new(action) })
}

#[test]
fn quit_stops_the_app() {
    let mut app = app_in("/w");
    assert!(matches!(app.handle_action(Action::Quit, &dirs_only), Ok(AppEffect::Nothing)));
    assert!(!app.ctx.running);
}

#[test]
fn bookmarks_are_added_and_removed_and_saved() {
    let mut app = app_in("/w");
    assert!(matches!(app.handle_action(Action::AddBookmark("/w/a".to_string()), &dirs_only), Ok(AppEffect::SaveBookmarks)));
    assert_eq!(app.store.bookmark.get_paths(), vec!["/w/a"]);
    assert!(matches!(app.handle_action(Action::RemoveBookmark("/w/a".to_string()), &dirs_only), Ok(AppEffect::SaveBookmarks)));
    assert!(app.store.bookmark.get_paths().is_empty());
}

#[test]
fn launch_shell_runs_in_the_current_directory() {
    let mut app = app_in("/w/sub");
    match app.handle_action(Action::LaunchShell, &dirs_only) {
        Ok(AppEffect::LaunchShell { dir }) => assert_eq!(dir, "/w/sub"),
        _ => panic!("expected LaunchShell"),
    }
}

#[test]
fn navigate_to_a_file_goes_to_its_directory() {
    let mut app = app_in("/w");
    app.handle_action(Action::NavigateTo("/x/y/file.txt".to_string()), &dirs_only).unwrap();
    assert_eq!(app.ctx.active_filer().current_dir_path(), "/x/y");
    assert_eq!(app.ctx.active_filer().state.pending_select_name.as_deref(), Some("file.txt"));
}

#[test]
fn history_is_recorded_and_walked_back() {
    let mut app = app_in("/a");
    let mut watching = app.after_event("").unwrap();
    assert_eq!(watching, "/a");
    app.handle_action(Action::NavigateTo("/b".to_string()), &dirs_only).unwrap();
    watching = app.after_event(&watching).unwrap();
    assert_eq!(watching, "/b");
    app.handle_action(Action::NavigateBack, &dirs_only).unwrap();
    assert_eq!(app.ctx.active_filer().current_dir_path(), "/a");
    watching = app.after_event(&watching).unwrap();
    assert_eq!(watching, "/a");
    assert_eq!(app.store.history.entries, vec!["/a", "/b"]);
    app.handle_action(Action::NavigateForward, &dirs_only).unwrap();
    assert_eq!(app.ctx.active_filer().current_dir_path(), "/b");
}

#[test]
fn a_new_directory_prompt_asks_to_create_it() {
    let mut app = app_in("/w");
    let input = text_prompt("new", TextAction::Mkdir { dir: VFile::new("/w".to_string(), None) });
    match app.handle_action(Action::ExecutePrompt(input), &dirs_only) {
        Ok(AppEffect::Prompt(PromptEffect::CreateDir(p))) => assert_eq!(p, "/w/new"),
        _ => panic!("expected CreateDir"),
    }
}

#[test]
fn a_zip_name_with_parent_components_is_refused() {
    let mut app = app_in("/w");
    let input = text_prompt("../evil", TextAction::Zip { dir: VFile::new("/w".to_string(), None), files: vec![] });
    match app.handle_action(Action::ExecutePrompt(input), &dirs_only) {
        Err(e) => assert_eq!(e, "../evil: Invalid zip name"),
        _ => panic!("expected an error"),
    }
}

#[test]
fn jumping_to_a_missing_directory_is_an_error() {
    let mut app = app_in("/w");
    let input = Box::new(PromptMode::File {
        title: "Jump".to_string(),
        value: "/w/file.txt".to_string(),
        cursor: 0,
        candidate_type: FileActionCandidateType::Directory,
        candidates: vec![],
        candidate_index: None,
        action: FileAction::Jump,
    });
    match app.handle_action(Action::ExecutePrompt(input), &dirs_only) {
        Err(e) => assert_eq!(e, "/w/file.txt はディレクトリではありません"),
        _ => panic!("expected an error"),
    }
}

#[test]
fn saved_settings_close_the_panel() {
    let mut app = app_in("/w");
    assert!(matches!(
        app.handle_action(Action::SaveSettings(Box::new(StartupDirectory::HomeDirectory)), &dirs_only),
        Ok(AppEffect::SaveSettings)
    ));
    assert_eq!(app.store.settings.startup_directory, StartupDirectory::HomeDirectory);
    assert!(app.ctx.side_panel.is_none());
}

#[test]
fn startup_directory_follows_the_setting() {
    let mut app = app_in("/w");
    assert_eq!(app.resolve_startup_directory(Some("/home/u".to_string()), &dirs_only), None);
    app.store.settings.startup_directory = StartupDirectory::HomeDirectory;
    assert_eq!(app.resolve_startup_directory(Some("/home/u".to_string()), &dirs_only).as_deref(), Some("/home/u"));
    app.store.settings.startup_directory = StartupDirectory::SpecificDirectory("/s".to_string());
    assert_eq!(app.resolve_startup_directory(None, &dirs_only).as_deref(), Some("/s"));
    app.store.settings.startup_directory = StartupDirectory::LastDirectory;
    app.store.history.add("/gone.d");
    assert_eq!(app.resolve_startup_directory(Some("/home/u".to_string()), &dirs_only).as_deref(), Some("/home/u"));
    app.store.history.add("/last");
    assert_eq!(app.resolve_startup_directory(Some("/home/u".to_string()), &dirs_only).as_deref(), Some("/last"));
}

#[test]
fn preview_rebuilds_are_throttled() {
    let mut app = app_in("/w");
    assert!(!app.flush_preview_rebuild(true, 0));
    app.preview_dirty = true;
    assert!(!app.flush_preview_rebuild(false, 119));
    assert!(app.flush_preview_rebuild(false, 120));
    assert!(!app.preview_dirty);
    app.preview_dirty = true;
    assert!(app.flush_preview_rebuild(true, 0));
}

#[test]
fn an_opened_preview_is_rebuilt_at_the_next_flush() {
    let mut app = app_in("/w");
    let panel = fv::state::SidePanel::Preview(fv::component::preview::PreviewComponent::with_message("a.txt", "Loading...".to_string()));
    app.handle_action(Action::ShowSidePanel(Box::new(panel)), &dirs_only).unwrap();
    assert!(app.preview_dirty);
    assert!(app.flush_preview_rebuild(true, 0));
    assert!(!app.preview_dirty);
}

#[test]
fn going_back_twice_walks_two_entries_back() {
    let mut app = app_in("/a");
    let mut watching = app.after_event("").unwrap();
    for d in ["/b", "/c"] {
        app.handle_action(Action::NavigateTo(d.to_string()), &dirs_only).unwrap();
        watching = app.after_event(&watching).unwrap();
    }
    assert_eq!(app.store.history.entries, vec!["/a", "/b", "/c"]);
    assert_eq!(app.store.history.position, 2);
    app.handle_action(Action::NavigateBack, &dirs_only).unwrap();
    watching = app.after_event(&watching).unwrap();
    assert_eq!(app.store.history.position, 1);
    app.handle_action(Action::NavigateBack, &dirs_only).unwrap();
    watching = app.after_event(&watching).unwrap();
    assert_eq!(watching, "/a");
    assert_eq!(app.store.history.position, 0);
    assert_eq!(app.store.history.entries, vec!["/a", "/b", "/c"]);
    app.handle_action(Action::NavigateForward, &dirs_only).unwrap();
    assert_eq!(app.ctx.active_filer().current_dir_path(), "/b");
    assert_eq!(app.store.history.position, 1);
}

#[test]
fn a_link_prompt_names_the_link_and_its_target() {
    let mut app = app_in("/w");
    let link = || TextAction::Symlink { dir: VFile::new("/w".to_string(), None), target: VFile::new("/w/a.txt".to_string(), None) };
    match app.handle_action(Action::ExecutePrompt(text_prompt("ln", link())), &dirs_only) {
        Ok(AppEffect::Prompt(PromptEffect::CreateSymlink { link, target })) => {
            assert_eq!(link, "/w/ln");
            assert_eq!(target, "/w/a.txt");
        }
        _ => panic!("expected CreateSymlink"),
    }
    match app.handle_action(Action::ExecutePrompt(text_prompt("../x", link())), &dirs_only) {
        Err(e) => assert_eq!(e, "../x: Invalid link name"),
        _ => panic!("expected an error"),
    }
    assert!(matches!(app.handle_action(Action::NavigateHome, &dirs_only), Ok(AppEffect::GoHome)));
}

#[test]
fn the_filter_prompt_sets_the_filter_of_the_list() {
    let mut app = app_in("/w");
    app.handle_action(Action::ExecutePrompt(text_prompt("abc", TextAction::Filter)), &dirs_only).unwrap();
    assert_eq!(app.ctx.active_filer().state.filter, "abc");
}
