use fv::app_context::AppContext;

/// A context started in a known directory.
fn context_in(dir: &str) -> AppContext {
    let mut ctx = AppContext::new();
    ctx.init(Some(dir.to_string()), "/").unwrap();
    ctx
}

#[test]
fn new_context_duplicates_dir_and_activates_it() {
    let mut ctx = context_in("/tmp/fv-context");
    let base = ctx.active_filer().current_dir_path().to_string();
    ctx.new_context().unwrap();
    assert_eq!(ctx.context_count(), 2);
    assert_eq!(ctx.active_index(), 1);
    assert_eq!(ctx.active_filer().current_dir_path(), base);
}

#[test]
fn next_and_prev_cycle_through_contexts() {
    let mut ctx = context_in("/tmp/fv-context");
    ctx.new_context().unwrap();
    ctx.next_context();
    assert_eq!(ctx.active_index(), 0);
    ctx.next_context();
    assert_eq!(ctx.active_index(), 1);
    ctx.prev_context();
    assert_eq!(ctx.active_index(), 0);
    ctx.prev_context();
    assert_eq!(ctx.active_index(), 1);
}

#[test]
fn close_context_removes_and_clamps_active() {
    let mut ctx = context_in("/tmp/fv-context");
    ctx.new_context().unwrap();
    ctx.close_context();
    assert_eq!(ctx.context_count(), 1);
    assert_eq!(ctx.active_index(), 0);
}

#[test]
fn last_context_cannot_be_closed() {
    let mut ctx = context_in("/tmp/fv-context");
    ctx.close_context();
    assert_eq!(ctx.context_count(), 1);
}

#[test]
fn init_without_startup_dir_uses_the_working_directory() {
    let mut ctx = AppContext::new();
    ctx.init(None, "/work/here").unwrap();
    assert_eq!(ctx.active_filer().current_dir_path(), "/work/here");
    assert_eq!(ctx.context_dirs(), vec!["/work/here".to_string()]);
}

#[test]
fn each_context_keeps_its_own_directory() {
    let mut ctx = context_in("/a");
    ctx.new_context().unwrap();
    ctx.active_filer_mut().change_to("/b");
    assert_eq!(ctx.context_dirs(), vec!["/a".to_string(), "/b".to_string()]);
    ctx.prev_context();
    assert_eq!(ctx.active_filer().current_dir_path(), "/a");
}

#[test]
fn quit_stops_the_context() {
    let mut ctx = context_in("/a");
    assert!(ctx.running);
    ctx.quit();
    assert!(!ctx.running);
}
