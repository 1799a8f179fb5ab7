use std::cell::RefCell;

use fv::fs::async_job::destination::{dest_is_exact_path, destination_dir, pick_unique_top_dest, resolve_top_level_pairs};
use fv::fs::file::VFile;
use fv::fs::file_time::{format_date_time, VFileTime};
use fv::config::Config;
use fv::fs::file_info::{format_duration, FileDetails, FileInfo};
use fv::fs::text_preview::{TextPreview, MAX_FILE_SIZE, MAX_PREVIEW_LINES};
use fv::state::history::DirHistory;
use fv::state::tree::TreeState;
use fv::store::BookmarkStore;

#[test]
fn history_goes_back_and_forward_like_a_browser() {
    let mut h = DirHistory::new();
    assert_eq!(h.back(), None);
    h.add("/a");
    h.add("/b");
    h.add("/c");
    assert_eq!(h.back(), Some("/b"));
    assert_eq!(h.back(), Some("/a"));
    assert_eq!(h.back(), None);
    assert_eq!(h.forward(), Some("/b"));
    h.add("/d");
    assert_eq!(h.forward(), None);
    assert_eq!(h.current(), Some("/d"));
    assert_eq!(h.entries, vec!["/a", "/b", "/d"]);
}

#[test]
fn history_ignores_a_repeat_of_the_current_entry() {
    let mut h = DirHistory::new();
    h.add("/a");
    h.add("/a");
    assert_eq!(h.entries, vec!["/a"]);
}

#[test]
fn bookmarks_hold_each_path_once() {
    let mut b = BookmarkStore::new();
    b.add("/x");
    b.add("/y");
    b.add("/x");
    assert_eq!(b.get_paths(), vec!["/x", "/y"]);
    assert!(b.has("/y"));
    b.remove("/x");
    assert!(!b.has("/x"));
    assert_eq!(b.get_paths(), vec!["/y"]);
}

#[test]
fn bookmark_add_then_remove_restores_the_set() {
    let mut b = BookmarkStore::from_paths(vec!["/keep".to_string()]);
    b.add("/tmp");
    b.remove("/tmp");
    assert_eq!(b.get_paths(), vec!["/keep"]);
}

#[test]
fn sorted_bookmarks_are_in_order() {
    let b = BookmarkStore::from_paths(vec!["/z".to_string(), "/a".to_string(), "/m".to_string()]);
    assert_eq!(b.sorted_paths(), vec!["/a", "/m", "/z"]);
}

fn vfile(path: &str) -> VFile {
    VFile::new(path.to_string(), None)
}

#[test]
fn a_single_root_to_a_missing_path_is_an_exact_destination() {
    assert!(dest_is_exact_path(&[vfile("/a/f")], false));
    assert!(!dest_is_exact_path(&[vfile("/a/f")], true));
    assert!(!dest_is_exact_path(&[vfile("/a/f"), vfile("/a/g")], false));
    assert_eq!(destination_dir(true, "/out/name.txt").as_deref(), Some("/out"));
    assert_eq!(destination_dir(false, "/out").as_deref(), Some("/out"));
}

#[test]
fn unique_dest_appends_a_numeric_suffix() {
    let on_disk = |p: &str| p == "/out/f.txt" || p == "/out/f_1.txt";
    let claimed: Vec<String> = Vec::new();
    assert_eq!(pick_unique_top_dest("/out/f.txt", &claimed, &on_disk), Ok("/out/f_2.txt".to_string()));
    assert_eq!(pick_unique_top_dest("/out/g.txt", &claimed, &on_disk), Ok("/out/g.txt".to_string()));
    let claimed = vec!["/out/g.txt".to_string()];
    assert_eq!(pick_unique_top_dest("/out/g.txt", &claimed, &on_disk), Ok("/out/g_1.txt".to_string()));
}

#[test]
fn unique_dest_without_extension_gets_a_bare_suffix() {
    let on_disk = |p: &str| p == "/out/dir";
    assert_eq!(pick_unique_top_dest("/out/dir", &[], &on_disk), Ok("/out/dir_1".to_string()));
}

#[test]
fn same_named_roots_get_distinct_destinations() {
    let asked = RefCell::new(Vec::new());
    let on_disk = |p: &str| {
        asked.borrow_mut().push(p.to_string());
        false
    };
    let roots = vec![vfile("/a/x.txt"), vfile("/b/x.txt")];
    let pairs = resolve_top_level_pairs(&roots, "/out", false, &on_disk).unwrap();
    assert_eq!(pairs.len(), 2);
    assert_eq!(pairs[0].src, "/a/x.txt");
    assert_eq!(pairs[0].dst, "/out/x.txt");
    assert_eq!(pairs[1].src, "/b/x.txt");
    assert_eq!(pairs[1].dst, "/out/x_1.txt");
}

#[test]
fn an_exact_destination_is_used_as_is() {
    let on_disk = |_: &str| false;
    let pairs = resolve_top_level_pairs(&[vfile("/a/x.txt")], "/out/renamed.txt", true, &on_disk).unwrap();
    assert_eq!(pairs[0].dst, "/out/renamed.txt");
}

#[test]
fn preview_refuses_large_and_binary_files() {
    assert_eq!(TextPreview::from_parts(MAX_FILE_SIZE + 1, b"abc", vec![]).err().as_deref(), Some("File too large (100MB)"));
    assert_eq!(
        TextPreview::from_parts(10, b"a\0b", vec![]).err().as_deref(),
        Some("Preview is not supported for this file type")
    );
}

#[test]
fn preview_keeps_the_lines_up_to_the_limit() {
    let p = TextPreview::from_parts(10, b"hello", vec!["hello".to_string()]).unwrap();
    assert_eq!(p.lines, vec!["hello"]);
    assert!(!p.truncated);
    let many: Vec<String> = (0..MAX_PREVIEW_LINES + 5).map(|i| i.to_string()).collect();
    let p = TextPreview::from_parts(10, b"x", many).unwrap();
    assert_eq!(p.lines.len(), MAX_PREVIEW_LINES);
    assert!(p.truncated);
}

#[test]
fn durations_show_hours_only_when_present() {
    assert_eq!(format_duration(0), "0:00");
    assert_eq!(format_duration(65), "1:05");
    assert_eq!(format_duration(3600), "1:00:00");
    assert_eq!(format_duration(3725), "1:02:05");
}

#[test]
fn info_lines_align_values_after_the_longest_label() {
    let info = FileInfo {
        entries: vec![("Name".to_string(), "a.txt".to_string()), ("Size".to_string(), "1 B".to_string()), ("Lines".to_string(), "3".to_string())],
    };
    assert_eq!(info.to_lines(), vec!["Name   a.txt", "Size   1 B", "Lines  3"]);
}

fn listing(dir: &str) -> Result<Vec<VFile>, String> {
    match dir {
        "/r" => Ok(vec![vfile("/r/b"), vfile("/r/a"), vfile("/r/.h")]),
        _ => Ok(vec![]),
    }
}

#[test]
fn tree_lists_the_parent_and_selects_the_current_directory() {
    let t = TreeState::new("/r/b", false, &listing);
    let names: Vec<&str> = t.flat_nodes.iter().map(|n| n.name.as_str()).collect();
    assert_eq!(names, vec!["a", "b"]);
    assert_eq!(t.selected_path(), Some("/r/b"));
}

#[test]
fn tree_selects_the_first_row_when_the_path_is_not_listed() {
    let t = TreeState::new("/r/zzz", false, &listing);
    assert_eq!(t.selected_index(), Some(0));
}

fn dir_meta() -> fv::fs::file::VFileMetadata {
    fv::fs::file::VFileMetadata {
        kind: fv::fs::file::FileKind::Directory,
        size: 0,
        mode: 0o755,
        uid: 0,
        gid: 0,
        nlink: 1,
        ino: 0,
        dev: 0,
        blksize: 0,
        blocks: 0,
        modified: None,
        accessed: None,
        created: None,
    }
}

fn nested(dir: &str) -> Result<Vec<VFile>, String> {
    match dir {
        "/r" => Ok(vec![VFile::new("/r/a".to_string(), Some(dir_meta())), vfile("/r/b")]),
        "/r/a" => Ok(vec![vfile("/r/a/y"), vfile("/r/a/x")]),
        _ => Err("unlisted".to_string()),
    }
}

#[test]
fn opening_then_closing_a_directory_restores_the_tree() {
    let mut t = TreeState::new("/r/a", false, &nested);
    let before: Vec<String> = t.flat_nodes.iter().map(|n| n.path.clone()).collect();
    assert_eq!(before, vec!["/r/a", "/r/b"]);
    t.expand_selected(&nested);
    let opened: Vec<(String, usize)> = t.flat_nodes.iter().map(|n| (n.path.clone(), n.depth)).collect();
    assert_eq!(
        opened,
        vec![("/r/a".to_string(), 0), ("/r/a/x".to_string(), 1), ("/r/a/y".to_string(), 1), ("/r/b".to_string(), 0)]
    );
    assert!(t.flat_nodes[0].expanded);
    t.collapse_selected();
    let after: Vec<String> = t.flat_nodes.iter().map(|n| n.path.clone()).collect();
    assert_eq!(after, before);
    assert!(!t.flat_nodes[0].expanded);
}

#[test]
fn closing_a_child_row_goes_to_its_directory() {
    let mut t = TreeState::new("/r/a", false, &nested);
    t.expand_selected(&nested);
    t.next();
    assert_eq!(t.selected_path(), Some("/r/a/x"));
    t.collapse_selected();
    assert_eq!(t.selected_path(), Some("/r/a"));
}

fn plain_meta(size: u64, mode: u32) -> fv::fs::file::VFileMetadata {
    fv::fs::file::VFileMetadata {
        kind: fv::fs::file::FileKind::File,
        size,
        mode,
        uid: 0,
        gid: 0,
        nlink: 1,
        ino: 0,
        dev: 0,
        blksize: 0,
        blocks: 0,
        modified: None,
        accessed: None,
        created: None,
    }
}

#[test]
fn file_info_of_a_text_file_lists_its_counts_and_encoding() {
    let details = FileDetails::Regular {
        head: b"hello\nworld\n".to_vec(),
        text_stats: Some((2, 10)),
        sample: Some(b"hello\nworld\n".to_vec()),
        duration_secs: None,
        image: None,
    };
    let info = FileInfo::from_parts("/d/a.txt", &plain_meta(1234, 0o644), details);
    let labels: Vec<&str> = info.entries.iter().map(|(k, _)| k.as_str()).collect();
    assert_eq!(labels, vec!["Path", "Size", "Type", "Lines", "Characters", "Encoding", "Permissions"]);
    assert_eq!(info.entries[2].1, "Text");
    assert_eq!(info.entries[3].1, "2");
    assert_eq!(info.entries[5].1, "UTF-8");
    assert_eq!(info.entries[6].1, "rw-r--r--");
}

#[test]
fn file_info_of_a_directory_counts_its_items() {
    let info = FileInfo::from_parts("/d", &plain_meta(0, 0o755), FileDetails::Directory { items: Some(1200) });
    let pairs: Vec<(&str, &str)> = info.entries.iter().map(|(k, v)| (k.as_str(), v.as_str())).collect();
    assert_eq!(pairs[2], ("Type", "Directory"));
    assert_eq!(pairs[3], ("Items", "1,200"));
    assert_eq!(pairs[4], ("Permissions", "rwxr-xr-x"));
}

#[test]
fn no_roots_resolve_to_no_pairs() {
    let on_disk = |_: &str| true;
    let pairs = resolve_top_level_pairs(&[], "/out", false, &on_disk).unwrap();
    assert!(pairs.is_empty());
}

#[test]
fn a_root_without_a_file_name_is_refused() {
    let on_disk = |_: &str| false;
    let err = resolve_top_level_pairs(&[vfile("/")], "/out", false, &on_disk).err();
    assert_eq!(err.as_deref(), Some("/: Failed to read source file name"));
}

#[test]
fn an_invalid_nanosecond_part_shows_the_missing_time_placeholder() {
    assert_eq!(VFileTime::new(0, 1_500_000_000).to_local_string(), "____-__-__ --:--:--");
    assert_eq!(VFileTime::new(0, 2_000_000_000).to_local_string(), "____-__-__ --:--:--");
}

#[test]
fn a_taken_destination_gets_the_first_free_suffix() {
    let on_disk = |p: &str| p == "/out/x.txt" || p == "/out/x_1.txt";
    let pairs = resolve_top_level_pairs(&[vfile("/a/x.txt")], "/out", false, &on_disk).unwrap();
    assert_eq!(pairs[0].dst, "/out/x_2.txt");
}

#[test]
fn date_time_text_pads_every_field_but_the_year() {
    assert_eq!(format_date_time((2024, 1, 5, 3, 4, 5)), "2024-01-05 03:04:05");
    assert_eq!(format_date_time((-5, 12, 31, 23, 59, 59)), "-5-12-31 23:59:59");
}

#[test]
fn a_valid_time_is_written_as_a_date_and_time() {
    let text = VFileTime::new(1_431_648_000, 0).to_local_string();
    let chars: Vec<char> = text.chars().collect();
    assert_eq!(chars.len(), 19, "{text}");
    assert_eq!(chars[4], '-');
    assert_eq!(chars[7], '-');
    assert_eq!(chars[10], ' ');
    assert_eq!(chars[13], ':');
    assert_eq!(chars[16], ':');
}

#[test]
fn the_default_config_names_the_application() {
    assert_eq!(Config::default().app_name, "fv");
}

#[test]
fn times_keep_the_order_of_their_instants() {
    let pairs = [(-2i64, 999_999_999u32), (-1, 0), (-1, 5), (0, 0), (0, 1), (1, 0)];
    for (i, &(s1, n1)) in pairs.iter().enumerate() {
        for (j, &(s2, n2)) in pairs.iter().enumerate() {
            let a = VFileTime::new(s1, n1);
            let b = VFileTime::new(s2, n2);
            assert_eq!(a.is_at_or_before(&b), i <= j);
            assert_eq!(a <= b, i <= j);
            assert_eq!(a == b, i == j);
        }
    }
}
