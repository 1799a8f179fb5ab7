use fv::fs::async_job::zip_create::relative_zip_name;

#[test]
fn entry_names_are_relative_to_the_prefix_with_slashes() {
    assert_eq!(relative_zip_name("/home/u/dir/a/b.txt", "/home/u"), Ok("dir/a/b.txt".to_string()));
    assert_eq!(relative_zip_name("/home/u/f.txt", "/home/u/"), Ok("f.txt".to_string()));
}

#[test]
fn repeated_slashes_and_dots_are_ignored() {
    assert_eq!(relative_zip_name("/home//u/./x//y", "/home/u"), Ok("x/y".to_string()));
}

#[test]
fn parent_components_are_dropped_from_entry_names() {
    assert_eq!(relative_zip_name("/p/a/../b", "/p"), Ok("a/b".to_string()));
}

#[test]
fn a_path_outside_the_prefix_is_an_error() {
    assert_eq!(
        relative_zip_name("/other/f", "/home/u"),
        Err("/other/f is not under zip prefix /home/u".to_string())
    );
    assert_eq!(relative_zip_name("rel/f", "/rel"), Err("rel/f is not under zip prefix /rel".to_string()));
}

#[test]
fn the_prefix_itself_has_no_entry_name() {
    assert_eq!(relative_zip_name("/home/u", "/home/u"), Err("/home/u: produced empty zip entry name".to_string()));
}
