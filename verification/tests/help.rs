use fv::component::help::{key_bindings, HelpComponent};

#[test]
fn key_bindings_have_no_duplicate_keys() {
    let mut keys: Vec<String> = key_bindings()
        .into_iter()
        .flat_map(|category| category.entries.into_iter().map(|entry| entry.key))
        .collect();
    let total = keys.len();
    keys.sort_unstable();
    keys.dedup();
    assert_eq!(keys.len(), total, "重複したキーが存在します");
}

#[test]
fn build_lines_includes_every_category_heading() {
    let lines = HelpComponent::build_lines();
    for category in key_bindings() {
        assert!(
            lines.iter().any(|line| *line == category.name),
            "カテゴリ見出しが見つかりません: {}",
            category.name
        );
    }
}

#[test]
fn build_lines_includes_every_binding() {
    let lines = HelpComponent::build_lines();
    for category in key_bindings() {
        for entry in category.entries {
            assert!(
                lines.iter().any(|line| line.contains(&entry.key) && line.contains(&entry.desc)),
                "キーバインドが見つかりません: {} {}",
                entry.key,
                entry.desc
            );
        }
    }
}

#[test]
fn categories_are_separated_by_blank_lines() {
    let lines = HelpComponent::build_lines();
    let blank_count = lines.iter().filter(|line| line.is_empty()).count();
    assert_eq!(blank_count, key_bindings().len().saturating_sub(1));
}

#[test]
fn binding_lines_align_descriptions_after_the_longest_key() {
    let lines = HelpComponent::build_lines();
    assert_eq!(lines[0], "Navigation");
    assert_eq!(lines[1], "  Backspace  Go to parent directory");
    assert_eq!(lines[2], "  <          Go back in directory history");
}

#[test]
fn help_panel_opens_at_the_top_of_the_help_text() {
    let panel = HelpComponent::new();
    assert_eq!(panel.text_output.scroll, 0);
    assert_eq!(panel.text_output.lines, HelpComponent::build_lines());
    assert_eq!(panel.text_output.lines[0], "Navigation");
    assert_eq!(panel.keymap(), "↑↓: Scroll  ←→: Top/Bottom  ?/Esc: Close");
}
