//! The help panel: every key binding of the file list, by category.
use vstd::prelude::*;
use crate::component::Action;
use crate::key::Key;
use crate::text::{owned, pad_right, push_char, push_str};
use crate::text_output::TextOutputState;

verus! {

/// A key and what it does.
pub struct KeyBinding {
    pub key: String,
    pub desc: String,
}

/// A heading and the bindings listed under it.
pub struct KeyCategory {
    pub name: String,
    pub entries: Vec<KeyBinding>,
}

pub open spec fn max_nat(a: nat, b: nat) -> nat {
    if a >= b { a } else { b }
}

/// The length of the longest key of `es`.
pub open spec fn max_key_len(es: Seq<KeyBinding>) -> nat
    decreases es.len(),
{
    if es.len() == 0 {
        0
    } else {
        max_nat(max_key_len(es.drop_last()), es.last().key@.len())
    }
}

/// The length of the longest key of all categories.
pub open spec fn key_width(cs: Seq<KeyCategory>) -> nat
    decreases cs.len(),
{
    if cs.len() == 0 {
        0
    } else {
        max_nat(key_width(cs.drop_last()), max_key_len(cs.last().entries@))
    }
}

/// A binding's line: indented, the key padded to `w`, two spaces, the text.
pub open spec fn entry_line(b: KeyBinding, w: nat) -> Seq<char> {
    seq![' ', ' '] + pad_right(b.key@, w) + seq![' ', ' '] + b.desc@
}

/// A category's lines: the heading, then one line per binding.
pub open spec fn category_lines(c: KeyCategory, w: nat) -> Seq<Seq<char>> {
    seq![c.name@] + c.entries@.map_values(|b: KeyBinding| entry_line(b, w))
}

/// The help text: the categories in order, an empty line between two.
pub open spec fn help_lines(cs: Seq<KeyCategory>, w: nat) -> Seq<Seq<char>>
    decreases cs.len(),
{
    if cs.len() == 0 {
        Seq::empty()
    } else if cs.len() == 1 {
        category_lines(cs.last(), w)
    } else {
        help_lines(cs.drop_last(), w) + seq![Seq::<char>::empty()] + category_lines(cs.last(), w)
    }
}

fn binding(key: &str, desc: &str) -> (r: KeyBinding)
    ensures
        r.key@ == key@,
        r.desc@ == desc@,
{
    KeyBinding { key: owned(key), desc: owned(desc) }
}

/// A binding as its key and description.
pub open spec fn binding_view(b: KeyBinding) -> (Seq<char>, Seq<char>) {
    (b.key@, b.desc@)
}

/// A category as its heading and bindings.
pub open spec fn category_view(c: KeyCategory) -> (Seq<char>, Seq<(Seq<char>, Seq<char>)>) {
    (c.name@, c.entries@.map_values(|b: KeyBinding| binding_view(b)))
}

/// The key bindings of the file list, by category.
pub open spec fn bindings_table() -> Seq<(Seq<char>, Seq<(Seq<char>, Seq<char>)>)> {
    seq![
        ("Navigation"@, seq![
            ("Backspace"@, "Go to parent directory"@),
            ("<"@, "Go back in directory history"@),
            (">"@, "Go forward in directory history"@),
            ("~"@, "Go to home directory"@),
            ("j"@, "Jump to directory"@),
            ("g"@, "Grep in files"@),
        ]),
        ("Selection & display"@, seq![
            ("Space"@, "Toggle check mark"@),
            ("shift + a"@, "Select all / clear selection"@),
            ("."@, "Toggle dotfiles visibility"@),
            ("s"@, "Sort files"@),
            ("f"@, "Search files"@),
            ("/"@, "Filter list (hide non-matches)"@),
        ]),
        ("File operations"@, seq![
            ("c"@, "Copy files"@),
            ("m"@, "Move files"@),
            ("d"@, "Delete files"@),
            ("r"@, "Rename file"@),
            ("k"@, "Create directory"@),
            ("n"@, "Create file"@),
            ("l"@, "Create symlink to cursor file"@),
            ("p"@, "Zip files"@),
            ("u"@, "Unzip file"@),
            ("x"@, "Execute command"@),
            ("y"@, "Yank paths to clipboard"@),
        ]),
        ("Panels & views"@, seq![
            ("a"@, "Show file attributes"@),
            ("i"@, "Show file info"@),
            ("t"@, "Show directory tree"@),
            ("v"@, "Preview file"@),
            ("h"@, "Launch shell"@),
            ("e"@, "Open in file manager"@),
        ]),
        ("Bookmarks"@, seq![
            ("b"@, "Show bookmarks"@),
            ("+"@, "Add bookmark"@),
            ("-"@, "Remove bookmark"@),
        ]),
        ("App"@, seq![
            ("o"@, "Settings"@),
            ("?"@, "Show this help"@),
            ("q"@, "Quit"@),
        ]),
    ]
}

/// The key bindings of the file list, by category (see `bindings_table`).
/// Keep in step with the file list's key handling.
pub fn key_bindings() -> (r: Vec<KeyCategory>)
    ensures
        r@.len() == 6,
        r@.map_values(|c: KeyCategory| category_view(c)) == bindings_table(),
{
    let mut nav: Vec<KeyBinding> = Vec::new();
    nav.push(binding("Backspace", "Go to parent directory"));
    nav.push(binding("<", "Go back in directory history"));
    nav.push(binding(">", "Go forward in directory history"));
    nav.push(binding("~", "Go to home directory"));
    nav.push(binding("j", "Jump to directory"));
    nav.push(binding("g", "Grep in files"));
    assert(nav@.map_values(|b: KeyBinding| binding_view(b)) =~= seq![
        ("Backspace"@, "Go to parent directory"@),
        ("<"@, "Go back in directory history"@),
        (">"@, "Go forward in directory history"@),
        ("~"@, "Go to home directory"@),
        ("j"@, "Jump to directory"@),
        ("g"@, "Grep in files"@),
    ]);
    let mut sel: Vec<KeyBinding> = Vec::new();
    sel.push(binding("Space", "Toggle check mark"));
    sel.push(binding("shift + a", "Select all / clear selection"));
    sel.push(binding(".", "Toggle dotfiles visibility"));
    sel.push(binding("s", "Sort files"));
    sel.push(binding("f", "Search files"));
    sel.push(binding("/", "Filter list (hide non-matches)"));
    assert(sel@.map_values(|b: KeyBinding| binding_view(b)) =~= seq![
        ("Space"@, "Toggle check mark"@),
        ("shift + a"@, "Select all / clear selection"@),
        ("."@, "Toggle dotfiles visibility"@),
        ("s"@, "Sort files"@),
        ("f"@, "Search files"@),
        ("/"@, "Filter list (hide non-matches)"@),
    ]);
    let mut ops: Vec<KeyBinding> = Vec::new();
    ops.push(binding("c", "Copy files"));
    ops.push(binding("m", "Move files"));
    ops.push(binding("d", "Delete files"));
    ops.push(binding("r", "Rename file"));
    ops.push(binding("k", "Create directory"));
    ops.push(binding("n", "Create file"));
    ops.push(binding("l", "Create symlink to cursor file"));
    ops.push(binding("p", "Zip files"));
    ops.push(binding("u", "Unzip file"));
    ops.push(binding("x", "Execute command"));
    ops.push(binding("y", "Yank paths to clipboard"));
    assert(ops@.map_values(|b: KeyBinding| binding_view(b)) =~= seq![
        ("c"@, "Copy files"@),
        ("m"@, "Move files"@),
        ("d"@, "Delete files"@),
        ("r"@, "Rename file"@),
        ("k"@, "Create directory"@),
        ("n"@, "Create file"@),
        ("l"@, "Create symlink to cursor file"@),
        ("p"@, "Zip files"@),
        ("u"@, "Unzip file"@),
        ("x"@, "Execute command"@),
        ("y"@, "Yank paths to clipboard"@),
    ]);
    let mut panels: Vec<KeyBinding> = Vec::new();
    panels.push(binding("a", "Show file attributes"));
    panels.push(binding("i", "Show file info"));
    panels.push(binding("t", "Show directory tree"));
    panels.push(binding("v", "Preview file"));
    panels.push(binding("h", "Launch shell"));
    panels.push(binding("e", "Open in file manager"));
    assert(panels@.map_values(|b: KeyBinding| binding_view(b)) =~= seq![
        ("a"@, "Show file attributes"@),
        ("i"@, "Show file info"@),
        ("t"@, "Show directory tree"@),
        ("v"@, "Preview file"@),
        ("h"@, "Launch shell"@),
        ("e"@, "Open in file manager"@),
    ]);
    let mut marks: Vec<KeyBinding> = Vec::new();
    marks.push(binding("b", "Show bookmarks"));
    marks.push(binding("+", "Add bookmark"));
    marks.push(binding("-", "Remove bookmark"));
    assert(marks@.map_values(|b: KeyBinding| binding_view(b)) =~= seq![
        ("b"@, "Show bookmarks"@),
        ("+"@, "Add bookmark"@),
        ("-"@, "Remove bookmark"@),
    ]);
    let mut app: Vec<KeyBinding> = Vec::new();
    app.push(binding("o", "Settings"));
    app.push(binding("?", "Show this help"));
    app.push(binding("q", "Quit"));
    assert(app@.map_values(|b: KeyBinding| binding_view(b)) =~= seq![
        ("o"@, "Settings"@),
        ("?"@, "Show this help"@),
        ("q"@, "Quit"@),
    ]);
    let mut cats: Vec<KeyCategory> = Vec::new();
    cats.push(KeyCategory { name: owned("Navigation"), entries: nav });
    cats.push(KeyCategory { name: owned("Selection & display"), entries: sel });
    cats.push(KeyCategory { name: owned("File operations"), entries: ops });
    cats.push(KeyCategory { name: owned("Panels & views"), entries: panels });
    cats.push(KeyCategory { name: owned("Bookmarks"), entries: marks });
    cats.push(KeyCategory { name: owned("App"), entries: app });
    assert(cats@.map_values(|c: KeyCategory| category_view(c)) =~= bindings_table());
    cats
}

/// The length of the longest key of all categories.
pub fn compute_key_width(cats: &Vec<KeyCategory>) -> (w: usize)
    ensures
        w == key_width(cats@),
{
    let mut w: usize = 0;
    let mut i: usize = 0;
    while i < cats.len()
        invariant
            i <= cats@.len(),
            w == key_width(cats@.subrange(0, i as int)),
        decreases cats@.len() - i,
    {
        let entries = &cats[i].entries;
        let mut m: usize = 0;
        let mut j: usize = 0;
        while j < entries.len()
            invariant
                j <= entries@.len(),
                entries == cats@[i as int].entries,
                m == max_key_len(entries@.subrange(0, j as int)),
            decreases entries@.len() - j,
        {
            let n = entries[j].key.as_str().unicode_len();
            assert(entries@.subrange(0, j + 1).drop_last() =~= entries@.subrange(0, j as int));
            if n > m {
                m = n;
            }
            j += 1;
        }
        assert(entries@.subrange(0, entries@.len() as int) =~= entries@);
        assert(cats@.subrange(0, i + 1).drop_last() =~= cats@.subrange(0, i as int));
        if m > w {
            w = m;
        }
        i += 1;
    }
    assert(cats@.subrange(0, cats@.len() as int) =~= cats@);
    w
}

/// One binding's line with its key padded to `w`.
fn entry_text(b: &KeyBinding, w: usize) -> (r: String)
    ensures
        r@ == entry_line(*b, w as nat),
{
    let mut s = String::new();
    push_char(&mut s, ' ');
    push_char(&mut s, ' ');
    push_str(&mut s, b.key.as_str());
    let n = b.key.as_str().unicode_len();
    if n < w {
        let mut k = n;
        while k < w
            invariant
                n == b.key@.len(),
                n <= k <= w,
                s@ == seq![' ', ' '] + b.key@ + Seq::new((k - n) as nat, |_i: int| ' '),
            decreases w - k,
        {
            push_char(&mut s, ' ');
            assert(Seq::new((k + 1 - n) as nat, |_i: int| ' ') =~= Seq::new((k - n) as nat, |_i: int| ' ').push(' '));
            k += 1;
        }
    }
    assert(s@ =~= seq![' ', ' '] + pad_right(b.key@, w as nat));
    push_char(&mut s, ' ');
    push_char(&mut s, ' ');
    push_str(&mut s, b.desc.as_str());
    assert(s@ =~= entry_line(*b, w as nat));
    s
}

/// The help text of `cats`: each heading flush left followed by its
/// bindings, keys padded to the longest key of all categories, an empty line
/// between two categories.
pub fn build_lines_from(cats: &Vec<KeyCategory>) -> (r: Vec<String>)
    ensures
        crate::text::views(r@) == help_lines(cats@, key_width(cats@)),
{
    let w = compute_key_width(cats);
    let mut lines: Vec<String> = Vec::new();
    let mut i: usize = 0;
    while i < cats.len()
        invariant
            i <= cats@.len(),
            w == key_width(cats@),
            crate::text::views(lines@) == help_lines(cats@.subrange(0, i as int), w as nat),
        decreases cats@.len() - i,
    {
        let ghost base = crate::text::views(lines@);
        let c = &cats[i];
        if i > 0 {
            let ghost prev = lines@;
            lines.push(String::new());
            assert(crate::text::views(lines@) =~= crate::text::views(prev).push(Seq::<char>::empty()));
        }
        let ghost prev2 = lines@;
        lines.push(c.name.clone());
        assert(crate::text::views(lines@) =~= crate::text::views(prev2).push(c.name@));
        let ghost head = crate::text::views(lines@);
        let mut j: usize = 0;
        while j < c.entries.len()
            invariant
                j <= c.entries@.len(),
                i < cats@.len(),
                c == cats@[i as int],
                crate::text::views(lines@) == head + c.entries@.subrange(0, j as int).map_values(|b: KeyBinding| entry_line(b, w as nat)),
            decreases c.entries@.len() - j,
        {
            let t = entry_text(&c.entries[j], w);
            let ghost prev = lines@;
            lines.push(t);
            assert(crate::text::views(lines@) =~= crate::text::views(prev).push(t@));
            assert(c.entries@.subrange(0, j + 1).map_values(|b: KeyBinding| entry_line(b, w as nat))
                =~= c.entries@.subrange(0, j as int).map_values(|b: KeyBinding| entry_line(b, w as nat)).push(entry_line(c.entries@[j as int], w as nat)));
            assert(crate::text::views(lines@) =~= head + c.entries@.subrange(0, j + 1).map_values(|b: KeyBinding| entry_line(b, w as nat)));
            j += 1;
        }
        proof {
            let sub = cats@.subrange(0, i + 1);
            assert(sub.drop_last() =~= cats@.subrange(0, i as int));
            assert(sub.last() == *c);
            assert(c.entries@.subrange(0, c.entries@.len() as int) =~= c.entries@);
            if i == 0 {
                assert(crate::text::views(lines@) =~= category_lines(*c, w as nat));
            } else {
                assert(crate::text::views(lines@) =~= base + seq![Seq::<char>::empty()] + category_lines(*c, w as nat));
            }
        }
        i += 1;
    }
    assert(cats@.subrange(0, cats@.len() as int) =~= cats@);
    lines
}

/// The help panel.
pub struct HelpComponent {
    pub text_output: TextOutputState,
}

impl HelpComponent {
    /// The help panel at its top, showing the help text of the file list's
    /// key bindings (see `build_lines`).
    pub fn new() -> (r: HelpComponent)
        ensures
            r.text_output.scroll == 0,
            exists|cs: Seq<KeyCategory>| cs.map_values(|c: KeyCategory| category_view(c)) == bindings_table()
                && crate::text::views(r.text_output.lines@) == help_lines(cs, key_width(cs)),
    {
        HelpComponent { text_output: TextOutputState::with_lines(Self::build_lines()) }
    }

    /// The help text of the file list's key bindings: `help_lines` of the
    /// categories of `bindings_table`.
    pub fn build_lines() -> (r: Vec<String>)
        ensures
            exists|cs: Seq<KeyCategory>| cs.map_values(|c: KeyCategory| category_view(c)) == bindings_table()
                && crate::text::views(r@) == help_lines(cs, key_width(cs)),
    {
        let cats = key_bindings();
        let r = build_lines_from(&cats);
        assert(cats@.map_values(|c: KeyCategory| category_view(c)) == bindings_table()
            && crate::text::views(r@) == help_lines(cats@, key_width(cats@)));
        r
    }

    pub fn keymap(&self) -> (r: &'static str)
        ensures
            r@ == "↑↓: Scroll  ←→: Top/Bottom  ?/Esc: Close"@,
    {
        "↑↓: Scroll  ←→: Top/Bottom  ?/Esc: Close"
    }

    /// What a key does to the panel and what it answers (see `handle_event`).
    pub open spec fn key_result(before: Self, key: Key, after: Self, a: Action) -> bool {
        &&& crate::text_output::scrolled(before.text_output.scroll as nat, before.text_output.lines@.len(), key) is Some ==> a is Nothing
        &&& crate::text_output::scrolled(before.text_output.scroll as nat, before.text_output.lines@.len(), key) is None ==> (
            if key == Key::Char('?') || key == Key::Esc { a is CloseSidePanel } else { a is Nothing })
    }

    /// Scroll keys scroll; `?` and `Esc` close the panel.
    pub fn handle_event(&mut self, key: Key) -> (a: Action)
        ensures
            Self::key_result(*old(self), key, *final(self), a),
    {
        if self.text_output.handle_scroll_key(key) {
            return Action::Nothing;
        }
        match key {
            Key::Char('?') | Key::Esc => Action::CloseSidePanel,
            _ => Action::Nothing,
        }
    }
}

} // verus!
