//! What the file info panel says about a file: a table of labels and
//! values, assembled from the metadata and from what was read of the file.
use vstd::prelude::*;
use crate::fs::file::VFileMetadata;
use crate::fs::size::{grouped, spec_format_size};
use crate::path::spec_file_name;
use crate::fs::permissions::spec_rwx_string;
use crate::text::{decimal, grouped_decimal, owned, pad2, pad_right, push_decimal, push_pad2, push_str};

verus! {

/// The MIME type and the usual extension that `infer` reads from the first
/// bytes of a file.
pub uninterp spec fn inferred_type(head: Seq<u8>) -> Option<(Seq<char>, Seq<char>)>;

/// The name of the encoding that `chardetng` guesses for the bytes.
pub uninterp spec fn guessed_encoding(bytes: Seq<u8>) -> Seq<char>;

/// The width and height that `imagesize` reads from an image's first bytes.
pub uninterp spec fn image_dimensions(head: Seq<u8>) -> Option<(usize, usize)>;

/// `infer::get` on the first bytes of a file: its MIME type and extension,
/// where it recognises the format.
#[verifier::external_body]
fn infer_type(head: &[u8]) -> (r: Option<(String, String)>)
    ensures
        match r {
            Some((m, e)) => inferred_type(head@) == Some((m@, e@)),
            None => inferred_type(head@) is None,
        },
{
    match infer::get(head) {
        Some(t) => Some((t.mime_type().to_string(), t.extension().to_string())),
        None => None,
    }
}

/// chardetng's `EncodingDetector` (ISO-2022-JP allowed) fed `bytes` as the
/// whole input, then `guess(None, Utf8Detection::Allow)`: the name of the
/// guessed encoding.
#[verifier::external_body]
fn guess_encoding(bytes: &[u8]) -> (r: String)
    ensures
        r@ == guessed_encoding(bytes@),
{
    let mut detector = chardetng::EncodingDetector::new(chardetng::Iso2022JpDetection::Allow);
    detector.feed(bytes, true);
    detector.guess(None, chardetng::Utf8Detection::Allow).name().to_string()
}

/// `imagesize::blob_size`: the dimensions of the image whose first bytes
/// are `head`, where its header can be read.
#[verifier::external_body]
pub(crate) fn blob_dimensions(head: &[u8]) -> (r: Option<(usize, usize)>)
    ensures
        r == image_dimensions(head@),
{
    match imagesize::blob_size(head) {
        Ok(s) => Some((s.width, s.height)),
        Err(_) => None,
    }
}

/// What kind of content a regular file holds.
#[derive(Debug, Clone, Copy, PartialEq, Eq, Structural)]
pub enum ContentKind {
    Text,
    Image,
    Video,
    Audio,
    Binary,
}

pub open spec fn spec_content_label(k: ContentKind) -> Seq<char> {
    match k {
        ContentKind::Text => "Text"@,
        ContentKind::Image => "Image"@,
        ContentKind::Video => "Video"@,
        ContentKind::Audio => "Audio"@,
        ContentKind::Binary => "Binary"@,
    }
}

/// Text: no zero byte among the first bytes (an empty file is text).
pub open spec fn looks_like_text(head: Seq<u8>) -> bool {
    forall|i: int| 0 <= i < head.len() ==> head[i] != 0
}

/// The bytes `c` takes in UTF-8.
pub open spec fn utf8_len(c: char) -> nat {
    if (c as u32) < 0x80 {
        1
    } else if (c as u32) < 0x800 {
        2
    } else if (c as u32) < 0x10000 {
        3
    } else {
        4
    }
}

/// Line breaks in `s`.
pub open spec fn newline_count(s: Seq<char>) -> nat
    decreases s.len(),
{
    if s.len() == 0 { 0 } else { newline_count(s.drop_last()) + if s.last() == '\n' { 1nat } else { 0nat } }
}

/// Line breaks in `s` written as a carriage return and a line feed.
pub open spec fn crlf_count(s: Seq<char>) -> nat
    decreases s.len(),
{
    if s.len() < 2 {
        0
    } else {
        crlf_count(s.drop_last()) + if s.last() == '\n' && s[s.len() - 2] == '\r' { 1nat } else { 0nat }
    }
}

/// The UTF-8 length of `s`.
pub open spec fn utf8_total(s: Seq<char>) -> nat
    decreases s.len(),
{
    if s.len() == 0 { 0 } else { utf8_total(s.drop_last()) + utf8_len(s.last()) }
}

/// The lines of a text as read line by line: every line break ends one,
/// and a last line without a break counts too.
pub open spec fn line_count(s: Seq<char>) -> nat {
    newline_count(s) + if s.len() > 0 && s.last() != '\n' { 1nat } else { 0nat }
}

/// The bytes of those lines, their line breaks (`\n` or `\r\n`) left out.
pub open spec fn line_bytes(s: Seq<char>) -> int {
    utf8_total(s) - newline_count(s) - crlf_count(s)
}

fn char_utf8_len(c: char) -> (n: u64)
    ensures
        n == utf8_len(c),
{
    let v = c as u32;
    if v < 0x80 {
        1
    } else if v < 0x800 {
        2
    } else if v < 0x10000 {
        3
    } else {
        4
    }
}

proof fn lemma_counts_bounded(s: Seq<char>)
    ensures
        newline_count(s) <= s.len(),
        crlf_count(s) <= newline_count(s),
        utf8_total(s) <= 4 * s.len(),
        newline_count(s) + crlf_count(s) + (if s.len() > 0 && s.last() == '\r' { 1nat } else { 0nat }) <= utf8_total(s),
    decreases s.len(),
{
    if s.len() > 0 {
        lemma_counts_bounded(s.drop_last());
        if s.len() >= 2 {
            let t = s.drop_last();
            assert(t.last() == s[s.len() - 2]);
            if s[s.len() - 2] == '\r' {
                assert(utf8_len(t.last()) == 1);
            }
        }
    }
}

/// The number of lines of a text and the bytes they hold, as reading it
/// line by line counts them.
pub fn count_text_stats(text: &str) -> (r: (u64, u64))
    requires
        text@.len() < 0x1000_0000_0000_0000,
    ensures
        r.0 == line_count(text@),
        r.1 == line_bytes(text@),
{
    let cs = crate::text::chars_of(text);
    let mut nl: u64 = 0;
    let mut crlf: u64 = 0;
    let mut total: u64 = 0;
    let mut i: usize = 0;
    assert(cs@.take(0) =~= Seq::<char>::empty());
    while i < cs.len()
        invariant
            cs@ == text@,
            cs@.len() < 0x1000_0000_0000_0000,
            i <= cs@.len(),
            nl == newline_count(cs@.take(i as int)),
            crlf == crlf_count(cs@.take(i as int)),
            total == utf8_total(cs@.take(i as int)),
        decreases cs@.len() - i,
    {
        let ghost t = cs@.take(i + 1);
        assert(t.drop_last() =~= cs@.take(i as int));
        assert(t.last() == cs@[i as int]);
        proof {
            lemma_counts_bounded(cs@.take(i as int));
        }
        let c = cs[i];
        if c == '\n' {
            nl = nl + 1;
            if i > 0 && cs[i - 1] == '\r' {
                assert(t[t.len() - 2] == cs@[i - 1]);
                crlf = crlf + 1;
            } else if i > 0 {
                assert(t[t.len() - 2] == cs@[i - 1]);
            }
        }
        total = total + char_utf8_len(c);
        i += 1;
    }
    assert(cs@.take(cs@.len() as int) =~= text@);
    proof {
        lemma_counts_bounded(text@);
    }
    let last_open = cs.len() > 0 && cs[cs.len() - 1] != '\n';
    let lines = if last_open { nl + 1 } else { nl };
    (lines, total - nl - crlf)
}

/// `s` starts with `p`.
pub open spec fn has_prefix(s: Seq<char>, p: Seq<char>) -> bool {
    p.len() <= s.len() && s.subrange(0, p.len() as int) == p
}

/// The views of a recognised type.
pub open spec fn type_views(t: Option<(String, String)>) -> Option<(Seq<char>, Seq<char>)> {
    match t {
        Some((m, e)) => Some((m@, e@)),
        None => None,
    }
}

/// The kind of content, given the recognised type (MIME type and
/// extension) of the first bytes `head`: by the MIME type where it is an
/// image, video or audio type, otherwise text or binary by the zero-byte
/// test.
pub open spec fn kind_from(inferred: Option<(Seq<char>, Seq<char>)>, head: Seq<u8>) -> ContentKind {
    match inferred {
        Some((mime, _)) => if has_prefix(mime, "image/"@) {
            ContentKind::Image
        } else if has_prefix(mime, "video/"@) {
            ContentKind::Video
        } else if has_prefix(mime, "audio/"@) {
            ContentKind::Audio
        } else if looks_like_text(head) {
            ContentKind::Text
        } else {
            ContentKind::Binary
        },
        None => if looks_like_text(head) { ContentKind::Text } else { ContentKind::Binary },
    }
}

/// The kind of content whose first bytes are `head`.
pub open spec fn spec_content_kind(head: Seq<u8>) -> ContentKind {
    kind_from(inferred_type(head), head)
}

/// Whether the first bytes of a file look like text.
pub fn is_text_head(head: &[u8]) -> (r: bool)
    ensures
        r == looks_like_text(head@),
{
    let mut i: usize = 0;
    while i < head.len()
        invariant
            i <= head@.len(),
            forall|j: int| 0 <= j < i ==> head@[j] != 0,
        decreases head@.len() - i,
    {
        if head[i] == 0 {
            return false;
        }
        i += 1;
    }
    true
}

/// The kind of content of `head`, given its recognised type (see
/// `kind_from`).
pub fn content_kind_of(inferred: &Option<(String, String)>, head: &[u8]) -> (r: ContentKind)
    ensures
        r == kind_from(type_views(*inferred), head@),
{
    match inferred {
        Some((mime, _)) => {
            if crate::text::starts_with(mime.as_str(), "image/") {
                ContentKind::Image
            } else if crate::text::starts_with(mime.as_str(), "video/") {
                ContentKind::Video
            } else if crate::text::starts_with(mime.as_str(), "audio/") {
                ContentKind::Audio
            } else if is_text_head(head) {
                ContentKind::Text
            } else {
                ContentKind::Binary
            }
        },
        None => if is_text_head(head) { ContentKind::Text } else { ContentKind::Binary },
    }
}

/// The kind of content whose first bytes are `head`.
pub fn detect_content_kind(head: &[u8]) -> (r: ContentKind)
    ensures
        r == spec_content_kind(head@),
{
    let t = infer_type(head);
    content_kind_of(&t, head)
}

/// ASCII letters made capitals.
pub open spec fn ascii_upper(s: Seq<char>) -> Seq<char> {
    Seq::new(s.len(), |i: int| if 'a' <= s[i] <= 'z' { ((s[i] as int) - 32) as char } else { s[i] })
}

fn ascii_upper_exec(s: &str) -> (r: String)
    ensures
        r@ == ascii_upper(s@),
{
    let v = crate::text::chars_of(s);
    let mut out: Vec<char> = Vec::new();
    let mut i: usize = 0;
    while i < v.len()
        invariant
            v@ == s@,
            i <= v@.len(),
            out@.len() == i,
            forall|j: int| 0 <= j < i ==> out@[j] == ascii_upper(s@)[j],
        decreases v@.len() - i,
    {
        let c = v[i];
        let u = if 'a' <= c && c <= 'z' { upper_of(c) } else { c };
        out.push(u);
        i += 1;
    }
    assert(out@ =~= ascii_upper(s@));
    crate::text::string_of(out.as_slice())
}

fn upper_of(c: char) -> (r: char)
    requires
        'a' <= c <= 'z',
    ensures
        r == ((c as int) - 32) as char,
{
    match c {
        'a' => 'A', 'b' => 'B', 'c' => 'C', 'd' => 'D', 'e' => 'E', 'f' => 'F', 'g' => 'G', 'h' => 'H',
        'i' => 'I', 'j' => 'J', 'k' => 'K', 'l' => 'L', 'm' => 'M', 'n' => 'N', 'o' => 'O', 'p' => 'P',
        'q' => 'Q', 'r' => 'R', 's' => 'S', 't' => 'T', 'u' => 'U', 'v' => 'V', 'w' => 'W', 'x' => 'X',
        'y' => 'Y', _ => 'Z',
    }
}

/// The extension of the last component of `path`: what follows its last
/// `.`, where that dot is neither the first character nor absent.
pub open spec fn spec_extension(path: Seq<char>) -> Option<Seq<char>> {
    match spec_file_name(path) {
        Some(n) => {
            let k = crate::path::last_index(n, '.');
            if k > 0 { Some(n.subrange(k + 1, n.len() as int)) } else { None }
        },
        None => None,
    }
}

/// The format shown for an image or a recording: the recognised
/// extension, else the path's extension, in capitals; empty when neither.
pub open spec fn spec_format_name(head: Seq<u8>, path: Seq<char>) -> Seq<char> {
    format_from(inferred_type(head), path)
}

/// The format shown, given the recognised type: its extension in capitals,
/// else the path's extension in capitals, else nothing.
pub open spec fn format_from(inferred: Option<(Seq<char>, Seq<char>)>, path: Seq<char>) -> Seq<char> {
    match inferred {
        Some((_, ext)) => ascii_upper(ext),
        None => match spec_extension(path) {
            Some(e) => ascii_upper(e),
            None => Seq::empty(),
        },
    }
}

pub fn extension_of(path: &str) -> (r: Option<String>)
    ensures
        match r {
            Some(e) => spec_extension(path@) == Some(e@),
            None => spec_extension(path@) is None,
        },
{
    let name = match crate::path::file_name(path) {
        Some(n) => n,
        None => {
            return None;
        },
    };
    let v = crate::text::chars_of(name.as_str());
    assert(v@.subrange(0, v@.len() as int) =~= v@);
    let k = crate::path::after_last_in(&v, v.len(), '.');
    if k > 1 {
        Some(crate::path::slice_string(&v, k, v.len()))
    } else {
        None
    }
}

/// The format shown for an image or a recording.
pub fn format_name(head: &[u8], path: &str) -> (r: String)
    ensures
        r@ == spec_format_name(head@, path@),
{
    let t = infer_type(head);
    format_name_of(&t, path)
}

/// The format shown, given the recognised type (see `format_from`).
pub fn format_name_of(inferred: &Option<(String, String)>, path: &str) -> (r: String)
    ensures
        r@ == format_from(type_views(*inferred), path@),
{
    match inferred {
        Some((_, ext)) => ascii_upper_exec(ext.as_str()),
        None => match extension_of(path) {
            Some(e) => ascii_upper_exec(e.as_str()),
            None => String::new(),
        },
    }
}

/// A duration as `m:ss`, or `h:mm:ss` from one hour on.
pub open spec fn spec_duration(total: nat) -> Seq<char> {
    let h = total / 3600;
    let m = (total % 3600) / 60;
    let s = total % 60;
    if h > 0 {
        decimal(h) + seq![':'] + pad2(m) + seq![':'] + pad2(s)
    } else {
        decimal(m) + seq![':'] + pad2(s)
    }
}

pub fn format_duration(total: u64) -> (r: String)
    ensures
        r@ == spec_duration(total as nat),
{
    let h = total / 3600;
    let m = (total % 3600) / 60;
    let s = total % 60;
    let mut out = String::new();
    if h > 0 {
        push_decimal(&mut out, h);
        crate::text::push_char(&mut out, ':');
        push_pad2(&mut out, m);
    } else {
        push_decimal(&mut out, m);
    }
    crate::text::push_char(&mut out, ':');
    push_pad2(&mut out, s);
    assert(out@ =~= spec_duration(total as nat));
    out
}

/// The longest label.
pub open spec fn label_width(es: Seq<(Seq<char>, Seq<char>)>) -> nat
    decreases es.len(),
{
    if es.len() == 0 {
        0
    } else {
        let w = label_width(es.drop_last());
        if es.last().0.len() > w { es.last().0.len() } else { w }
    }
}

/// The entries as text.
pub open spec fn entry_views(es: Seq<(String, String)>) -> Seq<(Seq<char>, Seq<char>)> {
    Seq::new(es.len(), |i: int| (es[i].0@, es[i].1@))
}

/// One line of the panel: the label padded to the widest label, two
/// spaces, the value.
pub open spec fn info_line(e: (Seq<char>, Seq<char>), w: nat) -> Seq<char> {
    pad_right(e.0, w) + "  "@ + e.1
}

/// What the panel says of a file.
pub struct FileInfo {
    pub entries: Vec<(String, String)>,
}

/// What was read of a file besides its metadata, by kind of file.
pub enum FileDetails {
    /// A symbolic link and where it points, where that could be read.
    Symlink { target: Option<String> },
    /// A directory and the number of its entries, where they could be
    /// counted.
    Directory { items: Option<u64> },
    /// A regular file: its first bytes (up to 8 KiB), its line and
    /// character counts where it could be read as text, the bytes the
    /// encoding is guessed from (up to 64 KiB), a recording's length in
    /// seconds where it could be read, and, for an image, as much of the file
    /// as its header may need (the first bytes are used where this is
    /// missing).
    Regular { head: Vec<u8>, text_stats: Option<(u64, u64)>, sample: Option<Vec<u8>>, duration_secs: Option<u64>, image: Option<Vec<u8>> },
}

/// One entry as text.
pub open spec fn e(label: Seq<char>, value: Seq<char>) -> (Seq<char>, Seq<char>) {
    (label, value)
}

/// An entry where the value is known, none otherwise.
pub open spec fn opt_entry(label: Seq<char>, value: Option<Seq<char>>) -> Seq<(Seq<char>, Seq<char>)> {
    match value {
        Some(v) => seq![e(label, v)],
        None => Seq::empty(),
    }
}

/// The entries a regular file's kind adds.
pub open spec fn kind_entries(path: Seq<char>, head: Seq<u8>, text_stats: Option<(u64, u64)>, sample: Option<Seq<u8>>,
    duration_secs: Option<u64>, image: Option<Seq<u8>>) -> Seq<(Seq<char>, Seq<char>)> {
    match spec_content_kind(head) {
        ContentKind::Text => (match text_stats {
            Some((l, c)) => seq![e("Lines"@, grouped_decimal(l as nat)), e("Characters"@, grouped_decimal(c as nat))],
            None => Seq::empty(),
        }) + opt_entry("Encoding"@, match sample { Some(b) => Some(guessed_encoding(b)), None => None }),
        ContentKind::Image => match image_dimensions(match image { Some(b) => b, None => head }) {
            Some((w, h)) => seq![e("Format"@, spec_format_name(head, path)),
                e("Dimensions"@, decimal(w as nat) + " x "@ + decimal(h as nat) + " px"@)],
            None => Seq::empty(),
        },
        ContentKind::Video | ContentKind::Audio => seq![e("Format"@, spec_format_name(head, path))]
            + opt_entry("Duration"@, match duration_secs { Some(d) => Some(spec_duration(d as nat)), None => None }),
        ContentKind::Binary => opt_entry("MIME Type"@, match inferred_type(head) { Some((mime, _)) => Some(mime), None => None }),
    }
}

/// The entries before the permissions: path, size, kind, and what the kind
/// adds.
pub open spec fn info_head(path: Seq<char>, size: u64, details: FileDetails) -> Seq<(Seq<char>, Seq<char>)> {
    seq![e("Path"@, path), e("Size"@, spec_format_size(size as nat))] + match details {
        FileDetails::Symlink { target } => seq![e("Type"@, "Symlink"@)]
            + opt_entry("Link Target"@, match target { Some(t) => Some(t@), None => None }),
        FileDetails::Directory { items } => seq![e("Type"@, "Directory"@)]
            + opt_entry("Items"@, match items { Some(n) => Some(grouped_decimal(n as nat)), None => None }),
        FileDetails::Regular { head, text_stats, sample, duration_secs, image } => seq![e("Type"@, spec_content_label(spec_content_kind(head@)))]
            + kind_entries(path, head@, text_stats, match sample { Some(b) => Some(b@), None => None }, duration_secs,
                match image { Some(b) => Some(b@), None => None }),
    }
}

fn entry(label: &str, value: String) -> (r: (String, String))
    ensures
        r.0@ == label@,
        r.1@ == value@,
{
    (owned(label), value)
}

impl FileInfo {
    /// The panel's lines (see `info_line`).
    pub fn to_lines(&self) -> (r: Vec<String>)
        ensures
            r@.len() == self.entries@.len(),
            forall|i: int| 0 <= i < r@.len() ==> (#[trigger] r@[i])@ == info_line(
                entry_views(self.entries@)[i], label_width(entry_views(self.entries@))),
    {
        let ghost es = entry_views(self.entries@);
        let mut w: usize = 0;
        let mut i: usize = 0;
        while i < self.entries.len()
            invariant
                es == entry_views(self.entries@),
                i <= self.entries@.len(),
                w == label_width(es.subrange(0, i as int)),
            decreases self.entries@.len() - i,
        {
            let n = self.entries[i].0.as_str().unicode_len();
            assert(es.subrange(0, i + 1).drop_last() =~= es.subrange(0, i as int));
            if n > w {
                w = n;
            }
            i += 1;
        }
        assert(es.subrange(0, self.entries@.len() as int) =~= es);
        let mut out: Vec<String> = Vec::new();
        let mut j: usize = 0;
        while j < self.entries.len()
            invariant
                es == entry_views(self.entries@),
                w == label_width(es),
                j <= self.entries@.len(),
                out@.len() == j,
                forall|t: int| 0 <= t < j ==> (#[trigger] out@[t])@ == info_line(es[t], w as nat),
            decreases self.entries@.len() - j,
        {
            let mut line = owned(self.entries[j].0.as_str());
            let mut pad = self.entries[j].0.as_str().unicode_len();
            let ghost label = self.entries@[j as int].0@;
            while pad < w
                invariant
                    pad > label.len() ==> pad <= w,
                    pad >= label.len(),
                    line@ == label + Seq::new((pad - label.len()) as nat, |k: int| ' '),
                decreases w - pad,
            {
                crate::text::push_char(&mut line, ' ');
                pad += 1;
                assert(line@ =~= label + Seq::new((pad - label.len()) as nat, |k: int| ' '));
            }
            assert(line@ =~= pad_right(label, w as nat));
            push_str(&mut line, "  ");
            push_str(&mut line, self.entries[j].1.as_str());
            out.push(line);
            j += 1;
        }
        out
    }

    /// The entries for the file at `path` with metadata `m`: path, size,
    /// type and what the type adds, permissions, and the creation and
    /// modification times where known.
    pub fn from_parts(path: &str, m: &VFileMetadata, details: FileDetails) -> (r: FileInfo)
        ensures
            ({
                let h = info_head(path@, m.size, details);
                let es = entry_views(r.entries@);
                &&& es.len() == h.len() + 1 + (if m.created is Some { 1int } else { 0 }) + (if m.modified is Some { 1int } else { 0 })
                &&& es.take(h.len() as int) == h
                &&& es[h.len() as int] == e("Permissions"@, spec_rwx_string(m.mode))
                &&& m.created is Some ==> es[h.len() as int + 1].0 == "Created"@
                &&& m.modified is Some ==> es[es.len() - 1].0 == "Modified"@
            }),
    {
        let ghost h = info_head(path@, m.size, details);
        let mut entries: Vec<(String, String)> = Vec::new();
        entries.push(entry("Path", owned(path)));
        entries.push(entry("Size", crate::fs::size::format_size(m.size)));
        match details {
            FileDetails::Symlink { target } => {
                entries.push(entry("Type", owned("Symlink")));
                match target {
                    Some(t) => entries.push(entry("Link Target", t)),
                    None => {},
                }
            },
            FileDetails::Directory { items } => {
                entries.push(entry("Type", owned("Directory")));
                match items {
                    Some(n) => entries.push(entry("Items", grouped(n))),
                    None => {},
                }
            },
            FileDetails::Regular { head, text_stats, sample, duration_secs, image } => {
                let kind = detect_content_kind(head.as_slice());
                entries.push(entry("Type", owned(content_label(kind))));
                match kind {
                    ContentKind::Text => {
                        match text_stats {
                            Some((lines, chars)) => {
                                entries.push(entry("Lines", grouped(lines)));
                                entries.push(entry("Characters", grouped(chars)));
                            },
                            None => {},
                        }
                        match sample {
                            Some(b) => entries.push(entry("Encoding", guess_encoding(b.as_slice()))),
                            None => {},
                        }
                    },
                    ContentKind::Image => {
                        let dims = match image {
                            Some(b) => blob_dimensions(b.as_slice()),
                            None => blob_dimensions(head.as_slice()),
                        };
                        match dims {
                            Some((w, h)) => {
                                entries.push(entry("Format", format_name(head.as_slice(), path)));
                                let mut d = String::new();
                                push_decimal(&mut d, w as u64);
                                push_str(&mut d, " x ");
                                push_decimal(&mut d, h as u64);
                                push_str(&mut d, " px");
                                entries.push(entry("Dimensions", d));
                            },
                            None => {},
                        }
                    },
                    ContentKind::Video | ContentKind::Audio => {
                        entries.push(entry("Format", format_name(head.as_slice(), path)));
                        match duration_secs {
                            Some(s) => entries.push(entry("Duration", format_duration(s))),
                            None => {},
                        }
                    },
                    ContentKind::Binary => {
                        match infer_type(head.as_slice()) {
                            Some((mime, _)) => entries.push(entry("MIME Type", mime)),
                            None => {},
                        }
                    },
                }
            },
        }
        entries.push(entry("Permissions", crate::fs::permissions::VPermissions::from_mode(m.mode).to_rwx_string()));
        match m.created {
            Some(t) => entries.push(entry("Created", t.to_local_string())),
            None => {},
        }
        match m.modified {
            Some(t) => entries.push(entry("Modified", t.to_local_string())),
            None => {},
        }
        FileInfo { entries }
    }
}

fn content_label(k: ContentKind) -> (r: &'static str)
    ensures
        r@ == spec_content_label(k),
{
    match k {
        ContentKind::Text => "Text",
        ContentKind::Image => "Image",
        ContentKind::Video => "Video",
        ContentKind::Audio => "Audio",
        ContentKind::Binary => "Binary",
    }
}

} // verus!
