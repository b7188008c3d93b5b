//! File records and their coarse content classification, the filtering
//! and ordering of the discovered file list, and the review cursor over
//! it.
use vstd::prelude::*;
use vstd::string::StrSliceExecFns;

verus! {

/// Coarse content kind of a file, derived once from its extension.
#[derive(Debug, Clone, Copy, PartialEq, Eq, Structural)]
pub enum FileType {
    Text,
    Image,
    Pdf,
    Binary,
}

/// ASCII-lowercased code point of a character: uppercase ASCII letters map
/// to their lowercase counterpart, every other character is unchanged.
pub open spec fn lower_code(c: char) -> int {
    if 65 <= c as int && c as int <= 90 {
        c as int + 32
    } else {
        c as int
    }
}

/// Two character sequences are equal once both are ASCII-lowercased.
pub open spec fn eq_ignore_ascii_case(a: Seq<char>, b: Seq<char>) -> bool {
    a.len() == b.len() && forall|i: int| 0 <= i < a.len() ==> lower_code(a[i]) == lower_code(b[i])
}

/// Extensions classified as text files.
pub open spec fn is_text_extension(s: Seq<char>) -> bool {
    ||| eq_ignore_ascii_case(s, "txt"@)
    ||| eq_ignore_ascii_case(s, "md"@)
    ||| eq_ignore_ascii_case(s, "rs"@)
    ||| eq_ignore_ascii_case(s, "py"@)
    ||| eq_ignore_ascii_case(s, "js"@)
    ||| eq_ignore_ascii_case(s, "ts"@)
    ||| eq_ignore_ascii_case(s, "jsx"@)
    ||| eq_ignore_ascii_case(s, "tsx"@)
    ||| eq_ignore_ascii_case(s, "json"@)
    ||| eq_ignore_ascii_case(s, "yaml"@)
    ||| eq_ignore_ascii_case(s, "yml"@)
    ||| eq_ignore_ascii_case(s, "toml"@)
    ||| eq_ignore_ascii_case(s, "xml"@)
    ||| eq_ignore_ascii_case(s, "html"@)
    ||| eq_ignore_ascii_case(s, "css"@)
    ||| eq_ignore_ascii_case(s, "sh"@)
    ||| eq_ignore_ascii_case(s, "bash"@)
    ||| eq_ignore_ascii_case(s, "c"@)
    ||| eq_ignore_ascii_case(s, "cpp"@)
    ||| eq_ignore_ascii_case(s, "h"@)
    ||| eq_ignore_ascii_case(s, "hpp"@)
    ||| eq_ignore_ascii_case(s, "java"@)
    ||| eq_ignore_ascii_case(s, "go"@)
    ||| eq_ignore_ascii_case(s, "rb"@)
    ||| eq_ignore_ascii_case(s, "php"@)
    ||| eq_ignore_ascii_case(s, "swift"@)
    ||| eq_ignore_ascii_case(s, "kt"@)
    ||| eq_ignore_ascii_case(s, "cs"@)
    ||| eq_ignore_ascii_case(s, "sql"@)
}

/// Extensions classified as images.
pub open spec fn is_image_extension(s: Seq<char>) -> bool {
    ||| eq_ignore_ascii_case(s, "png"@)
    ||| eq_ignore_ascii_case(s, "jpg"@)
    ||| eq_ignore_ascii_case(s, "jpeg"@)
    ||| eq_ignore_ascii_case(s, "gif"@)
    ||| eq_ignore_ascii_case(s, "bmp"@)
    ||| eq_ignore_ascii_case(s, "webp"@)
    ||| eq_ignore_ascii_case(s, "svg"@)
    ||| eq_ignore_ascii_case(s, "ico"@)
}

/// The classification an extension receives: text and image extensions come
/// from fixed tables, `pdf` is its own kind, and everything else is binary.
pub open spec fn classify_extension(s: Seq<char>) -> FileType {
    if is_text_extension(s) {
        FileType::Text
    } else if is_image_extension(s) {
        FileType::Image
    } else if eq_ignore_ascii_case(s, "pdf"@) {
        FileType::Pdf
    } else {
        FileType::Binary
    }
}

/// A review decision for one file: keep it or move it to the trash.
#[derive(Debug, Clone, Copy, PartialEq, Eq, Structural)]
pub enum Decision {
    Keep,
    Trash,
}

/// Immutable snapshot of one reviewable file: its identity (path), display
/// name, byte size, modification time in nanoseconds since the epoch, and
/// the content kind derived once from its extension.
#[derive(Debug, Clone)]
pub struct FileEntry {
    pub path: String,
    pub name: String,
    pub size: u64,
    pub modified: i64,
    pub file_type: FileType,
}

/// Compares a string with a pattern, ignoring ASCII case on both sides.
fn str_eq_ignore_ascii_case(a: &str, b: &str) -> (r: bool)
    ensures
        r == eq_ignore_ascii_case(a@, b@),
{
    let a_len = a.unicode_len();
    let b_len = b.unicode_len();
    if a_len != b_len {
        return false;
    }
    let mut i: usize = 0;
    while i < a_len
        invariant
            i <= a_len,
            a_len == a@.len(),
            a_len == b@.len(),
            forall|j: int| 0 <= j < i ==> lower_code(a@[j]) == lower_code(b@[j]),
        decreases a_len - i,
    {
        let ca = a.get_char(i) as u32;
        let cb = b.get_char(i) as u32;
        let la = if 65 <= ca && ca <= 90 { ca + 32 } else { ca };
        let lb = if 65 <= cb && cb <= 90 { cb + 32 } else { cb };
        if la != lb {
            return false;
        }
        i = i + 1;
    }
    true
}

impl FileType {
    /// Classifies a file extension, ignoring ASCII case.
    pub fn from_extension(ext: &str) -> (t: FileType)
        ensures
            t == classify_extension(ext@),
    {
        if Self::is_text_ext(ext) {
            FileType::Text
        } else if Self::is_image_ext(ext) {
            FileType::Image
        } else if str_eq_ignore_ascii_case(ext, "pdf") {
            FileType::Pdf
        } else {
            FileType::Binary
        }
    }

    fn is_text_ext(ext: &str) -> (r: bool)
        ensures
            r == is_text_extension(ext@),
    {
        str_eq_ignore_ascii_case(ext, "txt") ||
        str_eq_ignore_ascii_case(ext, "md") ||
        str_eq_ignore_ascii_case(ext, "rs") ||
        str_eq_ignore_ascii_case(ext, "py") ||
        str_eq_ignore_ascii_case(ext, "js") ||
        str_eq_ignore_ascii_case(ext, "ts") ||
        str_eq_ignore_ascii_case(ext, "jsx") ||
        str_eq_ignore_ascii_case(ext, "tsx") ||
        str_eq_ignore_ascii_case(ext, "json") ||
        str_eq_ignore_ascii_case(ext, "yaml") ||
        str_eq_ignore_ascii_case(ext, "yml") ||
        str_eq_ignore_ascii_case(ext, "toml") ||
        str_eq_ignore_ascii_case(ext, "xml") ||
        str_eq_ignore_ascii_case(ext, "html") ||
        str_eq_ignore_ascii_case(ext, "css") ||
        str_eq_ignore_ascii_case(ext, "sh") ||
        str_eq_ignore_ascii_case(ext, "bash") ||
        str_eq_ignore_ascii_case(ext, "c") ||
        str_eq_ignore_ascii_case(ext, "cpp") ||
        str_eq_ignore_ascii_case(ext, "h") ||
        str_eq_ignore_ascii_case(ext, "hpp") ||
        str_eq_ignore_ascii_case(ext, "java") ||
        str_eq_ignore_ascii_case(ext, "go") ||
        str_eq_ignore_ascii_case(ext, "rb") ||
        str_eq_ignore_ascii_case(ext, "php") ||
        str_eq_ignore_ascii_case(ext, "swift") ||
        str_eq_ignore_ascii_case(ext, "kt") ||
        str_eq_ignore_ascii_case(ext, "cs") ||
        str_eq_ignore_ascii_case(ext, "sql")
    }

    fn is_image_ext(ext: &str) -> (r: bool)
        ensures
            r == is_image_extension(ext@),
    {
        str_eq_ignore_ascii_case(ext, "png") ||
        str_eq_ignore_ascii_case(ext, "jpg") ||
        str_eq_ignore_ascii_case(ext, "jpeg") ||
        str_eq_ignore_ascii_case(ext, "gif") ||
        str_eq_ignore_ascii_case(ext, "bmp") ||
        str_eq_ignore_ascii_case(ext, "webp") ||
        str_eq_ignore_ascii_case(ext, "svg") ||
        str_eq_ignore_ascii_case(ext, "ico")
    }
}

/// Whether a file name marks a hidden entry: it starts with a dot.
pub open spec fn hidden_name(name: Seq<char>) -> bool {
    name.len() > 0 && name[0] == '.'
}

/// Decides whether a discovered entry is hidden and must be left out of
/// the session's file list.
pub fn is_hidden_name(name: &str) -> (r: bool)
    ensures
        r == hidden_name(name@),
{
    if name.unicode_len() == 0 {
        false
    } else {
        name.get_char(0) == '.'
    }
}

/// The file list is ordered ascending by modification time.
pub open spec fn sorted_by_modified(s: Seq<FileEntry>) -> bool {
    forall|i: int, j: int| 0 <= i < j < s.len() ==> s[i].modified <= s[j].modified
}

/// Sorts the discovered files ascending by modification time; the list
/// keeps exactly the same records.
pub fn sort_by_modified(files: &mut Vec<FileEntry>)
    ensures
        sorted_by_modified(final(files)@),
        final(files)@.to_multiset() == old(files)@.to_multiset(),
{
    broadcast use vstd::seq_lib::group_to_multiset_ensures;

    if files.len() <= 1 {
        return;
    }
    let mut i: usize = 1;
    while i < files.len()
        invariant
            1 <= i <= files@.len(),
            sorted_by_modified(files@.take(i as int)),
            files@.to_multiset() == old(files)@.to_multiset(),
        decreases files@.len() - i,
    {
        let ghost prev = files@;
        let mut pos: usize = i;
        while pos > 0 && files[pos - 1].modified > files[i].modified
            invariant
                0 <= pos <= i < files@.len(),
                files@ == prev,
                forall|k: int| pos <= k < i ==> files@[k].modified > files@[i as int].modified,
            decreases pos,
        {
            pos = pos - 1;
        }
        if pos < i {
            let ghost x = prev[i as int];
            let moved = files.remove(i);
            files.insert(pos, moved);
            proof {
                let inserted = prev.remove(i as int).insert(pos as int, x);
                assert(files@ == inserted);
                assert(forall|k: int| 0 <= k < pos ==> inserted[k] == prev[k]);
                assert(inserted[pos as int] == x);
                assert(forall|k: int| pos < k <= i ==> inserted[k] == prev[k - 1]);
                assert(sorted_by_modified(prev.take(i as int)));
                assert forall|a: int, b: int| 0 <= a < b <= i implies inserted[a].modified
                    <= inserted[b].modified by {
                    if b < pos {
                        assert(prev[a].modified <= prev[b].modified);
                    } else if b == pos {
                        assert(prev[a].modified <= prev[pos - 1].modified);
                        assert(prev[pos - 1].modified <= x.modified);
                    } else if a < pos {
                        assert(a <= b - 1);
                        assert(prev[a].modified <= prev[b - 1].modified);
                    } else if a == pos {
                        assert(prev[b - 1].modified > x.modified);
                    } else {
                        assert(prev[a - 1].modified <= prev[b - 1].modified);
                    }
                }
                assert(files@.take(i + 1) =~= inserted.take(i + 1));
                assert(sorted_by_modified(files@.take(i + 1)));
                assert(prev.contains(x)) by {
                    assert(prev[i as int] == x);
                }
                vstd::seq_lib::to_multiset_remove(prev, i as int);
                vstd::seq_lib::to_multiset_insert(prev.remove(i as int), pos as int, x);
                vstd::seq_lib::to_multiset_contains(prev, x);
                broadcast use vstd::multiset::group_multiset_axioms;

                assert(files@.to_multiset() =~= prev.to_multiset().remove(x).insert(x));
                assert(files@.to_multiset() =~= prev.to_multiset());
            }
        } else {
            proof {
                assert(files@[i - 1].modified <= files@[i as int].modified);
                assert forall|k: int| 0 <= k < i implies files@[k].modified
                    <= files@[i as int].modified by {
                    if k < i - 1 {
                        assert(files@.take(i as int)[k].modified <= files@.take(i as int)[
                            i - 1].modified);
                    }
                }
                assert(files@.take(i + 1) =~= files@.take(i as int).push(files@[i as int]));
                assert(sorted_by_modified(files@.take(i + 1)));
            }
        }
        i = i + 1;
    }
    proof {
        assert(files@.take(files@.len() as int) =~= files@);
    }
}

/// Where one forward step from index `i` lands in a list of length `len`:
/// one position ahead, unless that would leave the list.
pub open spec fn cursor_advance(i: nat, len: nat) -> nat {
    if i + 1 < len {
        i + 1
    } else {
        i
    }
}

/// Where one backward step from index `i` lands: one position back,
/// unless the cursor is already at the start.
pub open spec fn cursor_retreat(i: nat) -> nat {
    if i > 0 {
        (i - 1) as nat
    } else {
        0
    }
}

/// Where `n` forward steps from index `i` land.
pub open spec fn cursor_advance_iter(n: nat, i: nat, len: nat) -> nat
    decreases n,
{
    if n == 0 {
        i
    } else {
        cursor_advance_iter((n - 1) as nat, cursor_advance(i, len), len)
    }
}

/// Repeated forward steps walk the list one index at a time and stop at the
/// last index: from index `i`, `n` steps land on `min(i + n, len - 1)`, so
/// the cursor never leaves the list.
pub proof fn lemma_advance_iter_bounded(n: nat, i: nat, len: nat)
    requires
        len > 0,
        i < len,
    ensures
        cursor_advance_iter(n, i, len) == if i + n < len { i + n } else { (len - 1) as nat },
        cursor_advance_iter(n, i, len) < len,
    decreases n,
{
    if n > 0 {
        lemma_advance_iter_bounded((n - 1) as nat, cursor_advance(i, len), len);
    }
}

/// From the start of a non-empty list, `n` forward steps land on
/// `min(n, len - 1)` and never exceed `len - 1`.
pub proof fn lemma_advance_from_start(n: nat, len: nat)
    requires
        len > 0,
    ensures
        cursor_advance_iter(n, 0, len) == if n < len { n } else { (len - 1) as nat },
        cursor_advance_iter(n, 0, len) <= len - 1,
{
    lemma_advance_iter_bounded(n, 0, len);
}

/// A backward step from the start is a no-op, and repeating it changes
/// nothing further.
pub proof fn lemma_retreat_at_start()
    ensures
        cursor_retreat(0) == 0,
        cursor_retreat(cursor_retreat(0)) == cursor_retreat(0),
{
}

/// The review position: an ordered list of files, the cursor into it, and
/// the chronological stack of decisions taken at this position.
#[derive(Debug)]
pub struct AppState {
    pub files: Vec<FileEntry>,
    pub current_index: usize,
    pub decisions_stack: Vec<(usize, Decision)>,
}

impl AppState {
    /// A fresh session over the given files: cursor at the start, no
    /// decisions taken yet.
    pub fn new(files: Vec<FileEntry>) -> (s: AppState)
        ensures
            s.files == files,
            s.current_index == 0,
            s.decisions_stack@ =~= Seq::<(usize, Decision)>::empty(),
    {
        AppState { files, current_index: 0, decisions_stack: Vec::new() }
    }

    /// Moves the cursor one position forward; a no-op at the last index
    /// (and on an empty list). Never fails.
    pub fn next(&mut self)
        ensures
            final(self).current_index == cursor_advance(
                old(self).current_index as nat,
                old(self).files@.len(),
            ),
            final(self).files == old(self).files,
            final(self).decisions_stack == old(self).decisions_stack,
    {
        if self.current_index < self.files.len().saturating_sub(1) {
            self.current_index = self.current_index + 1;
        }
    }

    /// Moves the cursor one position back; a no-op at index 0. Never fails.
    pub fn previous(&mut self)
        ensures
            final(self).current_index == cursor_retreat(old(self).current_index as nat),
            final(self).files == old(self).files,
            final(self).decisions_stack == old(self).decisions_stack,
    {
        if self.current_index > 0 {
            self.current_index = self.current_index - 1;
        }
    }

    /// The file under the cursor, or nothing when the list is empty (or the
    /// cursor is out of range).
    pub fn current_file(&self) -> (r: Option<&FileEntry>)
        ensures
            self.current_index < self.files@.len() ==> (r matches Some(f) && *f
                == self.files@[self.current_index as int]),
            self.current_index >= self.files@.len() ==> r is None,
    {
        if self.current_index < self.files.len() {
            Some(&self.files[self.current_index])
        } else {
            None
        }
    }

    /// Pushes a decision for the file under the cursor onto the local
    /// decision stack.
    pub fn record_decision(&mut self, decision: Decision)
        ensures
            final(self).decisions_stack@ == old(self).decisions_stack@.push(
                (old(self).current_index, decision),
            ),
            final(self).files == old(self).files,
            final(self).current_index == old(self).current_index,
    {
        let idx = self.current_index;
        self.decisions_stack.push((idx, decision));
    }

    /// Pops the most recent decision, or returns nothing when none was
    /// taken. The cursor itself does not move.
    pub fn undo(&mut self) -> (r: Option<(usize, Decision)>)
        ensures
            old(self).decisions_stack@.len() > 0 ==> r == Some(old(self).decisions_stack@.last())
                && final(self).decisions_stack@ == old(self).decisions_stack@.drop_last(),
            old(self).decisions_stack@.len() == 0 ==> r is None && final(self).decisions_stack@
                == old(self).decisions_stack@,
            final(self).files == old(self).files,
            final(self).current_index == old(self).current_index,
    {
        self.decisions_stack.pop()
    }
}

} // verus!
