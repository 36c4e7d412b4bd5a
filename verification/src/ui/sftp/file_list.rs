//! The SFTP file list: remote directory entries, their order, which of
//! them are shown, and the selection.

use vstd::prelude::*;
use vstd::string::*;

use crate::seqs::{lemma_filter_insert_failing, lemma_filter_insert_last, lemma_filter_push};
use crate::text::{chars_of, lemma_text_order_antisymmetric, lemma_text_order_zero, text_compare, text_order, decimal, lowercase_of, owned, push_decimal, str_eq, to_lowercase};

verus! {

broadcast use vstd::seq_lib::group_to_multiset_ensures;

/// A column the list can be ordered by.
#[derive(Debug, Clone, Copy, PartialEq, Eq, Structural)]
pub enum SortColumn {
    Name,
    Size,
    Modified,
    /// The file extension.
    Type,
}

impl SortColumn {
    /// The column's header.
    pub fn title(&self) -> (r: &'static str)
        ensures
            r@ == (match *self {
                SortColumn::Name => "Name"@,
                SortColumn::Size => "Size"@,
                SortColumn::Modified => "Modified"@,
                SortColumn::Type => "Type"@,
            }),
    {
        match self {
            SortColumn::Name => "Name",
            SortColumn::Size => "Size",
            SortColumn::Modified => "Modified",
            SortColumn::Type => "Type",
        }
    }

    /// Every column, in header order.
    pub fn all() -> (r: Vec<SortColumn>)
        ensures
            r@ == seq![SortColumn::Name, SortColumn::Size, SortColumn::Modified, SortColumn::Type],
    {
        let r = vec![SortColumn::Name, SortColumn::Size, SortColumn::Modified, SortColumn::Type];
        proof {
            assert(r@ =~= seq![SortColumn::Name, SortColumn::Size, SortColumn::Modified, SortColumn::Type]);
        }
        r
    }
}

impl Default for SortColumn {
    fn default() -> (r: Self)
        ensures
            r == SortColumn::Name,
    {
        SortColumn::Name
    }
}

/// Ascending or descending.
#[derive(Debug, Clone, Copy, PartialEq, Eq, Structural)]
pub enum SortOrder {
    Ascending,
    Descending,
}

impl SortOrder {
    /// The other order.
    pub fn toggle(&self) -> (r: SortOrder)
        ensures
            r == (match *self {
                SortOrder::Ascending => SortOrder::Descending,
                SortOrder::Descending => SortOrder::Ascending,
            }),
    {
        match self {
            SortOrder::Ascending => SortOrder::Descending,
            SortOrder::Descending => SortOrder::Ascending,
        }
    }

    /// The order's arrow.
    pub fn icon(&self) -> (r: &'static str)
        ensures
            r@ == (match *self {
                SortOrder::Ascending => "▲"@,
                SortOrder::Descending => "▼"@,
            }),
    {
        match self {
            SortOrder::Ascending => "▲",
            SortOrder::Descending => "▼",
        }
    }
}

impl Default for SortOrder {
    fn default() -> (r: Self)
        ensures
            r == SortOrder::Ascending,
    {
        SortOrder::Ascending
    }
}

/// What kind of file an entry is.
#[derive(Debug, Clone, Copy, PartialEq, Eq, Structural)]
pub enum EntryType {
    File,
    Directory,
    Symlink,
    Other,
}

/// An entry of a remote directory.
#[derive(Debug)]
pub struct DirEntry {
    /// The file name.
    pub name: String,
    /// The full remote path.
    pub path: String,
    pub entry_type: EntryType,
    /// Size in bytes.
    pub size: u64,
    /// Modification time, in seconds since the Unix epoch, when known.
    pub modified: Option<u64>,
    /// The `rwxr-xr-x` permission string, when known.
    pub permissions: Option<String>,
}

/// The index of the last `.` of `s`, or -1.
pub open spec fn last_dot(s: Seq<char>) -> int
    decreases s.len(),
{
    if s.len() == 0 {
        -1
    } else if s.last() == '.' {
        s.len() - 1
    } else {
        last_dot(s.drop_last())
    }
}

/// The extension of a file name, as `Path::extension` gives it: what
/// follows the last `.`, when that `.` is not the name's first character.
pub open spec fn extension_of(name: Seq<char>) -> Option<Seq<char>> {
    let d = last_dot(name);
    if d <= 0 {
        None
    } else {
        Some(name.subrange(d + 1, name.len() as int))
    }
}

/// Whether a file name is hidden: it starts with a `.`.
pub open spec fn hidden_name(name: Seq<char>) -> bool {
    name.len() > 0 && name[0] == '.'
}

impl DirEntry {
    /// An entry with no size, time or permissions.
    pub fn new(name: &str, path: &str, entry_type: EntryType) -> (r: DirEntry)
        ensures
            r.name@ == name@,
            r.path@ == path@,
            r.entry_type == entry_type,
            r.size == 0,
            r.modified is None,
            r.permissions is None,
    {
        DirEntry {
            name: owned(name),
            path: owned(path),
            entry_type,
            size: 0,
            modified: None,
            permissions: None,
        }
    }

    /// Whether the entry is a directory.
    pub fn is_dir(&self) -> (r: bool)
        ensures
            r == (self.entry_type == EntryType::Directory),
    {
        self.entry_type == EntryType::Directory
    }

    /// Whether the entry is hidden.
    pub fn is_hidden(&self) -> (r: bool)
        ensures
            r == hidden_name(self.name@),
    {
        let n = self.name.as_str().unicode_len();
        n > 0 && self.name.as_str().get_char(0) == '.'
    }

    /// The extension of the file name.
    pub fn extension(&self) -> (r: Option<&str>)
        ensures
            match r {
                Some(e) => extension_of(self.name@) == Some(e@),
                None => extension_of(self.name@) is None,
            },
    {
        let name = self.name.as_str();
        let cs = chars_of(name);
        let n = cs.len();
        let mut i: usize = n;
        while i > 0 && cs[i - 1] != '.'
            invariant
                cs@ == name@,
                n == cs@.len(),
                0 <= i <= n,
                forall|k: int| i <= k < n ==> cs@[k] != '.',
            decreases i,
        {
            i = i - 1;
        }
        proof {
            lemma_last_dot(name@, i as int);
        }
        if i <= 1 {
            None
        } else {
            Some(name.substring_char(i, n))
        }
    }
}

proof fn lemma_last_dot(s: Seq<char>, i: int)
    requires
        0 <= i <= s.len(),
        forall|k: int| i <= k < s.len() ==> s[k] != '.',
        i == 0 || s[i - 1] == '.',
    ensures
        last_dot(s) == i - 1,
    decreases s.len(),
{
    if s.len() > i {
        lemma_last_dot(s.drop_last(), i);
    }
}

impl Clone for DirEntry {
    fn clone(&self) -> (r: Self)
        ensures
            r == *self,
    {
        DirEntry {
            name: self.name.clone(),
            path: self.path.clone(),
            entry_type: self.entry_type,
            size: self.size,
            modified: self.modified,
            permissions: crate::entities::clone_opt_string(&self.permissions),
        }
    }
}

/// Comparison of two numbers: -1, 0 or 1.
pub open spec fn num_order(a: int, b: int) -> int {
    if a < b {
        -1
    } else if a > b {
        1
    } else {
        0
    }
}

/// Comparison of two optional times, an unknown time first: -1, 0 or 1.
pub open spec fn time_order(a: Option<u64>, b: Option<u64>) -> int {
    match (a, b) {
        (None, None) => 0,
        (None, Some(_)) => -1,
        (Some(_), None) => 1,
        (Some(x), Some(y)) => num_order(x as int, y as int),
    }
}

/// The extension that ordering by type uses: the entry's, or empty.
pub open spec fn type_key(e: DirEntry) -> Seq<char> {
    match extension_of(e.name@) {
        Some(x) => x,
        None => Seq::<char>::empty(),
    }
}

/// How the list orders `a` against `b`: directories before everything
/// else in either order; otherwise by the column (names and extensions
/// compared in lowercase), reversed for descending order. -1, 0 or 1.
pub open spec fn entry_order(a: DirEntry, b: DirEntry, column: SortColumn, order: SortOrder) -> int {
    let a_dir = a.entry_type == EntryType::Directory;
    let b_dir = b.entry_type == EntryType::Directory;
    if a_dir && !b_dir {
        -1
    } else if !a_dir && b_dir {
        1
    } else {
        let c = match column {
            SortColumn::Name => text_order(lowercase_of(a.name@), lowercase_of(b.name@)),
            SortColumn::Size => num_order(a.size as int, b.size as int),
            SortColumn::Modified => time_order(a.modified, b.modified),
            SortColumn::Type => text_order(lowercase_of(type_key(a)), lowercase_of(type_key(b))),
        };
        match order {
            SortOrder::Ascending => c,
            SortOrder::Descending => -c,
        }
    }
}

proof fn lemma_entry_order_antisymmetric(a: DirEntry, b: DirEntry, column: SortColumn, order: SortOrder)
    ensures
        entry_order(a, b, column, order) == -entry_order(b, a, column, order),
{
    lemma_text_order_antisymmetric(lowercase_of(a.name@), lowercase_of(b.name@));
    lemma_text_order_antisymmetric(lowercase_of(type_key(a)), lowercase_of(type_key(b)));
}

/// Whether `a` and `b` have the same place in the order by `column`: both
/// directories or neither, and the same key of the column.
pub open spec fn same_key(a: DirEntry, b: DirEntry, column: SortColumn) -> bool {
    &&& (a.entry_type == EntryType::Directory) == (b.entry_type == EntryType::Directory)
    &&& match column {
        SortColumn::Name => lowercase_of(a.name@) == lowercase_of(b.name@),
        SortColumn::Size => a.size == b.size,
        SortColumn::Modified => a.modified == b.modified,
        SortColumn::Type => lowercase_of(type_key(a)) == lowercase_of(type_key(b)),
    }
}

/// The entries of `s` that have the same place as `y` in the order by
/// `column`, in the order of `s`.
pub open spec fn key_class(s: Seq<DirEntry>, y: DirEntry, column: SortColumn) -> Seq<DirEntry> {
    s.filter(|e: DirEntry| same_key(e, y, column))
}

proof fn lemma_entry_order_zero(a: DirEntry, b: DirEntry, column: SortColumn, order: SortOrder)
    ensures
        (entry_order(a, b, column, order) == 0) == same_key(a, b, column),
{
    lemma_text_order_zero(lowercase_of(a.name@), lowercase_of(b.name@));
    lemma_text_order_zero(lowercase_of(type_key(a)), lowercase_of(type_key(b)));
}

/// Whether no entry of `s` comes before the one ahead of it.
pub open spec fn sorted_by(s: Seq<DirEntry>, column: SortColumn, order: SortOrder) -> bool {
    forall|i: int| 0 <= i < s.len() - 1 ==> entry_order(#[trigger] s[i + 1], s[i], column, order) >= 0
}

fn lowercase_type_key(e: &DirEntry) -> (r: String)
    ensures
        r@ == lowercase_of(type_key(*e)),
{
    match e.extension() {
        Some(x) => {
            let r = to_lowercase(x);
            proof {
                assert(type_key(*e) == x@);
            }
            r
        },
        None => {
            proof {
                reveal_strlit("");
                assert(""@ =~= Seq::<char>::empty());
                assert(type_key(*e) == Seq::<char>::empty());
            }
            to_lowercase("")
        },
    }
}

fn compare_entries(a: &DirEntry, b: &DirEntry, column: SortColumn, order: SortOrder) -> (r: i8)
    ensures
        r == entry_order(*a, *b, column, order),
{
    let a_dir = a.is_dir();
    let b_dir = b.is_dir();
    if a_dir && !b_dir {
        return -1;
    }
    if !a_dir && b_dir {
        return 1;
    }
    let c: i8 = match column {
        SortColumn::Name => {
            let x = to_lowercase(a.name.as_str());
            let y = to_lowercase(b.name.as_str());
            text_compare(x.as_str(), y.as_str())
        },
        SortColumn::Size => if a.size < b.size {
            -1
        } else if a.size > b.size {
            1
        } else {
            0
        },
        SortColumn::Modified => match (a.modified, b.modified) {
            (None, None) => 0,
            (None, Some(_)) => -1,
            (Some(_), None) => 1,
            (Some(x), Some(y)) => if x < y {
                -1
            } else if x > y {
                1
            } else {
                0
            },
        },
        SortColumn::Type => {
            let x = lowercase_type_key(a);
            let y = lowercase_type_key(b);
            text_compare(x.as_str(), y.as_str())
        },
    };
    proof {
        lemma_text_order_antisymmetric(lowercase_of(a.name@), lowercase_of(b.name@));
        lemma_text_order_antisymmetric(lowercase_of(type_key(*a)), lowercase_of(type_key(*b)));
    }
    match order {
        SortOrder::Ascending => c,
        SortOrder::Descending => -c,
    }
}

/// The entries of `entries` in list order: a stable insertion of each
/// entry after those it does not come before, so that entries with the
/// same place keep their order.
pub fn sort_dir_entries(entries: Vec<DirEntry>, column: SortColumn, order: SortOrder) -> (r: Vec<DirEntry>)
    ensures
        r@.to_multiset() == entries@.to_multiset(),
        sorted_by(r@, column, order),
        forall|y: DirEntry| #[trigger] key_class(r@, y, column) == key_class(entries@, y, column),
{
    let ghost original = entries@;
    let mut input = entries;
    let mut out: Vec<DirEntry> = Vec::new();
    proof {
        assert forall|y: DirEntry| #[trigger] key_class(out@, y, column) == key_class(original.take(0), y, column) by {
            assert(out@ =~= original.take(0));
        }
    }
    while input.len() > 0
        invariant
            out@.to_multiset().add(input@.to_multiset()) == original.to_multiset(),
            sorted_by(out@, column, order),
            input@.len() <= original.len(),
            input@ == original.skip(original.len() - input@.len()),
            forall|y: DirEntry| #[trigger] key_class(out@, y, column) == key_class(
                original.take(original.len() - input@.len()),
                y,
                column,
            ),
        decreases input@.len(),
    {
        let ghost before_in = input@;
        let ghost n = original.len() - input@.len();
        let ghost before_class = out@;
        let x = input.remove(0);
        proof {
            assert(x == original[n]);
            assert(input@ =~= original.skip(n + 1));
            assert(original.take(n + 1) =~= original.take(n).push(x));
        }
        proof {
            vstd::seq_lib::to_multiset_remove(before_in, 0);
        }
        let mut p: usize = out.len();
        while p > 0 && compare_entries(&x, &out[p - 1], column, order) < 0
            invariant
                0 <= p <= out@.len(),
                forall|k: int| p <= k < out@.len() ==> entry_order(x, #[trigger] out@[k], column, order) < 0,
            decreases p,
        {
            p = p - 1;
        }
        let ghost before_out = out@;
        out.insert(p, x);
        proof {
            assert forall|y: DirEntry| #[trigger] key_class(out@, y, column) == key_class(
                original.take(n + 1),
                y,
                column,
            ) by {
                let f = |e: DirEntry| same_key(e, y, column);
                assert(key_class(before_out, y, column) == key_class(original.take(n), y, column));
                lemma_filter_push(original.take(n), f, x);
                assert(out@ == before_out.insert(p as int, x));
                if same_key(x, y, column) {
                    assert forall|k: int| p <= k < before_out.len() implies !f(#[trigger] before_out[k]) by {
                        lemma_entry_order_zero(x, before_out[k], column, order);
                    }
                    lemma_filter_insert_last(before_out, p as int, x, f);
                } else {
                    lemma_filter_insert_failing(before_out, p as int, x, f);
                }
            }
            vstd::seq_lib::to_multiset_insert(before_out, p as int, x);
            assert forall|i: int| 0 <= i < out@.len() - 1 implies entry_order(#[trigger] out@[i + 1], out@[i], column, order) >= 0 by {
                if i + 1 < p {
                    assert(out@[i] == before_out[i]);
                    assert(out@[i + 1] == before_out[i + 1]);
                } else if i + 1 == p {
                    assert(out@[i] == before_out[i]);
                    assert(out@[i + 1] == x);
                    assert(entry_order(x, before_out[i], column, order) >= 0);
                } else if i == p {
                    assert(out@[i] == x);
                    assert(out@[i + 1] == before_out[i]);
                    assert(entry_order(x, before_out[i], column, order) < 0);
                    lemma_entry_order_antisymmetric(x, before_out[p as int], column, order);
                } else {
                    assert(out@[i] == before_out[i - 1]);
                    assert(out@[i + 1] == before_out[i]);
                    assert(entry_order(before_out[(i - 1) + 1], before_out[i - 1], column, order) >= 0);
                }
            }
            assert(out@.to_multiset().add(input@.to_multiset()) =~= original.to_multiset());
        }
    }
    proof {
        assert(input@.to_multiset() =~= vstd::multiset::Multiset::<DirEntry>::empty());
        assert(out@.to_multiset() =~= original.to_multiset());
        assert(original.take(original.len() as int) =~= original);
    }
    out
}

/// The icon of a file whose lowercase extension is `ext`.
pub open spec fn extension_icon(ext: Seq<char>) -> Seq<char> {
    if ext == "txt"@ || ext == "md"@ || ext == "log"@ {
        "📄"@
    } else if ext == "rs"@ || ext == "py"@ || ext == "js"@ || ext == "ts"@ || ext == "c"@ || ext == "cpp"@ || ext == "h"@ || ext == "java"@ || ext == "go"@ {
        "📜"@
    } else if ext == "jpg"@ || ext == "jpeg"@ || ext == "png"@ || ext == "gif"@ || ext == "bmp"@ || ext == "svg"@ || ext == "webp"@ {
        "🖼"@
    } else if ext == "mp3"@ || ext == "wav"@ || ext == "flac"@ || ext == "ogg"@ || ext == "m4a"@ {
        "🎵"@
    } else if ext == "mp4"@ || ext == "avi"@ || ext == "mkv"@ || ext == "mov"@ || ext == "webm"@ {
        "🎬"@
    } else if ext == "zip"@ || ext == "tar"@ || ext == "gz"@ || ext == "bz2"@ || ext == "xz"@ || ext == "7z"@ || ext == "rar"@ {
        "📦"@
    } else if ext == "pdf"@ {
        "📕"@
    } else if ext == "doc"@ || ext == "docx"@ || ext == "odt"@ {
        "📘"@
    } else if ext == "xls"@ || ext == "xlsx"@ || ext == "ods"@ {
        "📗"@
    } else if ext == "ppt"@ || ext == "pptx"@ || ext == "odp"@ {
        "📙"@
    } else if ext == "exe"@ || ext == "app"@ || ext == "dmg"@ || ext == "deb"@ || ext == "rpm"@ {
        "⚙️"@
    } else if ext == "sh"@ || ext == "bash"@ || ext == "zsh"@ || ext == "fish"@ {
        "🐚"@
    } else if ext == "json"@ || ext == "yaml"@ || ext == "yml"@ || ext == "toml"@ || ext == "xml"@ || ext == "ini"@ || ext == "conf"@ {
        "⚙️"@
    } else if ext == "html"@ || ext == "htm"@ || ext == "css"@ || ext == "scss"@ || ext == "sass"@ {
        "🌐"@
    } else if ext == "sql"@ || ext == "db"@ || ext == "sqlite"@ {
        "🗃"@
    } else if ext == "key"@ || ext == "pem"@ || ext == "crt"@ || ext == "cer"@ {
        "🔑"@
    } else {
        "📄"@
    }
}

fn icon_for_extension(ext: &str) -> (r: &'static str)
    ensures
        r@ == extension_icon(ext@),
{
    if str_eq(ext, "txt") || str_eq(ext, "md") || str_eq(ext, "log") {
        "📄"
    } else if str_eq(ext, "rs") || str_eq(ext, "py") || str_eq(ext, "js") || str_eq(ext, "ts") || str_eq(ext, "c") || str_eq(ext, "cpp") || str_eq(ext, "h") || str_eq(ext, "java") || str_eq(ext, "go") {
        "📜"
    } else if str_eq(ext, "jpg") || str_eq(ext, "jpeg") || str_eq(ext, "png") || str_eq(ext, "gif") || str_eq(ext, "bmp") || str_eq(ext, "svg") || str_eq(ext, "webp") {
        "🖼"
    } else if str_eq(ext, "mp3") || str_eq(ext, "wav") || str_eq(ext, "flac") || str_eq(ext, "ogg") || str_eq(ext, "m4a") {
        "🎵"
    } else if str_eq(ext, "mp4") || str_eq(ext, "avi") || str_eq(ext, "mkv") || str_eq(ext, "mov") || str_eq(ext, "webm") {
        "🎬"
    } else if str_eq(ext, "zip") || str_eq(ext, "tar") || str_eq(ext, "gz") || str_eq(ext, "bz2") || str_eq(ext, "xz") || str_eq(ext, "7z") || str_eq(ext, "rar") {
        "📦"
    } else if str_eq(ext, "pdf") {
        "📕"
    } else if str_eq(ext, "doc") || str_eq(ext, "docx") || str_eq(ext, "odt") {
        "📘"
    } else if str_eq(ext, "xls") || str_eq(ext, "xlsx") || str_eq(ext, "ods") {
        "📗"
    } else if str_eq(ext, "ppt") || str_eq(ext, "pptx") || str_eq(ext, "odp") {
        "📙"
    } else if str_eq(ext, "exe") || str_eq(ext, "app") || str_eq(ext, "dmg") || str_eq(ext, "deb") || str_eq(ext, "rpm") {
        "⚙️"
    } else if str_eq(ext, "sh") || str_eq(ext, "bash") || str_eq(ext, "zsh") || str_eq(ext, "fish") {
        "🐚"
    } else if str_eq(ext, "json") || str_eq(ext, "yaml") || str_eq(ext, "yml") || str_eq(ext, "toml") || str_eq(ext, "xml") || str_eq(ext, "ini") || str_eq(ext, "conf") {
        "⚙️"
    } else if str_eq(ext, "html") || str_eq(ext, "htm") || str_eq(ext, "css") || str_eq(ext, "scss") || str_eq(ext, "sass") {
        "🌐"
    } else if str_eq(ext, "sql") || str_eq(ext, "db") || str_eq(ext, "sqlite") {
        "🗃"
    } else if str_eq(ext, "key") || str_eq(ext, "pem") || str_eq(ext, "crt") || str_eq(ext, "cer") {
        "🔑"
    } else {
        "📄"
    }
}

/// The icon of an entry: by kind, and for a file by its extension in
/// lowercase (a file without extension gets the plain file icon).
pub open spec fn entry_icon(e: DirEntry) -> Seq<char> {
    match e.entry_type {
        EntryType::Directory => "📁"@,
        EntryType::Symlink => "🔗"@,
        EntryType::Other => "❓"@,
        EntryType::File => match extension_of(e.name@) {
            Some(x) => extension_icon(lowercase_of(x)),
            None => "📄"@,
        },
    }
}

/// The icon of an entry.
pub fn get_file_icon(entry: &DirEntry) -> (r: &'static str)
    ensures
        r@ == entry_icon(*entry),
{
    match entry.entry_type {
        EntryType::Directory => "📁",
        EntryType::Symlink => "🔗",
        EntryType::Other => "❓",
        EntryType::File => match entry.extension() {
            Some(x) => {
                let lower = to_lowercase(x);
                icon_for_extension(lower.as_str())
            },
            None => "📄",
        },
    }
}

/// Ordered by modification time, between two entries of the same kind
/// (both directories or neither): a known earlier time comes first in
/// ascending order and last in descending order, an unknown time comes
/// before a known one in ascending order, and equal times tie.
pub proof fn law_modified_order(a: DirEntry, b: DirEntry)
    requires
        (a.entry_type == EntryType::Directory) == (b.entry_type == EntryType::Directory),
    ensures
        (a.modified matches Some(x) && b.modified matches Some(y) && x < y) ==> entry_order(
            a,
            b,
            SortColumn::Modified,
            SortOrder::Ascending,
        ) < 0 && entry_order(a, b, SortColumn::Modified, SortOrder::Descending) > 0,
        (a.modified is None && b.modified is Some) ==> entry_order(a, b, SortColumn::Modified, SortOrder::Ascending)
            < 0,
        a.modified == b.modified ==> entry_order(a, b, SortColumn::Modified, SortOrder::Ascending) == 0,
{
}

/// Ordered by size, between two entries of the same kind: the smaller one
/// comes first in ascending order and last in descending order, and equal
/// sizes tie.
pub proof fn law_size_order(a: DirEntry, b: DirEntry)
    requires
        (a.entry_type == EntryType::Directory) == (b.entry_type == EntryType::Directory),
    ensures
        a.size < b.size ==> entry_order(a, b, SortColumn::Size, SortOrder::Ascending) < 0 && entry_order(
            a,
            b,
            SortColumn::Size,
            SortOrder::Descending,
        ) > 0,
        a.size == b.size ==> entry_order(a, b, SortColumn::Size, SortOrder::Ascending) == 0,
{
}

/// In a list ordered by ascending modification time, of two neighbouring
/// entries of the same kind whose times are known, the first is not the
/// later one; ordered by ascending size, the first is not the larger one.
pub proof fn law_sorted_neighbours(s: Seq<DirEntry>, i: int)
    requires
        0 <= i < s.len() - 1,
        (s[i].entry_type == EntryType::Directory) == (s[i + 1].entry_type == EntryType::Directory),
    ensures
        sorted_by(s, SortColumn::Modified, SortOrder::Ascending) ==> match (s[i].modified, s[i + 1].modified) {
            (Some(x), Some(y)) => x <= y,
            _ => true,
        },
        sorted_by(s, SortColumn::Size, SortOrder::Ascending) ==> s[i].size <= s[i + 1].size,
{
    if sorted_by(s, SortColumn::Modified, SortOrder::Ascending) {
        assert(entry_order(s[i + 1], s[i], SortColumn::Modified, SortOrder::Ascending) >= 0);
    }
    if sorted_by(s, SortColumn::Size, SortOrder::Ascending) {
        assert(entry_order(s[i + 1], s[i], SortColumn::Size, SortOrder::Ascending) >= 0);
    }
}

/// In a list in order, directories come before everything else, in
/// either order and by any column.
pub proof fn law_directories_first(s: Seq<DirEntry>, column: SortColumn, order: SortOrder)
    requires
        sorted_by(s, column, order),
    ensures
        forall|i: int, j: int|
            0 <= i < j < s.len() && (#[trigger] s[j]).entry_type == EntryType::Directory ==> (
            #[trigger] s[i]).entry_type == EntryType::Directory,
{
    assert forall|i: int, j: int|
        0 <= i < j < s.len() && (#[trigger] s[j]).entry_type == EntryType::Directory implies (
        #[trigger] s[i]).entry_type == EntryType::Directory by {
        lemma_directory_run(s, column, order, i, j);
    }
}

proof fn lemma_directory_run(s: Seq<DirEntry>, column: SortColumn, order: SortOrder, i: int, j: int)
    requires
        sorted_by(s, column, order),
        0 <= i < j < s.len(),
        s[j].entry_type == EntryType::Directory,
    ensures
        s[i].entry_type == EntryType::Directory,
    decreases j - i,
{
    assert(entry_order(s[(j - 1) + 1], s[j - 1], column, order) >= 0);
    if i < j - 1 {
        lemma_directory_run(s, column, order, i, j - 1);
    }
}

/// What the file list asks of the SFTP view.
#[derive(Debug)]
pub enum FileListEvent {
    /// An entry was clicked: its path.
    Selected(String),
    /// An entry was double-clicked: its path.
    Opened(String),
    /// The multiple selection changed: the selected paths.
    MultiSelected(Vec<String>),
    /// A context menu was asked for at a position, in pixels.
    ContextMenu { path: String, position: (i32, i32) },
    SortChanged { column: SortColumn, order: SortOrder },
    /// Local files were dropped on the list.
    UploadRequested(Vec<String>),
}

/// The entries the list shows: all of them, or those that are not hidden.
pub open spec fn visible(entries: Seq<DirEntry>, show_hidden: bool) -> Seq<DirEntry> {
    if show_hidden {
        entries
    } else {
        entries.filter(|e: DirEntry| !hidden_name(e.name@))
    }
}

/// The entries of `vis` at the indices `idx` that fall inside it, in the
/// order of `idx`.
pub open spec fn entries_at(idx: Seq<usize>, vis: Seq<DirEntry>) -> Seq<DirEntry>
    decreases idx.len(),
{
    if idx.len() == 0 {
        Seq::<DirEntry>::empty()
    } else {
        entries_at(idx.drop_last(), vis) + if idx.last() < vis.len() {
            seq![vis[idx.last() as int]]
        } else {
            Seq::<DirEntry>::empty()
        }
    }
}

/// The time within which a second click on the same row opens it, in
/// milliseconds.
pub const DOUBLE_CLICK_MS: u64 = 500;

/// The file list's state.
pub struct FileListView {
    entries: Vec<DirEntry>,
    selected_index: Option<usize>,
    multi_selected: Vec<usize>,
    multi_select_mode: bool,
    sort_column: SortColumn,
    sort_order: SortOrder,
    show_hidden: bool,
    last_click_ms: u64,
    last_click_index: Option<usize>,
    loading: bool,
    error_message: Option<String>,
    events: Vec<FileListEvent>,
}

impl FileListView {
    /// The entries, in list order.
    pub closed spec fn entries_spec(&self) -> Seq<DirEntry> {
        self.entries@
    }

    /// The entries shown.
    pub open spec fn visible_spec(&self) -> Seq<DirEntry> {
        visible(self.entries_spec(), self.show_hidden_spec())
    }

    /// The selected row.
    pub closed spec fn selected_spec(&self) -> Option<usize> {
        self.selected_index
    }

    /// The rows of the multiple selection, in the order they were picked.
    pub closed spec fn multi_spec(&self) -> Seq<usize> {
        self.multi_selected@
    }

    /// Whether clicks build a multiple selection.
    pub closed spec fn multi_mode_spec(&self) -> bool {
        self.multi_select_mode
    }

    /// The order of the list.
    pub closed spec fn sort_spec(&self) -> (SortColumn, SortOrder) {
        (self.sort_column, self.sort_order)
    }

    /// Whether hidden entries are shown.
    pub closed spec fn show_hidden_spec(&self) -> bool {
        self.show_hidden
    }

    /// The last click: its row and time.
    pub closed spec fn last_click_spec(&self) -> (Option<usize>, u64) {
        (self.last_click_index, self.last_click_ms)
    }

    /// Whether a listing is being loaded.
    pub closed spec fn loading_spec(&self) -> bool {
        self.loading
    }

    /// The error shown in place of the entries.
    pub closed spec fn error_spec(&self) -> Option<String> {
        self.error_message
    }

    /// The events not yet handed out, oldest first.
    pub closed spec fn events_spec(&self) -> Seq<FileListEvent> {
        self.events@
    }

    /// Well-formedness: the entries are in list order and no row is picked
    /// twice.
    pub closed spec fn wf(&self) -> bool {
        &&& sorted_by(self.entries@, self.sort_column, self.sort_order)
        &&& self.multi_selected@.no_duplicates()
    }

    /// An empty list, ordered by ascending name.
    pub fn new() -> (r: FileListView)
        ensures
            r.wf(),
            r.entries_spec().len() == 0,
            r.selected_spec() is None,
            r.multi_spec().len() == 0,
            !r.multi_mode_spec(),
            r.sort_spec() == (SortColumn::Name, SortOrder::Ascending),
            !r.show_hidden_spec(),
            r.last_click_spec() == (None::<usize>, 0u64),
            !r.loading_spec(),
            r.error_spec() is None,
            r.events_spec().len() == 0,
    {
        FileListView {
            entries: Vec::new(),
            selected_index: None,
            multi_selected: Vec::new(),
            multi_select_mode: false,
            sort_column: SortColumn::Name,
            sort_order: SortOrder::Ascending,
            show_hidden: false,
            last_click_ms: 0,
            last_click_index: None,
            loading: false,
            error_message: None,
            events: Vec::new(),
        }
    }

    /// Shows a new listing, in list order, with nothing selected, no
    /// loading and no error.
    pub fn set_entries(&mut self, entries: Vec<DirEntry>)
        requires
            old(self).wf(),
        ensures
            final(self).wf(),
            final(self).entries_spec().to_multiset() == entries@.to_multiset(),
            final(self).selected_spec() is None,
            final(self).multi_spec().len() == 0,
            !final(self).loading_spec(),
            final(self).error_spec() is None,
            final(self).sort_spec() == old(self).sort_spec(),
            final(self).show_hidden_spec() == old(self).show_hidden_spec(),
            final(self).multi_mode_spec() == old(self).multi_mode_spec(),
            final(self).events_spec() == old(self).events_spec(),
    {
        self.entries = sort_dir_entries(entries, self.sort_column, self.sort_order);
        self.selected_index = None;
        self.multi_selected = Vec::new();
        self.loading = false;
        self.error_message = None;
    }

    /// Marks a listing as loading (which clears the error) or not.
    pub fn set_loading(&mut self, loading: bool)
        requires
            old(self).wf(),
        ensures
            final(self).wf(),
            final(self).loading_spec() == loading,
            final(self).error_spec() == (if loading {
                None
            } else {
                old(self).error_spec()
            }),
            final(self).entries_spec() == old(self).entries_spec(),
            final(self).selected_spec() == old(self).selected_spec(),
            final(self).multi_spec() == old(self).multi_spec(),
            final(self).events_spec() == old(self).events_spec(),
    {
        self.loading = loading;
        if loading {
            self.error_message = None;
        }
    }

    /// Shows `error` (or clears it); loading stops.
    pub fn set_error(&mut self, error: Option<String>)
        requires
            old(self).wf(),
        ensures
            final(self).wf(),
            final(self).error_spec() == error,
            !final(self).loading_spec(),
            final(self).entries_spec() == old(self).entries_spec(),
            final(self).selected_spec() == old(self).selected_spec(),
            final(self).multi_spec() == old(self).multi_spec(),
            final(self).events_spec() == old(self).events_spec(),
    {
        self.error_message = error;
        self.loading = false;
    }

    /// Shows or hides hidden entries; the selection is cleared.
    pub fn set_show_hidden(&mut self, show: bool)
        requires
            old(self).wf(),
        ensures
            final(self).wf(),
            final(self).show_hidden_spec() == show,
            final(self).selected_spec() is None,
            final(self).multi_spec().len() == 0,
            final(self).entries_spec() == old(self).entries_spec(),
            final(self).sort_spec() == old(self).sort_spec(),
            final(self).events_spec() == old(self).events_spec(),
    {
        self.show_hidden = show;
        self.selected_index = None;
        self.multi_selected = Vec::new();
    }

    fn resort(&mut self)
        requires
            old(self).multi_selected@.no_duplicates(),
        ensures
            final(self).wf(),
            final(self).entries@.to_multiset() == old(self).entries@.to_multiset(),
            final(self).sort_column == old(self).sort_column,
            final(self).sort_order == old(self).sort_order,
            final(self).selected_index == old(self).selected_index,
            final(self).multi_selected == old(self).multi_selected,
            final(self).multi_select_mode == old(self).multi_select_mode,
            final(self).show_hidden == old(self).show_hidden,
            final(self).last_click_index == old(self).last_click_index,
            final(self).last_click_ms == old(self).last_click_ms,
            final(self).loading == old(self).loading,
            final(self).error_message == old(self).error_message,
            final(self).events == old(self).events,
    {
        let mut taken: Vec<DirEntry> = Vec::new();
        std::mem::swap(&mut taken, &mut self.entries);
        self.entries = sort_dir_entries(taken, self.sort_column, self.sort_order);
    }

    /// Orders the list by `column` in `order`, and reports it.
    pub fn set_sort(&mut self, column: SortColumn, order: SortOrder)
        requires
            old(self).wf(),
        ensures
            final(self).wf(),
            final(self).sort_spec() == (column, order),
            final(self).entries_spec().to_multiset() == old(self).entries_spec().to_multiset(),
            final(self).selected_spec() == old(self).selected_spec(),
            final(self).multi_spec() == old(self).multi_spec(),
            final(self).show_hidden_spec() == old(self).show_hidden_spec(),
            final(self).events_spec() == old(self).events_spec().push(
                FileListEvent::SortChanged { column, order },
            ),
    {
        self.sort_column = column;
        self.sort_order = order;
        self.resort();
        self.events.push(FileListEvent::SortChanged { column, order });
    }

    /// Orders by `column`: flips the order when it is the current column,
    /// else ascending; and reports the new order.
    pub fn toggle_sort_column(&mut self, column: SortColumn)
        requires
            old(self).wf(),
        ensures
            final(self).wf(),
            final(self).sort_spec() == (if old(self).sort_spec().0 == column {
                (column, old(self).sort_spec().1.toggle_spec())
            } else {
                (column, SortOrder::Ascending)
            }),
            final(self).entries_spec().to_multiset() == old(self).entries_spec().to_multiset(),
            final(self).selected_spec() == old(self).selected_spec(),
            final(self).multi_spec() == old(self).multi_spec(),
            final(self).events_spec() == old(self).events_spec().push(
                FileListEvent::SortChanged { column: final(self).sort_spec().0, order: final(self).sort_spec().1 },
            ),
    {
        if self.sort_column == column {
            self.sort_order = self.sort_order.toggle();
        } else {
            self.sort_column = column;
            self.sort_order = SortOrder::Ascending;
        }
        self.resort();
        self.events.push(FileListEvent::SortChanged { column: self.sort_column, order: self.sort_order });
    }

    /// Turns the multiple selection on or off (off forgets it).
    pub fn set_multi_select_mode(&mut self, enabled: bool)
        requires
            old(self).wf(),
        ensures
            final(self).wf(),
            final(self).multi_mode_spec() == enabled,
            final(self).multi_spec() == (if enabled {
                old(self).multi_spec()
            } else {
                Seq::<usize>::empty()
            }),
            final(self).entries_spec() == old(self).entries_spec(),
            final(self).selected_spec() == old(self).selected_spec(),
            final(self).events_spec() == old(self).events_spec(),
    {
        self.multi_select_mode = enabled;
        if !enabled {
            self.multi_selected = Vec::new();
        }
    }

    /// The entries shown, in list order.
    pub fn visible_entries(&self) -> (r: Vec<&DirEntry>)
        ensures
            r@.len() == self.visible_spec().len(),
            forall|i: int| 0 <= i < r@.len() ==> *#[trigger] r@[i] == self.visible_spec()[i],
    {
        let ghost p = |e: DirEntry| !hidden_name(e.name@);
        let mut r: Vec<&DirEntry> = Vec::new();
        let ghost mut acc: Seq<DirEntry> = Seq::empty();
        let mut i: usize = 0;
        while i < self.entries.len()
            invariant
                0 <= i <= self.entries@.len(),
                p == (|e: DirEntry| !hidden_name(e.name@)),
                acc == (if self.show_hidden {
                    self.entries@.subrange(0, i as int)
                } else {
                    self.entries@.subrange(0, i as int).filter(p)
                }),
                r@.len() == acc.len(),
                forall|k: int| 0 <= k < r@.len() ==> *#[trigger] r@[k] == acc[k],
            decreases self.entries@.len() - i,
        {
            let e = &self.entries[i];
            proof {
                assert(self.entries@.subrange(0, i + 1) =~= self.entries@.subrange(0, i as int).push(*e));
                crate::seqs::lemma_filter_push(self.entries@.subrange(0, i as int), p, *e);
            }
            if self.show_hidden || !e.is_hidden() {
                r.push(e);
                proof {
                    acc = acc.push(*e);
                }
            }
            i = i + 1;
        }
        proof {
            assert(self.entries@.subrange(0, i as int) =~= self.entries@);
        }
        r
    }

    /// The selected entry, if the selected row is shown.
    pub fn selected_entry(&self) -> (r: Option<&DirEntry>)
        ensures
            match self.selected_spec() {
                Some(i) => if i < self.visible_spec().len() {
                    r matches Some(e) && *e == self.visible_spec()[i as int]
                } else {
                    r is None
                },
                None => r is None,
            },
    {
        match self.selected_index {
            Some(i) => {
                let vis = self.visible_entries();
                if i < vis.len() {
                    Some(vis[i])
                } else {
                    None
                }
            },
            None => None,
        }
    }

    /// The selected entries: those of the multiple selection when it is on
    /// and not empty, else the selected entry.
    pub fn selected_entries(&self) -> (r: Vec<&DirEntry>)
        ensures
            ({
                let chosen = if self.multi_mode_spec() && self.multi_spec().len() > 0 {
                    entries_at(self.multi_spec(), self.visible_spec())
                } else {
                    match self.selected_spec() {
                        Some(i) => entries_at(seq![i], self.visible_spec()),
                        None => Seq::<DirEntry>::empty(),
                    }
                };
                &&& r@.len() == chosen.len()
                &&& forall|k: int| 0 <= k < r@.len() ==> *#[trigger] r@[k] == chosen[k]
            }),
    {
        let vis = self.visible_entries();
        let mut r: Vec<&DirEntry> = Vec::new();
        if self.multi_select_mode && self.multi_selected.len() > 0 {
            let mut k: usize = 0;
            while k < self.multi_selected.len()
                invariant
                    0 <= k <= self.multi_selected@.len(),
                    vis@.len() == self.visible_spec().len(),
                    forall|i: int| 0 <= i < vis@.len() ==> *#[trigger] vis@[i] == self.visible_spec()[i],
                    r@.len() == entries_at(self.multi_selected@.subrange(0, k as int), self.visible_spec()).len(),
                    forall|i: int| 0 <= i < r@.len() ==> *#[trigger] r@[i] == entries_at(
                        self.multi_selected@.subrange(0, k as int),
                        self.visible_spec(),
                    )[i],
                decreases self.multi_selected@.len() - k,
            {
                let i = self.multi_selected[k];
                proof {
                    assert(self.multi_selected@.subrange(0, k + 1).drop_last() =~= self.multi_selected@.subrange(0, k as int));
                }
                if i < vis.len() {
                    r.push(vis[i]);
                }
                k = k + 1;
            }
            proof {
                assert(self.multi_selected@.subrange(0, k as int) =~= self.multi_selected@);
            }
        } else {
            match self.selected_index {
                Some(i) => {
                    proof {
                        assert(seq![i].drop_last() =~= Seq::<usize>::empty());
                        assert(seq![i].last() == i);
                        assert(entries_at(Seq::<usize>::empty(), self.visible_spec()) == Seq::<DirEntry>::empty());
                        assert(entries_at(seq![i], self.visible_spec()) =~= (if i < self.visible_spec().len() {
                            seq![self.visible_spec()[i as int]]
                        } else {
                            Seq::<DirEntry>::empty()
                        }));
                    }
                    if i < vis.len() {
                        r.push(vis[i]);
                    }
                },
                None => {},
            }
        }
        r
    }

    /// The status line: the number of entries shown, and of the multiple
    /// selection when it is not empty.
    pub fn status_text(&self) -> (r: String)
        ensures
            r@ == decimal(self.visible_spec().len()) + " items"@ + if self.multi_spec().len() == 0 {
                Seq::<char>::empty()
            } else {
                " ("@ + decimal(self.multi_spec().len()) + " selected)"@
            },
    {
        let vis = self.visible_entries();
        let mut s = String::new();
        push_decimal(&mut s, vis.len() as u64);
        s.append(" items");
        if self.multi_selected.len() > 0 {
            s.append(" (");
            push_decimal(&mut s, self.multi_selected.len() as u64);
            s.append(" selected)");
        }
        s
    }

    /// A click on row `index` at `now_ms`. A second click on the same row
    /// within `DOUBLE_CLICK_MS` opens the row's entry. Otherwise, with the
    /// multiple selection on, the row joins it or leaves it and the
    /// selected paths are reported; with it off, the row is selected and
    /// its entry's path reported. Clicks on rows past the end report
    /// nothing.
    pub fn handle_row_click(&mut self, index: usize, now_ms: u64)
        requires
            old(self).wf(),
        ensures
            final(self).wf(),
            final(self).last_click_spec() == (Some(index), now_ms),
            final(self).entries_spec() == old(self).entries_spec(),
            final(self).show_hidden_spec() == old(self).show_hidden_spec(),
            final(self).multi_mode_spec() == old(self).multi_mode_spec(),
            final(self).sort_spec() == old(self).sort_spec(),
            ({
                let vis = old(self).visible_spec();
                let double = old(self).last_click_spec().0 == Some(index) && (if now_ms
                    >= old(self).last_click_spec().1 {
                    now_ms - old(self).last_click_spec().1
                } else {
                    0
                }) < DOUBLE_CLICK_MS;
                if double {
                    &&& final(self).selected_spec() == old(self).selected_spec()
                    &&& final(self).multi_spec() == old(self).multi_spec()
                    &&& if index < vis.len() {
                        final(self).events_spec().len() == old(self).events_spec().len() + 1
                            && final(self).events_spec().drop_last() == old(self).events_spec()
                            && (final(self).events_spec().last() matches FileListEvent::Opened(p)
                            && p == vis[index as int].path)
                    } else {
                        final(self).events_spec() == old(self).events_spec()
                    }
                } else if old(self).multi_mode_spec() {
                    &&& final(self).selected_spec() == old(self).selected_spec()
                    &&& final(self).multi_spec().to_set() == if old(self).multi_spec().contains(index) {
                        old(self).multi_spec().to_set().remove(index)
                    } else {
                        old(self).multi_spec().to_set().insert(index)
                    }
                    &&& final(self).events_spec().len() == old(self).events_spec().len() + 1
                    &&& final(self).events_spec().drop_last() == old(self).events_spec()
                    &&& final(self).events_spec().last() matches FileListEvent::MultiSelected(ps)
                        && ps@.len() == entries_at(final(self).multi_spec(), vis).len()
                        && forall|k: int| 0 <= k < ps@.len() ==> #[trigger] ps@[k] == entries_at(
                        final(self).multi_spec(),
                        vis,
                    )[k].path
                } else {
                    &&& final(self).selected_spec() == Some(index)
                    &&& final(self).multi_spec() == old(self).multi_spec()
                    &&& if index < vis.len() {
                        final(self).events_spec().len() == old(self).events_spec().len() + 1
                            && final(self).events_spec().drop_last() == old(self).events_spec()
                            && (final(self).events_spec().last() matches FileListEvent::Selected(p)
                            && p == vis[index as int].path)
                    } else {
                        final(self).events_spec() == old(self).events_spec()
                    }
                }
            }),
    {
        let elapsed = now_ms.saturating_sub(self.last_click_ms);
        let is_double = self.last_click_index == Some(index) && elapsed < DOUBLE_CLICK_MS;
        self.last_click_ms = now_ms;
        self.last_click_index = Some(index);
        if is_double {
            let vis = self.visible_entries();
            if index < vis.len() {
                let p = vis[index].path.clone();
                self.events.push(FileListEvent::Opened(p));
            }
        } else if self.multi_select_mode {
            let ghost before = self.multi_selected@;
            let mut pos: usize = 0;
            while pos < self.multi_selected.len() && self.multi_selected[pos] != index
                invariant
                    0 <= pos <= self.multi_selected@.len(),
                    self.multi_selected@ == before,
                    forall|k: int| 0 <= k < pos ==> self.multi_selected@[k] != index,
                decreases self.multi_selected@.len() - pos,
            {
                pos = pos + 1;
            }
            if pos < self.multi_selected.len() {
                self.multi_selected.remove(pos);
                proof {
                    assert(before.contains(index));
                    assert(self.multi_selected@.to_set() =~= before.to_set().remove(index)) by {
                        assert forall|x: usize| #[trigger] self.multi_selected@.to_set().contains(x) <==> before.to_set().remove(index).contains(x) by {
                            if x == index {
                                if self.multi_selected@.contains(x) {
                                    let k = choose|k: int| 0 <= k < self.multi_selected@.len() && self.multi_selected@[k] == x;
                                    if k < pos {
                                        assert(before[k] == x);
                                    } else {
                                        assert(before[k + 1] == x);
                                    }
                                }
                            } else {
                                if before.contains(x) {
                                    let k = choose|k: int| 0 <= k < before.len() && before[k] == x;
                                    if k < pos {
                                        assert(self.multi_selected@[k] == x);
                                    } else {
                                        assert(self.multi_selected@[k - 1] == x);
                                    }
                                }
                                if self.multi_selected@.contains(x) {
                                    let k = choose|k: int| 0 <= k < self.multi_selected@.len() && self.multi_selected@[k] == x;
                                    if k < pos {
                                        assert(before[k] == x);
                                    } else {
                                        assert(before[k + 1] == x);
                                    }
                                }
                            }
                        }
                    }
                }
            } else {
                self.multi_selected.push(index);
                proof {
                    assert(!before.contains(index));
                    assert(self.multi_selected@.to_set() =~= before.to_set().insert(index)) by {
                        assert forall|x: usize| #[trigger] self.multi_selected@.to_set().contains(x) <==> before.to_set().insert(index).contains(x) by {
                            if before.contains(x) {
                                let k = choose|k: int| 0 <= k < before.len() && before[k] == x;
                                assert(self.multi_selected@[k] == x);
                            }
                            if x == index {
                                assert(self.multi_selected@[before.len() as int] == x);
                            }
                            if self.multi_selected@.contains(x) {
                                let k = choose|k: int| 0 <= k < self.multi_selected@.len() && self.multi_selected@[k] == x;
                                if k < before.len() {
                                    assert(before[k] == x);
                                }
                            }
                        }
                    }
                }
            }
            let chosen = self.selected_entries_of_multi();
            let mut paths: Vec<String> = Vec::new();
            let mut k: usize = 0;
            while k < chosen.len()
                invariant
                    0 <= k <= chosen@.len(),
                    paths@.len() == k,
                    forall|j: int| 0 <= j < k ==> #[trigger] paths@[j] == chosen@[j].path,
                decreases chosen@.len() - k,
            {
                paths.push(chosen[k].path.clone());
                k = k + 1;
            }
            self.events.push(FileListEvent::MultiSelected(paths));
        } else {
            self.selected_index = Some(index);
            let vis = self.visible_entries();
            if index < vis.len() {
                let p = vis[index].path.clone();
                self.events.push(FileListEvent::Selected(p));
            }
        }
    }

    fn selected_entries_of_multi(&self) -> (r: Vec<&DirEntry>)
        ensures
            r@.len() == entries_at(self.multi_selected@, self.visible_spec()).len(),
            forall|k: int| 0 <= k < r@.len() ==> *#[trigger] r@[k] == entries_at(self.multi_selected@, self.visible_spec())[k],
    {
        let vis = self.visible_entries();
        let mut r: Vec<&DirEntry> = Vec::new();
        let mut k: usize = 0;
        while k < self.multi_selected.len()
            invariant
                0 <= k <= self.multi_selected@.len(),
                vis@.len() == self.visible_spec().len(),
                forall|i: int| 0 <= i < vis@.len() ==> *#[trigger] vis@[i] == self.visible_spec()[i],
                r@.len() == entries_at(self.multi_selected@.subrange(0, k as int), self.visible_spec()).len(),
                forall|i: int| 0 <= i < r@.len() ==> *#[trigger] r@[i] == entries_at(
                    self.multi_selected@.subrange(0, k as int),
                    self.visible_spec(),
                )[i],
            decreases self.multi_selected@.len() - k,
        {
            let i = self.multi_selected[k];
            proof {
                assert(self.multi_selected@.subrange(0, k + 1).drop_last() =~= self.multi_selected@.subrange(0, k as int));
            }
            if i < vis.len() {
                r.push(vis[i]);
            }
            k = k + 1;
        }
        proof {
            assert(self.multi_selected@.subrange(0, k as int) =~= self.multi_selected@);
        }
        r
    }

    /// A right click on row `index` at `position`: the row is selected,
    /// and a context menu asked for its entry when it is shown.
    pub fn handle_context_menu(&mut self, index: usize, position: (i32, i32))
        requires
            old(self).wf(),
        ensures
            final(self).wf(),
            final(self).selected_spec() == Some(index),
            final(self).entries_spec() == old(self).entries_spec(),
            final(self).show_hidden_spec() == old(self).show_hidden_spec(),
            final(self).multi_spec() == old(self).multi_spec(),
            if index < old(self).visible_spec().len() {
                final(self).events_spec().len() == old(self).events_spec().len() + 1
                    && final(self).events_spec().drop_last() == old(self).events_spec()
                    && (final(self).events_spec().last() matches FileListEvent::ContextMenu { path, position: q }
                    && path == old(self).visible_spec()[index as int].path && q == position)
            } else {
                final(self).events_spec() == old(self).events_spec()
            },
    {
        self.selected_index = Some(index);
        let vis = self.visible_entries();
        if index < vis.len() {
            let p = vis[index].path.clone();
            self.events.push(FileListEvent::ContextMenu { path: p, position });
        }
    }

    /// Hands out the events, oldest first, and forgets them.
    pub fn take_events(&mut self) -> (r: Vec<FileListEvent>)
        requires
            old(self).wf(),
        ensures
            final(self).wf(),
            r@ == old(self).events_spec(),
            final(self).events_spec().len() == 0,
            final(self).entries_spec() == old(self).entries_spec(),
            final(self).selected_spec() == old(self).selected_spec(),
            final(self).multi_spec() == old(self).multi_spec(),
    {
        let mut r: Vec<FileListEvent> = Vec::new();
        std::mem::swap(&mut r, &mut self.events);
        r
    }
}

impl SortOrder {
    /// The other order.
    pub open spec fn toggle_spec(self) -> SortOrder {
        match self {
            SortOrder::Ascending => SortOrder::Descending,
            SortOrder::Descending => SortOrder::Ascending,
        }
    }
}

} // verus!
