//! The SFTP view: the path bar, the file list and the transfer queue
//! together, the remote operations they ask for, and the context menu and
//! dialogs around them. The remote calls themselves are made by the owner,
//! which hands their results back.

use vstd::prelude::*;
use vstd::string::*;

use crate::text::{after_last_slash, contains_seq, last_component, lemma_last_component, owned, str_contains, str_eq};
use crate::ui::sftp::file_list::{DirEntry, FileListEvent, FileListView};
use crate::ui::sftp::path_bar::{PathBar, PathBarEvent};
use crate::ui::sftp::transfer_queue::{
    TransferDirection, TransferProgress, TransferQueueEvent, TransferQueueView, TransferState,
    TransferTaskId,
};

verus! {

/// What the SFTP view tells its owner.
#[derive(Debug)]
pub enum SftpViewEvent {
    CloseRequested,
    FileSelected(String),
    FileOpened(String),
    DownloadRequested { remote_path: String, local_path: Option<String> },
    UploadRequested { local_paths: Vec<String>, remote_dir: String },
    TransferStarted(TransferTaskId),
    TransferCompleted(TransferTaskId),
    TransferFailed { task_id: TransferTaskId, error: String },
    Error(String),
}

/// How the view is laid out.
#[derive(Debug, Clone, Copy, PartialEq, Eq, Structural)]
pub enum SftpViewMode {
    /// Browsing files.
    Browse,
    /// The transfer queue, full size.
    Transfers,
    /// Two directories side by side.
    Split,
}

impl SftpViewMode {
    /// The mode's label.
    pub fn title(&self) -> (r: &'static str)
        ensures
            r@ == (match *self {
                SftpViewMode::Browse => "Browse"@,
                SftpViewMode::Transfers => "Transfers"@,
                SftpViewMode::Split => "Split View"@,
            }),
    {
        match self {
            SftpViewMode::Browse => "Browse",
            SftpViewMode::Transfers => "Transfers",
            SftpViewMode::Split => "Split View",
        }
    }

    /// The mode's icon.
    pub fn icon(&self) -> (r: &'static str)
        ensures
            r@ == (match *self {
                SftpViewMode::Browse => "📁"@,
                SftpViewMode::Transfers => "📦"@,
                SftpViewMode::Split => "⧉"@,
            }),
    {
        match self {
            SftpViewMode::Browse => "📁",
            SftpViewMode::Transfers => "📦",
            SftpViewMode::Split => "⧉",
        }
    }
}

impl Default for SftpViewMode {
    fn default() -> (r: Self)
        ensures
            r == SftpViewMode::Browse,
    {
        SftpViewMode::Browse
    }
}

/// A remote operation, or another piece of outside work, that the view
/// asks its owner to carry out.
#[derive(Debug)]
pub enum SftpRequest {
    /// List a directory; the result goes to `on_directory_loaded`.
    ListDir(String),
    /// Delete a file, or a directory with its contents; the result goes to
    /// `on_delete_result` with the directory shown when it was asked.
    Remove { path: String, is_directory: bool, current_path: String },
    /// Rename; the result goes to `on_rename_result`.
    Rename { old_path: String, new_path: String },
    /// Read an entry's attributes; the result goes to
    /// `on_properties_result`.
    Stat(String),
    /// Put a text on the clipboard.
    CopyToClipboard(String),
    /// Pause a running transfer task.
    PauseTask(TransferTaskId),
    /// Resume a paused transfer task.
    ResumeTask(TransferTaskId),
    /// Cancel a transfer task.
    CancelTask(TransferTaskId),
    /// Start a transfer task, a retry of an earlier one.
    StartTransfer {
        id: TransferTaskId,
        direction: TransferDirection,
        source_path: String,
        dest_path: String,
        total_bytes: u64,
    },
}

/// The context menu of an entry.
#[derive(Debug)]
pub struct ContextMenuState {
    pub path: String,
    pub filename: String,
    /// Whether the path looks like a directory: it ends with `/`, or its
    /// name has no `.`.
    pub is_directory: bool,
    /// Where the menu opens, in pixels.
    pub position: (i32, i32),
}

/// The rename dialog.
#[derive(Debug)]
pub struct RenameDialogState {
    pub old_path: String,
    pub old_name: String,
    /// The name typed so far.
    pub new_name: String,
}

/// The properties dialog.
#[derive(Debug)]
pub struct PropertiesDialogState {
    pub entry: DirEntry,
}

/// The delete confirmation.
#[derive(Debug)]
pub struct DeleteConfirmState {
    pub path: String,
    pub filename: String,
    pub is_directory: bool,
}

/// The home directory of a user.
pub open spec fn home_of(user: Seq<char>) -> Seq<char> {
    "/home/"@ + user
}

/// Whether a path looks like a directory: it ends with `/`, or its last
/// component holds no `.`.
pub open spec fn looks_like_directory(path: Seq<char>) -> bool {
    (path.len() > 0 && path.last() == '/') || !contains_seq(last_component(path), "."@)
}

/// The text before the last `/` of `s`, when `s` has one.
pub open spec fn before_last_slash(s: Seq<char>) -> Option<Seq<char>> {
    let k = s.len() - last_component(s).len() - 1;
    if k < 0 {
        None
    } else {
        Some(s.subrange(0, k))
    }
}

/// The path that renaming `old_path` to `new_name` gives: the new name in
/// the same directory.
pub open spec fn renamed_path(old_path: Seq<char>, new_name: Seq<char>) -> Seq<char> {
    match before_last_slash(old_path) {
        Some(dir) => dir + "/"@ + new_name,
        None => new_name,
    }
}

/// The parent of a path, as `Path::parent` gives it.
pub uninterp spec fn path_parent_of(path: Seq<char>) -> Option<Seq<char>>;

/// `Path::parent`, the path without its last component. Its result is
/// named `path_parent_of` of the path; the rules `Path` follows for
/// separators and `.` components are not stated here.
#[verifier::external_body]
fn path_parent(path: &str) -> (r: Option<String>)
    ensures
        match r {
            Some(p) => path_parent_of(path@) == Some(p@),
            None => path_parent_of(path@) is None,
        },
{
    std::path::Path::new(path).parent().map(|p| p.to_string_lossy().to_string())
}

proof fn lemma_last_component_len(s: Seq<char>)
    ensures
        last_component(s).len() <= s.len(),
        last_component(s) == s.subrange(s.len() - last_component(s).len(), s.len() as int),
        last_component(s).len() < s.len() ==> s[s.len() - last_component(s).len() - 1] == '/',
    decreases s.len(),
{
    if s.len() > 0 && s.last() != '/' {
        lemma_last_component_len(s.drop_last());
        assert(last_component(s) =~= s.subrange(s.len() - last_component(s).len(), s.len() as int));
    } else if s.len() > 0 {
        assert(s.subrange(s.len() as int, s.len() as int) =~= Seq::<char>::empty());
    }
}

fn dir_of(path: &str) -> (r: Option<&str>)
    ensures
        match r {
            Some(d) => before_last_slash(path@) == Some(d@),
            None => before_last_slash(path@) is None,
        },
{
    let name = after_last_slash(path);
    let n = path.unicode_len();
    let k = name.unicode_len();
    proof {
        lemma_last_component_len(path@);
    }
    if k == n {
        None
    } else {
        Some(path.substring_char(0, n - k - 1))
    }
}

fn ends_with_slash(s: &str) -> (r: bool)
    ensures
        r == (s@.len() > 0 && s@.last() == '/'),
{
    let n = s.unicode_len();
    n > 0 && s.get_char(n - 1) == '/'
}

/// Whether `r` asks for nothing, or for the listing of `path`.
pub open spec fn lists(r: Option<SftpRequest>, path: Seq<char>) -> bool {
    match r {
        Some(SftpRequest::ListDir(p)) => p@ == path,
        Some(_) => false,
        None => true,
    }
}

/// What a listing of `path` asked for from the view `old` gives: the
/// listing request exactly when there is a connection and `path` is not
/// already being listed, nothing otherwise.
pub open spec fn listing_asked(old: SftpView, path: Seq<char>, r: Option<SftpRequest>) -> bool {
    &&& lists(r, path)
    &&& (r is Some <==> (old.connected_spec() && !old.loading_paths_spec().contains(path)))
}

/// `new` shows `path`, in the view and the path bar, with the connection
/// of `old`, and `r` is what listing it asked for.
pub open spec fn navigated(old: SftpView, new: SftpView, path: Seq<char>, r: Option<SftpRequest>) -> bool {
    &&& new.current_spec() == path
    &&& new.path_bar_spec().current_spec() == path
    &&& new.connected_spec() == old.connected_spec()
    &&& listing_asked(old, path, r)
}

/// Renaming keeps an entry in its directory: when the new name holds no
/// `/`, the renamed path's last component is the new name, and the text
/// before its last `/` is that of the old path (neither has one when the
/// old path has none).
pub proof fn law_rename_stays_in_directory(old_path: Seq<char>, new_name: Seq<char>)
    requires
        forall|k: int| 0 <= k < new_name.len() ==> new_name[k] != '/',
    ensures
        last_component(renamed_path(old_path, new_name)) == new_name,
        before_last_slash(renamed_path(old_path, new_name)) == before_last_slash(old_path),
{
    reveal_strlit("/");
    let p = renamed_path(old_path, new_name);
    match before_last_slash(old_path) {
        Some(dir) => {
            let j: int = dir.len() as int + 1;
            assert(p[j - 1] == '/');
            assert forall|k: int| j <= k < p.len() implies p[k] != '/' by {
                assert(p[k] == new_name[k - j]);
            }
            lemma_last_component(p, j);
            assert(p.subrange(j, p.len() as int) =~= new_name);
            assert(p.subrange(0, dir.len() as int) =~= dir);
        },
        None => {
            lemma_last_component(new_name, 0);
            assert(new_name.subrange(0, new_name.len() as int) =~= new_name);
        },
    }
}

/// The context menu takes a path for a directory when it ends with `/` or
/// its last component holds no `.` (no extension), and for a file when its
/// last component holds a `.` and it does not end with `/`.
pub proof fn law_directory_guess(path: Seq<char>)
    ensures
        (path.len() > 0 && path.last() == '/') ==> looks_like_directory(path),
        !contains_seq(last_component(path), "."@) ==> looks_like_directory(path),
        contains_seq(last_component(path), "."@) && !(path.len() > 0 && path.last() == '/')
            ==> !looks_like_directory(path),
{
}

/// The SFTP view's state.
pub struct SftpView {
    connected: bool,
    path_bar: PathBar,
    file_list: FileListView,
    transfer_queue: TransferQueueView,
    mode: SftpViewMode,
    current_path: String,
    hostname: Option<String>,
    username: Option<String>,
    show_transfer_queue: bool,
    loading: bool,
    error_message: Option<String>,
    loading_paths: Vec<String>,
    context_menu: Option<ContextMenuState>,
    rename_dialog: Option<RenameDialogState>,
    properties_dialog: Option<PropertiesDialogState>,
    delete_confirm: Option<DeleteConfirmState>,
    events: Vec<SftpViewEvent>,
}

/// The texts of a sequence of strings.
pub open spec fn texts(s: Seq<String>) -> Seq<Seq<char>> {
    s.map_values(|x: String| x@)
}

impl SftpView {
    /// Whether the view has an SFTP connection.
    pub closed spec fn connected_spec(&self) -> bool {
        self.connected
    }

    /// The path bar.
    pub closed spec fn path_bar_spec(&self) -> PathBar {
        self.path_bar
    }

    /// The file list.
    pub closed spec fn file_list_spec(&self) -> FileListView {
        self.file_list
    }

    /// The transfer queue.
    pub closed spec fn queue_spec(&self) -> TransferQueueView {
        self.transfer_queue
    }

    /// The layout.
    pub closed spec fn mode_spec(&self) -> SftpViewMode {
        self.mode
    }

    /// The directory shown.
    pub closed spec fn current_spec(&self) -> Seq<char> {
        self.current_path@
    }

    /// The user name, when known.
    pub closed spec fn username_spec(&self) -> Option<String> {
        self.username
    }

    /// The host name, when known.
    pub closed spec fn hostname_spec(&self) -> Option<String> {
        self.hostname
    }

    /// Whether the transfer queue is shown.
    pub closed spec fn show_queue_spec(&self) -> bool {
        self.show_transfer_queue
    }

    /// Whether a listing is under way for the directory shown.
    pub closed spec fn loading_spec(&self) -> bool {
        self.loading
    }

    /// The error shown.
    pub closed spec fn error_spec(&self) -> Option<Seq<char>> {
        match self.error_message {
            Some(e) => Some(e@),
            None => None,
        }
    }

    /// The directories whose listing is under way.
    pub closed spec fn loading_paths_spec(&self) -> Seq<Seq<char>> {
        texts(self.loading_paths@)
    }

    /// The open context menu.
    pub closed spec fn context_menu_spec(&self) -> Option<ContextMenuState> {
        self.context_menu
    }

    /// The open rename dialog.
    pub closed spec fn rename_spec(&self) -> Option<RenameDialogState> {
        self.rename_dialog
    }

    /// The open properties dialog.
    pub closed spec fn properties_spec(&self) -> Option<PropertiesDialogState> {
        self.properties_dialog
    }

    /// The open delete confirmation.
    pub closed spec fn delete_spec(&self) -> Option<DeleteConfirmState> {
        self.delete_confirm
    }

    /// The events not yet handed out, oldest first.
    pub closed spec fn events_spec(&self) -> Seq<SftpViewEvent> {
        self.events@
    }

    /// Well-formedness: the parts are well formed, and no directory is
    /// listed twice at once.
    pub open spec fn wf(&self) -> bool {
        &&& self.path_bar_spec().wf()
        &&& self.file_list_spec().wf()
        &&& self.queue_spec().wf()
        &&& self.loading_paths_spec().no_duplicates()
    }

    /// A view without connection, at `/`, in browse mode, with the queue
    /// shown.
    pub fn new() -> (r: SftpView)
        ensures
            r.wf(),
            !r.connected_spec(),
            r.current_spec() == "/"@,
            r.mode_spec() == SftpViewMode::Browse,
            r.show_queue_spec(),
            !r.loading_spec(),
            r.error_spec() is None,
            r.loading_paths_spec().len() == 0,
            r.context_menu_spec() is None,
            r.rename_spec() is None,
            r.properties_spec() is None,
            r.delete_spec() is None,
            r.events_spec().len() == 0,
            r.username_spec() is None,
    {
        let r = SftpView {
            connected: false,
            path_bar: PathBar::new(),
            file_list: FileListView::new(),
            transfer_queue: TransferQueueView::new(),
            mode: SftpViewMode::Browse,
            current_path: owned("/"),
            hostname: None,
            username: None,
            show_transfer_queue: true,
            loading: false,
            error_message: None,
            loading_paths: Vec::new(),
            context_menu: None,
            rename_dialog: None,
            properties_dialog: None,
            delete_confirm: None,
            events: Vec::new(),
        };
        proof {
            assert(r.loading_paths_spec() =~= Seq::<Seq<char>>::empty());
        }
        r
    }

    /// Records whether there is a connection; gaining one clears the error.
    pub fn set_connected(&mut self, connected: bool)
        requires
            old(self).wf(),
        ensures
            final(self).wf(),
            final(self).connected_spec() == connected,
            final(self).error_spec() == (if connected {
                None
            } else {
                old(self).error_spec()
            }),
            final(self).current_spec() == old(self).current_spec(),
            final(self).events_spec() == old(self).events_spec(),
    {
        self.connected = connected;
        if connected {
            self.error_message = None;
        }
    }

    /// Records the host and user; a user's home directory becomes the
    /// path bar's home.
    pub fn set_host_info(&mut self, hostname: Option<String>, username: Option<String>)
        requires
            old(self).wf(),
        ensures
            final(self).wf(),
            final(self).hostname_spec() == hostname,
            final(self).username_spec() == username,
            match username {
                Some(u) => final(self).path_bar_spec().home_spec() == Some(home_of(u@)),
                None => final(self).path_bar_spec().home_spec() == old(self).path_bar_spec().home_spec(),
            },
            final(self).path_bar_spec().current_spec() == old(self).path_bar_spec().current_spec(),
            final(self).current_spec() == old(self).current_spec(),
            final(self).events_spec() == old(self).events_spec(),
    {
        self.hostname = hostname;
        self.username = username;
        match &self.username {
            Some(u) => {
                let mut home = owned("/home/");
                home.append(u.as_str());
                self.path_bar.set_home_path(Some(home));
            },
            None => {},
        }
    }

    /// Sets the layout.
    pub fn set_mode(&mut self, mode: SftpViewMode)
        requires
            old(self).wf(),
        ensures
            final(self).wf(),
            final(self).mode_spec() == mode,
            final(self).current_spec() == old(self).current_spec(),
            final(self).events_spec() == old(self).events_spec(),
    {
        self.mode = mode;
    }

    /// Shows or hides the transfer queue.
    pub fn set_show_transfer_queue(&mut self, show: bool)
        requires
            old(self).wf(),
        ensures
            final(self).wf(),
            final(self).show_queue_spec() == show,
            final(self).events_spec() == old(self).events_spec(),
    {
        self.show_transfer_queue = show;
    }

    /// Flips whether the transfer queue is shown.
    pub fn toggle_transfer_queue(&mut self)
        requires
            old(self).wf(),
        ensures
            final(self).wf(),
            final(self).show_queue_spec() == !old(self).show_queue_spec(),
            final(self).events_spec() == old(self).events_spec(),
    {
        self.show_transfer_queue = !self.show_transfer_queue;
    }

    /// The directory shown.
    pub fn current_path(&self) -> (r: &str)
        ensures
            r@ == self.current_spec(),
    {
        self.current_path.as_str()
    }

    /// Whether the view has an SFTP connection.
    pub fn is_connected(&self) -> (r: bool)
        ensures
            r == self.connected_spec(),
    {
        self.connected
    }

    /// The path bar.
    pub fn path_bar(&self) -> (r: &PathBar)
        ensures
            *r == self.path_bar_spec(),
    {
        &self.path_bar
    }

    /// The file list.
    pub fn file_list(&self) -> (r: &FileListView)
        ensures
            *r == self.file_list_spec(),
    {
        &self.file_list
    }

    /// The transfer queue.
    pub fn transfer_queue(&self) -> (r: &TransferQueueView)
        ensures
            *r == self.queue_spec(),
    {
        &self.transfer_queue
    }

    fn loading_index(&self, path: &str) -> (r: Option<usize>)
        ensures
            match r {
                Some(i) => i < self.loading_paths_spec().len() && self.loading_paths_spec()[i as int] == path@,
                None => !self.loading_paths_spec().contains(path@),
            },
    {
        let mut i: usize = 0;
        while i < self.loading_paths.len()
            invariant
                0 <= i <= self.loading_paths@.len(),
                forall|k: int| 0 <= k < i ==> self.loading_paths@[k]@ != path@,
            decreases self.loading_paths@.len() - i,
        {
            if str_eq(self.loading_paths[i].as_str(), path) {
                return Some(i);
            }
            i = i + 1;
        }
        proof {
            if self.loading_paths_spec().contains(path@) {
                let k = choose|k: int| 0 <= k < self.loading_paths_spec().len() && self.loading_paths_spec()[k] == path@;
                assert(self.loading_paths@[k]@ == path@);
            }
        }
        None
    }

    /// Starts listing the directory shown. Without connection the error
    /// says so; a directory already being listed is not listed again;
    /// otherwise loading starts, the error clears, and the listing is
    /// asked for.
    pub fn load_directory(&mut self) -> (r: Option<SftpRequest>)
        requires
            old(self).wf(),
        ensures
            final(self).wf(),
            final(self).current_spec() == old(self).current_spec(),
            final(self).path_bar_spec() == old(self).path_bar_spec(),
            final(self).events_spec() == old(self).events_spec(),
            final(self).connected_spec() == old(self).connected_spec(),
            !old(self).connected_spec() ==> r is None && final(self).error_spec() == Some(
                "Not connected to SFTP server"@,
            ) && final(self).loading_paths_spec() == old(self).loading_paths_spec(),
            old(self).connected_spec() && old(self).loading_paths_spec().contains(old(self).current_spec())
                ==> r is None && final(self).loading_paths_spec() == old(self).loading_paths_spec()
                && final(self).error_spec() == old(self).error_spec() && final(self).loading_spec() == old(self).loading_spec(),
            lists(r, old(self).current_spec()),
            old(self).connected_spec() && !old(self).loading_paths_spec().contains(old(self).current_spec())
                ==> final(self).loading_spec() && final(self).error_spec() is None
                && final(self).loading_paths_spec() == old(self).loading_paths_spec().push(
                old(self).current_spec(),
            ) && final(self).file_list_spec().loading_spec() && (r matches Some(SftpRequest::ListDir(p))
                && p@ == old(self).current_spec()),
    {
        if !self.connected {
            self.error_message = Some(owned("Not connected to SFTP server"));
            return None;
        }
        let path = self.current_path.clone();
        if self.loading_index(path.as_str()).is_some() {
            return None;
        }
        self.loading = true;
        self.error_message = None;
        let ghost before = self.loading_paths@;
        self.loading_paths.push(path.clone());
        proof {
            assert(texts(self.loading_paths@) =~= texts(before).push(path@));
        }
        self.file_list.set_loading(true);
        Some(SftpRequest::ListDir(path))
    }

    /// Goes to `path`: it becomes the directory shown and the path bar's
    /// path, and its listing starts as `load_directory` says.
    pub fn navigate_to(&mut self, path: String) -> (r: Option<SftpRequest>)
        requires
            old(self).wf(),
        ensures
            final(self).wf(),
            navigated(*old(self), *final(self), path@, r),
            final(self).events_spec() == old(self).events_spec(),
    {
        self.path_bar.set_path(path.as_str());
        self.current_path = path;
        self.load_directory()
    }

    /// Lists the directory shown again.
    pub fn refresh(&mut self) -> (r: Option<SftpRequest>)
        requires
            old(self).wf(),
        ensures
            final(self).wf(),
            final(self).current_spec() == old(self).current_spec(),
            final(self).path_bar_spec() == old(self).path_bar_spec(),
            final(self).connected_spec() == old(self).connected_spec(),
            final(self).events_spec() == old(self).events_spec(),
            listing_asked(*old(self), old(self).current_spec(), r),
    {
        self.load_directory()
    }

    fn forget_loading(&mut self, path: &str)
        requires
            old(self).wf(),
        ensures
            final(self).wf(),
            !final(self).loading_paths_spec().contains(path@),
            forall|q: Seq<char>| q != path@ ==> (#[trigger] final(self).loading_paths_spec().contains(q)
                <==> old(self).loading_paths_spec().contains(q)),
            final(self).current_spec() == old(self).current_spec(),
            final(self).connected_spec() == old(self).connected_spec(),
            final(self).path_bar_spec() == old(self).path_bar_spec(),
            final(self).file_list_spec() == old(self).file_list_spec(),
            final(self).queue_spec() == old(self).queue_spec(),
            final(self).loading_spec() == old(self).loading_spec(),
            final(self).error_spec() == old(self).error_spec(),
            final(self).events_spec() == old(self).events_spec(),
    {
        match self.loading_index(path) {
            Some(i) => {
                let ghost before = self.loading_paths@;
                self.loading_paths.remove(i);
                proof {
                    let b = texts(before);
                    assert(texts(self.loading_paths@) =~= b.remove(i as int));
                    assert forall|q: Seq<char>| q != path@ implies (#[trigger] texts(self.loading_paths@).contains(q)
                        <==> b.contains(q)) by {
                        if b.contains(q) {
                            let k = choose|k: int| 0 <= k < b.len() && b[k] == q;
                            if k < i {
                                assert(b.remove(i as int)[k] == q);
                            } else {
                                assert(b.remove(i as int)[k - 1] == q);
                            }
                        }
                        if b.remove(i as int).contains(q) {
                            let k = choose|k: int| 0 <= k < b.remove(i as int).len() && b.remove(i as int)[k] == q;
                            if k < i {
                                assert(b[k] == q);
                            } else {
                                assert(b[k + 1] == q);
                            }
                        }
                    }
                    if b.remove(i as int).contains(path@) {
                        let k = choose|k: int| 0 <= k < b.remove(i as int).len() && b.remove(i as int)[k] == path@;
                        if k < i {
                            assert(b[k] == path@);
                        } else {
                            assert(b[k + 1] == path@);
                        }
                    }
                    assert(b.remove(i as int).no_duplicates()) by {
                        assert forall|x: int, y: int| 0 <= x < y < b.remove(i as int).len() implies b.remove(i as int)[x]
                            != b.remove(i as int)[y] by {
                            let x2 = if x < i { x } else { x + 1 };
                            let y2 = if y < i { y } else { y + 1 };
                            assert(b.remove(i as int)[x] == b[x2]);
                            assert(b.remove(i as int)[y] == b[y2]);
                        }
                    }
                }
            },
            None => {},
        }
    }

    /// The listing of `path` came back. It is no longer under way; when
    /// `path` is still the directory shown, loading stops and the entries,
    /// or the error, are shown; a stale listing is dropped.
    pub fn on_directory_loaded(&mut self, path: &str, result: Result<Vec<DirEntry>, String>)
        requires
            old(self).wf(),
        ensures
            final(self).wf(),
            !final(self).loading_paths_spec().contains(path@),
            final(self).current_spec() == old(self).current_spec(),
            final(self).events_spec() == old(self).events_spec(),
            !final(self).loading_spec(),
            path@ != old(self).current_spec() ==> final(self).file_list_spec() == old(self).file_list_spec()
                && final(self).error_spec() == old(self).error_spec(),
            path@ == old(self).current_spec() ==> match result {
                Ok(entries) => final(self).error_spec() is None && final(self).file_list_spec().entries_spec().to_multiset() == entries@.to_multiset(),
                Err(e) => final(self).error_spec() == Some(e@) && final(self).file_list_spec().error_spec()
                    == Some(e),
            },
    {
        self.forget_loading(path);
        if str_eq(path, self.current_path.as_str()) {
            match result {
                Ok(entries) => {
                    self.file_list.set_entries(entries);
                    self.loading = false;
                    self.error_message = None;
                },
                Err(e) => {
                    self.loading = false;
                    self.error_message = Some(e.clone());
                    self.file_list.set_error(Some(e));
                },
            }
        } else {
            self.loading = false;
        }
    }

    /// Reacts to the path bar: goes to a path, up (from anywhere but `/`,
    /// to the parent, or `/` when there is none), home (when the user is
    /// known), or lists again; back and forward the path bar handles.
    pub fn handle_path_bar_event(&mut self, event: &PathBarEvent) -> (r: Option<SftpRequest>)
        requires
            old(self).wf(),
        ensures
            final(self).wf(),
            final(self).events_spec() == old(self).events_spec(),
            match *event {
                PathBarEvent::NavigateTo(p) => navigated(*old(self), *final(self), p@, r),
                PathBarEvent::GoUp => if old(self).current_spec() == "/"@ {
                    r is None && *final(self) == *old(self)
                } else {
                    navigated(
                        *old(self),
                        *final(self),
                        match path_parent_of(old(self).current_spec()) {
                            Some(q) => q,
                            None => "/"@,
                        },
                        r,
                    )
                },
                PathBarEvent::GoHome => match old(self).username_spec() {
                    Some(u) => navigated(*old(self), *final(self), home_of(u@), r),
                    None => r is None && *final(self) == *old(self),
                },
                PathBarEvent::Refresh => final(self).current_spec() == old(self).current_spec()
                    && final(self).path_bar_spec() == old(self).path_bar_spec()
                    && final(self).connected_spec() == old(self).connected_spec()
                    && listing_asked(*old(self), old(self).current_spec(), r),
                _ => final(self).current_spec() == old(self).current_spec() && r is None && *final(self)
                    == *old(self),
            },
    {
        match event {
            PathBarEvent::NavigateTo(path) => self.navigate_to(path.clone()),
            PathBarEvent::GoUp => {
                if !str_eq(self.current_path.as_str(), "/") {
                    let parent = match path_parent(self.current_path.as_str()) {
                        Some(p) => p,
                        None => owned("/"),
                    };
                    self.navigate_to(parent)
                } else {
                    None
                }
            },
            PathBarEvent::GoBack => None,
            PathBarEvent::GoForward => None,
            PathBarEvent::Refresh => self.refresh(),
            PathBarEvent::GoHome => {
                match &self.username {
                    Some(u) => {
                        let mut home = owned("/home/");
                        home.append(u.as_str());
                        self.navigate_to(home)
                    },
                    None => None,
                }
            },
        }
    }

    /// Reacts to the file list: a selection is passed on; an opened entry
    /// is gone to and passed on; a context menu opens; dropped files are
    /// to be uploaded to the directory shown.
    pub fn handle_file_list_event(&mut self, event: &FileListEvent) -> (r: Option<SftpRequest>)
        requires
            old(self).wf(),
        ensures
            final(self).wf(),
            match *event {
                FileListEvent::Selected(p) => final(self).events_spec() == old(self).events_spec().push(
                    SftpViewEvent::FileSelected(p),
                ) && r is None,
                FileListEvent::Opened(p) => navigated(*old(self), *final(self), p@, r) && final(self).events_spec()
                    == old(self).events_spec().push(SftpViewEvent::FileOpened(p)),
                FileListEvent::ContextMenu { path, position } => r is None && (final(self).context_menu_spec() matches Some(m) && m.path == path && m.position == position)
                    && final(self).events_spec() == old(self).events_spec(),
                FileListEvent::UploadRequested(paths) => r is None && final(self).events_spec().len()
                    == old(self).events_spec().len() + 1 && final(self).events_spec().drop_last() == old(self).events_spec() && (final(self).events_spec().last() matches SftpViewEvent::UploadRequested {
                    local_paths,
                    remote_dir,
                } && local_paths@ == paths@ && remote_dir@ == old(self).current_spec()),
                _ => r is None && *final(self) == *old(self),
            },
    {
        match event {
            FileListEvent::Selected(path) => {
                self.events.push(SftpViewEvent::FileSelected(path.clone()));
                None
            },
            FileListEvent::Opened(path) => {
                let r = self.navigate_to(path.clone());
                self.events.push(SftpViewEvent::FileOpened(path.clone()));
                r
            },
            FileListEvent::MultiSelected(_) => None,
            FileListEvent::ContextMenu { path, position } => {
                self.show_context_menu(path.clone(), *position);
                None
            },
            FileListEvent::SortChanged { .. } => None,
            FileListEvent::UploadRequested(paths) => {
                let local_paths = clone_strings(paths);
                self.events.push(
                    SftpViewEvent::UploadRequested { local_paths, remote_dir: self.current_path.clone() },
                );
                None
            },
        }
    }

    /// Reacts to the transfer queue: pausing, resuming and cancelling mark
    /// the transfer and ask for the task to follow (a cancel is reported as
    /// a failure); clearing clears the queue. A retry needs the task
    /// registry and goes through `retry_transfer`.
    pub fn handle_transfer_queue_event(&mut self, event: &TransferQueueEvent) -> (r: Option<SftpRequest>)
        requires
            old(self).wf(),
        ensures
            final(self).wf(),
            final(self).current_spec() == old(self).current_spec(),
            match *event {
                TransferQueueEvent::PauseRequested(id) => r == Some(SftpRequest::PauseTask(id))
                    && final(self).events_spec() == old(self).events_spec(),
                TransferQueueEvent::ResumeRequested(id) => r == Some(SftpRequest::ResumeTask(id))
                    && final(self).events_spec() == old(self).events_spec(),
                TransferQueueEvent::CancelRequested(id) => r == Some(SftpRequest::CancelTask(id))
                    && final(self).events_spec().len() == old(self).events_spec().len() + 1
                    && final(self).events_spec().drop_last() == old(self).events_spec() && (final(self).events_spec().last() matches SftpViewEvent::TransferFailed { task_id, error }
                    && task_id == id && error@ == "Transfer cancelled by user"@),
                TransferQueueEvent::ClearCompleted => r is None && final(self).queue_spec().items_spec()
                    == old(self).queue_spec().items_spec().filter(
                    |t: crate::ui::sftp::transfer_queue::TransferItem|
                        !crate::ui::sftp::transfer_queue::terminated(t.progress.state),
                ),
                TransferQueueEvent::ClearAll => r is None && final(self).queue_spec().items_spec().len() == 0,
                _ => r is None && *final(self) == *old(self),
            },
    {
        match event {
            TransferQueueEvent::PauseRequested(id) => {
                self.transfer_queue.update_transfer_state(*id, TransferState::Paused);
                Some(SftpRequest::PauseTask(*id))
            },
            TransferQueueEvent::ResumeRequested(id) => {
                self.transfer_queue.update_transfer_state(*id, TransferState::InProgress);
                Some(SftpRequest::ResumeTask(*id))
            },
            TransferQueueEvent::CancelRequested(id) => {
                self.transfer_queue.update_transfer_state(*id, TransferState::Cancelled);
                self.events.push(
                    SftpViewEvent::TransferFailed {
                        task_id: *id,
                        error: owned("Transfer cancelled by user"),
                    },
                );
                Some(SftpRequest::CancelTask(*id))
            },
            TransferQueueEvent::RetryRequested(_) => None,
            TransferQueueEvent::ClearCompleted => {
                self.transfer_queue.clear_completed();
                None
            },
            TransferQueueEvent::ClearAll => {
                self.transfer_queue.clear_all();
                None
            },
            TransferQueueEvent::OpenDestination(_) => None,
        }
    }

    /// Retries the transfer `id`. `task` is what the task registry holds
    /// of it (direction, source, destination, size), `new_id` the next
    /// task identifier of the SFTP client when there is one. A known task
    /// leaves the queue; with a new identifier the retry is queued under
    /// it, reported as started, and asked to start.
    pub fn retry_transfer(
        &mut self,
        id: TransferTaskId,
        task: Option<(TransferDirection, String, String, u64)>,
        new_id: Option<TransferTaskId>,
    ) -> (r: Option<SftpRequest>)
        requires
            old(self).wf(),
        ensures
            final(self).wf(),
            final(self).current_spec() == old(self).current_spec(),
            task is None ==> r is None && *final(self) == *old(self),
            task is Some && new_id is None ==> r is None && final(self).queue_spec().items_spec()
                == old(self).queue_spec().items_spec().filter(
                |t: crate::ui::sftp::transfer_queue::TransferItem| t.id != id,
            ) && final(self).events_spec() == old(self).events_spec(),
            match (task, new_id) {
                (Some((direction, source, dest, total)), Some(n)) => {
                    &&& crate::ui::sftp::transfer_queue::lookup(final(self).queue_spec().items_spec(), n) matches Some(
                        item,
                    ) && item.progress.direction == direction && item.progress.source_path@ == source@
                        && item.progress.dest_path@ == dest@ && item.progress.total_bytes == total
                        && item.progress.state == TransferState::Pending
                    &&& final(self).events_spec() == old(self).events_spec().push(
                        SftpViewEvent::TransferStarted(n),
                    )
                    &&& r matches Some(SftpRequest::StartTransfer { id: rid, direction: d, source_path, dest_path, total_bytes })
                        && rid == n && d == direction && source_path@ == source@ && dest_path@ == dest@
                        && total_bytes == total
                },
                _ => true,
            },
    {
        match task {
            None => None,
            Some((direction, source, dest, total)) => {
                self.transfer_queue.remove_transfer(id);
                match new_id {
                    None => None,
                    Some(n) => {
                        let progress = TransferProgress::new(direction, source.as_str(), dest.as_str(), total);
                        self.transfer_queue.add_transfer(n, progress);
                        self.events.push(SftpViewEvent::TransferStarted(n));
                        Some(
                            SftpRequest::StartTransfer {
                                id: n,
                                direction,
                                source_path: source,
                                dest_path: dest,
                                total_bytes: total,
                            },
                        )
                    },
                }
            },
        }
    }

    /// Queues a transfer and reports it as started.
    pub fn add_transfer(&mut self, id: TransferTaskId, progress: TransferProgress)
        requires
            old(self).wf(),
        ensures
            final(self).wf(),
            crate::ui::sftp::transfer_queue::lookup(final(self).queue_spec().items_spec(), id) == Some(
                crate::ui::sftp::transfer_queue::TransferItem { id, progress, expanded: false },
            ),
            final(self).events_spec() == old(self).events_spec().push(SftpViewEvent::TransferStarted(id)),
            final(self).current_spec() == old(self).current_spec(),
    {
        self.transfer_queue.add_transfer(id, progress);
        self.events.push(SftpViewEvent::TransferStarted(id));
    }

    /// Replaces the progress of a queued transfer.
    pub fn update_transfer_progress(&mut self, id: TransferTaskId, progress: TransferProgress)
        requires
            old(self).wf(),
        ensures
            final(self).wf(),
            final(self).queue_spec().order_spec() == old(self).queue_spec().order_spec(),
            final(self).events_spec() == old(self).events_spec(),
            final(self).current_spec() == old(self).current_spec(),
    {
        self.transfer_queue.update_progress(id, progress);
    }

    /// Opens the context menu of `path` at `position`; the entry's name
    /// is its last component, and it is taken for a directory when the
    /// path ends with `/` or the name has no `.`.
    pub fn show_context_menu(&mut self, path: String, position: (i32, i32))
        requires
            old(self).wf(),
        ensures
            final(self).wf(),
            final(self).context_menu_spec() matches Some(m) && m.path == path && m.position == position
                && m.filename@ == last_component(path@) && m.is_directory == looks_like_directory(path@),
            final(self).current_spec() == old(self).current_spec(),
            final(self).events_spec() == old(self).events_spec(),
    {
        let filename = owned(after_last_slash(path.as_str()));
        let is_directory = ends_with_slash(path.as_str()) || !str_contains(filename.as_str(), ".");
        self.context_menu = Some(ContextMenuState { path, filename, is_directory, position });
    }

    /// Closes the context menu.
    pub fn hide_context_menu(&mut self)
        requires
            old(self).wf(),
        ensures
            final(self).wf(),
            final(self).context_menu_spec() is None,
            final(self).current_spec() == old(self).current_spec(),
            final(self).events_spec() == old(self).events_spec(),
    {
        self.context_menu = None;
    }

    /// The menu's Download: asks for the entry's download; the menu closes.
    pub fn context_menu_download(&mut self)
        requires
            old(self).wf(),
        ensures
            final(self).wf(),
            final(self).context_menu_spec() is None,
            match old(self).context_menu_spec() {
                Some(m) => final(self).events_spec().len() == old(self).events_spec().len() + 1
                    && final(self).events_spec().drop_last() == old(self).events_spec() && (final(self).events_spec().last() matches SftpViewEvent::DownloadRequested { remote_path, local_path }
                    && remote_path == m.path && local_path is None),
                None => final(self).events_spec() == old(self).events_spec(),
            },
    {
        match &self.context_menu {
            Some(menu) => {
                let path = menu.path.clone();
                self.events.push(SftpViewEvent::DownloadRequested { remote_path: path, local_path: None });
            },
            None => {},
        }
        self.context_menu = None;
    }

    /// The menu's Delete: asks for confirmation; the menu closes.
    pub fn context_menu_delete(&mut self)
        requires
            old(self).wf(),
        ensures
            final(self).wf(),
            final(self).context_menu_spec() is None,
            match old(self).context_menu_spec() {
                Some(m) => final(self).delete_spec() matches Some(d) && d.path == m.path && d.filename
                    == m.filename && d.is_directory == m.is_directory,
                None => final(self).delete_spec() == old(self).delete_spec(),
            },
            final(self).events_spec() == old(self).events_spec(),
    {
        match &self.context_menu {
            Some(menu) => {
                self.delete_confirm = Some(
                    DeleteConfirmState {
                        path: menu.path.clone(),
                        filename: menu.filename.clone(),
                        is_directory: menu.is_directory,
                    },
                );
            },
            None => {},
        }
        self.context_menu = None;
    }

    /// Confirms the deletion: without connection the error says so;
    /// otherwise the deletion is asked for.
    pub fn do_delete(&mut self) -> (r: Option<SftpRequest>)
        requires
            old(self).wf(),
        ensures
            final(self).wf(),
            final(self).delete_spec() is None,
            final(self).current_spec() == old(self).current_spec(),
            final(self).events_spec() == old(self).events_spec(),
            match old(self).delete_spec() {
                None => r is None && final(self).error_spec() == old(self).error_spec(),
                Some(d) => if old(self).connected_spec() {
                    r matches Some(SftpRequest::Remove { path, is_directory, current_path }) && path == d.path
                        && is_directory == d.is_directory && current_path@ == old(self).current_spec()
                } else {
                    r is None && final(self).error_spec() == Some("未连接到 SFTP 服务器"@)
                },
            },
    {
        let mut taken: Option<DeleteConfirmState> = None;
        std::mem::swap(&mut taken, &mut self.delete_confirm);
        match taken {
            None => None,
            Some(confirm) => {
                if !self.connected {
                    self.error_message = Some(owned("未连接到 SFTP 服务器"));
                    return None;
                }
                Some(
                    SftpRequest::Remove {
                        path: confirm.path,
                        is_directory: confirm.is_directory,
                        current_path: self.current_path.clone(),
                    },
                )
            },
        }
    }

    /// A deletion came back: on success the directory shown is listed
    /// again when the deleted path lies under the directory shown when the
    /// deletion was asked; on failure the error says so.
    pub fn on_delete_result(&mut self, path: &str, current_path: &str, result: Result<(), String>) -> (r: Option<SftpRequest>)
        requires
            old(self).wf(),
        ensures
            final(self).wf(),
            final(self).current_spec() == old(self).current_spec(),
            final(self).events_spec() == old(self).events_spec(),
            match result {
                Ok(()) => if current_path@.is_prefix_of(path@) {
                    &&& lists(r, old(self).current_spec())
                    &&& (old(self).connected_spec() && !old(self).loading_paths_spec().contains(
                        old(self).current_spec(),
                    )) ==> r is Some
                } else {
                    r is None && *final(self) == *old(self)
                },
                Err(e) => r is None && final(self).error_spec() == Some("删除失败: "@ + e@),
            },
    {
        match result {
            Ok(()) => {
                if starts_with(path, current_path) {
                    self.refresh()
                } else {
                    None
                }
            },
            Err(e) => {
                let mut msg = owned("删除失败: ");
                msg.append(e.as_str());
                self.error_message = Some(msg);
                None
            },
        }
    }

    /// Closes the delete confirmation.
    pub fn cancel_delete(&mut self)
        requires
            old(self).wf(),
        ensures
            final(self).wf(),
            final(self).delete_spec() is None,
            final(self).events_spec() == old(self).events_spec(),
    {
        self.delete_confirm = None;
    }

    /// The menu's Rename: opens the rename dialog on the entry's name; the
    /// menu closes.
    pub fn context_menu_rename(&mut self)
        requires
            old(self).wf(),
        ensures
            final(self).wf(),
            final(self).context_menu_spec() is None,
            match old(self).context_menu_spec() {
                Some(m) => final(self).rename_spec() matches Some(d) && d.old_path == m.path && d.old_name
                    == m.filename && d.new_name == m.filename,
                None => final(self).rename_spec() == old(self).rename_spec(),
            },
            final(self).events_spec() == old(self).events_spec(),
    {
        match &self.context_menu {
            Some(menu) => {
                self.rename_dialog = Some(
                    RenameDialogState {
                        old_path: menu.path.clone(),
                        old_name: menu.filename.clone(),
                        new_name: menu.filename.clone(),
                    },
                );
            },
            None => {},
        }
        self.context_menu = None;
    }

    /// Sets the name typed in the rename dialog, when it is open.
    pub fn update_rename_input(&mut self, new_name: String)
        requires
            old(self).wf(),
        ensures
            final(self).wf(),
            match old(self).rename_spec() {
                Some(d) => final(self).rename_spec() matches Some(e) && e.new_name == new_name
                    && e.old_path == d.old_path && e.old_name == d.old_name,
                None => final(self).rename_spec() is None,
            },
            final(self).events_spec() == old(self).events_spec(),
    {
        match &mut self.rename_dialog {
            Some(dialog) => {
                dialog.new_name = new_name;
            },
            None => {},
        }
    }

    /// Confirms the rename: an empty or unchanged name does nothing;
    /// without connection the error says so; otherwise renaming to the new
    /// name in the same directory is asked for.
    pub fn do_rename(&mut self) -> (r: Option<SftpRequest>)
        requires
            old(self).wf(),
        ensures
            final(self).wf(),
            final(self).rename_spec() is None,
            final(self).events_spec() == old(self).events_spec(),
            match old(self).rename_spec() {
                None => r is None && final(self).error_spec() == old(self).error_spec(),
                Some(d) => if d.new_name@.len() == 0 || d.new_name@ == d.old_name@ {
                    r is None && final(self).error_spec() == old(self).error_spec()
                } else if old(self).connected_spec() {
                    r matches Some(SftpRequest::Rename { old_path, new_path }) && old_path == d.old_path
                        && new_path@ == renamed_path(d.old_path@, d.new_name@)
                } else {
                    r is None && final(self).error_spec() == Some("未连接到 SFTP 服务器"@)
                },
            },
    {
        let mut taken: Option<RenameDialogState> = None;
        std::mem::swap(&mut taken, &mut self.rename_dialog);
        match taken {
            None => None,
            Some(dialog) => {
                if dialog.new_name.as_str().unicode_len() == 0 || str_eq(
                    dialog.new_name.as_str(),
                    dialog.old_name.as_str(),
                ) {
                    return None;
                }
                if !self.connected {
                    self.error_message = Some(owned("未连接到 SFTP 服务器"));
                    return None;
                }
                let new_path = match dir_of(dialog.old_path.as_str()) {
                    Some(dir) => {
                        let mut p = owned(dir);
                        p.append("/");
                        p.append(dialog.new_name.as_str());
                        p
                    },
                    None => dialog.new_name.clone(),
                };
                Some(SftpRequest::Rename { old_path: dialog.old_path, new_path })
            },
        }
    }

    /// A rename came back: on success the directory shown is listed again;
    /// on failure the error says so.
    pub fn on_rename_result(&mut self, result: Result<(), String>) -> (r: Option<SftpRequest>)
        requires
            old(self).wf(),
        ensures
            final(self).wf(),
            final(self).current_spec() == old(self).current_spec(),
            final(self).events_spec() == old(self).events_spec(),
            match result {
                Ok(()) => lists(r, old(self).current_spec()) && ((old(self).connected_spec()
                    && !old(self).loading_paths_spec().contains(old(self).current_spec())) ==> r is Some),
                Err(e) => r is None && final(self).error_spec() == Some("重命名失败: "@ + e@),
            },
    {
        match result {
            Ok(()) => self.refresh(),
            Err(e) => {
                let mut msg = owned("重命名失败: ");
                msg.append(e.as_str());
                self.error_message = Some(msg);
                None
            },
        }
    }

    /// Closes the rename dialog.
    pub fn cancel_rename(&mut self)
        requires
            old(self).wf(),
        ensures
            final(self).wf(),
            final(self).rename_spec() is None,
            final(self).events_spec() == old(self).events_spec(),
    {
        self.rename_dialog = None;
    }

    /// The menu's Copy Path: asks for the path to go on the clipboard; the
    /// menu closes.
    pub fn context_menu_copy_path(&mut self) -> (r: Option<SftpRequest>)
        requires
            old(self).wf(),
        ensures
            final(self).wf(),
            final(self).context_menu_spec() is None,
            final(self).events_spec() == old(self).events_spec(),
            match old(self).context_menu_spec() {
                Some(m) => r matches Some(SftpRequest::CopyToClipboard(p)) && p == m.path,
                None => r is None,
            },
    {
        let r = match &self.context_menu {
            Some(menu) => Some(SftpRequest::CopyToClipboard(menu.path.clone())),
            None => None,
        };
        self.context_menu = None;
        r
    }

    /// The menu's Properties: the menu closes; without connection the
    /// error says so; otherwise the entry's attributes are asked for.
    pub fn context_menu_properties(&mut self) -> (r: Option<SftpRequest>)
        requires
            old(self).wf(),
        ensures
            final(self).wf(),
            final(self).context_menu_spec() is None,
            final(self).events_spec() == old(self).events_spec(),
            match old(self).context_menu_spec() {
                Some(m) => if old(self).connected_spec() {
                    r matches Some(SftpRequest::Stat(p)) && p == m.path
                } else {
                    r is None && final(self).error_spec() == Some("未连接到 SFTP 服务器"@)
                },
                None => r is None,
            },
    {
        let mut taken: Option<ContextMenuState> = None;
        std::mem::swap(&mut taken, &mut self.context_menu);
        match taken {
            None => None,
            Some(menu) => {
                if !self.connected {
                    self.error_message = Some(owned("未连接到 SFTP 服务器"));
                    return None;
                }
                Some(SftpRequest::Stat(menu.path))
            },
        }
    }

    /// The attributes came back: they are shown, or the error says why not.
    pub fn on_properties_result(&mut self, result: Result<DirEntry, String>)
        requires
            old(self).wf(),
        ensures
            final(self).wf(),
            final(self).events_spec() == old(self).events_spec(),
            match result {
                Ok(entry) => final(self).properties_spec() matches Some(p) && p.entry == entry,
                Err(e) => final(self).error_spec() == Some("获取属性失败: "@ + e@) && final(self).properties_spec()
                    == old(self).properties_spec(),
            },
    {
        match result {
            Ok(entry) => {
                self.properties_dialog = Some(PropertiesDialogState { entry });
            },
            Err(e) => {
                let mut msg = owned("获取属性失败: ");
                msg.append(e.as_str());
                self.error_message = Some(msg);
            },
        }
    }

    /// Closes the properties dialog.
    pub fn close_properties_dialog(&mut self)
        requires
            old(self).wf(),
        ensures
            final(self).wf(),
            final(self).properties_spec() is None,
            final(self).events_spec() == old(self).events_spec(),
    {
        self.properties_dialog = None;
    }

    /// Hands out the events, oldest first, and forgets them.
    pub fn take_events(&mut self) -> (r: Vec<SftpViewEvent>)
        requires
            old(self).wf(),
        ensures
            final(self).wf(),
            r@ == old(self).events_spec(),
            final(self).events_spec().len() == 0,
            final(self).current_spec() == old(self).current_spec(),
    {
        let mut r: Vec<SftpViewEvent> = Vec::new();
        std::mem::swap(&mut r, &mut self.events);
        r
    }
}

fn clone_strings(v: &Vec<String>) -> (r: Vec<String>)
    ensures
        r@ == v@,
{
    let mut r: Vec<String> = Vec::new();
    let mut i: usize = 0;
    while i < v.len()
        invariant
            0 <= i <= v@.len(),
            r@ == v@.subrange(0, i as int),
        decreases v@.len() - i,
    {
        r.push(v[i].clone());
        i = i + 1;
        proof {
            assert(r@ =~= v@.subrange(0, i as int));
        }
    }
    proof {
        assert(r@ =~= v@);
    }
    r
}

/// Whether `s` starts with `prefix`.
pub fn starts_with(s: &str, prefix: &str) -> (r: bool)
    ensures
        r == prefix@.is_prefix_of(s@),
{
    let n = s.unicode_len();
    let m = prefix.unicode_len();
    if m > n {
        return false;
    }
    let head = s.substring_char(0, m);
    let r = str_eq(head, prefix);
    proof {
        if prefix@.is_prefix_of(s@) {
            assert(head@ =~= prefix@);
        }
        if r {
            assert(prefix@ =~= s@.subrange(0, m as int));
        }
    }
    r
}

} // verus!
