//! The SFTP path bar: breadcrumbs of the current remote path, a text mode
//! to type a path, and back/forward history.

use vstd::prelude::*;
use vstd::string::*;

use crate::text::{chars_of, owned, str_eq, trim, trim_is_empty, trim_spec};

verus! {

/// What the path bar asks of the SFTP view.
#[derive(Debug)]
pub enum PathBarEvent {
    /// Go to a path.
    NavigateTo(String),
    /// Go to the parent directory.
    GoUp,
    /// Go back.
    GoBack,
    /// Go forward.
    GoForward,
    /// Reload the current directory.
    Refresh,
    /// Go to the home directory.
    GoHome,
}

/// Whether the bar shows breadcrumbs or a text field.
#[derive(Debug, Clone, Copy, PartialEq, Eq, Structural)]
pub enum PathBarMode {
    /// Breadcrumbs.
    Display,
    /// Text input.
    Edit,
}

/// The non-empty `/`-separated parts of `s`, `cur` being the part read so
/// far.
pub open spec fn parts_from(s: Seq<char>, cur: Seq<char>) -> Seq<Seq<char>>
    decreases s.len(),
{
    if s.len() == 0 {
        if cur.len() > 0 {
            seq![cur]
        } else {
            Seq::<Seq<char>>::empty()
        }
    } else if s[0] == '/' {
        (if cur.len() > 0 {
            seq![cur]
        } else {
            Seq::<Seq<char>>::empty()
        }) + parts_from(s.drop_first(), Seq::<char>::empty())
    } else {
        parts_from(s.drop_first(), cur.push(s[0]))
    }
}

/// The breadcrumbs of a path: the root `/`, then the path's non-empty
/// `/`-separated parts.
pub open spec fn path_segments(path: Seq<char>) -> Seq<Seq<char>> {
    seq!["/"@] + parts_from(path, Seq::<char>::empty())
}

/// `/p1/p2/.../pn` for the parts `p1 ... pn`.
pub open spec fn join_parts(parts: Seq<Seq<char>>) -> Seq<char>
    decreases parts.len(),
{
    if parts.len() == 0 {
        Seq::<char>::empty()
    } else {
        join_parts(parts.drop_last()) + "/"@ + parts.last()
    }
}

/// The path of the breadcrumb at `index`: the root for 0, else the
/// segments from 1 to `index` joined.
pub open spec fn path_to_index(segments: Seq<Seq<char>>, index: int) -> Seq<char> {
    if index == 0 {
        "/"@
    } else {
        join_parts(segments.subrange(1, index + 1))
    }
}

/// The views of a sequence of strings.
pub open spec fn views(s: Seq<String>) -> Seq<Seq<char>> {
    s.map_values(|x: String| x@)
}

proof fn lemma_parts_step(s: Seq<char>, start: int, i: int)
    requires
        0 <= start <= i < s.len(),
    ensures
        s[i] == '/' ==> parts_from(s.subrange(i, s.len() as int), s.subrange(start, i)) == (if i
            > start {
            seq![s.subrange(start, i)]
        } else {
            Seq::<Seq<char>>::empty()
        }) + parts_from(s.subrange(i + 1, s.len() as int), s.subrange(i + 1, i + 1)),
        s[i] != '/' ==> parts_from(s.subrange(i, s.len() as int), s.subrange(start, i))
            == parts_from(s.subrange(i + 1, s.len() as int), s.subrange(start, i + 1)),
{
    let t = s.subrange(i, s.len() as int);
    assert(t[0] == s[i]);
    assert(t.drop_first() =~= s.subrange(i + 1, s.len() as int));
    assert(s.subrange(start, i).push(s[i]) =~= s.subrange(start, i + 1));
    assert(s.subrange(i + 1, i + 1) =~= Seq::<char>::empty());
}

/// The breadcrumbs of `path`.
pub fn parse_path(path: &str) -> (r: Vec<String>)
    ensures
        views(r@) == path_segments(path@),
{
    let cs = chars_of(path);
    let n = cs.len();
    let mut out: Vec<String> = Vec::new();
    out.push(owned("/"));
    let mut start: usize = 0;
    let mut i: usize = 0;
    proof {
        assert(cs@.subrange(0, n as int) =~= cs@);
        assert(cs@.subrange(0, 0) =~= Seq::<char>::empty());
        assert(views(out@) =~= seq!["/"@]);
    }
    while i < n
        invariant
            cs@ == path@,
            n == cs@.len(),
            0 <= start <= i <= n,
            views(out@) + parts_from(cs@.subrange(i as int, n as int), cs@.subrange(start as int, i as int))
                == path_segments(path@),
        decreases n - i,
    {
        proof {
            lemma_parts_step(cs@, start as int, i as int);
        }
        if cs[i] == '/' {
            if i > start {
                let part = String::from_str(path.substring_char(start, i));
                let ghost before = out@;
                out.push(part);
                proof {
                    assert(views(out@) =~= views(before).push(cs@.subrange(start as int, i as int)));
                    assert(views(before) + (seq![cs@.subrange(start as int, i as int)] + parts_from(cs@.subrange(i + 1, n as int), cs@.subrange(i + 1, i + 1)))
                        =~= views(out@) + parts_from(cs@.subrange(i + 1, n as int), cs@.subrange(i + 1, i + 1)));
                }
            } else {
                proof {
                    assert(Seq::<Seq<char>>::empty() + parts_from(cs@.subrange(i + 1, n as int), cs@.subrange(i + 1, i + 1))
                        =~= parts_from(cs@.subrange(i + 1, n as int), cs@.subrange(i + 1, i + 1)));
                }
            }
            start = i + 1;
        }
        i = i + 1;
    }
    proof {
        assert(cs@.subrange(n as int, n as int) =~= Seq::<char>::empty());
    }
    if n > start {
        let part = String::from_str(path.substring_char(start, n));
        let ghost before = out@;
        out.push(part);
        proof {
            assert(views(out@) =~= views(before).push(cs@.subrange(start as int, n as int)));
            assert(views(before) + seq![cs@.subrange(start as int, n as int)] =~= views(out@));
        }
    } else {
        proof {
            assert(views(out@) + Seq::<Seq<char>>::empty() =~= views(out@));
        }
    }
    out
}

/// The path of the breadcrumb at `index` of `segments`.
pub fn build_path_to_index(segments: &Vec<String>, index: usize) -> (r: String)
    requires
        index < segments@.len(),
    ensures
        r@ == path_to_index(views(segments@), index as int),
{
    if index == 0 {
        return owned("/");
    }
    let len = segments.len();
    let mut s = String::new();
    let mut k: usize = 1;
    proof {
        assert(views(segments@).subrange(1, 1) =~= Seq::<Seq<char>>::empty());
    }
    while k <= index
        invariant
            1 <= k <= index + 1,
            index < segments@.len(),
            len == segments@.len(),
            s@ == join_parts(views(segments@).subrange(1, k as int)),
        decreases index + 1 - k,
    {
        s.append("/");
        s.append(segments[k].as_str());
        proof {
            let a = views(segments@).subrange(1, k + 1);
            assert(a.drop_last() =~= views(segments@).subrange(1, k as int));
            assert(a.last() == segments@[k as int]@);
        }
        k = k + 1;
    }
    s
}


/// Whether `p` is a part between slashes: not empty and without `/`.
pub open spec fn is_part(p: Seq<char>) -> bool {
    p.len() > 0 && !p.contains('/')
}

proof fn lemma_parts_are_parts(s: Seq<char>, cur: Seq<char>)
    requires
        !cur.contains('/'),
    ensures
        forall|k: int| 0 <= k < parts_from(s, cur).len() ==> is_part(#[trigger] parts_from(s, cur)[k]),
    decreases s.len(),
{
    if s.len() == 0 {
        if cur.len() > 0 {
            assert(parts_from(s, cur) == seq![cur]);
            assert(is_part(cur));
        } else {
            assert(parts_from(s, cur) == Seq::<Seq<char>>::empty());
        }
    } else if s[0] == '/' {
        lemma_parts_are_parts(s.drop_first(), Seq::<char>::empty());
        let head = if cur.len() > 0 { seq![cur] } else { Seq::<Seq<char>>::empty() };
        let tail = parts_from(s.drop_first(), Seq::<char>::empty());
        assert(parts_from(s, cur) == head + tail);
        assert forall|k: int| 0 <= k < (head + tail).len() implies is_part(#[trigger] (head + tail)[k]) by {
            if k >= head.len() {
                assert((head + tail)[k] == tail[k - head.len()]);
            } else {
                assert((head + tail)[k] == cur);
            }
        }
    } else {
        assert(!cur.push(s[0]).contains('/')) by {
            if cur.push(s[0]).contains('/') {
                let k = choose|k: int| 0 <= k < cur.push(s[0]).len() && cur.push(s[0])[k] == '/';
                if k < cur.len() {
                    assert(cur[k] == '/');
                }
            }
        }
        lemma_parts_are_parts(s.drop_first(), cur.push(s[0]));
        assert(parts_from(s, cur) == parts_from(s.drop_first(), cur.push(s[0])));
    }
}

/// Every breadcrumb after the root is a non-empty name without `/`.
pub proof fn law_segments_are_names(path: Seq<char>)
    ensures
        path_segments(path).len() >= 1,
        path_segments(path)[0] == "/"@,
        forall|k: int| 1 <= k < path_segments(path).len() ==> is_part(#[trigger] path_segments(path)[k]),
{
    lemma_parts_are_parts(path, Seq::<char>::empty());
    let ps = parts_from(path, Seq::<char>::empty());
    assert forall|k: int| 1 <= k < path_segments(path).len() implies is_part(#[trigger] path_segments(path)[k]) by {
        assert(path_segments(path)[k] == ps[k - 1]);
    }
}

/// `/p1/p2/.../pn`, built from the front.
pub open spec fn join_front(parts: Seq<Seq<char>>) -> Seq<char>
    decreases parts.len(),
{
    if parts.len() == 0 {
        Seq::<char>::empty()
    } else {
        "/"@ + parts[0] + join_front(parts.drop_first())
    }
}

proof fn lemma_join_front_push(parts: Seq<Seq<char>>, p: Seq<char>)
    ensures
        join_front(parts.push(p)) == join_front(parts) + "/"@ + p,
    decreases parts.len(),
{
    if parts.len() == 0 {
        assert(parts.push(p).drop_first() =~= Seq::<Seq<char>>::empty());
        assert(parts.push(p)[0] == p);
        assert(join_front(parts.push(p).drop_first()) == Seq::<char>::empty());
        assert(join_front(parts.push(p)) == "/"@ + p + Seq::<char>::empty());
        assert(join_front(parts) == Seq::<char>::empty());
        assert(join_front(parts.push(p)) =~= join_front(parts) + "/"@ + p);
    } else {
        assert(parts.push(p).drop_first() =~= parts.drop_first().push(p));
        lemma_join_front_push(parts.drop_first(), p);
        assert(join_front(parts.push(p)) =~= join_front(parts) + "/"@ + p);
    }
}

proof fn lemma_join_same(parts: Seq<Seq<char>>)
    ensures
        join_parts(parts) == join_front(parts),
    decreases parts.len(),
{
    if parts.len() > 0 {
        lemma_join_same(parts.drop_last());
        lemma_join_front_push(parts.drop_last(), parts.last());
        assert(parts.drop_last().push(parts.last()) =~= parts);
    }
}

proof fn lemma_consume_name(p: Seq<char>, rest: Seq<char>, cur: Seq<char>)
    requires
        !p.contains('/'),
    ensures
        parts_from(p + rest, cur) == parts_from(rest, cur + p),
    decreases p.len(),
{
    if p.len() == 0 {
        assert(p + rest =~= rest);
        assert(cur + p =~= cur);
    } else {
        assert((p + rest)[0] == p[0]);
        assert(p[0] != '/') by {
            assert(p.contains(p[0]));
        }
        assert((p + rest).drop_first() =~= p.drop_first() + rest);
        assert(!p.drop_first().contains('/')) by {
            if p.drop_first().contains('/') {
                let k = choose|k: int| 0 <= k < p.drop_first().len() && p.drop_first()[k] == '/';
                assert(p[k + 1] == '/');
                assert(p.contains('/'));
            }
        }
        lemma_consume_name(p.drop_first(), rest, cur.push(p[0]));
        assert(cur.push(p[0]) + p.drop_first() =~= cur + p);
    }
}

proof fn lemma_parts_of_join(parts: Seq<Seq<char>>)
    requires
        forall|k: int| 0 <= k < parts.len() ==> is_part(#[trigger] parts[k]),
    ensures
        parts_from(join_front(parts), Seq::<char>::empty()) == parts,
    decreases parts.len(),
{
    reveal_strlit("/");
    if parts.len() > 0 {
        let p0 = parts[0];
        let j = join_front(parts.drop_first());
        assert forall|k: int| 0 <= k < parts.drop_first().len() implies is_part(#[trigger] parts.drop_first()[k]) by {
            assert(parts.drop_first()[k] == parts[k + 1]);
        }
        lemma_parts_of_join(parts.drop_first());
        let whole = "/"@ + p0 + j;
        assert(whole[0] == '/');
        assert(whole.drop_first() =~= p0 + j);
        assert(is_part(parts[0]));
        lemma_consume_name(p0, j, Seq::<char>::empty());
        assert(Seq::<char>::empty() + p0 =~= p0);
        // j is empty or starts with a slash
        if parts.drop_first().len() == 0 {
            assert(j =~= Seq::<char>::empty());
            assert(parts =~= seq![p0]);
        } else {
            assert(j[0] == '/');
            assert(parts_from(j, p0) == seq![p0] + parts_from(j.drop_first(), Seq::<char>::empty()));
            assert(parts_from(j, Seq::<char>::empty()) == Seq::<Seq<char>>::empty() + parts_from(j.drop_first(), Seq::<char>::empty()));
            assert(Seq::<Seq<char>>::empty() + parts_from(j.drop_first(), Seq::<char>::empty()) =~= parts_from(j.drop_first(), Seq::<char>::empty()));
            assert(seq![p0] + parts.drop_first() =~= parts);
        }
        assert(Seq::<Seq<char>>::empty() + parts_from(p0 + j, Seq::<char>::empty()) =~= parts_from(p0 + j, Seq::<char>::empty()));
    }
}

/// Going to the last breadcrumb of a path shows the same breadcrumbs: the
/// path built from the breadcrumbs parses back to them.
pub proof fn law_last_breadcrumb_round_trip(path: Seq<char>)
    ensures
        path_segments(path_to_index(path_segments(path), path_segments(path).len() - 1))
            == path_segments(path),
{
    reveal_strlit("/");
    let segs = path_segments(path);
    let ps = parts_from(path, Seq::<char>::empty());
    lemma_parts_are_parts(path, Seq::<char>::empty());
    if segs.len() == 1 {
        assert(ps.len() == 0);
        let root: Seq<char> = "/"@;
        assert(root[0] == '/');
        assert(root.drop_first() =~= Seq::<char>::empty());
        assert(parts_from(root.drop_first(), Seq::<char>::empty()) =~= Seq::<Seq<char>>::empty());
        assert(parts_from(root, Seq::<char>::empty()) == Seq::<Seq<char>>::empty() + parts_from(root.drop_first(), Seq::<char>::empty()));
        assert(parts_from(root, Seq::<char>::empty()) =~= Seq::<Seq<char>>::empty());
        assert(path_segments(root) =~= segs);
    } else {
        assert(segs.subrange(1, segs.len() as int) =~= ps);
        lemma_join_same(ps);
        lemma_parts_of_join(ps);
        assert(path_segments(join_parts(ps)) =~= segs);
    }
}

/// Going back and then forward returns to the same path and history
/// position.
pub proof fn law_back_then_forward(a: PathBar, b: PathBar, c: PathBar)
    requires
        a.wf(),
        a.index_spec() > 0,
        b.index_spec() == a.index_spec() - 1,
        b.current_spec() == a.history_spec()[a.index_spec() - 1],
        b.history_spec() == a.history_spec(),
        b.wf(),
        c.index_spec() == b.index_spec() + 1,
        c.current_spec() == b.history_spec()[b.index_spec() + 1],
        c.history_spec() == b.history_spec(),
    ensures
        c.current_spec() == a.current_spec(),
        c.index_spec() == a.index_spec(),
        c.history_spec() == a.history_spec(),
{
}

/// The path bar.
pub struct PathBar {
    current_path: String,
    path_segments: Vec<String>,
    mode: PathBarMode,
    edit_text: String,
    history: Vec<String>,
    history_index: usize,
    home_path: Option<String>,
    show_hidden: bool,
    events: Vec<PathBarEvent>,
}

impl PathBar {
    /// The current path.
    pub closed spec fn current_spec(&self) -> Seq<char> {
        self.current_path@
    }

    /// The breadcrumbs.
    pub closed spec fn segments_spec(&self) -> Seq<Seq<char>> {
        views(self.path_segments@)
    }

    /// The mode.
    pub closed spec fn mode_spec(&self) -> PathBarMode {
        self.mode
    }

    /// The text being edited.
    pub closed spec fn edit_spec(&self) -> Seq<char> {
        self.edit_text@
    }

    /// The visited paths.
    pub closed spec fn history_spec(&self) -> Seq<Seq<char>> {
        views(self.history@)
    }

    /// The position in the history.
    pub closed spec fn index_spec(&self) -> int {
        self.history_index as int
    }

    /// The home directory, if known.
    pub closed spec fn home_spec(&self) -> Option<Seq<char>> {
        match self.home_path {
            Some(h) => Some(h@),
            None => None,
        }
    }

    /// Whether hidden files are shown.
    pub closed spec fn show_hidden_spec(&self) -> bool {
        self.show_hidden
    }

    /// The events not yet taken.
    pub closed spec fn events_spec(&self) -> Seq<PathBarEvent> {
        self.events@
    }

    /// `b` agrees with `a` on the path, the breadcrumbs, the history, the
    /// home directory and the hidden-file switch.
    pub open spec fn same_place(a: PathBar, b: PathBar) -> bool {
        &&& b.current_spec() == a.current_spec()
        &&& b.segments_spec() == a.segments_spec()
        &&& b.history_spec() == a.history_spec()
        &&& b.index_spec() == a.index_spec()
        &&& b.home_spec() == a.home_spec()
        &&& b.show_hidden_spec() == a.show_hidden_spec()
    }

    /// Well-formedness: the history is not empty, its position lies in it,
    /// the current path is the history entry at that position, and the
    /// breadcrumbs are those of the current path.
    pub open spec fn wf(&self) -> bool {
        &&& self.history_spec().len() > 0
        &&& 0 <= self.index_spec() < self.history_spec().len()
        &&& self.segments_spec() == path_segments(self.current_spec())
        &&& self.current_spec() == self.history_spec()[self.index_spec()]
    }

    /// A bar at the root, with the root as only history entry.
    pub fn new() -> (r: PathBar)
        ensures
            r.wf(),
            r.current_spec() == "/"@,
            r.mode_spec() == PathBarMode::Display,
            r.edit_spec().len() == 0,
            r.history_spec() == seq!["/"@],
            r.index_spec() == 0,
            r.home_spec() is None,
            !r.show_hidden_spec(),
            r.events_spec().len() == 0,
    {
        let mut history: Vec<String> = Vec::new();
        history.push(owned("/"));
        let root = owned("/");
        let segments = parse_path(root.as_str());
        let r = PathBar {
            current_path: root,
            path_segments: segments,
            mode: PathBarMode::Display,
            edit_text: String::new(),
            history,
            history_index: 0,
            home_path: None,
            show_hidden: false,
            events: Vec::new(),
        };
        proof {
            assert(views(r.history@) =~= seq!["/"@]);
        }
        r
    }

    /// Shows `path`. The history drops what lay ahead of the current
    /// position, then `path` is appended (and becomes the position) unless
    /// it already ends the history.
    pub fn set_path(&mut self, path: &str)
        requires
            old(self).wf(),
        ensures
            final(self).wf(),
            final(self).current_spec() == path@,
            final(self).edit_spec() == path@,
            final(self).mode_spec() == old(self).mode_spec(),
            final(self).events_spec() == old(self).events_spec(),
            ({
                let kept = old(self).history_spec().subrange(0, old(self).index_spec() + 1);
                if kept.last() == path@ {
                    final(self).history_spec() == kept && final(self).index_spec() == kept.len() - 1
                } else {
                    final(self).history_spec() == kept.push(path@) && final(self).index_spec()
                        == kept.len()
                }
            }),
    {
        self.current_path = owned(path);
        self.path_segments = parse_path(path);
        self.edit_text = owned(path);
        let ghost old_hist = views(self.history@);
        if self.history_index < self.history.len() - 1 {
            self.history.truncate(self.history_index + 1);
        }
        proof {
            assert(views(self.history@) =~= old_hist.subrange(0, self.history_index + 1));
        }
        let last = self.history.len() - 1;
        if !str_eq(self.history[last].as_str(), path) {
            self.history.push(owned(path));
            self.history_index = self.history.len() - 1;
            proof {
                assert(views(self.history@) =~= old_hist.subrange(0, self.history_index as int).push(path@));
            }
        } else {
            self.history_index = last;
        }
    }

    /// Sets the home directory.
    pub fn set_home_path(&mut self, path: Option<String>)
        ensures
            final(self).home_spec() == (match path {
                Some(h) => Some(h@),
                None => None,
            }),
            final(self).current_spec() == old(self).current_spec(),
            final(self).segments_spec() == old(self).segments_spec(),
            final(self).history_spec() == old(self).history_spec(),
            final(self).index_spec() == old(self).index_spec(),
            final(self).mode_spec() == old(self).mode_spec(),
            final(self).edit_spec() == old(self).edit_spec(),
            final(self).events_spec() == old(self).events_spec(),
    {
        self.home_path = path;
    }

    /// Sets whether hidden files are shown.
    pub fn set_show_hidden(&mut self, show: bool)
        ensures
            final(self).show_hidden_spec() == show,
            final(self).current_spec() == old(self).current_spec(),
            final(self).segments_spec() == old(self).segments_spec(),
            final(self).history_spec() == old(self).history_spec(),
            final(self).index_spec() == old(self).index_spec(),
            final(self).mode_spec() == old(self).mode_spec(),
            final(self).edit_spec() == old(self).edit_spec(),
            final(self).events_spec() == old(self).events_spec(),
    {
        self.show_hidden = show;
    }

    /// The current path.
    pub fn current_path(&self) -> (r: &str)
        ensures
            r@ == self.current_spec(),
    {
        self.current_path.as_str()
    }

    /// The breadcrumbs.
    pub fn segments(&self) -> (r: &Vec<String>)
        ensures
            views(r@) == self.segments_spec(),
    {
        &self.path_segments
    }

    /// The mode.
    pub fn mode(&self) -> (r: PathBarMode)
        ensures
            r == self.mode_spec(),
    {
        self.mode
    }

    /// The text being edited.
    pub fn edit_text(&self) -> (r: &str)
        ensures
            r@ == self.edit_spec(),
    {
        self.edit_text.as_str()
    }

    /// Whether there is an entry before the current one.
    pub fn can_go_back(&self) -> (r: bool)
        ensures
            r == (self.index_spec() > 0),
    {
        self.history_index > 0
    }

    /// Whether there is an entry after the current one.
    pub fn can_go_forward(&self) -> (r: bool)
        ensures
            r == (self.index_spec() < self.history_spec().len() - 1),
    {
        self.history_index < self.history.len().saturating_sub(1)
    }

    /// Whether the current path is not the root.
    pub fn can_go_up(&self) -> (r: bool)
        ensures
            r == (self.current_spec() != "/"@),
    {
        !str_eq(self.current_path.as_str(), "/")
    }

    /// Switches to the text field, filled with the current path.
    pub fn enter_edit_mode(&mut self)
        ensures
            Self::same_place(*old(self), *final(self)) && final(self).mode_spec() == PathBarMode::Edit && final(self).events_spec() == old(self).events_spec(),
            final(self).edit_spec() == old(self).current_spec(),
    {
        self.mode = PathBarMode::Edit;
        self.edit_text = self.current_path.clone();
    }

    /// Back to breadcrumbs; the text field is reset to the current path.
    pub fn exit_edit_mode(&mut self)
        ensures
            Self::same_place(*old(self), *final(self)) && final(self).mode_spec() == PathBarMode::Display && final(self).events_spec() == old(self).events_spec(),
            final(self).edit_spec() == old(self).current_spec(),
    {
        self.mode = PathBarMode::Display;
        self.edit_text = self.current_path.clone();
    }

    /// Submits the typed path: when it is not blank, back to breadcrumbs
    /// and a request to go to the trimmed path.
    pub fn submit_edit(&mut self)
        ensures
            trim_spec(old(self).edit_spec()).len() == 0 ==> *final(self) == *old(self),
            trim_spec(old(self).edit_spec()).len() > 0 ==> {
                &&& final(self).mode_spec() == PathBarMode::Display
                &&& final(self).events_spec().len() == old(self).events_spec().len() + 1
                &&& final(self).events_spec().drop_last() == old(self).events_spec()
                &&& final(self).events_spec().last() matches PathBarEvent::NavigateTo(p) && p@
                    == trim_spec(old(self).edit_spec())
                &&& Self::same_place(*old(self), *final(self)) && final(self).edit_spec() == old(self).edit_spec()
            },
    {
        if trim_is_empty(self.edit_text.as_str()) {
            return;
        }
        let path = trim(self.edit_text.as_str());
        self.mode = PathBarMode::Display;
        self.events.push(PathBarEvent::NavigateTo(path));
        proof {
            assert(self.events@.drop_last() =~= old(self).events@);
        }
    }

    /// Handles a key in text mode (nothing happens in breadcrumb mode):
    /// `escape` leaves text mode, `enter` submits, `backspace` deletes the
    /// last character, `space` types a space, and a one-byte key types
    /// itself unless Control or Alt is held.
    pub fn handle_key_down(&mut self, key: &str, control: bool, alt: bool)
        ensures
            old(self).mode_spec() != PathBarMode::Edit ==> *final(self) == *old(self),
            old(self).mode_spec() == PathBarMode::Edit ==> {
                if key@ == "escape"@ {
                    Self::same_place(*old(self), *final(self)) && final(self).mode_spec() == PathBarMode::Display && final(self).events_spec() == old(self).events_spec()
                        && final(self).edit_spec() == old(self).current_spec()
                } else if key@ == "enter"@ {
                    (trim_spec(old(self).edit_spec()).len() == 0 ==> *final(self) == *old(self)) && (
                    trim_spec(old(self).edit_spec()).len() > 0 ==> (final(self).mode_spec()
                        == PathBarMode::Display && (final(self).events_spec().last() matches PathBarEvent::NavigateTo(p) && p@
                        == trim_spec(old(self).edit_spec()))))
                } else if key@ == "backspace"@ {
                    Self::same_place(*old(self), *final(self)) && final(self).mode_spec() == old(self).mode_spec() && final(self).events_spec() == old(self).events_spec()
                        && final(self).edit_spec() == (if old(self).edit_spec().len() > 0 {
                        old(self).edit_spec().drop_last()
                    } else {
                        old(self).edit_spec()
                    })
                } else if key.len() == 1 {
                    Self::same_place(*old(self), *final(self)) && final(self).mode_spec() == old(self).mode_spec() && final(self).events_spec() == old(self).events_spec()
                        && final(self).edit_spec() == (if !control && !alt {
                        old(self).edit_spec() + key@
                    } else {
                        old(self).edit_spec()
                    })
                } else if key@ == "space"@ {
                    Self::same_place(*old(self), *final(self)) && final(self).mode_spec() == old(self).mode_spec() && final(self).events_spec() == old(self).events_spec()
                        && final(self).edit_spec() == old(self).edit_spec() + " "@
                } else {
                    *final(self) == *old(self)
                }
            },
    {
        if self.mode != PathBarMode::Edit {
            return;
        }
        if str_eq(key, "escape") {
            self.exit_edit_mode();
        } else if str_eq(key, "enter") {
            self.submit_edit();
        } else if str_eq(key, "backspace") {
            let n = self.edit_text.as_str().unicode_len();
            if n > 0 {
                let t = String::from_str(self.edit_text.as_str().substring_char(0, n - 1));
                self.edit_text = t;
                proof {
                    assert(self.edit_text@ =~= old(self).edit_text@.drop_last());
                }
            }
        } else if key.len() == 1 {
            if !control && !alt {
                self.edit_text.append(key);
            }
        } else if str_eq(key, "space") {
            self.edit_text.append(" ");
        }
    }

    /// Asks to go to the path of the breadcrumb at `index`.
    pub fn navigate_to_segment(&mut self, index: usize)
        requires
            old(self).wf(),
            index < old(self).segments_spec().len(),
        ensures
            Self::same_place(*old(self), *final(self)) && final(self).mode_spec() == old(self).mode_spec() && final(self).edit_spec() == old(self).edit_spec(),
            final(self).events_spec().drop_last() == old(self).events_spec(),
            final(self).events_spec().len() == old(self).events_spec().len() + 1,
            final(self).events_spec().last() matches PathBarEvent::NavigateTo(p) && p@
                == path_to_index(old(self).segments_spec(), index as int),
    {
        let p = build_path_to_index(&self.path_segments, index);
        self.events.push(PathBarEvent::NavigateTo(p));
        proof {
            assert(self.events@.drop_last() =~= old(self).events@);
        }
    }

    /// Goes one entry back in the history, when there is one, and asks to
    /// go there.
    pub fn go_back(&mut self)
        requires
            old(self).wf(),
        ensures
            final(self).wf(),
            old(self).index_spec() == 0 ==> *final(self) == *old(self),
            old(self).index_spec() > 0 ==> {
                &&& final(self).index_spec() == old(self).index_spec() - 1
                &&& final(self).current_spec() == old(self).history_spec()[old(self).index_spec() - 1]
                &&& final(self).history_spec() == old(self).history_spec()
                &&& final(self).mode_spec() == old(self).mode_spec()
                &&& final(self).edit_spec() == old(self).edit_spec()
                &&& final(self).events_spec().drop_last() == old(self).events_spec()
                &&& final(self).events_spec().len() == old(self).events_spec().len() + 1
                &&& final(self).events_spec().last() matches PathBarEvent::NavigateTo(p) && p@
                    == final(self).current_spec()
            },
    {
        if self.history_index > 0 {
            self.history_index = self.history_index - 1;
            self.visit_history_entry();
        }
    }

    /// Goes one entry forward in the history, when there is one, and asks
    /// to go there.
    pub fn go_forward(&mut self)
        requires
            old(self).wf(),
        ensures
            final(self).wf(),
            old(self).index_spec() >= old(self).history_spec().len() - 1 ==> *final(self) == *old(self),
            old(self).index_spec() < old(self).history_spec().len() - 1 ==> {
                &&& final(self).index_spec() == old(self).index_spec() + 1
                &&& final(self).current_spec() == old(self).history_spec()[old(self).index_spec() + 1]
                &&& final(self).history_spec() == old(self).history_spec()
                &&& final(self).mode_spec() == old(self).mode_spec()
                &&& final(self).edit_spec() == old(self).edit_spec()
                &&& final(self).events_spec().drop_last() == old(self).events_spec()
                &&& final(self).events_spec().len() == old(self).events_spec().len() + 1
                &&& final(self).events_spec().last() matches PathBarEvent::NavigateTo(p) && p@
                    == final(self).current_spec()
            },
    {
        if self.history_index < self.history.len().saturating_sub(1) {
            self.history_index = self.history_index + 1;
            self.visit_history_entry();
        }
    }

    fn visit_history_entry(&mut self)
        requires
            0 <= old(self).history_index < old(self).history@.len(),
        ensures
            final(self).wf(),
            final(self).index_spec() == old(self).index_spec(),
            final(self).current_spec() == old(self).history_spec()[old(self).index_spec()],
            final(self).history_spec() == old(self).history_spec(),
            final(self).mode_spec() == old(self).mode_spec(),
            final(self).edit_spec() == old(self).edit_spec(),
            final(self).events_spec().drop_last() == old(self).events_spec(),
            final(self).events_spec().len() == old(self).events_spec().len() + 1,
            final(self).events_spec().last() matches PathBarEvent::NavigateTo(p) && p@
                == final(self).current_spec(),
    {
        let path = self.history[self.history_index].clone();
        self.path_segments = parse_path(path.as_str());
        self.current_path = path.clone();
        self.events.push(PathBarEvent::NavigateTo(path));
        proof {
            assert(self.events@.drop_last() =~= old(self).events@);
        }
    }

    /// Hands over the events reported since the last call.
    pub fn take_events(&mut self) -> (r: Vec<PathBarEvent>)
        ensures
            r@ == old(self).events_spec(),
            final(self).events_spec().len() == 0,
            Self::same_place(*old(self), *final(self)) && final(self).mode_spec() == old(self).mode_spec() && final(self).edit_spec() == old(self).edit_spec(),
    {
        let mut r = Vec::new();
        std::mem::swap(&mut r, &mut self.events);
        r
    }
}

} // verus!
