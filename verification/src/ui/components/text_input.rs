//! A one-line text input: its text, its cursor (a character index), and
//! the editing operations on them.

use vstd::prelude::*;
use vstd::string::*;

use crate::text::owned;

verus! {

/// What the input tells its owner.
#[derive(Debug)]
pub enum TextInputEvent {
    /// The text changed to this.
    Changed(String),
    /// Enter was pressed on this text.
    Submitted(String),
}

/// `n` bullets.
pub open spec fn bullets(n: nat) -> Seq<char> {
    Seq::new(n, |i: int| '•')
}

/// The input's state.
pub struct TextInput {
    value: String,
    cursor_position: usize,
    placeholder: String,
    is_password: bool,
    is_readonly: bool,
    events: Vec<TextInputEvent>,
}

impl TextInput {
    /// The text.
    pub closed spec fn value_spec(&self) -> Seq<char> {
        self.value@
    }

    /// The cursor, as the number of characters before it.
    pub closed spec fn cursor_spec(&self) -> nat {
        self.cursor_position as nat
    }

    /// The text shown when the input is empty.
    pub closed spec fn placeholder_spec(&self) -> Seq<char> {
        self.placeholder@
    }

    /// Whether the text is masked.
    pub closed spec fn password_spec(&self) -> bool {
        self.is_password
    }

    /// Whether editing is refused.
    pub closed spec fn readonly_spec(&self) -> bool {
        self.is_readonly
    }

    /// The events not yet handed out, with the texts they carry.
    pub closed spec fn events_spec(&self) -> Seq<TextInputEvent> {
        self.events@
    }

    /// Well-formedness: the cursor lies within the text.
    pub open spec fn wf(&self) -> bool {
        self.cursor_spec() <= self.value_spec().len()
    }

    /// An empty, editable, unmasked input.
    pub fn new() -> (r: TextInput)
        ensures
            r.wf(),
            r.value_spec().len() == 0,
            r.cursor_spec() == 0,
            r.placeholder_spec().len() == 0,
            !r.password_spec(),
            !r.readonly_spec(),
            r.events_spec().len() == 0,
    {
        TextInput {
            value: String::new(),
            cursor_position: 0,
            placeholder: String::new(),
            is_password: false,
            is_readonly: false,
            events: Vec::new(),
        }
    }

    /// With the text `value` and the cursor at its end.
    pub fn with_value(self, value: String) -> (r: TextInput)
        ensures
            r.wf(),
            r.value_spec() == value@,
            r.cursor_spec() == value@.len(),
            r.placeholder_spec() == self.placeholder_spec(),
            r.password_spec() == self.password_spec(),
            r.readonly_spec() == self.readonly_spec(),
            r.events_spec() == self.events_spec(),
    {
        let n = value.as_str().unicode_len();
        TextInput { value, cursor_position: n, ..self }
    }

    /// With the given placeholder.
    pub fn with_placeholder(self, placeholder: String) -> (r: TextInput)
        requires
            self.wf(),
        ensures
            r.wf(),
            r.placeholder_spec() == placeholder@,
            r.value_spec() == self.value_spec(),
            r.cursor_spec() == self.cursor_spec(),
            r.password_spec() == self.password_spec(),
            r.readonly_spec() == self.readonly_spec(),
            r.events_spec() == self.events_spec(),
    {
        TextInput { placeholder, ..self }
    }

    /// Masked or not.
    pub fn with_password(self, is_password: bool) -> (r: TextInput)
        requires
            self.wf(),
        ensures
            r.wf(),
            r.password_spec() == is_password,
            r.value_spec() == self.value_spec(),
            r.cursor_spec() == self.cursor_spec(),
            r.placeholder_spec() == self.placeholder_spec(),
            r.readonly_spec() == self.readonly_spec(),
            r.events_spec() == self.events_spec(),
    {
        TextInput { is_password, ..self }
    }

    /// Read-only or not.
    pub fn with_readonly(self, is_readonly: bool) -> (r: TextInput)
        requires
            self.wf(),
        ensures
            r.wf(),
            r.readonly_spec() == is_readonly,
            r.value_spec() == self.value_spec(),
            r.cursor_spec() == self.cursor_spec(),
            r.placeholder_spec() == self.placeholder_spec(),
            r.password_spec() == self.password_spec(),
            r.events_spec() == self.events_spec(),
    {
        TextInput { is_readonly, ..self }
    }

    /// The text.
    pub fn value(&self) -> (r: String)
        ensures
            r@ == self.value_spec(),
    {
        self.value.clone()
    }

    fn changed(&mut self)
        ensures
            final(self).events@.len() == old(self).events@.len() + 1,
            final(self).events@.drop_last() == old(self).events@,
            final(self).events@.last() matches TextInputEvent::Changed(v) && v@ == old(self).value@,
            final(self).value == old(self).value,
            final(self).cursor_position == old(self).cursor_position,
            final(self).placeholder == old(self).placeholder,
            final(self).is_password == old(self).is_password,
            final(self).is_readonly == old(self).is_readonly,
    {
        let v = self.value.clone();
        let ghost before = self.events@;
        self.events.push(TextInputEvent::Changed(v));
        proof {
            assert(self.events@.drop_last() =~= before);
        }
    }

    /// Replaces the text, puts the cursor at its end, and reports the
    /// change.
    pub fn set_value(&mut self, value: String)
        requires
            old(self).wf(),
        ensures
            final(self).wf(),
            final(self).value_spec() == value@,
            final(self).cursor_spec() == value@.len(),
            reported(final(self).events_spec(), old(self).events_spec(), value@),
            final(self).readonly_spec() == old(self).readonly_spec(),
            final(self).password_spec() == old(self).password_spec(),
    {
        let n = value.as_str().unicode_len();
        self.value = value;
        self.cursor_position = n;
        self.changed();
    }

    /// Inserts `text` at the cursor, moves the cursor past it, and reports
    /// the change; a read-only input refuses.
    pub fn insert_char(&mut self, text: &str)
        requires
            old(self).wf(),
        ensures
            final(self).wf(),
            final(self).readonly_spec() == old(self).readonly_spec(),
            final(self).password_spec() == old(self).password_spec(),
            old(self).readonly_spec() ==> *final(self) == *old(self),
            !old(self).readonly_spec() ==> {
                let c = old(self).cursor_spec() as int;
                let v = old(self).value_spec();
                &&& final(self).value_spec() == v.subrange(0, c) + text@ + v.subrange(c, v.len() as int)
                &&& final(self).cursor_spec() == c + text@.len()
                &&& reported(final(self).events_spec(), old(self).events_spec(), final(self).value_spec())
            },
    {
        if self.is_readonly {
            return;
        }
        let n = self.value.as_str().unicode_len();
        let c = self.cursor_position;
        let mut s = owned(self.value.as_str().substring_char(0, c));
        s.append(text);
        s.append(self.value.as_str().substring_char(c, n));
        let k = text.unicode_len();
        let m = s.as_str().unicode_len();
        proof {
            assert(c + k <= m);
        }
        self.value = s;
        self.cursor_position = c + k;
        self.changed();
    }

    /// Deletes the character before the cursor, moves the cursor back, and
    /// reports the change; nothing happens at the start or when read-only.
    pub fn delete_backward(&mut self)
        requires
            old(self).wf(),
        ensures
            final(self).wf(),
            final(self).readonly_spec() == old(self).readonly_spec(),
            old(self).readonly_spec() || old(self).cursor_spec() == 0 ==> *final(self) == *old(self),
            !old(self).readonly_spec() && old(self).cursor_spec() > 0 ==> {
                let c = old(self).cursor_spec() as int;
                let v = old(self).value_spec();
                &&& final(self).value_spec() == v.remove(c - 1)
                &&& final(self).cursor_spec() == c - 1
                &&& reported(final(self).events_spec(), old(self).events_spec(), final(self).value_spec())
            },
    {
        if self.is_readonly || self.cursor_position == 0 {
            return;
        }
        let n = self.value.as_str().unicode_len();
        let c = self.cursor_position;
        let mut s = owned(self.value.as_str().substring_char(0, c - 1));
        s.append(self.value.as_str().substring_char(c, n));
        proof {
            assert(s@ =~= old(self).value@.remove(c - 1));
        }
        self.value = s;
        self.cursor_position = c - 1;
        self.changed();
    }

    /// Deletes the character after the cursor and reports the change;
    /// nothing happens at the end or when read-only.
    pub fn delete_forward(&mut self)
        requires
            old(self).wf(),
        ensures
            final(self).wf(),
            final(self).readonly_spec() == old(self).readonly_spec(),
            old(self).readonly_spec() || old(self).cursor_spec() == old(self).value_spec().len()
                ==> *final(self) == *old(self),
            !old(self).readonly_spec() && old(self).cursor_spec() < old(self).value_spec().len() ==> {
                let c = old(self).cursor_spec() as int;
                let v = old(self).value_spec();
                &&& final(self).value_spec() == v.remove(c)
                &&& final(self).cursor_spec() == c
                &&& reported(final(self).events_spec(), old(self).events_spec(), final(self).value_spec())
            },
    {
        let n = self.value.as_str().unicode_len();
        let c = self.cursor_position;
        if self.is_readonly || c >= n {
            return;
        }
        let mut s = owned(self.value.as_str().substring_char(0, c));
        s.append(self.value.as_str().substring_char(c + 1, n));
        proof {
            assert(s@ =~= old(self).value@.remove(c as int));
        }
        self.value = s;
        self.changed();
    }

    /// Moves the cursor to the start.
    pub fn move_to_start(&mut self)
        requires
            old(self).wf(),
        ensures
            final(self).wf(),
            final(self).cursor_spec() == 0,
            final(self).value_spec() == old(self).value_spec(),
            final(self).events_spec() == old(self).events_spec(),
    {
        self.cursor_position = 0;
    }

    /// Moves the cursor to the end.
    pub fn move_to_end(&mut self)
        requires
            old(self).wf(),
        ensures
            final(self).wf(),
            final(self).cursor_spec() == old(self).value_spec().len(),
            final(self).value_spec() == old(self).value_spec(),
            final(self).events_spec() == old(self).events_spec(),
    {
        self.cursor_position = self.value.as_str().unicode_len();
    }

    /// Moves the cursor one character left, unless at the start.
    pub fn move_left(&mut self)
        requires
            old(self).wf(),
        ensures
            final(self).wf(),
            final(self).cursor_spec() == (if old(self).cursor_spec() > 0 {
                old(self).cursor_spec() - 1
            } else {
                0
            }),
            final(self).value_spec() == old(self).value_spec(),
            final(self).events_spec() == old(self).events_spec(),
    {
        if self.cursor_position > 0 {
            self.cursor_position = self.cursor_position - 1;
        }
    }

    /// Moves the cursor one character right, unless at the end.
    pub fn move_right(&mut self)
        requires
            old(self).wf(),
        ensures
            final(self).wf(),
            final(self).cursor_spec() == (if old(self).cursor_spec() < old(self).value_spec().len() {
                old(self).cursor_spec() + 1
            } else {
                old(self).cursor_spec()
            }),
            final(self).value_spec() == old(self).value_spec(),
            final(self).events_spec() == old(self).events_spec(),
    {
        if self.cursor_position < self.value.as_str().unicode_len() {
            self.cursor_position = self.cursor_position + 1;
        }
    }

    /// Submits the text (enter).
    pub fn handle_submit(&mut self)
        requires
            old(self).wf(),
        ensures
            final(self).wf(),
            final(self).value_spec() == old(self).value_spec(),
            final(self).cursor_spec() == old(self).cursor_spec(),
            final(self).events_spec().len() == old(self).events_spec().len() + 1,
            final(self).events_spec().drop_last() == old(self).events_spec(),
            final(self).events_spec().last() matches TextInputEvent::Submitted(v) && v@ == old(self).value_spec(),
    {
        let v = self.value.clone();
        let ghost before = self.events@;
        self.events.push(TextInputEvent::Submitted(v));
        proof {
            assert(self.events@.drop_last() =~= before);
        }
    }

    /// The text shown: a bullet per character when masked, the
    /// placeholder when empty, else the text.
    pub fn display_text(&self) -> (r: String)
        ensures
            r@ == (if self.value_spec().len() > 0 && self.password_spec() {
                bullets(self.value_spec().len())
            } else if self.value_spec().len() == 0 {
                self.placeholder_spec()
            } else {
                self.value_spec()
            }),
    {
        let n = self.value.as_str().unicode_len();
        if self.is_password && n > 0 {
            let mut s = String::new();
            let mut i: usize = 0;
            while i < n
                invariant
                    0 <= i <= n,
                    s@ == bullets(i as nat),
                decreases n - i,
            {
                s.append("•");
                proof {
                    reveal_strlit("•");
                    assert(s@ =~= bullets((i + 1) as nat));
                }
                i = i + 1;
            }
            s
        } else if n == 0 {
            self.placeholder.clone()
        } else {
            self.value.clone()
        }
    }

    /// Hands out the events, oldest first, and forgets them.
    pub fn take_events(&mut self) -> (r: Vec<TextInputEvent>)
        requires
            old(self).wf(),
        ensures
            final(self).wf(),
            r@ == old(self).events_spec(),
            final(self).events_spec().len() == 0,
            final(self).value_spec() == old(self).value_spec(),
            final(self).cursor_spec() == old(self).cursor_spec(),
    {
        let mut r: Vec<TextInputEvent> = Vec::new();
        std::mem::swap(&mut r, &mut self.events);
        r
    }
}

/// Typing one character and deleting it with backspace gives the text
/// back: `insert_char` of a one-character text at cursor `c` leaves the
/// cursor at `c + 1`, and `delete_backward` there removes exactly it.
pub proof fn law_type_then_backspace(v: Seq<char>, c: int, typed: Seq<char>)
    requires
        0 <= c <= v.len(),
        typed.len() == 1,
    ensures
        (v.subrange(0, c) + typed + v.subrange(c, v.len() as int)).remove((c + typed.len()) - 1) == v,
{
    assert((v.subrange(0, c) + typed + v.subrange(c, v.len() as int)).remove(c) =~= v);
}

/// Whether `events` is `before` with a change to `value` reported.
pub open spec fn reported(events: Seq<TextInputEvent>, before: Seq<TextInputEvent>, value: Seq<char>) -> bool {
    &&& events.len() == before.len() + 1
    &&& events.drop_last() == before
    &&& events.last() matches TextInputEvent::Changed(v) && v@ == value
}

} // verus!
