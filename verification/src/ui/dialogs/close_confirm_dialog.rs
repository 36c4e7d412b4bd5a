//! The confirmation asked before closing tabs or the application while SSH
//! connections are active.

use vstd::prelude::*;
use vstd::string::*;

use crate::text::{decimal, owned, push_decimal, str_eq};

verus! {

/// The answer of the confirmation.
#[derive(Debug, Clone, Copy, PartialEq, Eq, Structural)]
pub enum CloseConfirmEvent {
    Confirmed,
    Cancelled,
}

/// What is being closed.
#[derive(Debug, Clone, Copy, PartialEq, Eq, Structural)]
pub enum CloseConfirmType {
    CloseTab,
    CloseTabs,
    CloseApplication,
    /// Every tab but the current one.
    CloseOtherTabs,
}

/// `singular` for one, `plural` otherwise.
pub open spec fn plural(count: nat, singular: Seq<char>, plural: Seq<char>) -> Seq<char> {
    if count == 1 {
        singular
    } else {
        plural
    }
}

/// The explanation for closing with `count` active connections.
pub open spec fn close_description(t: CloseConfirmType, count: nat) -> Seq<char> {
    match t {
        CloseConfirmType::CloseTab => "This tab has an active SSH connection. Closing it will disconnect the session."@,
        CloseConfirmType::CloseTabs => decimal(count)
            + " tabs have active SSH connections. Closing them will disconnect all sessions."@,
        CloseConfirmType::CloseApplication => "There "@ + plural(count, "is"@, "are"@) + " "@ + decimal(count)
            + " active SSH connection"@ + plural(count, ""@, "s"@)
            + ". Quitting will disconnect all sessions."@,
        CloseConfirmType::CloseOtherTabs => decimal(count) + " other tab"@ + plural(count, ""@, "s"@) + " "@
            + plural(count, "has"@, "have"@)
            + " active SSH connections. Closing them will disconnect these sessions."@,
    }
}

fn plural_str(count: usize, singular: &'static str, many: &'static str) -> (r: &'static str)
    ensures
        r@ == plural(count as nat, singular@, many@),
{
    if count == 1 {
        singular
    } else {
        many
    }
}

impl CloseConfirmType {
    /// The dialog's title.
    pub fn title(&self) -> (r: &'static str)
        ensures
            r@ == (match *self {
                CloseConfirmType::CloseTab => "Close Tab?"@,
                CloseConfirmType::CloseTabs => "Close Tabs?"@,
                CloseConfirmType::CloseApplication => "Quit Application?"@,
                CloseConfirmType::CloseOtherTabs => "Close Other Tabs?"@,
            }),
    {
        match self {
            CloseConfirmType::CloseTab => "Close Tab?",
            CloseConfirmType::CloseTabs => "Close Tabs?",
            CloseConfirmType::CloseApplication => "Quit Application?",
            CloseConfirmType::CloseOtherTabs => "Close Other Tabs?",
        }
    }

    /// The explanation, for `count` active connections.
    pub fn description(&self, count: usize) -> (r: String)
        ensures
            r@ == close_description(*self, count as nat),
    {
        match self {
            CloseConfirmType::CloseTab => owned(
                "This tab has an active SSH connection. Closing it will disconnect the session.",
            ),
            CloseConfirmType::CloseTabs => {
                let mut s = String::new();
                push_decimal(&mut s, count as u64);
                s.append(" tabs have active SSH connections. Closing them will disconnect all sessions.");
                s
            },
            CloseConfirmType::CloseApplication => {
                let mut s = owned("There ");
                s.append(plural_str(count, "is", "are"));
                s.append(" ");
                push_decimal(&mut s, count as u64);
                s.append(" active SSH connection");
                s.append(plural_str(count, "", "s"));
                s.append(". Quitting will disconnect all sessions.");
                s
            },
            CloseConfirmType::CloseOtherTabs => {
                let mut s = String::new();
                push_decimal(&mut s, count as u64);
                s.append(" other tab");
                s.append(plural_str(count, "", "s"));
                s.append(" ");
                s.append(plural_str(count, "has", "have"));
                s.append(" active SSH connections. Closing them will disconnect these sessions.");
                s
            },
        }
    }

    /// The label of the confirming button.
    pub fn confirm_button_text(&self) -> (r: &'static str)
        ensures
            r@ == (match *self {
                CloseConfirmType::CloseTab => "Close Tab"@,
                CloseConfirmType::CloseTabs => "Close All"@,
                CloseConfirmType::CloseApplication => "Quit"@,
                CloseConfirmType::CloseOtherTabs => "Close Others"@,
            }),
    {
        match self {
            CloseConfirmType::CloseTab => "Close Tab",
            CloseConfirmType::CloseTabs => "Close All",
            CloseConfirmType::CloseApplication => "Quit",
            CloseConfirmType::CloseOtherTabs => "Close Others",
        }
    }

    /// The dialog's icon.
    pub fn icon(&self) -> (r: &'static str)
        ensures
            r@ == (match *self {
                CloseConfirmType::CloseApplication => "🚪"@,
                _ => "⚠️"@,
            }),
    {
        match self {
            CloseConfirmType::CloseTab => "⚠️",
            CloseConfirmType::CloseTabs => "⚠️",
            CloseConfirmType::CloseApplication => "🚪",
            CloseConfirmType::CloseOtherTabs => "⚠️",
        }
    }
}

/// The confirmation's state.
pub struct CloseConfirmDialog {
    pub close_type: CloseConfirmType,
    /// The connections that closing ends.
    pub affected_connections: Vec<String>,
    /// Whether the list of connections is unfolded.
    pub show_details: bool,
    /// The answers not yet handed out.
    pub events: Vec<CloseConfirmEvent>,
}

impl CloseConfirmDialog {
    /// A folded confirmation.
    pub fn new(close_type: CloseConfirmType, affected_connections: Vec<String>) -> (r: CloseConfirmDialog)
        ensures
            r.close_type == close_type,
            r.affected_connections == affected_connections,
            !r.show_details,
            r.events@.len() == 0,
    {
        CloseConfirmDialog { close_type, affected_connections, show_details: false, events: Vec::new() }
    }

    /// The confirmation for closing one tab with the given connection.
    pub fn close_tab(connection_name: String) -> (r: CloseConfirmDialog)
        ensures
            r.close_type == CloseConfirmType::CloseTab,
            r.affected_connections@ == seq![connection_name],
            !r.show_details,
            r.events@.len() == 0,
    {
        let v = vec![connection_name];
        CloseConfirmDialog::new(CloseConfirmType::CloseTab, v)
    }

    /// The confirmation for quitting with the given connections.
    pub fn close_application(affected_connections: Vec<String>) -> (r: CloseConfirmDialog)
        ensures
            r.close_type == CloseConfirmType::CloseApplication,
            r.affected_connections == affected_connections,
            !r.show_details,
            r.events@.len() == 0,
    {
        CloseConfirmDialog::new(CloseConfirmType::CloseApplication, affected_connections)
    }

    /// The number of connections that closing ends.
    pub fn connection_count(&self) -> (r: usize)
        ensures
            r == self.affected_connections@.len(),
    {
        self.affected_connections.len()
    }

    /// Folds or unfolds the list of connections.
    pub fn toggle_details(&mut self)
        ensures
            final(self).show_details == !old(self).show_details,
            final(self).affected_connections == old(self).affected_connections,
            final(self).close_type == old(self).close_type,
            final(self).events == old(self).events,
    {
        self.show_details = !self.show_details;
    }

    /// The explanation shown.
    pub fn description(&self) -> (r: String)
        ensures
            r@ == close_description(self.close_type, self.affected_connections@.len()),
    {
        self.close_type.description(self.affected_connections.len())
    }

    /// The heading of the list of connections, `3 Active Connections`.
    pub fn connections_heading(&self) -> (r: String)
        ensures
            r@ == decimal(self.affected_connections@.len()) + " Active Connection"@ + plural(
                self.affected_connections@.len(),
                ""@,
                "s"@,
            ),
    {
        let n = self.affected_connections.len();
        let mut s = String::new();
        push_decimal(&mut s, n as u64);
        s.append(" Active Connection");
        s.append(plural_str(n, "", "s"));
        s
    }

    /// Confirms the closing.
    pub fn confirm(&mut self)
        ensures
            final(self).events@ == old(self).events@.push(CloseConfirmEvent::Confirmed),
            final(self).show_details == old(self).show_details,
            final(self).affected_connections == old(self).affected_connections,
            final(self).close_type == old(self).close_type,
    {
        self.events.push(CloseConfirmEvent::Confirmed);
    }

    /// Cancels the closing (also what a click beside the dialog does).
    pub fn cancel(&mut self)
        ensures
            final(self).events@ == old(self).events@.push(CloseConfirmEvent::Cancelled),
            final(self).show_details == old(self).show_details,
            final(self).affected_connections == old(self).affected_connections,
            final(self).close_type == old(self).close_type,
    {
        self.events.push(CloseConfirmEvent::Cancelled);
    }

    /// Escape cancels; so does enter, the safer answer; other keys do
    /// nothing.
    pub fn handle_key_down(&mut self, key: &str)
        ensures
            final(self).events@ == if key@ == "escape"@ || key@ == "enter"@ {
                old(self).events@.push(CloseConfirmEvent::Cancelled)
            } else {
                old(self).events@
            },
            final(self).show_details == old(self).show_details,
            final(self).affected_connections == old(self).affected_connections,
            final(self).close_type == old(self).close_type,
    {
        if str_eq(key, "escape") || str_eq(key, "enter") {
            self.cancel();
        }
    }

    /// Hands out the answers, oldest first, and forgets them.
    pub fn take_events(&mut self) -> (r: Vec<CloseConfirmEvent>)
        ensures
            r@ == old(self).events@,
            final(self).events@.len() == 0,
            final(self).show_details == old(self).show_details,
            final(self).affected_connections == old(self).affected_connections,
            final(self).close_type == old(self).close_type,
    {
        let mut r: Vec<CloseConfirmEvent> = Vec::new();
        std::mem::swap(&mut r, &mut self.events);
        r
    }
}

} // verus!
