//! The error notification: a title, a message, and optional retry.

use vstd::prelude::*;
use vstd::string::*;

use crate::text::owned;

verus! {

/// What the notification tells its owner.
#[derive(Debug, Clone, Copy, PartialEq, Eq, Structural)]
pub enum ErrorNotificationEvent {
    Closed,
    RetryRequested,
}

/// The notification's state. The owner keeps the callbacks to run on its
/// events.
pub struct ErrorNotification {
    pub title: String,
    pub message: String,
    /// Whether a retry button is shown.
    pub show_retry: bool,
    /// Whether the notification goes away by itself.
    pub auto_dismiss: bool,
    /// After how many seconds it goes away by itself.
    pub dismiss_delay_secs: u64,
    /// The events not yet handed out.
    pub events: Vec<ErrorNotificationEvent>,
}

impl ErrorNotification {
    /// `Error`, no message, no retry, going away after 8 seconds.
    pub fn new() -> (r: ErrorNotification)
        ensures
            r.title@ == "Error"@,
            r.message@.len() == 0,
            !r.show_retry,
            r.auto_dismiss,
            r.dismiss_delay_secs == 8,
            r.events@.len() == 0,
    {
        ErrorNotification {
            title: owned("Error"),
            message: String::new(),
            show_retry: false,
            auto_dismiss: true,
            dismiss_delay_secs: 8,
            events: Vec::new(),
        }
    }

    /// With the given title.
    pub fn with_title(self, title: String) -> (r: ErrorNotification)
        ensures
            r == (ErrorNotification { title, ..self }),
    {
        ErrorNotification { title, ..self }
    }

    /// With the given message.
    pub fn with_message(self, message: String) -> (r: ErrorNotification)
        ensures
            r == (ErrorNotification { message, ..self }),
    {
        ErrorNotification { message, ..self }
    }

    /// With or without the retry button.
    pub fn with_retry(self, show: bool) -> (r: ErrorNotification)
        ensures
            r == (ErrorNotification { show_retry: show, ..self }),
    {
        ErrorNotification { show_retry: show, ..self }
    }

    /// Going away by itself, or not.
    pub fn with_auto_dismiss(self, auto_dismiss: bool) -> (r: ErrorNotification)
        ensures
            r == (ErrorNotification { auto_dismiss, ..self }),
    {
        ErrorNotification { auto_dismiss, ..self }
    }

    /// Going away after `secs` seconds.
    pub fn with_dismiss_delay(self, secs: u64) -> (r: ErrorNotification)
        ensures
            r == (ErrorNotification { dismiss_delay_secs: secs, ..self }),
    {
        ErrorNotification { dismiss_delay_secs: secs, ..self }
    }

    /// With a retry handler (kept by the owner): the retry button shows.
    pub fn with_on_retry(self) -> (r: ErrorNotification)
        ensures
            r == (ErrorNotification { show_retry: true, ..self }),
    {
        ErrorNotification { show_retry: true, ..self }
    }

    /// Closes the notification.
    pub fn close(&mut self)
        ensures
            final(self).events@ == old(self).events@.push(ErrorNotificationEvent::Closed),
            final(self).title == old(self).title,
            final(self).message == old(self).message,
            final(self).show_retry == old(self).show_retry,
    {
        self.events.push(ErrorNotificationEvent::Closed);
    }

    /// Asks for a retry.
    pub fn handle_retry(&mut self)
        ensures
            final(self).events@ == old(self).events@.push(ErrorNotificationEvent::RetryRequested),
            final(self).title == old(self).title,
            final(self).message == old(self).message,
            final(self).show_retry == old(self).show_retry,
    {
        self.events.push(ErrorNotificationEvent::RetryRequested);
    }

    /// Hands out the events, oldest first, and forgets them.
    pub fn take_events(&mut self) -> (r: Vec<ErrorNotificationEvent>)
        ensures
            r@ == old(self).events@,
            final(self).events@.len() == 0,
            final(self).title == old(self).title,
            final(self).message == old(self).message,
            final(self).show_retry == old(self).show_retry,
    {
        let mut r: Vec<ErrorNotificationEvent> = Vec::new();
        std::mem::swap(&mut r, &mut self.events);
        r
    }
}

} // verus!
