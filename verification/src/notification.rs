//! What a desktop notification says when a session completes.
use vstd::prelude::*;

use crate::timer::SessionKind;

verus! {

/// Delivers session-completion notifications outside the application domain.
pub trait Notifier {
    /// Reports that a timer session reached zero.
    fn session_completed(&mut self, session: SessionKind);
}

/// The title and text of a completion notification.
#[derive(Debug, Clone, Copy, PartialEq, Eq)]
pub struct CompletionMessage {
    pub summary: &'static str,
    pub body: &'static str,
}

/// The notification copy for each completed session kind.
pub open spec fn completion_copy(session: SessionKind) -> (Seq<char>, Seq<char>) {
    match session {
        SessionKind::Focus => ("Focus session complete"@, "Nice work. It is time for a break."@),
        SessionKind::ShortBreak => ("Short break complete"@, "Ready for another focus session?"@),
        SessionKind::LongBreak => ("Long break complete"@, "Refreshed? Your next focus session is ready."@),
    }
}

/// The notification announcing that `session` completed.
pub fn completion_message(session: SessionKind) -> (m: CompletionMessage)
    ensures
        (m.summary@, m.body@) == completion_copy(session),
{
    match session {
        SessionKind::Focus => CompletionMessage {
            summary: "Focus session complete",
            body: "Nice work. It is time for a break.",
        },
        SessionKind::ShortBreak => CompletionMessage {
            summary: "Short break complete",
            body: "Ready for another focus session?",
        },
        SessionKind::LongBreak => CompletionMessage {
            summary: "Long break complete",
            body: "Refreshed? Your next focus session is ready.",
        },
    }
}

} // verus!
