//! From the outcome of a request to what the result window shows.

use vstd::prelude::*;
use vstd::string::StringExecFns;
use crate::response::{Outcome, OutcomeView};
use crate::text::{join, joined, texts};

verus! {

/// The caveat shown under an answer that was cut off.
pub const TRUNCATION_NOTE: &'static str =
    "\n\n---\n[警告: 出力がトークン上限に達したため途中で切れています]";

/// The message of a blocked request: the reason, and the blocked categories
/// in brackets where there are any.
pub open spec fn blocked_message(reason: Seq<char>, categories: Seq<Seq<char>>) -> Seq<char> {
    if categories.len() == 0 {
        "content blocked: "@ + reason
    } else {
        "content blocked: "@ + reason + " ("@ + joined(categories, ", "@) + ")"@
    }
}

/// What the window shows for an outcome: a text to display, or an error
/// message. A truncated answer is displayed in full with the caveat after
/// it.
pub open spec fn rendered(outcome: OutcomeView) -> Result<Seq<char>, Seq<char>> {
    match outcome {
        OutcomeView::Success(text) => Ok(text),
        OutcomeView::Truncated(text) => Ok(text + TRUNCATION_NOTE@),
        OutcomeView::Blocked(reason, categories) => Err(blocked_message(reason, categories)),
        OutcomeView::Failed(message) => Err(message),
    }
}

/// The texts of a rendered outcome.
pub open spec fn result_text(r: Result<String, String>) -> Result<Seq<char>, Seq<char>> {
    match r {
        Ok(text) => Ok(text@),
        Err(message) => Err(message@),
    }
}

/// Renders an outcome for the window.
pub fn render(outcome: Outcome) -> (r: Result<String, String>)
    ensures
        result_text(r) == rendered(outcome@),
{
    match outcome {
        Outcome::Success(text) => Ok(text),
        Outcome::Truncated(text) => Ok(text.concat(TRUNCATION_NOTE)),
        Outcome::Blocked(reason, categories) => {
            let mut message = String::from_str("content blocked: ");
            message.append(reason.as_str());
            if categories.len() > 0 {
                message.append(" (");
                let list = join(&categories, ", ");
                message.append(list.as_str());
                message.append(")");
            }
            Err(message)
        },
        Outcome::Failed(message) => Err(message),
    }
}

/// What the result window shows.
#[derive(Clone, Debug, PartialEq, Eq)]
pub enum ContentState {
    Loading,
    Ready(String),
    Error(String),
}

/// What a look at the channel from the worker found.
#[derive(Debug, PartialEq, Eq)]
pub enum Delivery {
    /// Nothing yet.
    Empty,
    /// The rendered outcome.
    Arrived(Result<String, String>),
    /// The worker is gone and sent nothing.
    Disconnected,
}

/// What the window does after a look at the channel.
#[derive(Clone, Debug, PartialEq, Eq)]
pub struct DisplayUpdate {
    /// What to show from now on; `None` leaves the window as it is.
    pub state: Option<ContentState>,
    /// An error to raise as a notification as well.
    pub notify: Option<String>,
    /// Whether the window is done with the channel and drops it.
    pub finished: bool,
    /// Whether the window has to end the request itself, because the worker
    /// went away before it did.
    pub release_guard: bool,
    /// Whether to look again on the next frame.
    pub repaint: bool,
}

/// The message shown when the worker went away without an answer.
pub open spec fn disconnected_message() -> Seq<char> {
    "接続が切断されました"@
}

/// Decides what the window does with what the channel gave. Whatever
/// arrives ends the wait, an error as much as a text, and so does a worker
/// that went away; only an empty channel keeps the window waiting.
pub fn on_delivery(delivery: Delivery) -> (update: DisplayUpdate)
    ensures
        update.finished == !(delivery is Empty),
        update.release_guard == (delivery is Disconnected),
        update.repaint == (delivery is Empty),
        match delivery {
            Delivery::Empty => update.state is None && update.notify is None,
            Delivery::Arrived(Ok(text)) => {
                &&& update.state matches Some(ContentState::Ready(shown)) && shown@ == text@
                &&& update.notify is None
            },
            Delivery::Arrived(Err(message)) => {
                &&& update.state matches Some(ContentState::Error(shown)) && shown@ == message@
                &&& update.notify matches Some(raised) && raised@ == message@
            },
            Delivery::Disconnected => {
                &&& update.state matches Some(ContentState::Error(shown)) && shown@
                    == disconnected_message()
                &&& update.notify is None
            },
        },
{
    match delivery {
        Delivery::Empty => DisplayUpdate {
            state: None,
            notify: None,
            finished: false,
            release_guard: false,
            repaint: true,
        },
        Delivery::Arrived(Ok(text)) => DisplayUpdate {
            state: Some(ContentState::Ready(text)),
            notify: None,
            finished: true,
            release_guard: false,
            repaint: false,
        },
        Delivery::Arrived(Err(message)) => {
            let raised = message.clone();
            DisplayUpdate {
                state: Some(ContentState::Error(message)),
                notify: Some(raised),
                finished: true,
                release_guard: false,
                repaint: false,
            }
        },
        Delivery::Disconnected => DisplayUpdate {
            state: Some(ContentState::Error(String::from_str("接続が切断されました"))),
            notify: None,
            finished: true,
            release_guard: true,
            repaint: false,
        },
    }
}

} // verus!
