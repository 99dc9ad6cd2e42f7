//! What is sent for a player event, and what is logged of its delivery.
//!
//! Delivery itself is done by an outside collaborator; its failure is logged
//! and dropped, never passed back.
use vstd::prelude::*;
use crate::classify::{DomainEvent, EventKind};
use crate::log::{joined, LogLevel, LogRecord};

verus! {

pub open spec fn join_suffix() -> Seq<char> {
    " が Factorio サーバーに参加しました"@
}

pub open spec fn leave_suffix() -> Seq<char> {
    " が Factorio サーバーから退出しました"@
}

/// The sender name under which every notification goes out.
pub open spec fn sender_name() -> Seq<char> {
    "FactorioWatch"@
}

/// The message for a player event: the name, then a phrase that says whether
/// the player joined or left.
pub open spec fn message_text(kind: EventKind, name: Seq<char>) -> Seq<char> {
    match kind {
        EventKind::Join => name + join_suffix(),
        EventKind::Leave => name + leave_suffix(),
    }
}

pub open spec fn success_text(kind: EventKind, name: Seq<char>) -> Seq<char> {
    "notification sent: player="@ + name + match kind {
        EventKind::Join => ", is_join=true"@,
        EventKind::Leave => ", is_join=false"@,
    }
}

pub open spec fn failure_text(detail: Seq<char>) -> Seq<char> {
    "notification failed: "@ + detail
}

/// One outbound call to the delivery collaborator.
#[derive(Clone, Debug, PartialEq, Eq)]
pub struct Notification {
    pub endpoint: String,
    pub sender: String,
    pub content: String,
}

/// The message text for `event`.
pub fn notification_message(event: &DomainEvent) -> (r: String)
    ensures
        r@ == message_text(event.kind(), event.name()),
{
    if event.is_join() {
        joined(event.actor_name().as_str(), " が Factorio サーバーに参加しました")
    } else {
        joined(event.actor_name().as_str(), " が Factorio サーバーから退出しました")
    }
}

/// The call to make for `event`: to `endpoint`, under the fixed sender name,
/// with the event's message.
pub fn notification_for(endpoint: &str, event: &DomainEvent) -> (r: Notification)
    ensures
        r.endpoint@ == endpoint@,
        r.sender@ == sender_name(),
        r.content@ == message_text(event.kind(), event.name()),
{
    Notification {
        endpoint: endpoint.to_owned(),
        sender: "FactorioWatch".to_owned(),
        content: notification_message(event),
    }
}

/// What is logged once the delivery of `event` has ended: an informational
/// record with the name and the kind on success, an error record with the
/// failure's detail otherwise.
pub fn delivery_report(event: &DomainEvent, outcome: Result<(), String>) -> (r: LogRecord)
    ensures
        outcome is Ok ==> r.level == LogLevel::Info && r.text@ == success_text(
            event.kind(),
            event.name(),
        ),
        outcome is Err ==> r.level == LogLevel::Error && r.text@ == failure_text(
            outcome->Err_0@,
        ),
{
    match outcome {
        Ok(()) => {
            let head = joined("notification sent: player=", event.actor_name().as_str());
            let text = if event.is_join() {
                joined(head.as_str(), ", is_join=true")
            } else {
                joined(head.as_str(), ", is_join=false")
            };
            LogRecord { level: LogLevel::Info, text }
        },
        Err(detail) => LogRecord {
            level: LogLevel::Error,
            text: joined("notification failed: ", detail.as_str()),
        },
    }
}

} // verus!
