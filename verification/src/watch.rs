//! Translation of raw store change notifications into domain events.
//! The shell in front of this crate pulls raw notifications off the
//! subscription stream, decodes any values they carry, and hands each
//! one to `next_event`; the first notification that yields `Some` is the
//! event returned to the caller.

use vstd::prelude::*;
use crate::types::Service;
use crate::types::WatchResult;

verus! {

/// The kind of a raw change notification.
#[derive(Clone, Copy, Debug, PartialEq, Eq, Structural)]
pub enum RawEventKind {
    Put,
    Delete,
}

/// One raw change notification, with its values already decoded: the
/// revisions of the key, the decoded current value, and the decoded
/// previous value.  A `None` value stands both for a missing value and
/// for one that did not decode.
pub struct RawEvent {
    pub kind: RawEventKind,
    /// Whether the notification carried a key/value record at all.
    pub has_kv: bool,
    pub create_revision: i64,
    pub mod_revision: i64,
    pub value: Option<Service>,
    pub prev_value: Option<Service>,
}

/// What a raw notification translates to: `None` to skip it silently,
/// or the action name and the single-node service it concerns.  A put
/// whose key is at its creation revision is a create, any other put is
/// an update; a delete carries the value the key held before.
pub open spec fn spec_classified(e: RawEvent) -> Option<(Seq<char>, Service)> {
    if !e.has_kv {
        None
    } else {
        match e.kind {
            RawEventKind::Put => match e.value {
                Some(s) => Some(
                    (
                        if e.create_revision == e.mod_revision {
                            "create"@
                        } else {
                            "update"@
                        },
                        s,
                    ),
                ),
                None => None,
            },
            RawEventKind::Delete => match e.prev_value {
                Some(s) => Some(("delete"@, s)),
                None => None,
            },
        }
    }
}

/// Classifies one raw notification: the action taken on the key and the
/// service record it concerns, or `None` when the notification carries
/// no record, or a record that did not decode.
pub fn classify_event(e: RawEvent) -> (r: Option<(String, Service)>)
    ensures
        match r {
            Some(p) => spec_classified(e) == Some((p.0@, p.1)),
            None => spec_classified(e) is None,
        },
{
    if !e.has_kv {
        return None;
    }
    match e.kind {
        RawEventKind::Put => match e.value {
            Some(s) => {
                let action = if e.create_revision == e.mod_revision {
                    "create".to_owned()
                } else {
                    "update".to_owned()
                };
                Some((action, s))
            },
            None => None,
        },
        RawEventKind::Delete => match e.prev_value {
            Some(s) => Some(("delete".to_owned(), s)),
            None => None,
        },
    }
}

/// Relies on chrono's `Local::now` for the current unix timestamp.
/// Nothing is assumed of the value: it depends on the clock.
#[verifier::external_body]
fn unix_now() -> i64 {
    chrono::Local::now().timestamp()
}

/// Turns one raw notification into the watch's domain event, stamped
/// with the time of translation, or `None` when the notification is to
/// be skipped.
pub fn next_event(e: RawEvent) -> (r: Option<WatchResult>)
    ensures
        match r {
            Some(w) => w.service matches Some(s) && spec_classified(e) == Some((w.action@, s)),
            None => spec_classified(e) is None,
        },
{
    match classify_event(e) {
        Some((action, service)) => {
            let ts = unix_now();
            Some(WatchResult { action, service: Some(service), timestamp: ts })
        },
        None => None,
    }
}

} // verus!
