use vstd::prelude::*;

verus! {

/// The kinds of event that the debounced source emits.
#[derive(Clone, Copy, Debug, PartialEq, Eq, Structural)]
pub enum DebouncedKind {
    /// Announces that a write is under way; the settled event follows.
    NoticeWrite,
    /// Announces that a removal is under way; the settled event follows.
    NoticeRemove,
    Create,
    Write,
    Chmod,
    Remove,
    Rename,
    Rescan,
    Error,
}

/// One filesystem notification, as either source delivers it.
#[derive(Debug)]
pub enum ChangeEvent {
    /// An event of the debounced source.
    Debounced(DebouncedKind),
    /// An event of the raw source: the operation code, the path and the
    /// rename cookie, each of which the source may leave out.
    Raw { op: Option<u32>, path: Option<String>, cookie: Option<u32> },
}

/// How the engine treats an event.
#[derive(Clone, Copy, Debug, PartialEq, Eq, Structural)]
pub enum EventClass {
    /// A pre-announcement: discarded silently.
    Notice,
    /// A raw event without a path or without an operation: discarded with a warning.
    Malformed,
    /// Any other event: it triggers a signal.
    Qualifying,
}

/// The class of an event.
pub open spec fn class_of(e: ChangeEvent) -> EventClass {
    match e {
        ChangeEvent::Debounced(k) => if k == DebouncedKind::NoticeWrite || k
            == DebouncedKind::NoticeRemove {
            EventClass::Notice
        } else {
            EventClass::Qualifying
        },
        ChangeEvent::Raw { op, path, .. } => if op is None || path is None {
            EventClass::Malformed
        } else {
            EventClass::Qualifying
        },
    }
}

/// Classifies an event.
pub fn classify(e: &ChangeEvent) -> (r: EventClass)
    ensures
        r == class_of(*e),
{
    match e {
        ChangeEvent::Debounced(k) => match k {
            DebouncedKind::NoticeWrite | DebouncedKind::NoticeRemove => EventClass::Notice,
            _ => EventClass::Qualifying,
        },
        ChangeEvent::Raw { op, path, .. } => if op.is_none() || path.is_none() {
            EventClass::Malformed
        } else {
            EventClass::Qualifying
        },
    }
}

} // verus!
