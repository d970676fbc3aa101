use vstd::prelude::*;
use vstd::string::StringSliceAdditionalSpecFns;

verus! {

/// The notification source that the engine is fed from.
#[derive(Clone, Copy, Debug, PartialEq, Eq, Structural)]
pub enum WatchEvent {
    /// Events coalesced over a one-second window.
    DebouncedEvent,
    /// Every low-level event, unfiltered.
    RawEvent,
}

/// Startup configuration of the watcher.
pub struct Config {
    pub watch_event: WatchEvent,
}

/// The bytes of the selector that chooses debounced notifications.
pub open spec fn debounce_word() -> Seq<u8> {
    seq![100u8, 101u8, 98u8, 111u8, 117u8, 110u8, 99u8, 101u8]
}

/// The mode that a selector names: `debounce` chooses debounced events, any
/// other word raw events; no selector keeps the current mode.
pub open spec fn selected_mode(current: WatchEvent, name: Option<Seq<u8>>) -> WatchEvent {
    match name {
        None => current,
        Some(w) => if w == debounce_word() {
            WatchEvent::DebouncedEvent
        } else {
            WatchEvent::RawEvent
        },
    }
}

/// Whether two byte slices hold the same bytes.
pub fn same_bytes(a: &[u8], b: &[u8]) -> (r: bool)
    ensures
        r == (a@ == b@),
{
    if a.len() != b.len() {
        return false;
    }
    let mut i: usize = 0;
    while i < a.len()
        invariant
            a@.len() == b@.len(),
            i <= a@.len(),
            forall|k: int| 0 <= k < i ==> a@[k] == b@[k],
        decreases a@.len() - i,
    {
        if a[i] != b[i] {
            return false;
        }
        i = i + 1;
    }
    assert(a@ =~= b@);
    true
}

impl Config {
    /// A configuration that watches raw events.
    pub fn new() -> (r: Self)
        ensures
            r.watch_event == WatchEvent::RawEvent,
    {
        Config { watch_event: WatchEvent::RawEvent }
    }

    /// Overrides the mode from an optional selector word (`raw` or `debounce`;
    /// an unknown word means raw).
    pub fn select_event_type(&mut self, name: Option<&str>)
        ensures
            final(self).watch_event == selected_mode(
                old(self).watch_event,
                match name {
                    None => None,
                    Some(s) => Some(s.spec_bytes()),
                },
            ),
    {
        match name {
            None => {},
            Some(s) => {
                let word: [u8; 8] = [100u8, 101u8, 98u8, 111u8, 117u8, 110u8, 99u8, 101u8];
                assert(word@ == debounce_word());
                if same_bytes(s.as_bytes(), word.as_slice()) {
                    self.watch_event = WatchEvent::DebouncedEvent;
                } else {
                    self.watch_event = WatchEvent::RawEvent;
                }
            },
        }
    }
}

} // verus!
