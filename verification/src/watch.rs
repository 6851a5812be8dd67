//! The events of the `notify` crate's debounced watcher, as change events.

use crate::event::{ChangeEvent, ChangeKind};
use notify::DebouncedEvent;
use vstd::prelude::*;

verus! {

/// An event of `notify`'s debounced watcher. Nothing inside it is visible to
/// the proofs.
#[verifier::external_type_specification]
#[verifier::external_body]
pub struct ExDebouncedEvent(DebouncedEvent);

/// Tells the variants of `notify::DebouncedEvent` apart and gives each as the
/// change event of the same kind, with the event's path as text (the new path
/// of a rename; no text where the event has no path). Trusted, and nothing is
/// claimed of the result: the proofs hold for whatever event comes back.
#[verifier::external_body]
pub(crate) fn change_of(event: DebouncedEvent) -> ChangeEvent {
    let (kind, path) = match event {
        DebouncedEvent::NoticeWrite(path) => (ChangeKind::NoticeWrite, Some(path)),
        DebouncedEvent::NoticeRemove(path) => (ChangeKind::NoticeRemove, Some(path)),
        DebouncedEvent::Create(path) => (ChangeKind::Created, Some(path)),
        DebouncedEvent::Write(path) => (ChangeKind::Written, Some(path)),
        DebouncedEvent::Chmod(path) => (ChangeKind::Chmod, Some(path)),
        DebouncedEvent::Remove(path) => (ChangeKind::Removed, Some(path)),
        DebouncedEvent::Rename(_, path) => (ChangeKind::Renamed, Some(path)),
        DebouncedEvent::Rescan => (ChangeKind::Rescan, None),
        DebouncedEvent::Error(_, path) => (ChangeKind::Error, path),
    };
    ChangeEvent { kind, path: path.map(|p| p.to_string_lossy().into_owned()).unwrap_or_default() }
}

} // verus!
