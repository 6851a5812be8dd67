//! Change events: what the controller is told about the watched directory.

use vstd::prelude::*;

verus! {

/// What a watcher of the shader directory can tell. Only `Created` and
/// `Written` can ask for a recompile.
#[derive(Clone, Copy, Debug, PartialEq, Eq, Structural)]
pub enum ChangeKind {
    /// A write has begun; `Written` follows when the file has come to rest.
    NoticeWrite,
    /// A removal has begun.
    NoticeRemove,
    /// The file was created.
    Created,
    /// The file was written to.
    Written,
    /// The file's attributes changed.
    Chmod,
    /// The file was removed.
    Removed,
    /// The file was renamed; the event's path is the new one.
    Renamed,
    /// The watcher lost track and the directory is to be looked at afresh.
    Rescan,
    /// The watcher reports an error.
    Error,
}

/// One change to one file.
#[derive(Clone, Debug, PartialEq, Eq)]
pub struct ChangeEvent {
    pub kind: ChangeKind,
    pub path: String,
}

/// A change event as a mathematical value.
pub struct ChangeEventView {
    pub kind: ChangeKind,
    pub path: Seq<char>,
}

impl View for ChangeEvent {
    type V = ChangeEventView;

    open spec fn view(&self) -> ChangeEventView {
        ChangeEventView { kind: self.kind, path: self.path@ }
    }
}

impl ChangeEventView {
    /// The event that a manual request to reload `path` stands for.
    pub open spec fn written(path: Seq<char>) -> ChangeEventView {
        ChangeEventView { kind: ChangeKind::Written, path }
    }

    /// Whether the event is of a kind that can ask for a recompile.
    pub open spec fn is_change(self) -> bool {
        self.kind == ChangeKind::Created || self.kind == ChangeKind::Written
    }
}

impl ChangeEvent {
    /// An event of the given kind for the file at `path`.
    pub fn new(kind: ChangeKind, path: &str) -> (event: ChangeEvent)
        ensures
            event@ == (ChangeEventView { kind, path: path@ }),
    {
        ChangeEvent { kind, path: path.to_owned() }
    }

    /// The event that a manual request to reload `path` stands for.
    pub fn written(path: &str) -> (event: ChangeEvent)
        ensures
            event@ == ChangeEventView::written(path@),
    {
        ChangeEvent { kind: ChangeKind::Written, path: path.to_owned() }
    }

    /// Whether the event is of a kind that can ask for a recompile.
    pub fn is_change(&self) -> (yes: bool)
        ensures
            yes == self@.is_change(),
    {
        match self.kind {
            ChangeKind::Created => true,
            ChangeKind::Written => true,
            _ => false,
        }
    }
}

} // verus!
