//! The vocabulary between the library and the driver that touches the
//! filesystem: the actions the library asks for, and the events with which
//! the driver reports how each one went.
use vstd::prelude::*;

verus! {

/// One filesystem operation for the driver to perform.
#[derive(Debug)]
pub enum Action {
    /// Resolve the path to its canonical form, following symlinks; reply
    /// `Resolved` or `Failed`.
    Canonicalize(String),
    /// Fetch the current directory; reply `Resolved` or `Failed`.
    CurrentDir,
    /// Tell whether the two paths name the same file, by device and inode
    /// (or the platform's equivalent); reply `SameFile`. A path that cannot
    /// be inspected names no file that the other could be.
    CompareFiles(String, String),
    /// Create an empty, uniquely named temporary file in the directory;
    /// reply `Succeeded` or `Failed`.
    CreateTemp(String),
    /// Fetch the metadata of the path, through a final symlink when the flag
    /// is set; reply `IsSymlink` or `Failed`.
    ReadMetadata(String, bool),
    /// Give the temporary file the permissions of the metadata just read;
    /// reply `Succeeded` or `Failed`.
    CopyPermissions,
    /// Open the path for reading; reply `Succeeded` or `Failed`.
    OpenReader(String),
    /// Rename the first path to the second; reply `Succeeded` or `Failed`.
    Rename(String, String),
    /// Rename the temporary file to the path; reply `Succeeded` or `Failed`.
    PersistTemp(String),
    /// Close and delete the temporary file; reply `Succeeded` or `Failed`.
    RemoveTemp,
}

/// An action as contracts see it.
pub enum ActionView {
    Canonicalize(Seq<char>),
    CurrentDir,
    CompareFiles(Seq<char>, Seq<char>),
    CreateTemp(Seq<char>),
    ReadMetadata(Seq<char>, bool),
    CopyPermissions,
    OpenReader(Seq<char>),
    Rename(Seq<char>, Seq<char>),
    PersistTemp(Seq<char>),
    RemoveTemp,
}

impl View for Action {
    type V = ActionView;

    open spec fn view(&self) -> ActionView {
        match self {
            Action::Canonicalize(p) => ActionView::Canonicalize(p@),
            Action::CurrentDir => ActionView::CurrentDir,
            Action::CompareFiles(a, b) => ActionView::CompareFiles(a@, b@),
            Action::CreateTemp(d) => ActionView::CreateTemp(d@),
            Action::ReadMetadata(p, f) => ActionView::ReadMetadata(p@, *f),
            Action::CopyPermissions => ActionView::CopyPermissions,
            Action::OpenReader(p) => ActionView::OpenReader(p@),
            Action::Rename(a, b) => ActionView::Rename(a@, b@),
            Action::PersistTemp(p) => ActionView::PersistTemp(p@),
            Action::RemoveTemp => ActionView::RemoveTemp,
        }
    }
}

/// What the driver reports: how the last action went.
#[derive(Debug)]
pub enum Event {
    /// A path that was asked for.
    Resolved(String),
    /// Whether the two compared paths name the same file.
    SameFile(bool),
    /// Metadata was read; whether it describes a symlink.
    IsSymlink(bool),
    /// The action was carried out.
    Succeeded,
    /// The action failed with this error.
    Failed(std::io::Error),
}

/// An event as contracts see it.
pub enum EventView {
    Resolved(Seq<char>),
    SameFile(bool),
    IsSymlink(bool),
    Succeeded,
    Failed(std::io::Error),
}

impl View for Event {
    type V = EventView;

    open spec fn view(&self) -> EventView {
        match self {
            Event::Resolved(p) => EventView::Resolved(p@),
            Event::SameFile(b) => EventView::SameFile(*b),
            Event::IsSymlink(b) => EventView::IsSymlink(*b),
            Event::Succeeded => EventView::Succeeded,
            Event::Failed(e) => EventView::Failed(*e),
        }
    }
}

/// Whether `event` is a reply that `action` can get.
pub open spec fn fits(action: ActionView, event: EventView) -> bool {
    match action {
        ActionView::Canonicalize(_) | ActionView::CurrentDir => event is Resolved
            || event is Failed,
        ActionView::CompareFiles(_, _) => event is SameFile,
        ActionView::ReadMetadata(_, _) => event is IsSymlink || event is Failed,
        _ => event is Succeeded || event is Failed,
    }
}

} // verus!
