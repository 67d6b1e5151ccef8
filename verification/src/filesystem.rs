use crate::config_type_descriptor::ConfigTypeDescriptor;
use crate::error::{ReadConfigTypeDescriptorError, WriteConfigTypeDescriptorError};
use vstd::prelude::*;

verus! {

/// What the filesystem holds at a path.
#[derive(Clone, Copy, Debug, PartialEq, Eq, Structural)]
pub enum PathStatus {
    /// Nothing is there.
    Missing,
    /// A directory is there.
    Directory,
    /// Something is there, and it is no directory.
    NotADirectory,
}

/// One step on the filesystem that an operation asks its caller to make.
///
/// An operation of this library never touches the filesystem. It says which step comes
/// next, the caller makes it and hands back what came of it as an [`Event`].
#[derive(Debug)]
pub enum Action {
    /// Find out what is at `path`. Answered by [`Event::Status`].
    Probe { path: String },
    /// Create the directory `path`, whose parent exists.
    /// Answered by [`Event::Completed`] or [`Event::Failed`].
    CreateDirectory { path: String },
    /// Remove the directory `path` with all that it holds.
    /// Answered by [`Event::Completed`] or [`Event::Failed`].
    RemoveDirectoryTree { path: String },
    /// Rename `source` to `dest`.
    /// Answered by [`Event::Completed`] or [`Event::Failed`].
    Rename { source: String, dest: String },
    /// Copy the file `source` to `dest`.
    /// Answered by [`Event::Completed`] or [`Event::Failed`].
    CopyFile { source: String, dest: String },
    /// Read the descriptor in the file `path`.
    /// Answered by [`Event::DescriptorRead`] or [`Event::DescriptorNotRead`].
    ReadDescriptor { path: String },
    /// Write `descriptor` to the file `path`.
    /// Answered by [`Event::Completed`] or [`Event::DescriptorNotWritten`].
    WriteDescriptor { path: String, descriptor: ConfigTypeDescriptor },
}

/// The mathematical value of an [`Action`].
pub enum ActionView {
    Probe { path: Seq<char> },
    CreateDirectory { path: Seq<char> },
    RemoveDirectoryTree { path: Seq<char> },
    Rename { source: Seq<char>, dest: Seq<char> },
    CopyFile { source: Seq<char>, dest: Seq<char> },
    ReadDescriptor { path: Seq<char> },
    WriteDescriptor { path: Seq<char>, descriptor: Seq<Seq<char>> },
}

impl View for Action {
    type V = ActionView;

    open spec fn view(&self) -> ActionView {
        match *self {
            Action::Probe { path } => ActionView::Probe { path: path@ },
            Action::CreateDirectory { path } => ActionView::CreateDirectory { path: path@ },
            Action::RemoveDirectoryTree { path } => ActionView::RemoveDirectoryTree {
                path: path@,
            },
            Action::Rename { source, dest } => ActionView::Rename {
                source: source@,
                dest: dest@,
            },
            Action::CopyFile { source, dest } => ActionView::CopyFile {
                source: source@,
                dest: dest@,
            },
            Action::ReadDescriptor { path } => ActionView::ReadDescriptor { path: path@ },
            Action::WriteDescriptor { path, descriptor } => ActionView::WriteDescriptor {
                path: path@,
                descriptor: descriptor@,
            },
        }
    }
}

/// The value of the action that is asked for, if one is.
pub open spec fn asked(action: Option<Action>) -> Option<ActionView> {
    match action {
        Some(action) => Some(action@),
        None => None,
    }
}

impl ActionView {
    /// Whether the step leaves the filesystem as it is.
    pub open spec fn reads_only(self) -> bool {
        self is Probe || self is ReadDescriptor
    }
}

/// What came of the step that an operation asked for.
#[derive(Debug)]
pub enum Event {
    /// What was found at the probed path.
    Status(PathStatus),
    /// The step was made.
    Completed,
    /// The step failed with this error.
    Failed(std::io::Error),
    /// The descriptor that was read.
    DescriptorRead(ConfigTypeDescriptor),
    /// The descriptor could not be read.
    DescriptorNotRead(ReadConfigTypeDescriptorError),
    /// The descriptor could not be written.
    DescriptorNotWritten(WriteConfigTypeDescriptorError),
}

} // verus!
