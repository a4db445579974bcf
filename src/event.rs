//! Classified filesystem change events, as the notification collaborator
//! reports them, held as plain values.
use vstd::prelude::*;

verus! {

/// How a watched entry was accessed.
#[derive(Clone, Copy, Debug, PartialEq, Eq, Structural)]
pub enum AccessMode {
    Any,
    Execute,
    Read,
    Write,
    Other,
}

/// Access to a watched entry, without a change to it.
#[derive(Clone, Copy, Debug, PartialEq, Eq, Structural)]
pub enum AccessKind {
    Any,
    Read,
    Open(AccessMode),
    Close(AccessMode),
    Other,
}

/// What kind of entry was created.
#[derive(Clone, Copy, Debug, PartialEq, Eq, Structural)]
pub enum CreateKind {
    Any,
    File,
    Folder,
    Other,
}

/// Detail of a change to an entry's bytes.
#[derive(Clone, Copy, Debug, PartialEq, Eq, Structural)]
pub enum DataChange {
    Any,
    Size,
    Content,
    Other,
}

/// Detail of a change to an entry's metadata.
#[derive(Clone, Copy, Debug, PartialEq, Eq, Structural)]
pub enum MetadataKind {
    Any,
    AccessTime,
    WriteTime,
    Permissions,
    Ownership,
    Extended,
    Other,
}

/// Detail of a rename.
#[derive(Clone, Copy, Debug, PartialEq, Eq, Structural)]
pub enum RenameMode {
    Any,
    To,
    From,
    Both,
    Other,
}

/// A modification of an entry.
#[derive(Clone, Copy, Debug, PartialEq, Eq, Structural)]
pub enum ModifyKind {
    Any,
    Data(DataChange),
    Metadata(MetadataKind),
    Name(RenameMode),
    Other,
}

/// What kind of entry was removed.
#[derive(Clone, Copy, Debug, PartialEq, Eq, Structural)]
pub enum RemoveKind {
    Any,
    File,
    Folder,
    Other,
}

/// The kind of a filesystem event.
#[derive(Clone, Copy, Debug, PartialEq, Eq, Structural)]
pub enum ChangeKind {
    Any,
    Access(AccessKind),
    Create(CreateKind),
    Modify(ModifyKind),
    Remove(RemoveKind),
    Other,
}

/// One delivery of the notification collaborator: an event of some kind,
/// or an error signal in place of an event.
#[derive(Clone, Copy, Debug, PartialEq, Eq, Structural)]
pub enum Notice {
    Event(ChangeKind),
    Error,
}

/// A notice means the watched file's bytes changed exactly when it is an
/// event of kind "data modified", whatever the detail.
pub open spec fn is_content_change(n: Notice) -> bool {
    n matches Notice::Event(ChangeKind::Modify(ModifyKind::Data(_)))
}

/// A notice that changes metadata only.
pub open spec fn is_metadata_change(n: Notice) -> bool {
    n matches Notice::Event(ChangeKind::Modify(ModifyKind::Metadata(_)))
}

impl Notice {
    /// Whether this notice reports a change of the file's bytes.
    pub fn is_content_change(&self) -> (r: bool)
        ensures
            r == is_content_change(*self),
    {
        match self {
            Notice::Event(ChangeKind::Modify(ModifyKind::Data(_))) => true,
            _ => false,
        }
    }
}

} // verus!
