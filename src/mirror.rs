//! The decisions of a content mirror: which notices call for a re-read of
//! the file, what a re-read does to the published snapshot, and shutdown.
//!
//! The mirror never touches the file itself. Whoever drives it hands it each
//! notice, performs the re-read that it asks for, and hands back the outcome.
use std::sync::Arc;
use vstd::prelude::*;

use crate::event::{is_content_change, Notice};
use crate::slot::SnapshotSlot;

verus! {

/// Why a whole-file read failed.
#[derive(Clone, Copy, Debug, PartialEq, Eq, Structural)]
pub enum ReadError {
    NotFound,
    PermissionDenied,
    NotText,
    Other,
}

/// Failures surfaced to the caller that sets up a watch or a mirror, and the
/// end of an event stream.
#[derive(Clone, Copy, Debug, PartialEq, Eq, Structural)]
pub enum WatchError {
    /// Registering interest in the path failed.
    WatchSetupError,
    /// The first read of the file failed.
    InitialReadError(ReadError),
    /// The watch is gone and no event is left to deliver.
    ChannelClosed,
}

/// What the driver of a mirror does after handing it a notice.
#[derive(Clone, Copy, Debug, PartialEq, Eq, Structural)]
pub enum Action {
    /// Read the whole file again and hand the outcome to `on_reread`.
    ReRead,
    /// Nothing beyond recording the notice.
    Observe,
}

/// The abstract state of a mirror.
pub struct MirrorModel {
    /// The text of the published snapshot.
    pub current: Seq<char>,
    /// Whether the watch is still registered.
    pub live: bool,
    /// The latest failed re-read, kept for observation.
    pub last_failure: Option<ReadError>,
}

/// One thing that happens to a mirror.
pub enum Input {
    /// A notice from the notification collaborator.
    Notice(Notice),
    /// The outcome of a re-read of the file.
    Reread(Result<Seq<char>, ReadError>),
    /// The watch was released.
    Shutdown,
}

/// The text that a read outcome carries.
pub open spec fn outcome_view(r: Result<String, ReadError>) -> Result<Seq<char>, ReadError> {
    match r {
        Ok(s) => Ok(s@),
        Err(e) => Err(e),
    }
}

/// A live mirror re-reads on a change of the file's bytes, and on nothing else.
pub open spec fn decide(m: MirrorModel, n: Notice) -> Action {
    if m.live && is_content_change(n) {
        Action::ReRead
    } else {
        Action::Observe
    }
}

/// How one input changes a mirror. A successful re-read publishes what was
/// read; a failed one keeps the last snapshot and records the failure; once
/// shut down, the mirror keeps what it has.
pub open spec fn step(m: MirrorModel, i: Input) -> MirrorModel {
    match i {
        Input::Notice(_) => m,
        Input::Reread(r) => if !m.live {
            m
        } else {
            match r {
                Ok(c) => MirrorModel { current: c, ..m },
                Err(e) => MirrorModel { last_failure: Some(e), ..m },
            }
        },
        Input::Shutdown => MirrorModel { live: false, ..m },
    }
}

/// The state after a sequence of inputs, in order.
pub open spec fn run(m: MirrorModel, inputs: Seq<Input>) -> MirrorModel
    decreases inputs.len(),
{
    if inputs.len() == 0 {
        m
    } else {
        step(run(m, inputs.drop_last()), inputs.last())
    }
}

/// A mirror of one file: the snapshot it has published, and the slot that
/// readers share.
pub struct ContentMirror {
    current: Arc<String>,
    live: bool,
    last_failure: Option<ReadError>,
    slot: SnapshotSlot,
}

impl View for ContentMirror {
    type V = MirrorModel;

    closed spec fn view(&self) -> MirrorModel {
        MirrorModel { current: self.current@, live: self.live, last_failure: self.last_failure }
    }
}

impl ContentMirror {
    /// A live mirror whose first snapshot is the outcome of the initial read;
    /// a failed initial read is `InitialReadError`.
    pub fn open(initial: Result<String, ReadError>) -> (r: Result<ContentMirror, WatchError>)
        ensures
            match initial {
                Ok(s) => r is Ok && r->Ok_0@ == (MirrorModel {
                    current: s@,
                    live: true,
                    last_failure: None,
                }),
                Err(e) => r == Err::<ContentMirror, WatchError>(WatchError::InitialReadError(e)),
            },
    {
        match initial {
            Ok(s) => {
                let current = Arc::new(s);
                let slot = SnapshotSlot::new(current.clone());
                Ok(ContentMirror { current, live: true, last_failure: None, slot })
            },
            Err(e) => Err(WatchError::InitialReadError(e)),
        }
    }

    /// What to do about a notice. The mirror itself is left as it is.
    pub fn on_notice(&self, n: &Notice) -> (a: Action)
        ensures
            a == decide(self@, *n),
    {
        if self.live && n.is_content_change() {
            Action::ReRead
        } else {
            Action::Observe
        }
    }

    /// Takes the outcome of a re-read. On success the text read becomes the
    /// published snapshot; a failure leaves the snapshot as it was.
    pub fn on_reread(&mut self, outcome: Result<String, ReadError>)
        ensures
            final(self)@ == step(old(self)@, Input::Reread(outcome_view(outcome))),
    {
        if self.live {
            match outcome {
                Ok(s) => {
                    let snap = Arc::new(s);
                    self.slot.publish(snap.clone());
                    self.current = snap;
                },
                Err(e) => {
                    self.last_failure = Some(e);
                },
            }
        }
    }

    /// The watch was released: no later input changes the snapshot.
    pub fn shutdown(&mut self)
        ensures
            final(self)@ == step(old(self)@, Input::Shutdown),
    {
        self.live = false;
    }

    /// The snapshot published last.
    pub fn snapshot(&self) -> (s: Arc<String>)
        ensures
            s@ == self@.current,
    {
        self.current.clone()
    }

    /// Whether the watch is still registered.
    pub fn is_live(&self) -> (b: bool)
        ensures
            b == self@.live,
    {
        self.live
    }

    /// The latest failed re-read, if any.
    pub fn last_failure(&self) -> (f: Option<ReadError>)
        ensures
            f == self@.last_failure,
    {
        self.last_failure
    }

    /// A handle on the slot that this mirror publishes into.
    pub fn slot(&self) -> SnapshotSlot {
        self.slot.clone()
    }
}

} // verus!
