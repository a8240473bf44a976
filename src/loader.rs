//! The decisions of a file load: which file operation comes next, and when
//! the load is over.
use vstd::prelude::*;
use crate::failure::{Failure, FailureKind};

verus! {

/// How a load treats a file that does not exist.
#[derive(Clone, Copy, Debug, PartialEq, Eq, Structural)]
pub enum Policy {
    /// Create the missing file empty and read it. Any other failure to open,
    /// and a failure to create, terminate the process.
    CreateIfMissing,
    /// Hand every failure to open or read back to the caller.
    Strict,
}

/// Where a load stands: which answer it waits for.
#[derive(Clone, Copy, Debug, PartialEq, Eq, Structural)]
pub enum Stage {
    Opening,
    Creating,
    Reading,
    Done,
}

/// What the caller is to do next.
#[derive(Debug, PartialEq, Eq)]
pub enum Action {
    /// Open the file for reading.
    Open,
    /// Create the file, empty, and open it.
    Create,
    /// Read the open file to its end as text.
    Read,
    /// The load is over, with the file's text or a failure for the caller.
    Finish(Result<String, Failure>),
    /// Report the failure and stop the process.
    Terminate(Failure),
}

/// What the file system answered to the last action.
#[derive(Debug, PartialEq, Eq)]
pub enum Event {
    Opened(Result<(), Failure>),
    Created(Result<(), Failure>),
    Read(Result<String, Failure>),
}

impl Action {
    /// The load is over: no answer is awaited.
    pub open spec fn is_final(self) -> bool {
        self is Finish || self is Terminate
    }
}

/// One load of one file.
#[derive(Clone, Copy, Debug, PartialEq, Eq, Structural)]
pub struct Loader {
    pub policy: Policy,
    pub stage: Stage,
}

impl Loader {
    /// The answer that the loader waits for in its stage.
    pub open spec fn awaits(self, event: Event) -> bool {
        match self.stage {
            Stage::Opening => event is Opened,
            Stage::Creating => event is Created,
            Stage::Reading => event is Read,
            Stage::Done => false,
        }
    }

    /// The stage after `event`.
    pub open spec fn next_stage(self, event: Event) -> Stage {
        match event {
            Event::Opened(Ok(())) => Stage::Reading,
            Event::Opened(Err(f)) => {
                if self.policy == Policy::CreateIfMissing && f.kind == FailureKind::NotFound {
                    Stage::Creating
                } else {
                    Stage::Done
                }
            },
            Event::Created(Ok(())) => Stage::Reading,
            Event::Created(Err(_)) => Stage::Done,
            Event::Read(_) => Stage::Done,
        }
    }

    /// The action asked for after `event`.
    pub open spec fn next_action(self, event: Event) -> Action {
        match event {
            Event::Opened(Ok(())) => Action::Read,
            Event::Opened(Err(f)) => match self.policy {
                Policy::Strict => Action::Finish(Err(f)),
                Policy::CreateIfMissing => {
                    if f.kind == FailureKind::NotFound {
                        Action::Create
                    } else {
                        Action::Terminate(f)
                    }
                },
            },
            Event::Created(Ok(())) => Action::Read,
            Event::Created(Err(f)) => Action::Terminate(f),
            Event::Read(r) => Action::Finish(r),
        }
    }

    /// The loader after `event`.
    pub open spec fn after(self, event: Event) -> Loader {
        Loader { policy: self.policy, stage: self.next_stage(event) }
    }

    /// Starts a load under `policy`; the first action is always to open the
    /// file.
    pub fn start(policy: Policy) -> (r: (Loader, Action))
        ensures
            r.0 == (Loader { policy, stage: Stage::Opening }),
            r.1 == Action::Open,
    {
        (Loader { policy, stage: Stage::Opening }, Action::Open)
    }

    /// Whether `event` is the answer that the loader waits for.
    pub fn accepts(&self, event: &Event) -> (r: bool)
        ensures
            r == self.awaits(*event),
    {
        match (self.stage, event) {
            (Stage::Opening, Event::Opened(_)) => true,
            (Stage::Creating, Event::Created(_)) => true,
            (Stage::Reading, Event::Read(_)) => true,
            _ => false,
        }
    }

    /// Whether the load is over.
    pub fn is_done(&self) -> (r: bool)
        ensures
            r == (self.stage == Stage::Done),
    {
        self.stage == Stage::Done
    }

    /// Takes the answer to the last action and returns the next one.
    pub fn step(&mut self, event: Event) -> (r: Action)
        requires
            old(self).awaits(event),
        ensures
            *final(self) == old(self).after(event),
            r == old(self).next_action(event),
    {
        match event {
            Event::Opened(Ok(())) => {
                self.stage = Stage::Reading;
                Action::Read
            },
            Event::Opened(Err(f)) => match self.policy {
                Policy::Strict => {
                    self.stage = Stage::Done;
                    Action::Finish(Err(f))
                },
                Policy::CreateIfMissing => {
                    if f.is_not_found() {
                        self.stage = Stage::Creating;
                        Action::Create
                    } else {
                        self.stage = Stage::Done;
                        Action::Terminate(f)
                    }
                },
            },
            Event::Created(Ok(())) => {
                self.stage = Stage::Reading;
                Action::Read
            },
            Event::Created(Err(f)) => {
                self.stage = Stage::Done;
                Action::Terminate(f)
            },
            Event::Read(r) => {
                self.stage = Stage::Done;
                Action::Finish(r)
            },
        }
    }
}

} // verus!
