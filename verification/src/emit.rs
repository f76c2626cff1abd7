//! The decision core of the atomic file emitter.
//!
//! The artifacts of one document are written as one all-or-nothing batch.
//! The emitter holds no file handles: the caller performs each filesystem
//! step and reports its outcome, and the emitter decides the next step. On
//! the first failed write it asks for the removal of every artifact written
//! so far, newest first (best-effort rollback), and then aborts naming the
//! artifact that failed. Nothing of a failed batch is left behind by a
//! caller that carries the steps out.

use vstd::prelude::*;

use crate::artifact::OutputArtifact;
use crate::errors::Error;

verus! {

/// The next step of an emission run.
#[derive(Debug, Clone, Copy, PartialEq, Eq, Structural)]
pub enum EmitAction {
    /// Write the artifact with this index.
    Write { index: usize },
    /// Remove the already written artifact with this index (rollback).
    Remove { index: usize },
    /// Every artifact of the batch is durably written.
    Finish,
    /// The batch is rolled back; the artifact with this index failed.
    Abort { failed: usize },
}

/// The state of one all-or-nothing emission of `total` artifacts.
#[derive(Debug)]
pub struct Emitter {
    /// How many artifacts the batch holds.
    pub total: usize,
    /// How many artifacts stand written; during rollback, how many are
    /// still to remove.
    pub written: usize,
    /// The index of the artifact whose write failed, once one has.
    pub failed: Option<usize>,
}

impl Emitter {
    /// Well-formedness: established by `new` and preserved by every step.
    pub open spec fn wf(&self) -> bool {
        self.written <= self.total && (self.failed matches Some(f) ==> self.written <= f
            < self.total)
    }

    /// The next step, as a function of the state: write the next artifact
    /// until all are written, finish when they are; after a failure, remove
    /// the written ones newest first, then abort.
    pub open spec fn spec_next(&self) -> EmitAction {
        match self.failed {
            None => if self.written < self.total {
                EmitAction::Write { index: self.written }
            } else {
                EmitAction::Finish
            },
            Some(f) => if self.written > 0 {
                EmitAction::Remove { index: (self.written - 1) as usize }
            } else {
                EmitAction::Abort { failed: f }
            },
        }
    }

    /// Starts an emission of `total` artifacts, none written yet.
    pub fn new(total: usize) -> (e: Emitter)
        ensures
            e.wf(),
            e == (Emitter { total, written: 0, failed: None::<usize> }),
    {
        Emitter { total, written: 0, failed: None }
    }

    /// The next step the caller has to take.
    pub fn next_action(&self) -> (a: EmitAction)
        requires
            self.wf(),
        ensures
            a == self.spec_next(),
    {
        match self.failed {
            None => {
                if self.written < self.total {
                    EmitAction::Write { index: self.written }
                } else {
                    EmitAction::Finish
                }
            },
            Some(f) => {
                if self.written > 0 {
                    EmitAction::Remove { index: self.written - 1 }
                } else {
                    EmitAction::Abort { failed: f }
                }
            },
        }
    }

    /// Records that the pending write succeeded.
    pub fn write_succeeded(&mut self)
        requires
            old(self).wf(),
            old(self).spec_next() is Write,
        ensures
            final(self).wf(),
            *final(self) == (Emitter { written: (old(self).written + 1) as usize, ..*old(self) }),
    {
        self.written = self.written + 1;
    }

    /// Records that the pending write failed: rollback begins with the
    /// artifacts written so far.
    pub fn write_failed(&mut self)
        requires
            old(self).wf(),
            old(self).spec_next() is Write,
        ensures
            final(self).wf(),
            *final(self) == (Emitter { failed: Some(old(self).written), ..*old(self) }),
    {
        self.failed = Some(self.written);
    }

    /// Records that the pending removal was attempted. Rollback is
    /// best-effort: the artifact counts as handled either way.
    pub fn removal_done(&mut self)
        requires
            old(self).wf(),
            old(self).spec_next() is Remove,
        ensures
            final(self).wf(),
            *final(self) == (Emitter { written: (old(self).written - 1) as usize, ..*old(self) }),
    {
        self.written = self.written - 1;
    }
}

/// Turns an aborted emission into its typed error: a failure on the very
/// first artifact leaves nothing behind and is an `IOFailure`; a failure
/// after at least one durable write is a `PartialWriteFailure`. Either
/// error names the artifact that failed and carries the underlying cause
/// the caller reported.
pub fn emit_failure(artifacts: &Vec<OutputArtifact>, failed: usize, cause: String) -> (e: Error)
    requires
        failed < artifacts@.len(),
    ensures
        failed == 0 ==> (e matches Error::IOFailure { path, cause: c } && path@ == artifacts@[0]@.path
            && c@ == cause@),
        failed > 0 ==> (e matches Error::PartialWriteFailure { path, cause: c } && path@
            == artifacts@[failed as int]@.path && c@ == cause@),
{
    let path = artifacts[failed].relative_path.clone();
    if failed == 0 {
        Error::IOFailure { path, cause }
    } else {
        Error::PartialWriteFailure { path, cause }
    }
}

} // verus!
