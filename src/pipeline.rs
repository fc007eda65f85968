use vstd::prelude::*;

use crate::definition::{Definition, DefinitionModel};
use crate::error::Error;

verus! {

/// The stage of a run at which a failure stopped it.
#[derive(Debug, Copy, Clone, PartialEq, Eq, Structural)]
pub enum FailedStage {
    Connect,
    Consume,
    Download,
    SetVersion,
    Read,
}

/// How a run ended.
#[derive(Debug)]
pub enum Outcome {
    /// The announced definition is the one that the file source holds.
    Matched,
    /// They differ: the announced one, then the one read from the files.
    Mismatched(Definition, Definition),
    /// A stage failed, for the given reason; nothing was compared.
    Failed(FailedStage, String),
}

/// The exit code that a run's end maps to.
pub open spec fn exit_code_spec(o: Outcome) -> i32 {
    match o {
        Outcome::Matched => 0,
        Outcome::Mismatched(_, _) => 1,
        Outcome::Failed(FailedStage::Connect, _) => 1,
        Outcome::Failed(_, _) => 2,
    }
}

/// The exit code of a comparison: zero when the two definitions are the same.
pub open spec fn comparison_code(received: DefinitionModel, read: DefinitionModel) -> i32 {
    if received == read { 0 } else { 1 }
}

/// Maps the end of a run to the process exit code: 0 on a match; 1 on a
/// mismatch or when the broker could not be reached; 2 when any later stage failed.
pub fn exit_code(o: &Outcome) -> (r: i32)
    ensures
        r == exit_code_spec(*o),
{
    match o {
        Outcome::Matched => 0,
        Outcome::Mismatched(_, _) => 1,
        Outcome::Failed(FailedStage::Connect, _) => 1,
        Outcome::Failed(_, _) => 2,
    }
}

/// Compares the announced definition with the one read from the files.
pub fn compare(received: Definition, read: Definition) -> (r: Outcome)
    ensures
        r is Matched <==> received@ == read@,
        r matches Outcome::Mismatched(a, b) ==> a@ == received@ && b@ == read@,
        r is Matched || r is Mismatched,
        exit_code_spec(r) == comparison_code(received@, read@),
{
    if received == read {
        Outcome::Matched
    } else {
        Outcome::Mismatched(received, read)
    }
}

/// A difference in any one field of any one category, or in the version,
/// makes the comparison a mismatch, never a match.
pub proof fn lemma_difference_is_mismatch(received: DefinitionModel, read: DefinitionModel, i: int)
    requires
        received.version != read.version || (0 <= i < received.categories.len() && 0 <= i
            < read.categories.len() && received.categories[i] != read.categories[i]),
    ensures
        comparison_code(received, read) == 1,
{
}

/// Where a run stands.
#[derive(Debug, Copy, Clone, PartialEq, Eq, Structural)]
pub enum RunPhase {
    Connecting,
    Consuming,
    Downloading,
    SettingVersion,
    Reading,
    Done,
}

/// What the driver of a run does next.
#[derive(Debug)]
pub enum Next {
    /// Take one definition from the stream.
    Consume,
    /// Bring the local working copy of the file source up to date.
    Download,
    /// Move the working copy to this version.
    SetVersion(String),
    /// Read the definition that the working copy holds.
    Read,
    /// The run is over, with this end.
    Stop(Outcome),
}

/// The decisions of one validation run, from connecting to the broker to the
/// comparison, fed with what each stage produced.
pub struct Run {
    phase: RunPhase,
    received: Option<Definition>,
}

impl Run {
    /// A definition is held exactly while the run resolves, reads and compares it.
    pub open spec fn wf(&self) -> bool {
        (self.phase_spec() == RunPhase::Downloading || self.phase_spec() == RunPhase::SettingVersion
            || self.phase_spec() == RunPhase::Reading) <==> self.received_spec() is Some
    }

    pub closed spec fn phase_spec(&self) -> RunPhase {
        self.phase
    }

    /// The definition taken from the stream, once there is one.
    pub closed spec fn received_spec(&self) -> Option<DefinitionModel> {
        match self.received {
            Some(d) => Some(d@),
            None => None,
        }
    }

    pub fn new() -> (r: Run)
        ensures
            r.wf(),
            r.phase_spec() == RunPhase::Connecting,
    {
        Run { phase: RunPhase::Connecting, received: None }
    }

    pub fn phase(&self) -> (r: RunPhase)
        ensures
            r == self.phase_spec(),
    {
        self.phase
    }

    /// The broker connection was attempted; a failure ends the run.
    pub fn on_connected(&mut self, connected: Result<(), Error>) -> (r: Next)
        requires
            old(self).wf(),
            old(self).phase_spec() == RunPhase::Connecting,
        ensures
            final(self).wf(),
            connected is Ok ==> r is Consume && final(self).phase_spec() == RunPhase::Consuming,
            connected matches Err(e) ==> final(self).phase_spec() == RunPhase::Done && (r matches Next::Stop(
                Outcome::Failed(FailedStage::Connect, m),
            ) && m@ == e.message@),
    {
        match connected {
            Ok(()) => {
                self.phase = RunPhase::Consuming;
                Next::Consume
            },
            Err(e) => {
                self.phase = RunPhase::Done;
                Next::Stop(Outcome::Failed(FailedStage::Connect, e.message))
            },
        }
    }

    /// The consumer handed back a definition, or failed.
    pub fn on_consumed(&mut self, consumed: Result<Definition, Error>) -> (r: Next)
        requires
            old(self).wf(),
            old(self).phase_spec() == RunPhase::Consuming,
        ensures
            final(self).wf(),
            consumed matches Ok(d) ==> r is Download && final(self).phase_spec() == RunPhase::Downloading
                && final(self).received_spec() == Some(d@),
            consumed matches Err(e) ==> final(self).phase_spec() == RunPhase::Done && (r matches Next::Stop(
                Outcome::Failed(FailedStage::Consume, m),
            ) && m@ == e.message@),
    {
        match consumed {
            Ok(d) => {
                self.phase = RunPhase::Downloading;
                self.received = Some(d);
                Next::Download
            },
            Err(e) => {
                self.phase = RunPhase::Done;
                Next::Stop(Outcome::Failed(FailedStage::Consume, e.message))
            },
        }
    }

    /// The working copy was brought up to date, or that failed; on success the
    /// run asks for the version of the announced definition.
    pub fn on_downloaded(&mut self, downloaded: Result<(), String>) -> (r: Next)
        requires
            old(self).wf(),
            old(self).phase_spec() == RunPhase::Downloading,
        ensures
            final(self).wf(),
            downloaded is Ok ==> final(self).phase_spec() == RunPhase::SettingVersion
                && final(self).received_spec() == old(self).received_spec() && (r matches Next::SetVersion(v)
                && v@ == old(self).received_spec()->Some_0.version),
            downloaded matches Err(m) ==> final(self).phase_spec() == RunPhase::Done && final(self).received_spec()
                is None && (r matches Next::Stop(Outcome::Failed(FailedStage::Download, x)) && x@ == m@),
    {
        match downloaded {
            Ok(()) => {
                self.phase = RunPhase::SettingVersion;
                match &self.received {
                    Some(d) => Next::SetVersion(d.version()),
                    None => Next::SetVersion(String::new()),
                }
            },
            Err(m) => {
                self.phase = RunPhase::Done;
                self.received = None;
                Next::Stop(Outcome::Failed(FailedStage::Download, m))
            },
        }
    }

    /// The working copy was moved to the version, or that failed.
    pub fn on_version_set(&mut self, set: Result<(), String>) -> (r: Next)
        requires
            old(self).wf(),
            old(self).phase_spec() == RunPhase::SettingVersion,
        ensures
            final(self).wf(),
            set is Ok ==> r is Read && final(self).phase_spec() == RunPhase::Reading
                && final(self).received_spec() == old(self).received_spec(),
            set matches Err(m) ==> final(self).phase_spec() == RunPhase::Done && final(self).received_spec()
                is None && (r matches Next::Stop(Outcome::Failed(FailedStage::SetVersion, x)) && x@ == m@),
    {
        match set {
            Ok(()) => {
                self.phase = RunPhase::Reading;
                Next::Read
            },
            Err(m) => {
                self.phase = RunPhase::Done;
                self.received = None;
                Next::Stop(Outcome::Failed(FailedStage::SetVersion, m))
            },
        }
    }

    /// The definition read from the files, or the reason it could not be read;
    /// a definition is compared with the announced one.
    pub fn on_read(&mut self, read: Result<Definition, Error>) -> (r: Next)
        requires
            old(self).wf(),
            old(self).phase_spec() == RunPhase::Reading,
        ensures
            final(self).wf(),
            final(self).phase_spec() == RunPhase::Done,
            read matches Ok(d) ==> (r matches Next::Stop(o) && exit_code_spec(o) == comparison_code(
                old(self).received_spec()->Some_0,
                d@,
            ) && (o is Matched <==> old(self).received_spec()->Some_0 == d@) && (o matches Outcome::Mismatched(
                x,
                y,
            ) ==> x@ == old(self).received_spec()->Some_0 && y@ == d@)),
            read matches Err(e) ==> (r matches Next::Stop(Outcome::Failed(FailedStage::Read, m))
                && m@ == e.message@),
    {
        self.phase = RunPhase::Done;
        let received = self.received.take();
        match (received, read) {
            (Some(received), Ok(d)) => Next::Stop(compare(received, d)),
            (_, Err(e)) => Next::Stop(Outcome::Failed(FailedStage::Read, e.message)),
            (None, Ok(_)) => {
                // a run in the reading phase always holds the announced definition
                assert(false);
                Next::Stop(Outcome::Matched)
            },
        }
    }
}

} // verus!
