//! The phases of one run.

use vstd::prelude::*;

verus! {

/// Where a run stands.
#[derive(Clone, Copy, Debug, PartialEq, Eq, Structural)]
pub enum Phase {
    Start,
    /// The manifest was found.
    Located,
    /// The manifest was parsed.
    Parsed,
    /// The metadata was read.
    Extracted,
    /// The license text is ready.
    Rendered,
    /// The license file is written.
    Written,
    /// The manifest names the license file.
    Updated,
    /// No update was asked for.
    UpdateSkipped,
    /// The update was tried and failed; the license file stands.
    UpdateFailed,
    /// The run has succeeded.
    Done,
    /// The run has failed, and no license file was written.
    Aborted,
}

impl Phase {
    /// Whether the license file is written.
    pub open spec fn written(self) -> bool {
        match self {
            Phase::Written | Phase::Updated | Phase::UpdateSkipped | Phase::UpdateFailed | Phase::Done => true,
            _ => false,
        }
    }

    /// The phase that follows `self` when the work of `self` has ended well
    /// (`ok`) or not, in a run that was asked to update the manifest
    /// (`update`) or not.
    pub open spec fn following(self, ok: bool, update: bool) -> Phase {
        match self {
            Phase::Start => if ok { Phase::Located } else { Phase::Aborted },
            Phase::Located => if ok { Phase::Parsed } else { Phase::Aborted },
            Phase::Parsed => if ok { Phase::Extracted } else { Phase::Aborted },
            Phase::Extracted => if ok { Phase::Rendered } else { Phase::Aborted },
            Phase::Rendered => if ok { Phase::Written } else { Phase::Aborted },
            Phase::Written => if !update {
                Phase::UpdateSkipped
            } else if ok {
                Phase::Updated
            } else {
                Phase::UpdateFailed
            },
            Phase::Updated | Phase::UpdateSkipped | Phase::UpdateFailed | Phase::Done => Phase::Done,
            Phase::Aborted => Phase::Aborted,
        }
    }

    /// Moves on from `self`. Before the license file is written a failure
    /// ends the run; after it nothing does.
    pub fn next(self, ok: bool, update: bool) -> (r: Phase)
        ensures
            r == self.following(ok, update),
    {
        match self {
            Phase::Start => if ok { Phase::Located } else { Phase::Aborted },
            Phase::Located => if ok { Phase::Parsed } else { Phase::Aborted },
            Phase::Parsed => if ok { Phase::Extracted } else { Phase::Aborted },
            Phase::Extracted => if ok { Phase::Rendered } else { Phase::Aborted },
            Phase::Rendered => if ok { Phase::Written } else { Phase::Aborted },
            Phase::Written => if !update {
                Phase::UpdateSkipped
            } else if ok {
                Phase::Updated
            } else {
                Phase::UpdateFailed
            },
            Phase::Updated | Phase::UpdateSkipped | Phase::UpdateFailed | Phase::Done => Phase::Done,
            Phase::Aborted => Phase::Aborted,
        }
    }
}

/// A run ends well only with the license file written, and once the file is
/// written the run cannot fail, whatever becomes of the update.
pub proof fn lemma_written_decides(phase: Phase, ok: bool, update: bool)
    ensures
        phase.following(ok, update) == Phase::Done ==> phase.written(),
        phase.written() ==> phase.following(ok, update).written(),
        phase.following(ok, update).written() ==> phase.written() || (phase == Phase::Rendered
            && ok),
        phase.written() && phase != Phase::Written ==> phase.following(ok, update)
            == Phase::Done,
        phase == Phase::Written ==> phase.following(ok, update).following(ok, update)
            == Phase::Done,
{
}

} // verus!
