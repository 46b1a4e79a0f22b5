use vstd::prelude::*;

verus! {

/// What came of trying to open the socket's file.
#[derive(Clone, Copy, Debug, PartialEq, Eq, Structural)]
pub enum OpenOutcome {
    /// The file exists and could be opened.
    Opened,
    /// There is no file at the path.
    NotFound,
    /// Opening failed for another reason; this says nothing conclusive.
    OtherError,
}

/// Whether a server owns the socket.
#[derive(Clone, Copy, Debug, PartialEq, Eq, Structural)]
pub enum LivenessResult {
    /// No socket file: nobody has started a server here.
    NoArtifact,
    /// A socket file is there, but no server answered the status check.
    ArtifactButUnresponsive,
    /// A socket file is there and a server answered the status check.
    ArtifactAndLive,
}

/// The status check is made unless the file was certainly not found.
pub open spec fn spec_needs_status_check(open: OpenOutcome) -> bool {
    open != OpenOutcome::NotFound
}

/// The probe's verdict, given how opening went and whether a status check
/// over the socket came back with a response (of any kind).
pub open spec fn spec_liveness(open: OpenOutcome, replied: bool) -> LivenessResult {
    if open == OpenOutcome::NotFound {
        LivenessResult::NoArtifact
    } else if replied {
        LivenessResult::ArtifactAndLive
    } else {
        LivenessResult::ArtifactButUnresponsive
    }
}

/// Decides, after the attempt to open the socket's file, whether the status
/// check must be made. Only a missing file settles the question; any other
/// failure to open is inconclusive and the check decides.
pub fn needs_status_check(open: OpenOutcome) -> (r: bool)
    ensures
        r == spec_needs_status_check(open),
{
    match open {
        OpenOutcome::NotFound => false,
        _ => true,
    }
}

/// The verdict of the probe. `replied` is whether a status check got a
/// response; it is ignored when the file was not found, since no check is
/// made then.
pub fn liveness(open: OpenOutcome, replied: bool) -> (r: LivenessResult)
    ensures
        r == spec_liveness(open, replied),
{
    match open {
        OpenOutcome::NotFound => LivenessResult::NoArtifact,
        _ => {
            if replied {
                LivenessResult::ArtifactAndLive
            } else {
                LivenessResult::ArtifactButUnresponsive
            }
        },
    }
}

/// Whatever the file's state and whatever the status check gives, the probe
/// yields exactly one verdict, and it is `NoArtifact` exactly when the file
/// does not exist. A status check is made exactly when the verdict is not
/// `NoArtifact`, and then its answer alone separates a live owner from a
/// stale file.
pub proof fn lemma_probe_verdict(open: OpenOutcome, replied: bool)
    ensures
        (spec_liveness(open, replied) == LivenessResult::NoArtifact) <==> (open
            == OpenOutcome::NotFound),
        spec_needs_status_check(open) <==> (spec_liveness(open, replied)
            != LivenessResult::NoArtifact),
        spec_needs_status_check(open) ==> (spec_liveness(open, replied)
            == LivenessResult::ArtifactAndLive <==> replied),
        spec_liveness(open, replied) == LivenessResult::NoArtifact || spec_liveness(open, replied)
            == LivenessResult::ArtifactButUnresponsive || spec_liveness(open, replied)
            == LivenessResult::ArtifactAndLive,
{
}

} // verus!
