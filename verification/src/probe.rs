//! What a probe of a candidate URL answered, and what that means.

use vstd::prelude::*;

verus! {

/// The classified answer to one probe.
#[derive(Clone, Copy, Debug, PartialEq, Eq, Structural)]
pub enum ProbeOutcome {
    /// The server answered 200: the file is there.
    Success,
    /// The server answered 403: this is not the file.
    NotFound,
    /// The server answered with another status, possibly throttling.
    Throttled,
    /// No answer came back at all.
    TransportError,
}

/// The outcome that stands for a response status, or for the lack of a
/// response.
pub open spec fn classify_spec(status: Option<u16>) -> ProbeOutcome {
    match status {
        Some(code) => if code == 200 {
            ProbeOutcome::Success
        } else if code == 403 {
            ProbeOutcome::NotFound
        } else {
            ProbeOutcome::Throttled
        },
        None => ProbeOutcome::TransportError,
    }
}

/// Classifies the answer to a probe: `Some(status)` where the server
/// answered, `None` where the connection failed.
pub fn classify(status: Option<u16>) -> (r: ProbeOutcome)
    ensures
        r == classify_spec(status),
{
    match status {
        Some(code) => {
            if code == 200 {
                ProbeOutcome::Success
            } else if code == 403 {
                ProbeOutcome::NotFound
            } else {
                ProbeOutcome::Throttled
            }
        },
        None => ProbeOutcome::TransportError,
    }
}

impl ProbeOutcome {
    /// Whether the probe found the file.
    pub fn is_success(&self) -> (r: bool)
        ensures
            r == (*self == ProbeOutcome::Success),
    {
        match self {
            ProbeOutcome::Success => true,
            _ => false,
        }
    }

    /// Whether the outcome settles the question for its candidate: a success
    /// or a plain refusal does, a throttled or failed probe leaves it open.
    pub fn is_conclusive(&self) -> (r: bool)
        ensures
            r == (*self == ProbeOutcome::Success || *self == ProbeOutcome::NotFound),
    {
        match self {
            ProbeOutcome::Success => true,
            ProbeOutcome::NotFound => true,
            _ => false,
        }
    }
}

/// The outcomes of probing the first segment of a recording, plain and muted.
#[derive(Clone, Copy, Debug, PartialEq, Eq, Structural)]
pub struct SegmentProbe {
    pub normal: ProbeOutcome,
    pub muted: ProbeOutcome,
}

impl SegmentProbe {
    /// A recording can be had where either form of its first segment is there.
    pub open spec fn available_spec(&self) -> bool {
        self.normal == ProbeOutcome::Success || self.muted == ProbeOutcome::Success
    }

    /// Whether the recording can still be had.
    pub fn available(&self) -> (r: bool)
        ensures
            r == self.available_spec(),
    {
        self.normal.is_success() || self.muted.is_success()
    }
}

/// A status that is neither 200 nor 403 is never a match, and neither is a
/// failed connection.
pub proof fn lemma_only_200_matches(status: Option<u16>)
    ensures
        classify_spec(status) == ProbeOutcome::Success <==> status == Some(200u16),
        classify_spec(status) == ProbeOutcome::NotFound <==> status == Some(403u16),
        classify_spec(status) == ProbeOutcome::TransportError <==> status.is_none(),
{
}

} // verus!
