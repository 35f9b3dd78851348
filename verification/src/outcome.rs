//! Terminal results of a listening session and the error taxonomy.

use vstd::prelude::*;

verus! {

/// Why a listening session failed.
#[derive(Clone, Copy, PartialEq, Eq, Structural, Debug)]
pub enum FailureReason {
    /// The engine could not be created — bad credential or model resources;
    /// this aborts an operation before any device is touched.
    EngineInit,
    /// The device could not start capturing.
    DeviceStart,
    /// A frame read failed mid-session; aborts immediately, since a
    /// corrupted audio stream cannot be trusted.
    DeviceRead,
    /// The engine failed on a frame, or a finalized inference could not be
    /// fetched. Fatal to the session, with one exception: a consent
    /// session's per-frame inference handling logs the error and keeps
    /// listening.
    Inference,
}

/// Terminal value of a listening session, returned to the caller.
#[derive(PartialEq, Eq, Debug)]
pub enum ListenerOutcome {
    Allowed,
    Denied,
    Transcript(String),
    KeywordDetected(i32),
    TimedOut,
    Failed(FailureReason),
}

/// What a finished listening session reports: its terminal outcome, how many
/// frames it consumed, and how often it released the device.
#[derive(PartialEq, Eq, Debug)]
pub struct SessionReport {
    pub outcome: ListenerOutcome,
    pub frames_read: usize,
    pub device_stops: usize,
}

/// A finalized intent inference: the decoded intent, if any, and whether the
/// engine understood the utterance.
#[derive(PartialEq, Eq, Debug)]
pub struct IntentOutcome {
    pub intent: Option<String>,
    pub understood: bool,
}

impl IntentOutcome {
    /// An outcome grants consent exactly when the utterance was understood
    /// and the decoded intent is the literal `allow`.
    pub open spec fn spec_is_allow(&self) -> bool {
        self.understood && match self.intent {
            Some(s) => s@ == "allow"@,
            None => false,
        }
    }

    /// Consent is allow-or-nothing: only an understood `allow` intent counts.
    pub fn is_allow(&self) -> (r: bool)
        ensures
            r == self.spec_is_allow(),
    {
        if !self.understood {
            return false;
        }
        match &self.intent {
            Some(s) => {
                let allow = String::from_str("allow");
                *s == allow
            },
            None => false,
        }
    }
}

} // verus!
