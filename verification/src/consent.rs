//! The consent listening session: a bounded decision loop that watches a
//! stream of per-frame engine events until an understood `allow` intent, a
//! fatal device error, or the wall-clock timeout.
//!
//! The audio device and the intent engine run outside this crate. The driver
//! reads one frame per iteration while time remains and reports what happened
//! as a [`ConsentEvent`]; every decision made on those events is verified
//! here. The end of the event stream models the timeout: the driver stops
//! producing events once the wall clock passes the session budget.

use vstd::prelude::*;

use crate::outcome::FailureReason;
use crate::outcome::IntentOutcome;
use crate::outcome::ListenerOutcome;
use crate::outcome::SessionReport;

verus! {

/// What one loop iteration of a consent session observed.
#[derive(PartialEq, Eq, Debug)]
pub enum ConsentEvent {
    /// The device failed to produce a frame: fatal for the session.
    ReadFailed,
    /// The engine rejected the frame; logged and skipped — consent's
    /// per-frame inference handling is the one place the error policy
    /// lets an inference error pass, the session simply keeps listening.
    ProcessFailed,
    /// The frame was consumed but the engine has not finalized an inference.
    NotFinalized,
    /// The engine finalized; `inference` is `None` when fetching the
    /// inference failed, which is logged and skipped, never fatal.
    Finalized { inference: Option<IntentOutcome> },
}

/// The terminal outcome a single event forces, if any.
///
/// A read error aborts the session at once; an understood `allow` intent
/// grants consent. Everything else keeps the loop running: consent is
/// allow-or-nothing, so a finalized intent other than `allow` is not a
/// denial, it simply lets the session run on to its timeout.
pub open spec fn consent_decision(ev: ConsentEvent) -> Option<ListenerOutcome> {
    match ev {
        ConsentEvent::ReadFailed => Some(ListenerOutcome::Failed(FailureReason::DeviceRead)),
        ConsentEvent::Finalized { inference } => match inference {
            Some(outcome) => if outcome.spec_is_allow() {
                Some(ListenerOutcome::Allowed)
            } else {
                None
            },
            None => None,
        },
        _ => None,
    }
}

/// Outcome of a whole consent session over its event stream: the decision of
/// the first decisive event, or `Denied` when the stream ends (the timeout)
/// with no decisive event ever observed.
pub open spec fn consent_outcome(evs: Seq<ConsentEvent>) -> ListenerOutcome
    decreases evs.len(),
{
    if evs.len() == 0 {
        ListenerOutcome::Denied
    } else {
        match consent_decision(evs[0]) {
            Some(outcome) => outcome,
            None => consent_outcome(evs.drop_first()),
        }
    }
}

/// How many frames a consent session reads: everything up to and including
/// the first decisive event, or the whole stream when none is decisive.
pub open spec fn consent_frames(evs: Seq<ConsentEvent>) -> nat
    decreases evs.len(),
{
    if evs.len() == 0 {
        0
    } else {
        match consent_decision(evs[0]) {
            Some(_) => 1,
            None => 1 + consent_frames(evs.drop_first()),
        }
    }
}

/// Decide what a single consent event forces, if anything.
pub fn consent_step(ev: &ConsentEvent) -> (r: Option<ListenerOutcome>)
    ensures
        r == consent_decision(*ev),
{
    match ev {
        ConsentEvent::ReadFailed => Some(ListenerOutcome::Failed(FailureReason::DeviceRead)),
        ConsentEvent::Finalized { inference } => match inference {
            Some(outcome) => if outcome.is_allow() {
                Some(ListenerOutcome::Allowed)
            } else {
                None
            },
            None => None,
        },
        _ => None,
    }
}

fn run_consent_from(events: &Vec<ConsentEvent>, i: usize) -> (r: SessionReport)
    requires
        i <= events@.len(),
    ensures
        r.outcome == consent_outcome(events@.skip(i as int)),
        r.frames_read == consent_frames(events@.skip(i as int)),
        r.frames_read <= events@.len() - i,
        r.device_stops == 1,
    decreases events@.len() - i,
{
    if i == events.len() {
        assert(events@.skip(i as int) =~= Seq::<ConsentEvent>::empty());
        SessionReport { outcome: ListenerOutcome::Denied, frames_read: 0, device_stops: 1 }
    } else {
        assert(events@.skip(i as int).drop_first() =~= events@.skip(i + 1));
        assert(events@.skip(i as int)[0] == events@[i as int]);
        match consent_step(&events[i]) {
            Some(outcome) => SessionReport { outcome, frames_read: 1, device_stops: 1 },
            None => {
                let rest = run_consent_from(events, i + 1);
                SessionReport {
                    outcome: rest.outcome,
                    frames_read: 1 + rest.frames_read,
                    device_stops: rest.device_stops,
                }
            },
        }
    }
}

/// Run a whole consent session over the events its device and engine
/// produced before the timeout. The report's outcome and frame count follow
/// [`consent_outcome`] and [`consent_frames`] exactly, and the device is
/// released exactly once, whichever way the session ends.
pub fn run_consent_session(events: &Vec<ConsentEvent>) -> (r: SessionReport)
    ensures
        r.outcome == consent_outcome(events@),
        r.frames_read == consent_frames(events@),
        r.device_stops == 1,
{
    let r = run_consent_from(events, 0);
    assert(events@.skip(0) =~= events@);
    r
}

/// A consent session over a stream with no decisive event — a device that
/// only ever produces non-matching frames — ends in `Denied` once the
/// timeout exhausts the stream, after reading every frame.
pub proof fn lemma_consent_denied_without_decision(evs: Seq<ConsentEvent>)
    requires
        forall|j: int| 0 <= j < evs.len() ==> consent_decision(#[trigger] evs[j]) is None,
    ensures
        consent_outcome(evs) == ListenerOutcome::Denied,
        consent_frames(evs) == evs.len(),
    decreases evs.len(),
{
    if evs.len() > 0 {
        assert(consent_decision(evs[0]) is None);
        assert(forall|j: int|
            0 <= j < evs.drop_first().len() ==> consent_decision(
                #[trigger] evs.drop_first()[j],
            ) is None);
        lemma_consent_denied_without_decision(evs.drop_first());
    }
}

/// A consent session ends with the decision of the first decisive event and
/// reads no frame beyond it.
pub proof fn lemma_consent_stops_at_first_decision(evs: Seq<ConsentEvent>, i: int)
    requires
        0 <= i < evs.len(),
        forall|j: int| 0 <= j < i ==> consent_decision(#[trigger] evs[j]) is None,
        consent_decision(evs[i]) is Some,
    ensures
        Some(consent_outcome(evs)) == consent_decision(evs[i]),
        consent_frames(evs) == i + 1,
    decreases evs.len(),
{
    if i == 0 {
    } else {
        assert(consent_decision(evs[0]) is None);
        assert(evs.drop_first()[i - 1] == evs[i]);
        assert(forall|j: int|
            0 <= j < i - 1 ==> consent_decision(#[trigger] evs.drop_first()[j]) is None) by {
            assert(forall|j: int| 0 <= j < i - 1 ==> evs.drop_first()[j] == evs[j + 1]);
        }
        lemma_consent_stops_at_first_decision(evs.drop_first(), i - 1);
    }
}

/// A stream whose one decisive event is an understood `allow` intent at
/// index `i` yields `Allowed`, and the session stops reading immediately
/// after that frame, strictly before the timeout could exhaust the stream.
pub proof fn lemma_consent_allowed_at_first_allow(evs: Seq<ConsentEvent>, i: int)
    requires
        0 <= i < evs.len(),
        forall|j: int| 0 <= j < i ==> consent_decision(#[trigger] evs[j]) is None,
        consent_decision(evs[i]) == Some(ListenerOutcome::Allowed),
    ensures
        consent_outcome(evs) == ListenerOutcome::Allowed,
        consent_frames(evs) == i + 1,
{
    lemma_consent_stops_at_first_decision(evs, i);
}

/// A device read failure at index `i`, with nothing decisive before it,
/// fails the whole session right there; no later frame is read. The runner's
/// own contract adds that the device is still released exactly once.
pub proof fn lemma_consent_fails_at_read_error(evs: Seq<ConsentEvent>, i: int)
    requires
        0 <= i < evs.len(),
        forall|j: int| 0 <= j < i ==> consent_decision(#[trigger] evs[j]) is None,
        evs[i] == ConsentEvent::ReadFailed,
    ensures
        consent_outcome(evs) == ListenerOutcome::Failed(FailureReason::DeviceRead),
        consent_frames(evs) == i + 1,
{
    lemma_consent_stops_at_first_decision(evs, i);
}

} // verus!
