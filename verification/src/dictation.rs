//! The dictation listening session: transcript chunks are concatenated in
//! call order; the engine's endpoint signal triggers one flush of trailing
//! audio and ends the session; the timeout ends it with the partial text.
//!
//! Dictation has no notion of denial: a timeout is not an error, it simply
//! ends capture and returns whatever was transcribed. A device read failure
//! is fatal, exactly as in a consent session; so is an engine failure on a
//! frame — the error policy makes inference errors non-fatal only for a
//! consent session's per-frame handling.

use vstd::prelude::*;

use crate::outcome::FailureReason;
use crate::outcome::ListenerOutcome;
use crate::outcome::SessionReport;

verus! {

/// What one loop iteration of a dictation session observed.
#[derive(PartialEq, Eq, Debug)]
pub enum DictationEvent {
    /// The device failed to produce a frame: fatal for the session.
    ReadFailed,
    /// The engine failed on the frame: fatal for the session — inference
    /// errors are non-fatal only for consent's per-frame handling.
    ProcessFailed,
    /// The engine transcribed the frame. `is_endpoint` marks the detected
    /// end of the utterance, after which trailing audio must be flushed.
    Chunk { text: String, is_endpoint: bool },
}

/// The abstract result of a dictation session: why it failed, if it did,
/// the transcript accumulated over the frames it read, and that frame
/// count.
pub struct DictationModel {
    pub failure: Option<FailureReason>,
    pub text: Seq<char>,
    pub frames: nat,
}

/// The trailing text a flush contributes: a failed flush is skipped, it
/// loses the trailing audio but not the transcript already accumulated.
pub open spec fn flush_text(flush: Option<String>) -> Seq<char> {
    match flush {
        Some(text) => text@,
        None => Seq::empty(),
    }
}

/// One session over its event stream, front to back: chunks accumulate in
/// call order, the first endpoint flushes and ends the session, a read or
/// processing failure ends it at once, and the end of the stream is the
/// timeout.
pub open spec fn dictation_model(evs: Seq<DictationEvent>, flush: Option<String>) -> DictationModel
    decreases evs.len(),
{
    if evs.len() == 0 {
        DictationModel { failure: None, text: Seq::empty(), frames: 0 }
    } else {
        match evs[0] {
            DictationEvent::ReadFailed => DictationModel {
                failure: Some(FailureReason::DeviceRead),
                text: Seq::empty(),
                frames: 1,
            },
            DictationEvent::ProcessFailed => DictationModel {
                failure: Some(FailureReason::Inference),
                text: Seq::empty(),
                frames: 1,
            },
            DictationEvent::Chunk { text, is_endpoint } => {
                if is_endpoint {
                    DictationModel { failure: None, text: text@ + flush_text(flush), frames: 1 }
                } else {
                    let rest = dictation_model(evs.drop_first(), flush);
                    DictationModel {
                        failure: rest.failure,
                        text: text@ + rest.text,
                        frames: 1 + rest.frames,
                    }
                }
            },
        }
    }
}

/// Where a dictation session stands.
#[derive(Clone, Copy, PartialEq, Eq, Structural, Debug)]
pub enum DictationPhase {
    /// Reading frames while time remains.
    Listening,
    /// An endpoint was detected; trailing audio must be flushed next.
    AwaitingFlush,
    /// A terminal outcome was produced.
    Done,
}

/// What the driver must do after handing the session one event.
#[derive(Clone, Copy, PartialEq, Eq, Structural, Debug)]
pub enum DictationAction {
    /// Read the next frame, if the timeout has not passed.
    Continue,
    /// Flush the engine's trailing audio and hand the result to
    /// [`DictationSession::on_flush`].
    Flush,
    /// Fatal: release the device and end the session with
    /// `ListenerOutcome::Failed` carrying this reason.
    Abort(FailureReason),
}

/// One dictation session, stepped by the driver that owns the device and
/// the engine: it accumulates transcript chunks in call order and decides
/// when the session ends.
pub struct DictationSession {
    transcript: String,
    phase: DictationPhase,
}

impl DictationSession {
    /// The transcript accumulated so far.
    pub closed spec fn spec_transcript(&self) -> Seq<char> {
        self.transcript@
    }

    pub closed spec fn spec_phase(&self) -> DictationPhase {
        self.phase
    }

    pub fn new() -> (r: DictationSession)
        ensures
            r.spec_transcript() == Seq::<char>::empty(),
            r.spec_phase() is Listening,
    {
        DictationSession { transcript: String::new(), phase: DictationPhase::Listening }
    }

    /// Feed one frame's event. A chunk extends the transcript in call
    /// order; the first endpoint asks for a flush; a read or processing
    /// failure aborts the session.
    pub fn on_event(&mut self, ev: &DictationEvent) -> (a: DictationAction)
        requires
            old(self).spec_phase() is Listening,
        ensures
            *ev is ReadFailed ==> a == DictationAction::Abort(FailureReason::DeviceRead)
                && final(self).spec_phase() is Done && final(self).spec_transcript() == old(
                self,
            ).spec_transcript(),
            *ev is ProcessFailed ==> a == DictationAction::Abort(FailureReason::Inference)
                && final(self).spec_phase() is Done && final(self).spec_transcript() == old(
                self,
            ).spec_transcript(),
            *ev matches DictationEvent::Chunk { text, is_endpoint } ==> final(self).spec_transcript()
                == old(self).spec_transcript() + text@ && (if is_endpoint {
                a is Flush && final(self).spec_phase() is AwaitingFlush
            } else {
                a is Continue && final(self).spec_phase() is Listening
            }),
    {
        match ev {
            DictationEvent::ReadFailed => {
                self.phase = DictationPhase::Done;
                DictationAction::Abort(FailureReason::DeviceRead)
            },
            DictationEvent::ProcessFailed => {
                self.phase = DictationPhase::Done;
                DictationAction::Abort(FailureReason::Inference)
            },
            DictationEvent::Chunk { text, is_endpoint } => {
                self.transcript.append(text.as_str());
                if *is_endpoint {
                    self.phase = DictationPhase::AwaitingFlush;
                    DictationAction::Flush
                } else {
                    DictationAction::Continue
                }
            },
        }
    }

    /// Finish after an endpoint, appending what the flush of trailing audio
    /// returned (`None` for a failed flush, which is skipped).
    pub fn on_flush(&mut self, trailing: &Option<String>) -> (r: ListenerOutcome)
        requires
            old(self).spec_phase() is AwaitingFlush,
        ensures
            final(self).spec_phase() is Done,
            r matches ListenerOutcome::Transcript(t) && t@ == old(self).spec_transcript()
                + flush_text(*trailing),
    {
        match trailing {
            Some(text) => self.transcript.append(text.as_str()),
            None => (),
        }
        self.phase = DictationPhase::Done;
        let transcript = self.transcript.clone();
        ListenerOutcome::Transcript(transcript)
    }

    /// Finish at the timeout: the partial transcript is the result, not an
    /// error.
    pub fn on_timeout(&mut self) -> (r: ListenerOutcome)
        requires
            old(self).spec_phase() is Listening,
        ensures
            final(self).spec_phase() is Done,
            r matches ListenerOutcome::Transcript(t) && t@ == old(self).spec_transcript(),
    {
        self.phase = DictationPhase::Done;
        let transcript = self.transcript.clone();
        ListenerOutcome::Transcript(transcript)
    }

    /// The outcome of a session aborted for `reason`.
    pub fn into_failure(self, reason: FailureReason) -> (r: ListenerOutcome)
        requires
            self.spec_phase() is Done,
        ensures
            r == ListenerOutcome::Failed(reason),
    {
        ListenerOutcome::Failed(reason)
    }
}

fn run_dictation_from(
    events: &Vec<DictationEvent>,
    i: usize,
    flush: &Option<String>,
) -> (r: SessionReport)
    requires
        i <= events@.len(),
    ensures
        ({
            let m = dictation_model(events@.skip(i as int), *flush);
            &&& r.frames_read == m.frames
            &&& r.frames_read <= events@.len() - i
            &&& r.device_stops == 1
            &&& m.failure matches Some(reason) ==> r.outcome == ListenerOutcome::Failed(reason)
            &&& m.failure is None ==> (r.outcome matches ListenerOutcome::Transcript(t) && t@
                == m.text)
        }),
    decreases events@.len() - i,
{
    if i == events.len() {
        assert(events@.skip(i as int) =~= Seq::<DictationEvent>::empty());
        SessionReport {
            outcome: ListenerOutcome::Transcript(String::new()),
            frames_read: 0,
            device_stops: 1,
        }
    } else {
        assert(events@.skip(i as int).drop_first() =~= events@.skip(i + 1));
        assert(events@.skip(i as int)[0] == events@[i as int]);
        match &events[i] {
            DictationEvent::ReadFailed => SessionReport {
                outcome: ListenerOutcome::Failed(FailureReason::DeviceRead),
                frames_read: 1,
                device_stops: 1,
            },
            DictationEvent::ProcessFailed => SessionReport {
                outcome: ListenerOutcome::Failed(FailureReason::Inference),
                frames_read: 1,
                device_stops: 1,
            },
            DictationEvent::Chunk { text, is_endpoint } => {
                if *is_endpoint {
                    let mut acc = text.clone();
                    match flush {
                        Some(trailing) => acc.append(trailing.as_str()),
                        None => (),
                    }
                    SessionReport {
                        outcome: ListenerOutcome::Transcript(acc),
                        frames_read: 1,
                        device_stops: 1,
                    }
                } else {
                    let rest = run_dictation_from(events, i + 1, flush);
                    match rest.outcome {
                        ListenerOutcome::Transcript(tail) => {
                            let mut acc = text.clone();
                            acc.append(tail.as_str());
                            SessionReport {
                                outcome: ListenerOutcome::Transcript(acc),
                                frames_read: 1 + rest.frames_read,
                                device_stops: rest.device_stops,
                            }
                        },
                        _ => SessionReport {
                            outcome: rest.outcome,
                            frames_read: 1 + rest.frames_read,
                            device_stops: rest.device_stops,
                        },
                    }
                }
            },
        }
    }
}

/// Run a whole dictation session over the events its device and engine
/// produced before the timeout, together with what one flush of trailing
/// audio would return after an endpoint (`None` for a failed flush).
///
/// The report follows [`dictation_model`] exactly: the transcript is the
/// chunks up to and including the first endpoint, in call order, plus the
/// flushed trailing text; without an endpoint it is every chunk read before
/// the timeout; a read or processing failure fails the session with its
/// reason. The device is released exactly once, whichever way the session
/// ends.
pub fn run_dictation_session(events: &Vec<DictationEvent>, flush: &Option<String>) -> (r:
    SessionReport)
    ensures
        ({
            let m = dictation_model(events@, *flush);
            &&& r.frames_read == m.frames
            &&& r.device_stops == 1
            &&& m.failure matches Some(reason) ==> r.outcome == ListenerOutcome::Failed(reason)
            &&& m.failure is None ==> (r.outcome matches ListenerOutcome::Transcript(t) && t@
                == m.text)
        }),
{
    let r = run_dictation_from(events, 0, flush);
    assert(events@.skip(0) =~= events@);
    r
}

/// Whether an event ends the reading loop: a fatal read or processing
/// failure, or the chunk that carries the endpoint signal.
pub open spec fn dict_decisive(ev: DictationEvent) -> bool {
    ||| ev is ReadFailed
    ||| ev is ProcessFailed
    ||| ev matches DictationEvent::Chunk { is_endpoint: true, .. }
}

/// The text one event contributes to the transcript.
pub open spec fn chunk_text(ev: DictationEvent) -> Seq<char> {
    match ev {
        DictationEvent::Chunk { text, .. } => text@,
        _ => Seq::empty(),
    }
}

/// The concatenation, in call order, of the text of every event in the
/// stream.
pub open spec fn chunks_text(evs: Seq<DictationEvent>) -> Seq<char>
    decreases evs.len(),
{
    if evs.len() == 0 {
        Seq::empty()
    } else {
        chunk_text(evs[0]) + chunks_text(evs.drop_first())
    }
}

/// A stream whose first decisive event is the endpoint chunk at index `i`
/// yields a transcript: every chunk up to and including the endpoint,
/// concatenated in call order, plus the flushed trailing text — and the
/// session reads no frame beyond the endpoint.
pub proof fn lemma_dictation_ends_at_first_endpoint(
    evs: Seq<DictationEvent>,
    flush: Option<String>,
    i: int,
)
    requires
        0 <= i < evs.len(),
        forall|j: int| 0 <= j < i ==> !dict_decisive(#[trigger] evs[j]),
        evs[i] matches DictationEvent::Chunk { is_endpoint: true, .. },
    ensures
        dictation_model(evs, flush).failure is None,
        dictation_model(evs, flush).frames == i + 1,
        dictation_model(evs, flush).text == chunks_text(evs.take(i + 1)) + flush_text(flush),
    decreases evs.len(),
{
    if i == 0 {
        assert(evs.take(1).drop_first() =~= Seq::<DictationEvent>::empty());
        assert(evs.take(1)[0] == evs[0]);
        assert(chunks_text(Seq::<DictationEvent>::empty()) == Seq::<char>::empty());
        assert(chunks_text(evs.take(1)) =~= chunk_text(evs[0]));
    } else {
        assert(!dict_decisive(evs[0]));
        assert(forall|j: int| 0 <= j < evs.drop_first().len() ==> evs.drop_first()[j] == evs[j + 1]);
        assert(evs.drop_first()[i - 1] == evs[i]);
        lemma_dictation_ends_at_first_endpoint(evs.drop_first(), flush, i - 1);
        assert(evs.take(i + 1)[0] == evs[0]);
        assert(evs.take(i + 1).drop_first() =~= evs.drop_first().take(i));
        assert(chunks_text(evs.take(i + 1)) == chunk_text(evs[0]) + chunks_text(
            evs.drop_first().take(i),
        ));
        assert(dictation_model(evs, flush).text =~= chunks_text(evs.take(i + 1)) + flush_text(
            flush,
        ));
    }
}

/// A device read failure or an engine processing failure at index `i`,
/// with no decisive event before it, fails the whole dictation session
/// right there with the matching reason; no later frame is read. The
/// runner's own contract adds that the device is still released exactly
/// once.
pub proof fn lemma_dictation_fails_at_first_error(
    evs: Seq<DictationEvent>,
    flush: Option<String>,
    i: int,
)
    requires
        0 <= i < evs.len(),
        forall|j: int| 0 <= j < i ==> !dict_decisive(#[trigger] evs[j]),
        evs[i] is ReadFailed || evs[i] is ProcessFailed,
    ensures
        evs[i] is ReadFailed ==> dictation_model(evs, flush).failure == Some(
            FailureReason::DeviceRead,
        ),
        evs[i] is ProcessFailed ==> dictation_model(evs, flush).failure == Some(
            FailureReason::Inference,
        ),
        dictation_model(evs, flush).frames == i + 1,
    decreases evs.len(),
{
    if i > 0 {
        assert(!dict_decisive(evs[0]));
        assert(forall|j: int| 0 <= j < evs.drop_first().len() ==> evs.drop_first()[j] == evs[j + 1]);
        assert(evs.drop_first()[i - 1] == evs[i]);
        lemma_dictation_fails_at_first_error(evs.drop_first(), flush, i - 1);
    }
}

/// A dictation session that never sees an endpoint, a read failure or a
/// processing failure — a timeout with partial text — returns the
/// concatenation of every chunk, in call order, as a transcript rather
/// than an error.
pub proof fn lemma_dictation_timeout_keeps_partial_text(
    evs: Seq<DictationEvent>,
    flush: Option<String>,
)
    requires
        forall|j: int| 0 <= j < evs.len() ==> !dict_decisive(#[trigger] evs[j]),
    ensures
        dictation_model(evs, flush).failure is None,
        dictation_model(evs, flush).frames == evs.len(),
        dictation_model(evs, flush).text == chunks_text(evs),
    decreases evs.len(),
{
    if evs.len() > 0 {
        assert(!dict_decisive(evs[0]));
        assert(forall|j: int| 0 <= j < evs.drop_first().len() ==> evs.drop_first()[j] == evs[j + 1]);
        lemma_dictation_timeout_keeps_partial_text(evs.drop_first(), flush);
        assert(dictation_model(evs, flush).text =~= chunks_text(evs));
    }
}

} // verus!
