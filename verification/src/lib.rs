//! Voice-listening subsystem: bounded decision loops for verbal consent and
//! dictation, a background keyword-listener state machine, and a
//! consume-on-read result slot.
//!
//! The real-time audio device and the speech-inference engines live outside
//! this crate; the control logic here is written over the events they
//! produce, so every decision a listening session makes is verified.

pub mod capture;
pub mod consent;
pub mod dictation;
pub mod guard;
pub mod keyword;
pub mod outcome;
pub mod text;

pub use capture::ScreenshotResult;
pub use capture::encode_capture;
pub use consent::ConsentEvent;
pub use consent::consent_step;
pub use consent::run_consent_session;
pub use dictation::DictationAction;
pub use dictation::DictationEvent;
pub use dictation::DictationPhase;
pub use dictation::DictationSession;
pub use dictation::run_dictation_session;
pub use guard::RecordingGuard;
pub use keyword::KeywordDetection;
pub use keyword::KeywordListener;
pub use keyword::ListenerState;
pub use keyword::ResultStore;
pub use outcome::FailureReason;
pub use outcome::IntentOutcome;
pub use outcome::ListenerOutcome;
pub use outcome::SessionReport;
pub use text::describe_keyword;
