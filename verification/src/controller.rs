//! Dictation controller: the orchestrator's state machine. Trigger intents
//! and collaborator outcomes drive transitions; the controller owns at most
//! one capture session, hands its buffer to the transcription engine on stop,
//! sequences the optional refinement pass, and emits the finished
//! transcription.
//!
//! All transitions are stated against one abstract model ([`AbsCtrl`] and
//! [`abs_step`]); every method's contract says that the controller moves
//! exactly as the model prescribes, so the pipeline's laws are proved once,
//! over the model.
//!
//! The surrounding application performs each returned [`Action`] (open or
//! release the hardware stream, run the inference, make the network call,
//! hand the transcription to the collaborators) and feeds the outcome back in
//! as the next event; the `Error` and `Cancelled` excursions release every
//! held resource and land back in `Idle` within the same transition.

use vstd::prelude::*;
use crate::capture::{CaptureSession, CaptureState};
use crate::hotkey::TriggerIntent;
use crate::ids::fresh_id;
use crate::models::{CaptureError, PipelineError, RefinementError, Transcription, TranscriptionError};
use crate::refine::{build_request, choose_delivery, spec_delivered_text, PromptTemplate, RefineRequest};

verus! {

/// The controller's phase. `Cancelled` and `Error` are excursions that
/// release resources and land back in `Idle` within one transition, so a
/// controller is never left in them between calls.
#[derive(Debug, Clone, Copy, PartialEq, Eq, Structural)]
pub enum Phase {
    Idle,
    Recording,
    Transcribing,
    Refining,
    Delivering,
}

/// Configuration the controller reads at session start and never mutates.
#[derive(Debug, Clone)]
pub struct ControllerConfig {
    pub device_id: String,
    pub language: String,
    pub refine_enabled: bool,
    pub prompt: PromptTemplate,
}

/// What the controller asks the surrounding application to do after a
/// transition.
#[derive(Debug)]
pub enum Action {
    /// Nothing: the event was dropped or absorbed.
    Ignore,
    /// Acquire the hardware stream for the configured device.
    OpenStream { device_id: String },
    /// Release the hardware stream; no transcription follows.
    ReleaseStream,
    /// Run the speech model over the captured buffer.
    Transcribe { samples: Vec<i16>, language: String },
    /// Make the refinement call for the raw transcript.
    Refine { request: RefineRequest },
    /// Hand the finished transcription to the delivery collaborators.
    Deliver { transcription: Transcription },
    /// Release any held stream and surface a fatal session failure to the UI.
    Notify { error: PipelineError },
}

/// Abstract view of a capture session: its lifecycle state and samples.
pub struct AbsSession {
    pub state: CaptureState,
    pub samples: Seq<i16>,
}

/// Abstract view of the controller: everything the pipeline's laws speak of,
/// with identifiers and timestamps erased.
pub struct AbsCtrl {
    pub phase: Phase,
    pub session: Option<AbsSession>,
    pub raw: Option<Seq<char>>,
    pub discard: bool,
    pub refine_enabled: bool,
}

/// One event driving the controller, abstracted to plain values.
pub enum AbsEvent {
    Intent(TriggerIntent),
    StreamFailed(CaptureError),
    Samples(Seq<i16>),
    TranscriptionDone(Result<Seq<char>, TranscriptionError>),
    RefinementDone(Result<Seq<char>, RefinementError>),
    DeliveryDone,
}

/// What a transition makes observable: a delivered transcript, or a fatal
/// error surfaced to the UI.
pub struct AbsOut {
    pub delivered: Option<Seq<char>>,
    pub notified: Option<PipelineError>,
}

pub open spec fn abs_no_out() -> AbsOut {
    AbsOut { delivered: None, notified: None }
}

/// The controller's transition function over the abstract model: successor
/// state and observable output for one event.
pub open spec fn abs_step(a: AbsCtrl, e: AbsEvent) -> (AbsCtrl, AbsOut) {
    match e {
        AbsEvent::Intent(TriggerIntent::Start) => if a.phase is Idle {
            (
                AbsCtrl {
                    phase: Phase::Recording,
                    session: Some(
                        AbsSession { state: CaptureState::Recording, samples: Seq::empty() },
                    ),
                    ..a
                },
                abs_no_out(),
            )
        } else {
            // one session at a time: a Start while not idle is dropped
            (a, abs_no_out())
        },
        AbsEvent::Intent(TriggerIntent::Stop) => if a.phase is Recording {
            (AbsCtrl { phase: Phase::Transcribing, session: None, ..a }, abs_no_out())
        } else {
            (a, abs_no_out())
        },
        AbsEvent::Intent(TriggerIntent::Cancel) => if a.phase is Recording {
            (AbsCtrl { phase: Phase::Idle, session: None, ..a }, abs_no_out())
        } else if a.phase is Transcribing || a.phase is Refining {
            // best effort: the in-flight call completes, its result is discarded
            (AbsCtrl { discard: true, ..a }, abs_no_out())
        } else {
            (a, abs_no_out())
        },
        AbsEvent::StreamFailed(err) => if a.phase is Recording {
            (
                AbsCtrl { phase: Phase::Idle, session: None, ..a },
                AbsOut { delivered: None, notified: Some(PipelineError::Capture(err)) },
            )
        } else {
            (a, abs_no_out())
        },
        AbsEvent::Samples(s) => match a.session {
            Some(sess) => if sess.state is Recording {
                (
                    AbsCtrl {
                        session: Some(
                            AbsSession { state: sess.state, samples: sess.samples + s },
                        ),
                        ..a
                    },
                    abs_no_out(),
                )
            } else {
                (a, abs_no_out())
            },
            None => (a, abs_no_out()),
        },
        AbsEvent::TranscriptionDone(res) => if a.phase is Transcribing {
            if a.discard {
                (AbsCtrl { phase: Phase::Idle, discard: false, ..a }, abs_no_out())
            } else {
                match res {
                    Ok(t) => if t.len() > 0 && a.refine_enabled {
                        (AbsCtrl { phase: Phase::Refining, raw: Some(t), ..a }, abs_no_out())
                    } else {
                        (
                            AbsCtrl { phase: Phase::Delivering, ..a },
                            AbsOut { delivered: Some(t), notified: None },
                        )
                    },
                    Err(err) => (
                        AbsCtrl { phase: Phase::Idle, session: None, ..a },
                        AbsOut {
                            delivered: None,
                            notified: Some(PipelineError::Transcription(err)),
                        },
                    ),
                }
            }
        } else {
            (a, abs_no_out())
        },
        AbsEvent::RefinementDone(res) => if a.phase is Refining {
            if a.discard {
                (
                    AbsCtrl { phase: Phase::Idle, raw: None, discard: false, ..a },
                    abs_no_out(),
                )
            } else {
                match a.raw {
                    Some(raw) => (
                        AbsCtrl { phase: Phase::Delivering, raw: None, ..a },
                        AbsOut {
                            delivered: Some(spec_delivered_text(raw, res)),
                            notified: None,
                        },
                    ),
                    None => (a, abs_no_out()),
                }
            }
        } else {
            (a, abs_no_out())
        },
        AbsEvent::DeliveryDone => if a.phase is Delivering {
            (AbsCtrl { phase: Phase::Idle, ..a }, abs_no_out())
        } else {
            (a, abs_no_out())
        },
    }
}

/// The controller's invariant: the capture session exists exactly while the
/// controller records, and it is then recording; the raw transcript is held
/// exactly while refining; a discard request only exists while a collaborator
/// call is in flight.
pub open spec fn abs_inv(a: AbsCtrl) -> bool {
    &&& (a.phase is Recording <==> a.session is Some)
    &&& (match a.session {
        Some(s) => s.state is Recording,
        None => true,
    })
    &&& (a.raw is Some <==> a.phase is Refining)
    &&& (a.discard ==> a.phase is Transcribing || a.phase is Refining)
}

/// How many recording sessions the controller holds in `Recording` state.
pub open spec fn recording_count(a: AbsCtrl) -> nat {
    match a.session {
        Some(s) => if s.state is Recording {
            1nat
        } else {
            0nat
        },
        None => 0nat,
    }
}

/// Every transition preserves the controller invariant.
pub proof fn lemma_step_preserves_inv(a: AbsCtrl, e: AbsEvent)
    requires
        abs_inv(a),
    ensures
        abs_inv(abs_step(a, e).0),
{
}

/// Fold a sequence of events through the transition function.
pub open spec fn abs_run(a: AbsCtrl, es: Seq<AbsEvent>) -> AbsCtrl
    decreases es.len(),
{
    if es.len() == 0 {
        a
    } else {
        abs_run(abs_step(a, es[0]).0, es.drop_first())
    }
}

/// At most one recording session exists at any instant: under every sequence
/// of events — every sequence of hotkey intents included — the invariant is
/// kept and the controller never holds more than one session in `Recording`
/// state.
pub proof fn lemma_at_most_one_recording(a: AbsCtrl, es: Seq<AbsEvent>)
    requires
        abs_inv(a),
    ensures
        abs_inv(abs_run(a, es)),
        recording_count(abs_run(a, es)) <= 1,
    decreases es.len(),
{
    if es.len() > 0 {
        lemma_step_preserves_inv(a, es[0]);
        lemma_at_most_one_recording(abs_step(a, es[0]).0, es.drop_first());
    }
}

/// No intent ever delivers a transcription by itself; delivery only follows a
/// completed collaborator call.
pub proof fn lemma_intent_never_delivers(a: AbsCtrl, i: TriggerIntent)
    ensures
        abs_step(a, AbsEvent::Intent(i)).1.delivered is None,
{
}

/// A `Cancel` during `Recording` produces no transcription: the controller
/// lands in `Idle` with the session released, and the next inference or
/// refinement outcome — there is none in flight — delivers nothing.
pub proof fn lemma_cancel_while_recording_delivers_nothing(
    a: AbsCtrl,
    tr: Result<Seq<char>, TranscriptionError>,
    rr: Result<Seq<char>, RefinementError>,
)
    requires
        abs_inv(a),
        a.phase is Recording,
    ensures
        abs_step(a, AbsEvent::Intent(TriggerIntent::Cancel)).0.phase is Idle,
        abs_step(a, AbsEvent::Intent(TriggerIntent::Cancel)).0.session is None,
        abs_step(a, AbsEvent::Intent(TriggerIntent::Cancel)).1.delivered is None,
        abs_step(
            abs_step(a, AbsEvent::Intent(TriggerIntent::Cancel)).0,
            AbsEvent::TranscriptionDone(tr),
        ).1.delivered is None,
        abs_step(
            abs_step(a, AbsEvent::Intent(TriggerIntent::Cancel)).0,
            AbsEvent::RefinementDone(rr),
        ).1.delivered is None,
{
}

/// A `Cancel` while a collaborator call is in flight discards its result:
/// the outcome, whatever it is, delivers nothing and the controller returns
/// to `Idle`.
pub proof fn lemma_cancel_discards_inflight(
    a: AbsCtrl,
    tr: Result<Seq<char>, TranscriptionError>,
    rr: Result<Seq<char>, RefinementError>,
)
    requires
        abs_inv(a),
        a.phase is Transcribing || a.phase is Refining,
    ensures
        a.phase is Transcribing ==> abs_step(
            abs_step(a, AbsEvent::Intent(TriggerIntent::Cancel)).0,
            AbsEvent::TranscriptionDone(tr),
        ).1.delivered is None && abs_step(
            abs_step(a, AbsEvent::Intent(TriggerIntent::Cancel)).0,
            AbsEvent::TranscriptionDone(tr),
        ).0.phase is Idle,
        a.phase is Refining ==> abs_step(
            abs_step(a, AbsEvent::Intent(TriggerIntent::Cancel)).0,
            AbsEvent::RefinementDone(rr),
        ).1.delivered is None && abs_step(
            abs_step(a, AbsEvent::Intent(TriggerIntent::Cancel)).0,
            AbsEvent::RefinementDone(rr),
        ).0.phase is Idle,
{
}

/// A refinement failure always delivers the unmodified raw transcript and
/// never surfaces an error: refinement is an enhancement, not a correctness
/// dependency.
pub proof fn lemma_refinement_failure_delivers_raw(a: AbsCtrl, err: RefinementError)
    requires
        abs_inv(a),
        a.phase is Refining,
        !a.discard,
    ensures
        abs_step(a, AbsEvent::RefinementDone(Err(err))).1.delivered == Some(a.raw->Some_0),
        abs_step(a, AbsEvent::RefinementDone(Err(err))).1.notified is None,
        abs_step(a, AbsEvent::RefinementDone(Err(err))).0.phase is Delivering,
{
}

/// Lift an inference outcome to the abstract model.
pub open spec fn text_result_view(r: Result<String, TranscriptionError>) -> Result<
    Seq<char>,
    TranscriptionError,
> {
    match r {
        Ok(t) => Ok(t@),
        Err(e) => Err(e),
    }
}

/// Lift a refinement outcome to the abstract model.
pub open spec fn refine_result_view(r: Result<String, RefinementError>) -> Result<
    Seq<char>,
    RefinementError,
> {
    match r {
        Ok(t) => Ok(t@),
        Err(e) => Err(e),
    }
}

/// The dictation controller. One execution context owns it and serializes
/// all transitions.
#[derive(Debug)]
pub struct DictationController {
    pub config: ControllerConfig,
    pub phase: Phase,
    pub session: Option<CaptureSession>,
    pub raw_text: Option<String>,
    pub discard_pending: bool,
}

impl DictationController {
    /// The abstract view the transition model speaks of.
    pub open spec fn abs(self) -> AbsCtrl {
        AbsCtrl {
            phase: self.phase,
            session: match self.session {
                Some(s) => Some(AbsSession { state: s.state, samples: s.buffer@ }),
                None => None,
            },
            raw: match self.raw_text {
                Some(t) => Some(t@),
                None => None,
            },
            discard: self.discard_pending,
            refine_enabled: self.config.refine_enabled,
        }
    }

    pub open spec fn inv(self) -> bool {
        abs_inv(self.abs())
    }

    pub fn new(config: ControllerConfig) -> (r: Self)
        ensures
            r.phase is Idle,
            r.session is None,
            r.raw_text is None,
            !r.discard_pending,
            r.config == config,
            r.inv(),
    {
        DictationController {
            config,
            phase: Phase::Idle,
            session: None,
            raw_text: None,
            discard_pending: false,
        }
    }

    /// Feed one trigger intent. The controller moves exactly as the abstract
    /// model prescribes; the returned action is what the application must
    /// perform. An intent never delivers a transcription or surfaces an
    /// error.
    pub fn handle_intent(&mut self, intent: TriggerIntent, now: i64) -> (r: Action)
        requires
            old(self).inv(),
        ensures
            final (self).inv(),
            final (self).abs() == abs_step(old(self).abs(), AbsEvent::Intent(intent)).0,
            final (self).config == old(self).config,
            !(r is Deliver),
            !(r is Notify),
            old(self).phase is Idle && intent is Start ==> (r matches Action::OpenStream {
                device_id,
            } && device_id@ == old(self).config.device_id@),
            old(self).phase is Recording && intent is Stop ==> (r matches Action::Transcribe {
                samples,
                language,
            } && samples@ == old(self).abs().session->Some_0.samples && language@ == old(
                self,
            ).config.language@),
            old(self).phase is Recording && intent is Cancel ==> r is ReleaseStream,
            !(old(self).phase is Idle && intent is Start) && !(old(self).phase is Recording
                && (intent is Stop || intent is Cancel)) ==> r is Ignore,
    {
        match intent {
            TriggerIntent::Start => match self.phase {
                Phase::Idle => {
                    let sess = CaptureSession::open(self.config.device_id.clone(), now);
                    proof {
                        assert(sess.buffer@ =~= Seq::<i16>::empty());
                    }
                    self.session = Some(sess);
                    self.phase = Phase::Recording;
                    Action::OpenStream { device_id: self.config.device_id.clone() }
                },
                _ => Action::Ignore,
            },
            TriggerIntent::Stop => match self.phase {
                Phase::Recording => {
                    let mut sess = self.session.take().unwrap();
                    let samples = sess.stop().unwrap();
                    self.phase = Phase::Transcribing;
                    Action::Transcribe { samples, language: self.config.language.clone() }
                },
                _ => Action::Ignore,
            },
            TriggerIntent::Cancel => match self.phase {
                Phase::Recording => {
                    let mut sess = self.session.take().unwrap();
                    sess.abort();
                    self.phase = Phase::Idle;
                    Action::ReleaseStream
                },
                Phase::Transcribing | Phase::Refining => {
                    self.discard_pending = true;
                    Action::Ignore
                },
                _ => Action::Ignore,
            },
        }
    }

    /// The hardware stream failed: acquisition was refused, the device was
    /// unplugged, or an OS-level fault occurred mid-capture. The failure is
    /// never dropped silently: while recording it aborts the session,
    /// releases the stream and is surfaced to the UI.
    pub fn on_stream_error(&mut self, error: CaptureError) -> (r: Action)
        requires
            old(self).inv(),
        ensures
            final (self).inv(),
            final (self).abs() == abs_step(old(self).abs(), AbsEvent::StreamFailed(error)).0,
            final (self).config == old(self).config,
            old(self).phase is Recording ==> (r matches Action::Notify { error: e } && e
                == PipelineError::Capture(error)),
            !(old(self).phase is Recording) ==> r is Ignore,
    {
        match self.phase {
            Phase::Recording => {
                let mut sess = self.session.take().unwrap();
                sess.abort();
                self.phase = Phase::Idle;
                Action::Notify { error: PipelineError::Capture(error) }
            },
            _ => Action::Ignore,
        }
    }

    /// Append samples delivered by the capture callback. Samples arriving
    /// outside an active recording are dropped.
    pub fn push_samples(&mut self, samples: &Vec<i16>)
        requires
            old(self).inv(),
        ensures
            final (self).inv(),
            final (self).abs() == abs_step(old(self).abs(), AbsEvent::Samples(samples@)).0,
            final (self).config == old(self).config,
    {
        match &mut self.session {
            Some(sess) => sess.append(samples),
            None => {},
        }
    }

    /// The transcription engine answered (or the wait for it was given up).
    /// A stale or discarded outcome delivers nothing; an inference error is
    /// fatal to the session and surfaced; otherwise the transcript moves on
    /// to refinement or is delivered as it is.
    pub fn on_transcription_result(
        &mut self,
        outcome: Result<String, TranscriptionError>,
        now: i64,
    ) -> (r: Action)
        requires
            old(self).inv(),
        ensures
            final (self).inv(),
            final (self).abs() == abs_step(
                old(self).abs(),
                AbsEvent::TranscriptionDone(text_result_view(outcome)),
            ).0,
            final (self).config == old(self).config,
            match abs_step(
                old(self).abs(),
                AbsEvent::TranscriptionDone(text_result_view(outcome)),
            ).1.delivered {
                Some(t) => (r matches Action::Deliver { transcription } && transcription.text@
                    == t && transcription.timestamp == now && transcription.id@.len() == 36),
                None => !(r is Deliver),
            },
            match abs_step(
                old(self).abs(),
                AbsEvent::TranscriptionDone(text_result_view(outcome)),
            ).1.notified {
                Some(e) => (r matches Action::Notify { error } && error == e),
                None => !(r is Notify),
            },
            final (self).phase is Refining && !(old(self).phase is Refining) ==> (r
                matches Action::Refine { request }
                && request.text@ == final (self).raw_text->Some_0@
                && request.system_prompt@ == old(self).config.prompt.system_prompt@),
    {
        match self.phase {
            Phase::Transcribing => {
                if self.discard_pending {
                    self.discard_pending = false;
                    self.phase = Phase::Idle;
                    Action::Ignore
                } else {
                    match outcome {
                        Ok(text) => {
                            let nonempty = !text.as_str().is_empty();
                            if nonempty && self.config.refine_enabled {
                                let request = build_request(&self.config.prompt, &text);
                                self.raw_text = Some(text);
                                self.phase = Phase::Refining;
                                Action::Refine { request }
                            } else {
                                self.phase = Phase::Delivering;
                                Action::Deliver {
                                    transcription: Transcription {
                                        id: fresh_id(),
                                        text,
                                        timestamp: now,
                                    },
                                }
                            }
                        },
                        Err(e) => {
                            // release the capture session if one is somehow
                            // still held
                            match self.session.take() {
                                Some(mut sess) => sess.abort(),
                                None => {},
                            }
                            self.phase = Phase::Idle;
                            Action::Notify { error: PipelineError::Transcription(e) }
                        },
                    }
                }
            },
            _ => Action::Ignore,
        }
    }

    /// The refinement collaborator answered or timed out. Whatever came back,
    /// the best available text is delivered: the improved text on success,
    /// the raw transcript on failure. A refinement failure is never fatal.
    pub fn on_refinement_result(
        &mut self,
        outcome: Result<String, RefinementError>,
        now: i64,
    ) -> (r: Action)
        requires
            old(self).inv(),
        ensures
            final (self).inv(),
            final (self).abs() == abs_step(
                old(self).abs(),
                AbsEvent::RefinementDone(refine_result_view(outcome)),
            ).0,
            final (self).config == old(self).config,
            match abs_step(
                old(self).abs(),
                AbsEvent::RefinementDone(refine_result_view(outcome)),
            ).1.delivered {
                Some(t) => (r matches Action::Deliver { transcription } && transcription.text@
                    == t && transcription.timestamp == now && transcription.id@.len() == 36),
                None => !(r is Deliver),
            },
            !(r is Notify),
    {
        match self.phase {
            Phase::Refining => {
                if self.discard_pending {
                    self.discard_pending = false;
                    self.raw_text = None;
                    self.phase = Phase::Idle;
                    Action::Ignore
                } else {
                    let raw = self.raw_text.take().unwrap();
                    let text = choose_delivery(raw, outcome);
                    self.phase = Phase::Delivering;
                    Action::Deliver {
                        transcription: Transcription { id: fresh_id(), text, timestamp: now },
                    }
                }
            },
            _ => Action::Ignore,
        }
    }

    /// Delivery to the collaborators finished (their failures are logged by
    /// the application and never roll a delivery back): the controller is
    /// idle again.
    pub fn on_delivered(&mut self)
        requires
            old(self).inv(),
        ensures
            final (self).inv(),
            final (self).abs() == abs_step(old(self).abs(), AbsEvent::DeliveryDone).0,
            final (self).config == old(self).config,
    {
        match self.phase {
            Phase::Delivering => {
                self.phase = Phase::Idle;
            },
            _ => {},
        }
    }
}

} // verus!
