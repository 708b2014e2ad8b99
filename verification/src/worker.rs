//! Worker-side protocol: the state machine that owns one translator
//! instance and turns a serial stream of requests into result events.
//!
//! The blocking loop (thread, channels) lives outside the library; it
//! forwards each received request to [`TranslationWorker::handle_request`]
//! and publishes the returned event.

use vstd::prelude::*;
use vstd::string::StringExecFns;

use crate::Translator;
use crate::app::TranslationRequest;
use crate::engine::ModelEngine;
use crate::error::Error;
use crate::gemma::GemmaTranslator;
use crate::language::is_supported_spec;
use crate::text::starts_with_spec;

verus! {

/// Lifecycle of the worker's translator instance.  Once `Failed`, the
/// worker stays failed for its whole lifetime: the load is never
/// retried.
#[derive(Debug)]
pub enum WorkerState {
    /// No initialization attempt has started yet.
    Uninitialized,
    /// The translator is being constructed (the model is loading).
    Initializing,
    /// The translator is ready to serve requests.
    Ready,
    /// Construction failed; the reason is replayed to every request.
    Failed(String),
}

/// The outcome of one translation request.
#[derive(Debug)]
pub enum TranslationResponse {
    /// The cleaned translation text.
    Success(String),
    /// A human-readable failure description.
    Failure(String),
}

impl TranslationResponse {
    /// The response as a plain result.
    pub fn into_result(self) -> (r: Result<String, String>)
        ensures
            self matches TranslationResponse::Success(t) ==> (r matches Ok(x) && x == t),
            self matches TranslationResponse::Failure(t) ==> (r matches Err(x) && x == t),
    {
        match self {
            TranslationResponse::Success(text) => Ok(text),
            TranslationResponse::Failure(err) => Err(err),
        }
    }
}

/// Events the worker publishes to the session loop: lifecycle changes
/// and one result per accepted request.
#[derive(Debug)]
pub enum WorkerEvent {
    /// The worker started constructing its translator.
    TranslatorInitializing,
    /// The translator is ready.
    TranslatorReady,
    /// The translator could not be constructed.
    TranslatorInitFailed(String),
    /// The outcome of one request.
    Translation(TranslationResponse),
}

/// The worker's decision core: exactly one translator instance, served
/// to a serial stream of requests.
pub struct TranslationWorker<E: ModelEngine> {
    /// Lifecycle state.
    pub state: WorkerState,
    /// The translator, present exactly while the state is `Ready`.
    pub translator: Option<GemmaTranslator<E>>,
}

impl<E: ModelEngine> TranslationWorker<E> {
    /// The translator is present exactly while the worker is ready.
    pub open spec fn wf(self) -> bool {
        self.translator is Some <==> self.state is Ready
    }

    /// A fresh worker, before any initialization attempt.
    pub fn new() -> (r: TranslationWorker<E>)
        ensures
            r.wf(),
            r.state is Uninitialized,
            r.translator is None,
    {
        TranslationWorker { state: WorkerState::Uninitialized, translator: None }
    }

    /// Enter the `Initializing` state, announcing it to the session
    /// loop.
    pub fn begin_initialization(&mut self) -> (ev: WorkerEvent)
        requires
            old(self).wf(),
            old(self).state is Uninitialized,
        ensures
            final(self).wf(),
            final(self).state is Initializing,
            final(self).translator is None,
            ev is TranslatorInitializing,
    {
        self.state = WorkerState::Initializing;
        WorkerEvent::TranslatorInitializing
    }

    /// Record the outcome of the one construction attempt: `Ready`
    /// with the translator, or permanently `Failed` with the reason.
    pub fn complete_initialization(&mut self, outcome: Result<GemmaTranslator<E>, String>) -> (ev:
        WorkerEvent)
        requires
            old(self).wf(),
            old(self).state is Initializing,
        ensures
            final(self).wf(),
            outcome matches Ok(t) ==> (final(self).state is Ready && final(self).translator
                == Some(t) && ev is TranslatorReady),
            outcome matches Err(e) ==> (final(self).state matches WorkerState::Failed(m) && m == e
                && final(self).translator is None && (ev matches
            WorkerEvent::TranslatorInitFailed(x) && x == e)),
    {
        match outcome {
            Ok(translator) => {
                self.translator = Some(translator);
                self.state = WorkerState::Ready;
                WorkerEvent::TranslatorReady
            },
            Err(reason) => {
                let announced = reason.clone();
                self.state = WorkerState::Failed(reason);
                WorkerEvent::TranslatorInitFailed(announced)
            },
        }
    }

    /// Serve one request: translate when ready — an unsupported pair
    /// fails the request naming the code, any other failure is an
    /// inference error — otherwise fail the request immediately,
    /// replaying the recorded load-failure reason without ever retrying
    /// the load.
    pub fn handle_request(&self, request: &TranslationRequest) -> (ev: WorkerEvent)
        requires
            self.wf(),
        ensures
            ev is Translation,
            self.state matches WorkerState::Failed(reason) ==> (ev matches
            WorkerEvent::Translation(TranslationResponse::Failure(m)) && m@
                == "Translator unavailable: "@ + reason@),
            self.translator is None && !(self.state matches WorkerState::Failed(_)) ==> (ev matches
            WorkerEvent::Translation(TranslationResponse::Failure(m)) && m@
                == "Translator unavailable"@),
            self.state is Ready && !is_supported_spec(request.source_lang@) ==> (ev matches
            WorkerEvent::Translation(TranslationResponse::Failure(m)) && m@
                == "Unsupported language: "@ + request.source_lang@),
            self.state is Ready && is_supported_spec(request.source_lang@) && !is_supported_spec(
                request.target_lang@,
            ) ==> (ev matches WorkerEvent::Translation(TranslationResponse::Failure(m)) && m@
                == "Unsupported language: "@ + request.target_lang@),
            self.state is Ready && is_supported_spec(request.source_lang@) && is_supported_spec(
                request.target_lang@,
            ) ==> (ev matches WorkerEvent::Translation(resp) && (resp is Success || (
            resp matches TranslationResponse::Failure(m) && starts_with_spec(
                m@,
                "Inference error: "@,
            )))),
    {
        match &self.translator {
            Some(translator) => {
                match translator.translate(
                    request.text.as_str(),
                    request.source_lang.as_str(),
                    request.target_lang.as_str(),
                ) {
                    Ok(text) => WorkerEvent::Translation(TranslationResponse::Success(text)),
                    Err(err) => {
                        let m = err.message();
                        proof {
                            if err matches Error::Inference(detail) {
                                assert(m@.subrange(0, "Inference error: "@.len() as int)
                                    =~= "Inference error: "@);
                            }
                        }
                        WorkerEvent::Translation(TranslationResponse::Failure(m))
                    },
                }
            },
            None => {
                match &self.state {
                    WorkerState::Failed(reason) => {
                        let mut m = "Translator unavailable: ".to_owned();
                        m.append(reason.as_str());
                        WorkerEvent::Translation(TranslationResponse::Failure(m))
                    },
                    _ => {
                        WorkerEvent::Translation(
                            TranslationResponse::Failure("Translator unavailable".to_owned()),
                        )
                    },
                }
            },
        }
    }
}

} // verus!
