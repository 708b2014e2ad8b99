use petit_trad::GemmaTranslator;
use petit_trad::app::TranslationRequest;
use petit_trad::engine::ScriptedEngine;
use petit_trad::worker::TranslationResponse;
use petit_trad::worker::TranslationWorker;
use petit_trad::worker::WorkerEvent;
use petit_trad::worker::WorkerState;

fn request(text: &str) -> TranslationRequest {
    TranslationRequest {
        text: text.to_string(),
        source_lang: "en".to_string(),
        target_lang: "fr".to_string(),
    }
}

fn bonjour_engine() -> ScriptedEngine {
    ScriptedEngine {
        script: vec![1],
        end_token: 0,
        pieces: vec!["".to_string(), "Bonjour".to_string()],
    }
}

#[test]
fn worker_lifecycle_announces_each_state() {
    let mut worker: TranslationWorker<ScriptedEngine> = TranslationWorker::new();
    assert!(matches!(worker.state, WorkerState::Uninitialized));

    let ev = worker.begin_initialization();
    assert!(matches!(ev, WorkerEvent::TranslatorInitializing));
    assert!(matches!(worker.state, WorkerState::Initializing));

    let ev = worker.complete_initialization(Ok(GemmaTranslator::with_engine(bonjour_engine())));
    assert!(matches!(ev, WorkerEvent::TranslatorReady));
    assert!(matches!(worker.state, WorkerState::Ready));
}

#[test]
fn ready_worker_serves_requests() {
    let mut worker: TranslationWorker<ScriptedEngine> = TranslationWorker::new();
    worker.begin_initialization();
    worker.complete_initialization(Ok(GemmaTranslator::with_engine(bonjour_engine())));

    let ev = worker.handle_request(&request("Hello"));
    match ev {
        WorkerEvent::Translation(TranslationResponse::Success(text)) => {
            assert_eq!(text, "Bonjour");
        }
        other => panic!("unexpected worker event: {other:?}"),
    }
}

#[test]
fn failed_worker_replays_the_reason_without_reloading() {
    let mut worker: TranslationWorker<ScriptedEngine> = TranslationWorker::new();
    worker.begin_initialization();
    let ev = worker.complete_initialization(Err("Model file not found".to_string()));
    match ev {
        WorkerEvent::TranslatorInitFailed(err) => assert_eq!(err, "Model file not found"),
        other => panic!("unexpected worker event: {other:?}"),
    }

    for _ in 0..2 {
        let ev = worker.handle_request(&request("Hello"));
        match ev {
            WorkerEvent::Translation(TranslationResponse::Failure(err)) => {
                assert_eq!(err, "Translator unavailable: Model file not found");
                assert!(err.contains("Model file not found"));
            }
            other => panic!("unexpected worker event: {other:?}"),
        }
        assert!(matches!(worker.state, WorkerState::Failed(ref reason) if reason == "Model file not found"));
    }
}

#[test]
fn ready_worker_fails_requests_with_bad_languages() {
    let mut worker: TranslationWorker<ScriptedEngine> = TranslationWorker::new();
    worker.begin_initialization();
    worker.complete_initialization(Ok(GemmaTranslator::with_engine(bonjour_engine())));

    let bad = TranslationRequest {
        text: "Hello".to_string(),
        source_lang: "xx".to_string(),
        target_lang: "fr".to_string(),
    };
    let ev = worker.handle_request(&bad);
    match ev {
        WorkerEvent::Translation(TranslationResponse::Failure(err)) => {
            assert_eq!(err, "Unsupported language: xx");
        }
        other => panic!("unexpected worker event: {other:?}"),
    }
    assert!(matches!(worker.state, WorkerState::Ready));
}

#[test]
fn ready_worker_reports_inference_failures_by_stage() {
    let mut worker: TranslationWorker<ScriptedEngine> = TranslationWorker::new();
    worker.begin_initialization();
    let broken = ScriptedEngine {
        script: vec![7],
        end_token: 0,
        pieces: vec!["".to_string()],
    };
    worker.complete_initialization(Ok(GemmaTranslator::with_engine(broken)));

    let ev = worker.handle_request(&request("Hello"));
    match ev {
        WorkerEvent::Translation(TranslationResponse::Failure(err)) => {
            assert!(err.starts_with("Inference error: Detokenization: "));
        }
        other => panic!("unexpected worker event: {other:?}"),
    }
}

#[test]
fn into_result_maps_both_variants() {
    assert_eq!(
        TranslationResponse::Success("ok".to_string()).into_result(),
        Ok("ok".to_string())
    );
    assert_eq!(
        TranslationResponse::Failure("bad".to_string()).into_result(),
        Err("bad".to_string())
    );
}
