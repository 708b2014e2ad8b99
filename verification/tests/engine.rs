use petit_trad::Error;
use petit_trad::GemmaTranslator;
use petit_trad::Translator;
use petit_trad::engine::ModelEngine;
use petit_trad::engine::ScriptedEngine;
use petit_trad::engine::check_prompt_tokens;
use petit_trad::engine::generate_tokens;
use petit_trad::engine::infer;

fn bonjour_engine() -> ScriptedEngine {
    ScriptedEngine {
        script: vec![1],
        end_token: 0,
        pieces: vec!["".to_string(), "Bonjour".to_string()],
    }
}

#[test]
fn translate_returns_the_scripted_piece() {
    let translator = GemmaTranslator::with_engine(bonjour_engine());
    let result = translator.translate("Hello", "en", "fr");
    assert_eq!(result.unwrap(), "Bonjour");
}

#[test]
fn translate_validates_the_pair_before_the_model() {
    let translator = GemmaTranslator::with_engine(bonjour_engine());
    let result = translator.translate("Hello", "xx", "fr");
    assert!(matches!(result, Err(Error::UnsupportedLanguage(code)) if code == "xx"));
    let result = translator.translate("Hello", "en", "yy");
    assert!(matches!(result, Err(Error::UnsupportedLanguage(code)) if code == "yy"));
}

#[test]
fn generation_stops_at_the_token_budget() {
    // The script never reaches an end-of-generation token within the
    // budget, so the loop must stop on its own after five steps.
    let engine = ScriptedEngine {
        script: vec![1; 10],
        end_token: 0,
        pieces: vec!["".to_string(), "x".to_string()],
    };
    let mut session = engine.new_context().unwrap();
    let tokens = generate_tokens(&engine, &mut session, 1, 5).unwrap();
    assert_eq!(tokens.len(), 5);
    assert!(tokens.iter().all(|t| *t == 1));
}

#[test]
fn infer_concatenates_pieces_up_to_the_budget() {
    let engine = ScriptedEngine {
        script: vec![1; 10],
        end_token: 0,
        pieces: vec!["".to_string(), "Bonjour".to_string()],
    };
    let out = infer(&engine, "Hello", 3).unwrap();
    assert_eq!(out, "BonjourBonjourBonjour");
}

#[test]
fn infer_stops_at_the_end_token() {
    let engine = ScriptedEngine {
        script: vec![1, 2, 0, 1, 1],
        end_token: 0,
        pieces: vec!["".to_string(), "Bon".to_string(), "jour".to_string()],
    };
    let out = infer(&engine, "Hello", 100).unwrap();
    assert_eq!(out, "Bonjour");
}

#[test]
fn infer_trims_the_assembled_output() {
    let engine = ScriptedEngine {
        script: vec![1],
        end_token: 0,
        pieces: vec!["".to_string(), "  Bonjour  ".to_string()],
    };
    let out = infer(&engine, "Hello", 4).unwrap();
    assert_eq!(out, "Bonjour");
}

#[test]
fn a_token_outside_the_vocabulary_is_a_detokenization_error() {
    let engine = ScriptedEngine {
        script: vec![7],
        end_token: 0,
        pieces: vec!["".to_string()],
    };
    let result = infer(&engine, "Hello", 4);
    match result {
        Err(Error::Inference(m)) => assert!(m.starts_with("Detokenization: ")),
        other => panic!("expected an inference error, got {other:?}"),
    }
}

#[test]
fn an_empty_token_sequence_is_rejected_before_seeding() {
    let empty: Vec<i32> = vec![];
    match check_prompt_tokens(&empty, 4) {
        Err(Error::Inference(m)) => {
            assert_eq!(m, "Tokenization: prompt produced no tokens");
        }
        other => panic!("expected an inference error, got {other:?}"),
    }
    let one = vec![7];
    assert!(check_prompt_tokens(&one, 4).is_ok());
}

#[test]
fn translator_budget_is_adjustable() {
    let translator = GemmaTranslator::with_engine(bonjour_engine()).with_max_new_tokens(17);
    assert_eq!(translator.max_new_tokens, 17);
    let result = translator.translate("Hello", "en", "fr");
    assert_eq!(result.unwrap(), "Bonjour");
}

#[test]
fn supported_languages_come_through_the_translator() {
    let translator = GemmaTranslator::with_engine(bonjour_engine());
    let langs = translator.supported_languages();
    assert_eq!(langs.len(), 55);
    assert!(langs.contains(&"fr"));
}
