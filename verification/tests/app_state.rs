use petit_trad::app::App;
use petit_trad::app::Focus;
use petit_trad::app::LangEdit;
use petit_trad::app::LangTarget;
use petit_trad::app::StatusKind;
use petit_trad::app::StatusLine;

#[test]
fn begin_translation_sets_loading_and_info_status() {
    let mut app = App::default();
    app.input = "Hello".to_string();

    let request = app.begin_translation();

    assert!(request.is_some());
    assert!(app.is_loading);
    assert_eq!(
        app.status_line,
        Some(StatusLine {
            kind: StatusKind::Info,
            text: "Translating...".to_string(),
        })
    );
}

#[test]
fn begin_translation_rejects_empty_input_with_error_status() {
    let mut app = App::default();

    let request = app.begin_translation();

    assert!(request.is_none());
    assert!(!app.is_loading);
    assert_eq!(
        app.status_line,
        Some(StatusLine {
            kind: StatusKind::Error,
            text: "Input is empty".to_string(),
        })
    );
}

#[test]
fn apply_translation_result_sets_success_status() {
    let mut app = App::default();
    app.is_loading = true;

    app.apply_translation_result(Ok("Bonjour".to_string()));

    assert!(!app.is_loading);
    assert_eq!(app.output, "Bonjour");
    assert_eq!(
        app.status_line,
        Some(StatusLine {
            kind: StatusKind::Success,
            text: "Translation complete".to_string(),
        })
    );
}

#[test]
fn apply_translation_result_sets_error_status() {
    let mut app = App::default();
    app.is_loading = true;

    app.apply_translation_result(Err("Failed to load model".to_string()));

    assert!(!app.is_loading);
    assert_eq!(
        app.status_line,
        Some(StatusLine {
            kind: StatusKind::Error,
            text: "Failed to load model".to_string(),
        })
    );
}

#[test]
fn worker_initialization_status_is_typed() {
    let mut app = App::default();

    app.begin_worker_initialization();
    assert!(app.is_worker_initializing);
    assert_eq!(
        app.status_line,
        Some(StatusLine {
            kind: StatusKind::Info,
            text: "Initializing translator...".to_string(),
        })
    );

    app.apply_worker_ready();
    assert!(!app.is_worker_initializing);
    assert_eq!(
        app.status_line,
        Some(StatusLine {
            kind: StatusKind::Success,
            text: "Translator ready".to_string(),
        })
    );

    app.begin_worker_initialization();
    app.apply_worker_init_error("Model file not found");
    assert!(!app.is_worker_initializing);
    assert_eq!(
        app.status_line,
        Some(StatusLine {
            kind: StatusKind::Error,
            text: "Translator initialization failed: Model file not found".to_string(),
        })
    );
}

#[test]
fn worker_unavailable_sets_error_and_clears_loading() {
    let mut app = App::default();
    app.is_loading = true;

    app.apply_worker_unavailable();

    assert!(!app.is_loading);
    assert_eq!(
        app.status_line,
        Some(StatusLine {
            kind: StatusKind::Error,
            text: "Translation worker unavailable".to_string(),
        })
    );
}

#[test]
fn invalid_language_edit_sets_error_status() {
    let mut app = App::default();
    app.lang_edit = Some(LangEdit {
        target: LangTarget::Source,
        buffer: "xx".to_string(),
        cursor: 2,
    });

    app.submit_language_edit();

    let status = app.status_line.expect("status should be set");
    assert_eq!(status.kind, StatusKind::Error);
    assert!(status.text.contains("Unsupported language"));
}

#[test]
fn second_translation_request_is_rejected_locally() {
    let mut app = App::default();
    app.input = "Hello".to_string();

    let first = app.begin_translation();
    assert!(first.is_some());
    assert!(app.is_loading);

    let second = app.begin_translation();
    assert!(second.is_none());
    assert!(app.is_loading);
    assert_eq!(
        app.status_line,
        Some(StatusLine {
            kind: StatusKind::Info,
            text: "Translation already in progress".to_string(),
        })
    );
}

#[test]
fn valid_language_edit_updates_the_pair() {
    let mut app = App::default();
    app.begin_language_edit(LangTarget::Target);
    assert!(app.is_editing_language());
    assert_eq!(app.language_prompt(), Some("Set target language: fr".to_string()));

    app.move_end();
    app.backspace();
    app.backspace();
    app.insert_char('D');
    app.insert_char('E');
    app.submit_language_edit();

    assert!(!app.is_editing_language());
    assert_eq!(app.target_lang, "de");
    assert_eq!(
        app.status_line,
        Some(StatusLine {
            kind: StatusKind::Success,
            text: "Language updated".to_string(),
        })
    );
}

#[test]
fn cancel_language_edit_keeps_languages() {
    let mut app = App::default();
    app.begin_language_edit(LangTarget::Source);
    app.insert_char('x');
    app.cancel_language_edit();
    assert!(!app.is_editing_language());
    assert_eq!(app.source_lang, "en");
    assert_eq!(
        app.status_line,
        Some(StatusLine {
            kind: StatusKind::Info,
            text: "Language edit canceled".to_string(),
        })
    );
}

#[test]
fn swap_languages_swaps_both_codes() {
    let mut app = App::default();
    app.swap_languages();
    assert_eq!(app.source_lang, "fr");
    assert_eq!(app.target_lang, "en");
}

#[test]
fn editing_moves_the_cursor_through_lines() {
    let mut app = App::default();
    for ch in "ab\ncdef".chars() {
        app.insert_char(ch);
    }
    assert_eq!(app.input_cursor, 7);

    app.move_up();
    assert_eq!(app.input_cursor, 2);

    app.move_home();
    assert_eq!(app.input_cursor, 0);

    app.move_down();
    assert_eq!(app.input_cursor, 3);

    app.move_end();
    assert_eq!(app.input_cursor, 7);

    app.move_left();
    app.delete();
    assert_eq!(app.input, "ab\ncde");

    app.backspace();
    assert_eq!(app.input, "ab\ncd");
}

#[test]
fn clear_input_resets_cursor_and_scroll() {
    let mut app = App::default();
    app.insert_str("one\ntwo\nthree");
    app.scroll_input(2);
    app.clear_input();
    assert_eq!(app.input, "");
    assert_eq!(app.input_cursor, 0);
    assert_eq!(app.input_scroll, 0);
}

#[test]
fn scrolling_is_clamped_to_the_text() {
    let mut app = App::default();
    app.output = "one\ntwo\nthree".to_string();
    app.scroll_output(10);
    assert_eq!(app.output_scroll, 2);
    app.scroll_output(-1);
    assert_eq!(app.output_scroll, 1);
    app.scroll_output(-5);
    assert_eq!(app.output_scroll, 0);
}

#[test]
fn toggle_focus_flips_panes() {
    let mut app = App::default();
    assert_eq!(app.focus, Focus::Input);
    app.toggle_focus();
    assert_eq!(app.focus, Focus::Output);
    app.toggle_focus();
    assert_eq!(app.focus, Focus::Input);
}
