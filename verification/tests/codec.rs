use petit_trad::codec::build_prompt;
use petit_trad::codec::clean_output;
use petit_trad::language::normalize_lang;

#[test]
fn test_build_prompt_simple() {
    let prompt = format!(
        "<start_of_turn>user\n[{}->{}] {}<end_of_turn>\n<start_of_turn>model\n",
        "en", "fr", "Hello, how are you?"
    );
    assert_eq!(
        prompt,
        "<start_of_turn>user\n[en->fr] Hello, how are you?<end_of_turn>\n<start_of_turn>model\n"
    );
}

#[test]
fn test_build_prompt_normalized() {
    let src = normalize_lang("EN");
    let tgt = normalize_lang("FR");
    let text = "Hello";
    let prompt = format!(
        "<start_of_turn>user\n[{src}->{tgt}] {text}<end_of_turn>\n<start_of_turn>model\n"
    );
    assert_eq!(
        prompt,
        "<start_of_turn>user\n[en->fr] Hello<end_of_turn>\n<start_of_turn>model\n"
    );
}

#[test]
fn test_build_prompt_regional() {
    let src = normalize_lang("en-US");
    let tgt = normalize_lang("pt-BR");
    let text = "Good morning";
    let prompt = format!(
        "<start_of_turn>user\n[{src}->{tgt}] {text}<end_of_turn>\n<start_of_turn>model\n"
    );
    assert_eq!(
        prompt,
        "<start_of_turn>user\n[en-us->pt-br] Good morning<end_of_turn>\n<start_of_turn>model\n"
    );
}

#[test]
fn test_clean_output_simple() {
    let output = "  Bonjour, comment allez-vous?  ";
    let cleaned = output.trim().to_string();
    assert_eq!(cleaned, "Bonjour, comment allez-vous?");
}

#[test]
fn test_clean_output_with_end_token() {
    let output = "Bonjour<end_of_turn>";
    let cleaned = output
        .trim()
        .strip_suffix("<end_of_turn>")
        .unwrap_or(output.trim())
        .trim()
        .to_string();
    assert_eq!(cleaned, "Bonjour");
}

#[test]
fn test_clean_output_with_whitespace_and_end_token() {
    let output = "  Bonjour  <end_of_turn>  ";
    let cleaned = output.trim();
    let cleaned = cleaned.strip_suffix("<end_of_turn>").unwrap_or(cleaned).trim();
    assert_eq!(cleaned, "Bonjour");
}

#[test]
fn build_prompt_renders_the_exact_template() {
    assert_eq!(
        build_prompt("Hello", "en", "fr"),
        "<start_of_turn>user\n[en->fr] Hello<end_of_turn>\n<start_of_turn>model\n"
    );
}

#[test]
fn build_prompt_normalizes_codes_but_not_text() {
    assert_eq!(
        build_prompt("Good Morning", "en-US", "PT-br"),
        "<start_of_turn>user\n[en-us->pt-br] Good Morning<end_of_turn>\n<start_of_turn>model\n"
    );
}

#[test]
fn clean_output_trims_whitespace() {
    assert_eq!(clean_output("  Bonjour  "), "Bonjour");
}

#[test]
fn clean_output_strips_trailing_marker() {
    assert_eq!(clean_output("Bonjour<end_of_turn>"), "Bonjour");
}

#[test]
fn clean_output_strips_marker_between_whitespace() {
    assert_eq!(clean_output("  Bonjour  <end_of_turn>  "), "Bonjour");
}

#[test]
fn clean_output_keeps_marker_in_the_middle() {
    assert_eq!(clean_output("Bon<end_of_turn>jour"), "Bon<end_of_turn>jour");
}

#[test]
fn clean_output_strips_only_one_marker() {
    assert_eq!(
        clean_output("Bonjour<end_of_turn><end_of_turn>"),
        "Bonjour<end_of_turn>"
    );
}
