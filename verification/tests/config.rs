use petit_trad::cli::CliArgs;
use petit_trad::config::AppConfig;
use petit_trad::config::EnvConfig;
use petit_trad::config::FileConfig;
use petit_trad::config::merge_file_config;
use petit_trad::config::parse_bool_value;
use petit_trad::config::resolve_config;
use petit_trad::config::take_required;
use petit_trad::config::xdg_user_config_path;

fn full_file() -> FileConfig {
    let mut file = FileConfig::default();
    file.model.path = Some("model.gguf".to_string());
    file.model.gpu_layers = Some(8);
    file.model.context_size = Some(2048);
    file.model.threads = Some(4);
    file.model.log_to_file = Some(false);
    file.model.log_path = Some("llama.log".to_string());
    file.translation.default_source = Some("EN".to_string());
    file.translation.default_target = Some("FR".to_string());
    file
}

fn resolve(file: FileConfig, env: EnvConfig, cli: &CliArgs) -> Result<AppConfig, String> {
    resolve_config(file, env, cli, true)
}

#[test]
fn a_full_file_resolves_with_normalized_languages() {
    let cli = CliArgs::default();
    let app = resolve(full_file(), EnvConfig::default(), &cli).unwrap();
    assert_eq!(app.core.model_path, "model.gguf");
    assert_eq!(app.core.gpu_layers, 8);
    assert_eq!(app.core.context_size, 2048);
    assert_eq!(app.core.threads, 4);
    assert!(!app.core.log_to_file);
    assert_eq!(app.core.log_path, "llama.log");
    assert_eq!(app.source_lang, "en");
    assert_eq!(app.target_lang, "fr");
    assert!(!app.stdin_mode);
    assert!(!app.compact_lang_display);
}

#[test]
fn each_missing_required_value_is_named() {
    let mut file = full_file();
    file.model.path = None;
    let err = resolve(file, EnvConfig::default(), &CliArgs::default()).unwrap_err();
    assert_eq!(err, "Missing required config value: model.path");

    let mut file = full_file();
    file.translation.default_target = None;
    let err = resolve(file, EnvConfig::default(), &CliArgs::default()).unwrap_err();
    assert_eq!(err, "Missing required config value: translation.default_target");
}

#[test]
fn environment_overrides_the_file() {
    let mut env = EnvConfig::default();
    env.model = Some("env.gguf".to_string());
    env.threads = Some(9);
    env.target_lang = Some("DE".to_string());
    env.compact_lang_display = Some(true);
    let app = resolve(full_file(), env, &CliArgs::default()).unwrap();
    assert_eq!(app.core.model_path, "env.gguf");
    assert_eq!(app.core.threads, 9);
    assert_eq!(app.target_lang, "de");
    assert!(app.compact_lang_display);
}

#[test]
fn command_line_overrides_the_environment() {
    let mut env = EnvConfig::default();
    env.model = Some("env.gguf".to_string());
    env.source_lang = Some("de".to_string());
    let mut cli = CliArgs::default();
    cli.model = Some("cli.gguf".to_string());
    cli.source_lang = Some("IT".to_string());
    let app = resolve(full_file(), env, &cli).unwrap();
    assert_eq!(app.core.model_path, "cli.gguf");
    assert_eq!(app.source_lang, "it");
}

#[test]
fn an_unsupported_pair_is_rejected_naming_the_code() {
    let mut cli = CliArgs::default();
    cli.source_lang = Some("xx".to_string());
    let err = resolve(full_file(), EnvConfig::default(), &cli).unwrap_err();
    assert_eq!(err, "Invalid language pair: Unsupported language: xx");
}

#[test]
fn piped_stdin_turns_stdin_mode_on() {
    let app = resolve_config(full_file(), EnvConfig::default(), &CliArgs::default(), false)
        .unwrap();
    assert!(app.stdin_mode);

    let mut cli = CliArgs::default();
    cli.stdin = true;
    let app = resolve_config(full_file(), EnvConfig::default(), &cli, true).unwrap();
    assert!(app.stdin_mode);
}

#[test]
fn merge_prefers_the_overlay() {
    let mut base = full_file();
    let mut overlay = FileConfig::default();
    overlay.model.path = Some("other.gguf".to_string());
    overlay.ui.compact_lang_display = Some(true);
    merge_file_config(&mut base, overlay);
    assert_eq!(base.model.path.as_deref(), Some("other.gguf"));
    assert_eq!(base.model.gpu_layers, Some(8));
    assert_eq!(base.ui.compact_lang_display, Some(true));
}

#[test]
fn take_required_names_the_field() {
    assert_eq!(take_required(Some(3u32), "model.threads"), Ok(3));
    assert_eq!(
        take_required(None::<u32>, "model.threads"),
        Err("Missing required config value: model.threads".to_string())
    );
}

#[test]
fn user_config_path_prefers_the_explicit_home() {
    assert_eq!(
        xdg_user_config_path(Some("/xdg".to_string()), Some("/home/u".to_string())),
        Some("/xdg/petit_trad/config.toml".to_string())
    );
    assert_eq!(
        xdg_user_config_path(None, Some("/home/u".to_string())),
        Some("/home/u/.config/petit_trad/config.toml".to_string())
    );
    assert_eq!(xdg_user_config_path(None, None), None);
}

#[test]
fn boolean_switches_accept_the_usual_spellings() {
    assert_eq!(parse_bool_value("1"), Some(true));
    assert_eq!(parse_bool_value("TRUE"), Some(true));
    assert_eq!(parse_bool_value("Yes"), Some(true));
    assert_eq!(parse_bool_value("on"), Some(true));
    assert_eq!(parse_bool_value("0"), Some(false));
    assert_eq!(parse_bool_value("False"), Some(false));
    assert_eq!(parse_bool_value("no"), Some(false));
    assert_eq!(parse_bool_value("OFF"), Some(false));
    assert_eq!(parse_bool_value("maybe"), None);
    assert_eq!(parse_bool_value(""), None);
}
