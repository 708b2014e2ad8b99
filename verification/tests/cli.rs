use petit_trad::cli::CliArgs;
use petit_trad::cli::parse_u32_str;

fn args(list: &[&str]) -> Vec<String> {
    list.iter().map(|s| s.to_string()).collect()
}

#[test]
fn parse_u32_str_reads_plain_decimals() {
    assert_eq!(parse_u32_str("0"), Some(0));
    assert_eq!(parse_u32_str("123"), Some(123));
    assert_eq!(parse_u32_str("+42"), Some(42));
    assert_eq!(parse_u32_str("4294967295"), Some(u32::MAX));
}

#[test]
fn parse_u32_str_rejects_bad_input() {
    assert_eq!(parse_u32_str(""), None);
    assert_eq!(parse_u32_str("+"), None);
    assert_eq!(parse_u32_str("12a"), None);
    assert_eq!(parse_u32_str("-1"), None);
    assert_eq!(parse_u32_str(" 7"), None);
    assert_eq!(parse_u32_str("4294967296"), None);
}

#[test]
fn empty_arguments_give_defaults() {
    let cli = CliArgs::parse(&args(&[])).unwrap();
    assert!(cli.model.is_none());
    assert!(cli.source_lang.is_none());
    assert!(cli.target_lang.is_none());
    assert!(!cli.no_config);
    assert!(!cli.stdin);
    assert!(!cli.benchmark);
    assert!(!cli.show_help);
    assert!(!cli.show_version);
}

#[test]
fn flags_and_values_are_read() {
    let cli = CliArgs::parse(&args(&[
        "--model",
        "m.gguf",
        "--src",
        "en",
        "--tgt",
        "fr",
        "--gpu-layers",
        "12",
        "--context-size",
        "2048",
        "--threads",
        "4",
        "--stdin",
    ]))
    .unwrap();
    assert_eq!(cli.model.as_deref(), Some("m.gguf"));
    assert_eq!(cli.source_lang.as_deref(), Some("en"));
    assert_eq!(cli.target_lang.as_deref(), Some("fr"));
    assert_eq!(cli.gpu_layers, Some(12));
    assert_eq!(cli.context_size, Some(2048));
    assert_eq!(cli.threads, Some(4));
    assert!(cli.stdin);
}

#[test]
fn long_language_flags_are_aliases() {
    let cli = CliArgs::parse(&args(&["--source-lang", "de", "--target-lang", "it"])).unwrap();
    assert_eq!(cli.source_lang.as_deref(), Some("de"));
    assert_eq!(cli.target_lang.as_deref(), Some("it"));
}

#[test]
fn benchmark_flags_are_read() {
    let cli = CliArgs::parse(&args(&[
        "--benchmark",
        "--text",
        "Hello",
        "--warmup-runs",
        "1",
        "--runs",
        "3",
        "--max-new-tokens",
        "64",
    ]))
    .unwrap();
    assert!(cli.benchmark);
    assert_eq!(cli.benchmark_text.as_deref(), Some("Hello"));
    assert_eq!(cli.benchmark_warmup_runs, Some(1));
    assert_eq!(cli.benchmark_runs, Some(3));
    assert_eq!(cli.benchmark_max_new_tokens, Some(64));
}

#[test]
fn unknown_arguments_are_rejected() {
    let err = CliArgs::parse(&args(&["--bogus"])).unwrap_err();
    assert_eq!(err, "Unknown argument: --bogus");
}

#[test]
fn missing_values_are_rejected() {
    let err = CliArgs::parse(&args(&["--model"])).unwrap_err();
    assert_eq!(err, "Missing value for --model");
}

#[test]
fn malformed_numbers_are_rejected() {
    let err = CliArgs::parse(&args(&["--threads", "many"])).unwrap_err();
    assert_eq!(err, "Invalid value for --threads: many");
}

#[test]
fn no_config_excludes_naming_a_config() {
    let err = CliArgs::parse(&args(&["--no-config", "--config", "c.toml"])).unwrap_err();
    assert_eq!(err, "--no-config cannot be used with --config");
}

#[test]
fn version_and_help_flags_are_read() {
    let cli = CliArgs::parse(&args(&["-V"])).unwrap();
    assert!(cli.show_version);
    let cli = CliArgs::parse(&args(&["--help"])).unwrap();
    assert!(cli.show_help);
}

#[test]
fn usage_names_every_option() {
    let usage = CliArgs::usage();
    for flag in [
        "--model", "--source-lang", "--src", "--target-lang", "--tgt", "--gpu-layers",
        "--context-size", "--threads", "--config", "--no-config", "--stdin", "--benchmark",
        "--text", "--warmup-runs", "--runs", "--max-new-tokens", "--version", "--help",
    ] {
        assert!(usage.contains(flag), "usage is missing {flag}");
    }
}
