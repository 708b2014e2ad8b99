//! Configuration types and the precedence rules that resolve them:
//! values from a configuration file, overridden by the environment,
//! overridden by the command line.  Reading files and environment
//! variables happens outside the library; this module works on the
//! values read.

use vstd::prelude::*;
use vstd::string::StringExecFns;

use crate::cli::CliArgs;
use crate::language::is_supported_spec;
use crate::language::normalize_lang;
use crate::language::validate_pair;
use crate::language::lower_of;
use crate::text::ascii_lower_seq;
use crate::text::ascii_lower_str;

verus! {

/// Configuration for the translation engine, created once at startup
/// and never mutated afterwards.
#[derive(Debug, Clone)]
pub struct Config {
    /// Path to the model file.
    pub model_path: String,
    /// Number of GPU layers to offload (0 = CPU only).
    pub gpu_layers: u32,
    /// Context window size, in tokens.
    pub context_size: u32,
    /// Number of threads for CPU inference.
    pub threads: u32,
    /// Write backend logs to a file instead of standard error.
    pub log_to_file: bool,
    /// Path to the log file when `log_to_file` is enabled.
    pub log_path: String,
}

/// The fully resolved program configuration.
#[derive(Debug)]
pub struct AppConfig {
    /// Engine configuration.
    pub core: Config,
    /// Default source language code, normalized.
    pub source_lang: String,
    /// Default target language code, normalized.
    pub target_lang: String,
    /// Read the text from standard input and exit.
    pub stdin_mode: bool,
    /// Show the compact language display in the header.
    pub compact_lang_display: bool,
}

/// The `model` section of a configuration file; every value optional.
#[derive(Debug)]
pub struct ModelConfig {
    pub path: Option<String>,
    pub gpu_layers: Option<u32>,
    pub context_size: Option<u32>,
    pub threads: Option<u32>,
    pub log_to_file: Option<bool>,
    pub log_path: Option<String>,
}

/// The `translation` section of a configuration file.
#[derive(Debug)]
pub struct TranslationConfig {
    pub default_source: Option<String>,
    pub default_target: Option<String>,
}

/// The `ui` section of a configuration file.
#[derive(Debug)]
pub struct UiConfig {
    pub compact_lang_display: Option<bool>,
}

/// An entire configuration file.
#[derive(Debug)]
pub struct FileConfig {
    pub model: ModelConfig,
    pub translation: TranslationConfig,
    pub ui: UiConfig,
}

/// Overrides read from the environment; every value optional.
#[derive(Debug)]
pub struct EnvConfig {
    pub model: Option<String>,
    pub gpu_layers: Option<u32>,
    pub context_size: Option<u32>,
    pub threads: Option<u32>,
    pub log_to_file: Option<bool>,
    pub log_path: Option<String>,
    pub source_lang: Option<String>,
    pub target_lang: Option<String>,
    pub compact_lang_display: Option<bool>,
}

impl Default for FileConfig {
    /// An empty configuration file: no value set.
    fn default() -> (r: FileConfig)
        ensures
            r.model.path is None,
            r.model.gpu_layers is None,
            r.model.context_size is None,
            r.model.threads is None,
            r.model.log_to_file is None,
            r.model.log_path is None,
            r.translation.default_source is None,
            r.translation.default_target is None,
            r.ui.compact_lang_display is None,
    {
        FileConfig {
            model: ModelConfig {
                path: None,
                gpu_layers: None,
                context_size: None,
                threads: None,
                log_to_file: None,
                log_path: None,
            },
            translation: TranslationConfig { default_source: None, default_target: None },
            ui: UiConfig { compact_lang_display: None },
        }
    }
}

impl Default for EnvConfig {
    /// No environment overrides.
    fn default() -> (r: EnvConfig)
        ensures
            r.model is None,
            r.gpu_layers is None,
            r.context_size is None,
            r.threads is None,
            r.log_to_file is None,
            r.log_path is None,
            r.source_lang is None,
            r.target_lang is None,
            r.compact_lang_display is None,
    {
        EnvConfig {
            model: None,
            gpu_layers: None,
            context_size: None,
            threads: None,
            log_to_file: None,
            log_path: None,
            source_lang: None,
            target_lang: None,
            compact_lang_display: None,
        }
    }
}

/// The primary value when it is set, else the fallback.
pub open spec fn pick<T>(primary: Option<T>, fallback: T) -> T {
    match primary {
        Some(v) => v,
        None => fallback,
    }
}

/// The overlay value when it is set, else the base value.
pub open spec fn pick_opt<T>(overlay: Option<T>, base: Option<T>) -> Option<T> {
    if overlay is Some {
        overlay
    } else {
        base
    }
}

/// Lay an overlay configuration file over a base one: every value the
/// overlay sets replaces the base's value.
pub fn merge_file_config(base: &mut FileConfig, overlay: FileConfig)
    ensures
        final(base).model.path == pick_opt(overlay.model.path, old(base).model.path),
        final(base).model.gpu_layers == pick_opt(
            overlay.model.gpu_layers,
            old(base).model.gpu_layers,
        ),
        final(base).model.context_size == pick_opt(
            overlay.model.context_size,
            old(base).model.context_size,
        ),
        final(base).model.threads == pick_opt(overlay.model.threads, old(base).model.threads),
        final(base).model.log_to_file == pick_opt(
            overlay.model.log_to_file,
            old(base).model.log_to_file,
        ),
        final(base).model.log_path == pick_opt(overlay.model.log_path, old(base).model.log_path),
        final(base).translation.default_source == pick_opt(
            overlay.translation.default_source,
            old(base).translation.default_source,
        ),
        final(base).translation.default_target == pick_opt(
            overlay.translation.default_target,
            old(base).translation.default_target,
        ),
        final(base).ui.compact_lang_display == pick_opt(
            overlay.ui.compact_lang_display,
            old(base).ui.compact_lang_display,
        ),
{
    if overlay.model.path.is_some() {
        base.model.path = overlay.model.path;
    }
    if overlay.model.gpu_layers.is_some() {
        base.model.gpu_layers = overlay.model.gpu_layers;
    }
    if overlay.model.context_size.is_some() {
        base.model.context_size = overlay.model.context_size;
    }
    if overlay.model.threads.is_some() {
        base.model.threads = overlay.model.threads;
    }
    if overlay.model.log_to_file.is_some() {
        base.model.log_to_file = overlay.model.log_to_file;
    }
    if overlay.model.log_path.is_some() {
        base.model.log_path = overlay.model.log_path;
    }
    if overlay.translation.default_source.is_some() {
        base.translation.default_source = overlay.translation.default_source;
    }
    if overlay.translation.default_target.is_some() {
        base.translation.default_target = overlay.translation.default_target;
    }
    if overlay.ui.compact_lang_display.is_some() {
        base.ui.compact_lang_display = overlay.ui.compact_lang_display;
    }
}

/// A required configuration value, or an error naming the missing
/// field.
pub fn take_required<T>(value: Option<T>, field: &str) -> (r: Result<T, String>)
    ensures
        value matches Some(v) ==> (r matches Ok(x) && x == v),
        value is None ==> (r matches Err(m) && m@ == "Missing required config value: "@ + field@),
{
    match value {
        Some(v) => Ok(v),
        None => {
            let mut m = "Missing required config value: ".to_owned();
            m.append(field);
            Err(m)
        },
    }
}

/// The per-user configuration file path, under the configuration
/// directory given by the environment: the explicit configuration home
/// when set, else the `.config` directory under the home directory.
pub fn xdg_user_config_path(xdg_config_home: Option<String>, home: Option<String>) -> (r: Option<
    String,
>)
    ensures
        xdg_config_home matches Some(x) ==> (r matches Some(p) && p@ == x@
            + "/petit_trad/config.toml"@),
        xdg_config_home is None ==> (home matches Some(h) ==> (r matches Some(p) && p@ == h@
            + "/.config/petit_trad/config.toml"@)),
        xdg_config_home is None && home is None ==> r is None,
{
    match xdg_config_home {
        Some(base) => {
            let mut p = base;
            p.append("/petit_trad/config.toml");
            Some(p)
        },
        None => {
            match home {
                Some(h) => {
                    let mut p = h;
                    p.append("/.config/petit_trad/config.toml");
                    Some(p)
                },
                None => None,
            }
        },
    }
}

/// Interpret an environment variable's text as a boolean switch.
pub fn parse_bool_value(value: &str) -> (r: Option<bool>)
    ensures
        ({
            let l = ascii_lower_seq(value@);
            &&& (l == "1"@ || l == "true"@ || l == "yes"@ || l == "on"@) ==> r == Some(true)
            &&& (l == "0"@ || l == "false"@ || l == "no"@ || l == "off"@) ==> r == Some(false)
            &&& !(l == "1"@ || l == "true"@ || l == "yes"@ || l == "on"@ || l == "0"@ || l
                == "false"@ || l == "no"@ || l == "off"@) ==> r is None
        }),
{
    proof {
        // Reveal the eight switch spellings and their shapes, so that
        // the branches below are known to be mutually exclusive.
        reveal_strlit("1");
        reveal_strlit("true");
        reveal_strlit("yes");
        reveal_strlit("on");
        reveal_strlit("0");
        reveal_strlit("false");
        reveal_strlit("no");
        reveal_strlit("off");
        assert("1"@.len() == 1 && "1"@[0] == '1');
        assert("0"@.len() == 1 && "0"@[0] == '0');
        assert("true"@.len() == 4 && "true"@[0] == 't');
        assert("false"@.len() == 5 && "false"@[0] == 'f');
        assert("yes"@.len() == 3 && "yes"@[0] == 'y');
        assert("no"@.len() == 2 && "no"@[0] == 'n');
        assert("on"@.len() == 2 && "on"@[0] == 'o');
        assert("off"@.len() == 3 && "off"@[0] == 'o');
    }
    let lowered = ascii_lower_str(value);
    let l = lowered.as_str();
    if crate::text::str_eq(l, "1") || crate::text::str_eq(l, "true") || crate::text::str_eq(
        l,
        "yes",
    ) || crate::text::str_eq(l, "on") {
        Some(true)
    } else if crate::text::str_eq(l, "0") || crate::text::str_eq(l, "false")
        || crate::text::str_eq(l, "no") || crate::text::str_eq(l, "off") {
        Some(false)
    } else {
        None
    }
}

/// Overlay the environment's values over the configuration.
pub fn apply_env_config(
    core: &mut Config,
    source: &mut String,
    target: &mut String,
    compact_lang_display: &mut bool,
    env: &EnvConfig,
)
    ensures
        final(core).model_path == pick(env.model, old(core).model_path),
        final(core).gpu_layers == pick(env.gpu_layers, old(core).gpu_layers),
        final(core).context_size == pick(env.context_size, old(core).context_size),
        final(core).threads == pick(env.threads, old(core).threads),
        final(core).log_to_file == pick(env.log_to_file, old(core).log_to_file),
        final(core).log_path == pick(env.log_path, old(core).log_path),
        *final(source) == pick(env.source_lang, *old(source)),
        *final(target) == pick(env.target_lang, *old(target)),
        *final(compact_lang_display) == pick(env.compact_lang_display, *old(compact_lang_display)),
{
    if let Some(path) = &env.model {
        core.model_path = path.clone();
    }
    if let Some(value) = env.gpu_layers {
        core.gpu_layers = value;
    }
    if let Some(value) = env.context_size {
        core.context_size = value;
    }
    if let Some(value) = env.threads {
        core.threads = value;
    }
    if let Some(value) = env.log_to_file {
        core.log_to_file = value;
    }
    if let Some(path) = &env.log_path {
        core.log_path = path.clone();
    }
    if let Some(value) = &env.source_lang {
        *source = value.clone();
    }
    if let Some(value) = &env.target_lang {
        *target = value.clone();
    }
    if let Some(value) = env.compact_lang_display {
        *compact_lang_display = value;
    }
}

/// Overlay the command line's values over the configuration.
pub fn apply_cli_config(cli: &CliArgs, core: &mut Config, source: &mut String, target: &mut String)
    ensures
        final(core).model_path == pick(cli.model, old(core).model_path),
        final(core).gpu_layers == pick(cli.gpu_layers, old(core).gpu_layers),
        final(core).context_size == pick(cli.context_size, old(core).context_size),
        final(core).threads == pick(cli.threads, old(core).threads),
        final(core).log_to_file == old(core).log_to_file,
        final(core).log_path == old(core).log_path,
        *final(source) == pick(cli.source_lang, *old(source)),
        *final(target) == pick(cli.target_lang, *old(target)),
{
    if let Some(path) = &cli.model {
        core.model_path = path.clone();
    }
    if let Some(value) = cli.gpu_layers {
        core.gpu_layers = value;
    }
    if let Some(value) = cli.context_size {
        core.context_size = value;
    }
    if let Some(value) = cli.threads {
        core.threads = value;
    }
    if let Some(value) = &cli.source_lang {
        *source = value.clone();
    }
    if let Some(value) = &cli.target_lang {
        *target = value.clone();
    }
}

/// Every value the resolution requires is present in the (merged)
/// configuration file.
pub open spec fn all_required_present(file: FileConfig) -> bool {
    &&& file.model.path is Some
    &&& file.model.gpu_layers is Some
    &&& file.model.context_size is Some
    &&& file.model.threads is Some
    &&& file.model.log_to_file is Some
    &&& file.model.log_path is Some
    &&& file.translation.default_source is Some
    &&& file.translation.default_target is Some
}

/// Resolve the full configuration from the merged configuration file,
/// the environment overrides, and the command line, in that order of
/// increasing precedence.  The language pair is normalized and must be
/// supported; standard input mode is on when asked for or when
/// standard input is not a terminal.
pub fn resolve_config(
    file: FileConfig,
    env: EnvConfig,
    cli: &CliArgs,
    stdin_is_terminal: bool,
) -> (r: Result<AppConfig, String>)
    ensures
        file.model.path is None ==> (r matches Err(m) && m@
            == "Missing required config value: "@ + "model.path"@),
        file.model.path is Some && file.model.gpu_layers is None ==> (r matches Err(m) && m@
            == "Missing required config value: "@ + "model.gpu_layers"@),
        file.model.path is Some && file.model.gpu_layers is Some && file.model.context_size is None
            ==> (r matches Err(m) && m@ == "Missing required config value: "@ + "model.context_size"@),
        file.model.path is Some && file.model.gpu_layers is Some && file.model.context_size is Some
            && file.model.threads is None ==> (r matches Err(m) && m@
            == "Missing required config value: "@ + "model.threads"@),
        file.model.path is Some && file.model.gpu_layers is Some && file.model.context_size is Some
            && file.model.threads is Some && file.model.log_to_file is None ==> (r matches Err(m)
            && m@ == "Missing required config value: "@ + "model.log_to_file"@),
        file.model.path is Some && file.model.gpu_layers is Some && file.model.context_size is Some
            && file.model.threads is Some && file.model.log_to_file is Some
            && file.model.log_path is None ==> (r matches Err(m) && m@
            == "Missing required config value: "@ + "model.log_path"@),
        file.model.path is Some && file.model.gpu_layers is Some && file.model.context_size is Some
            && file.model.threads is Some && file.model.log_to_file is Some
            && file.model.log_path is Some && file.translation.default_source is None ==> (r
            matches Err(m) && m@ == "Missing required config value: "@ + "translation.default_source"@),
        file.model.path is Some && file.model.gpu_layers is Some && file.model.context_size is Some
            && file.model.threads is Some && file.model.log_to_file is Some
            && file.model.log_path is Some && file.translation.default_source is Some
            && file.translation.default_target is None ==> (r matches Err(m) && m@
            == "Missing required config value: "@ + "translation.default_target"@),
        all_required_present(file) ==> ({
            let ns = lower_of(pick(cli.source_lang, pick(env.source_lang, file.translation.default_source->0))@);
            let nt = lower_of(pick(cli.target_lang, pick(env.target_lang, file.translation.default_target->0))@);
            &&& is_supported_spec(ns) && is_supported_spec(nt) ==> (r matches Ok(a)
                && a.core.model_path == pick(cli.model, pick(env.model, file.model.path->0))
                && a.core.gpu_layers == pick(
                cli.gpu_layers,
                pick(env.gpu_layers, file.model.gpu_layers->0),
            ) && a.core.context_size == pick(
                cli.context_size,
                pick(env.context_size, file.model.context_size->0),
            ) && a.core.threads == pick(cli.threads, pick(env.threads, file.model.threads->0))
                && a.core.log_to_file == pick(env.log_to_file, file.model.log_to_file->0)
                && a.core.log_path == pick(env.log_path, file.model.log_path->0) && a.source_lang@
                == ns && a.target_lang@ == nt && a.stdin_mode == (cli.stdin || !stdin_is_terminal)
                && a.compact_lang_display == pick(
                env.compact_lang_display,
                pick(file.ui.compact_lang_display, false),
            ))
            &&& !is_supported_spec(ns) ==> (r matches Err(m) && m@
                == "Invalid language pair: "@ + "Unsupported language: "@ + ns)
            &&& is_supported_spec(ns) && !is_supported_spec(nt) ==> (r matches Err(m) && m@
                == "Invalid language pair: "@ + "Unsupported language: "@ + nt)
        }),
{
    let model_path = match take_required(file.model.path, "model.path") {
        Ok(v) => v,
        Err(e) => {
            return Err(e);
        },
    };
    let gpu_layers = match take_required(file.model.gpu_layers, "model.gpu_layers") {
        Ok(v) => v,
        Err(e) => {
            return Err(e);
        },
    };
    let context_size = match take_required(file.model.context_size, "model.context_size") {
        Ok(v) => v,
        Err(e) => {
            return Err(e);
        },
    };
    let threads = match take_required(file.model.threads, "model.threads") {
        Ok(v) => v,
        Err(e) => {
            return Err(e);
        },
    };
    let log_to_file = match take_required(file.model.log_to_file, "model.log_to_file") {
        Ok(v) => v,
        Err(e) => {
            return Err(e);
        },
    };
    let log_path = match take_required(file.model.log_path, "model.log_path") {
        Ok(v) => v,
        Err(e) => {
            return Err(e);
        },
    };
    let mut core = Config {
        model_path,
        gpu_layers,
        context_size,
        threads,
        log_to_file,
        log_path,
    };
    let mut source_lang = match take_required(
        file.translation.default_source,
        "translation.default_source",
    ) {
        Ok(v) => v,
        Err(e) => {
            return Err(e);
        },
    };
    let mut target_lang = match take_required(
        file.translation.default_target,
        "translation.default_target",
    ) {
        Ok(v) => v,
        Err(e) => {
            return Err(e);
        },
    };
    let mut stdin_mode = cli.stdin;
    let mut compact_lang_display = match file.ui.compact_lang_display {
        Some(v) => v,
        None => false,
    };
    apply_env_config(&mut core, &mut source_lang, &mut target_lang, &mut compact_lang_display, &env);
    apply_cli_config(cli, &mut core, &mut source_lang, &mut target_lang);
    let source_lang = normalize_lang(source_lang.as_str());
    let target_lang = normalize_lang(target_lang.as_str());
    match validate_pair(source_lang.as_str(), target_lang.as_str()) {
        Ok(()) => {},
        Err(err) => {
            let mut m = "Invalid language pair: ".to_owned();
            let detail = err.message();
            m.append(detail.as_str());
            proof {
                if !is_supported_spec(source_lang@) {
                    assert(m@ =~= "Invalid language pair: "@ + "Unsupported language: "@
                        + source_lang@);
                } else {
                    assert(m@ =~= "Invalid language pair: "@ + "Unsupported language: "@
                        + target_lang@);
                }
            }
            return Err(m);
        },
    }
    if !stdin_mode && !stdin_is_terminal {
        stdin_mode = true;
    }
    Ok(AppConfig { core, source_lang, target_lang, stdin_mode, compact_lang_display })
}

} // verus!
