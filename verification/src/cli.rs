//! Command-line argument parsing over an argument list already read
//! from the process environment.

use vstd::prelude::*;
use vstd::string::StrSliceExecFns;
use vstd::string::StringExecFns;

use crate::text::str_eq;

verus! {

/// Whether the character is a decimal digit.
pub open spec fn is_dec_digit(c: char) -> bool {
    48 <= c as u32 <= 57
}

/// The numeric value of a decimal digit.
pub open spec fn digit_val(c: char) -> int {
    c as u32 - 48
}

/// The value of a digit string read in base ten.
pub open spec fn dec_value(s: Seq<char>) -> int
    decreases s.len(),
{
    if s.len() == 0 {
        0
    } else {
        dec_value(s.drop_last()) * 10 + digit_val(s.last())
    }
}

/// The digits of a decimal literal: everything after one optional
/// leading plus sign.
pub open spec fn u32_body(s: Seq<char>) -> Seq<char> {
    if s.len() > 0 && s[0] == '+' {
        s.drop_first()
    } else {
        s
    }
}

/// Whether the string is a decimal `u32` literal: an optional plus
/// sign, then one or more digits, with a value in range.
pub open spec fn parses_as_u32(s: Seq<char>) -> bool {
    let b = u32_body(s);
    &&& b.len() > 0
    &&& forall|i: int| 0 <= i < b.len() ==> is_dec_digit(#[trigger] b[i])
    &&& dec_value(b) <= u32::MAX
}

proof fn lemma_dec_value_nonneg(s: Seq<char>)
    requires
        forall|i: int| 0 <= i < s.len() ==> is_dec_digit(#[trigger] s[i]),
    ensures
        dec_value(s) >= 0,
    decreases s.len(),
{
    if s.len() > 0 {
        lemma_dec_value_nonneg(s.drop_last());
    }
}

proof fn lemma_dec_value_prefix_bound(s: Seq<char>, m: int)
    requires
        0 <= m <= s.len(),
        forall|i: int| 0 <= i < s.len() ==> is_dec_digit(#[trigger] s[i]),
    ensures
        dec_value(s.take(m)) <= dec_value(s),
    decreases s.len() - m,
{
    if m < s.len() {
        lemma_dec_value_prefix_bound(s.drop_last(), m);
        assert(s.drop_last().take(m) =~= s.take(m));
        lemma_dec_value_nonneg(s.drop_last());
    } else {
        assert(s.take(m) =~= s);
    }
}

/// Parse a decimal `u32` literal, exactly as the standard parser reads
/// it: an optional leading plus sign, then one or more digits, value
/// in range.
pub fn parse_u32_str(s: &str) -> (r: Option<u32>)
    ensures
        r is Some <==> parses_as_u32(s@),
        r matches Some(v) ==> v == dec_value(u32_body(s@)),
{
    let n = s.unicode_len();
    let mut start: usize = 0;
    if n > 0 && s.get_char(0) == '+' {
        start = 1;
    }
    let ghost b = u32_body(s@);
    proof {
        assert(b =~= s@.skip(start as int));
    }
    if start >= n {
        return None;
    }
    let mut acc: u64 = 0;
    let mut j: usize = start;
    while j < n
        invariant
            start <= j <= n,
            n == s@.len(),
            start < n,
            b == u32_body(s@),
            b =~= s@.skip(start as int),
            forall|k: int| 0 <= k < j - start ==> is_dec_digit(#[trigger] b[k]),
            acc == dec_value(b.take(j - start)),
            acc <= u32::MAX,
        decreases n - j,
    {
        let c = s.get_char(j);
        let u = c as u32;
        if !(48 <= u && u <= 57) {
            proof {
                assert(b[j - start] == s@[j as int]);
                assert(!is_dec_digit(b[j - start]));
            }
            return None;
        }
        let d: u64 = (u - 48) as u64;
        acc = acc * 10 + d;
        proof {
            assert(b.take(j - start + 1).drop_last() =~= b.take(j - start));
            assert(b.take(j - start + 1).last() == b[j - start]);
            assert(b[j - start] == s@[j as int]);
        }
        j += 1;
        if acc > 0xFFFF_FFFF {
            proof {
                if parses_as_u32(s@) {
                    lemma_dec_value_prefix_bound(b, j - start);
                }
            }
            return None;
        }
    }
    proof {
        assert(b.take(n - start) =~= b);
        lemma_dec_value_nonneg(b);
    }
    Some(acc as u32)
}

/// Command-line options of the program.
#[derive(Debug)]
pub struct CliArgs {
    pub model: Option<String>,
    pub source_lang: Option<String>,
    pub target_lang: Option<String>,
    pub gpu_layers: Option<u32>,
    pub context_size: Option<u32>,
    pub threads: Option<u32>,
    pub config: Option<String>,
    pub no_config: bool,
    pub stdin: bool,
    pub benchmark: bool,
    pub benchmark_text: Option<String>,
    pub benchmark_warmup_runs: Option<u32>,
    pub benchmark_runs: Option<u32>,
    pub benchmark_max_new_tokens: Option<u32>,
    pub show_version: bool,
    pub show_help: bool,
}

impl Default for CliArgs {
    /// No options given.
    fn default() -> (r: CliArgs)
        ensures
            r.model is None,
            r.source_lang is None,
            r.target_lang is None,
            r.gpu_layers is None,
            r.context_size is None,
            r.threads is None,
            r.config is None,
            !r.no_config,
            !r.stdin,
            !r.benchmark,
            r.benchmark_text is None,
            r.benchmark_warmup_runs is None,
            r.benchmark_runs is None,
            r.benchmark_max_new_tokens is None,
            !r.show_version,
            !r.show_help,
    {
        CliArgs {
            model: None,
            source_lang: None,
            target_lang: None,
            gpu_layers: None,
            context_size: None,
            threads: None,
            config: None,
            no_config: false,
            stdin: false,
            benchmark: false,
            benchmark_text: None,
            benchmark_warmup_runs: None,
            benchmark_runs: None,
            benchmark_max_new_tokens: None,
            show_version: false,
            show_help: false,
        }
    }
}

/// The value following a flag, or an error naming the flag when the
/// argument list ends first.
pub fn parse_string(args: &Vec<String>, i: usize, name: &str) -> (r: Result<String, String>)
    ensures
        (i as int) < args@.len() ==> (r matches Ok(v) && v == args@[i as int]),
        (i as int) >= args@.len() ==> (r matches Err(m) && m@ == "Missing value for "@ + name@),
{
    if i < args.len() {
        Ok(args[i].clone())
    } else {
        let mut m = "Missing value for ".to_owned();
        m.append(name);
        Err(m)
    }
}

/// The path value following a flag.
pub fn parse_path(args: &Vec<String>, i: usize, name: &str) -> (r: Result<String, String>)
    ensures
        (i as int) < args@.len() ==> (r matches Ok(v) && v == args@[i as int]),
        (i as int) >= args@.len() ==> (r matches Err(m) && m@ == "Missing value for "@ + name@),
{
    parse_string(args, i, name)
}

/// The numeric value following a flag, or an error naming the flag and
/// the rejected text.
pub fn parse_u32(args: &Vec<String>, i: usize, name: &str) -> (r: Result<u32, String>)
    ensures
        (i as int) < args@.len() && parses_as_u32(args@[i as int]@) ==> (r matches Ok(v) && v
            == dec_value(u32_body(args@[i as int]@))),
        (i as int) < args@.len() && !parses_as_u32(args@[i as int]@) ==> (r matches Err(m) && m@
            == "Invalid value for "@ + name@ + ": "@ + args@[i as int]@),
        (i as int) >= args@.len() ==> (r matches Err(m) && m@ == "Missing value for "@ + name@),
{
    let value = match parse_string(args, i, name) {
        Ok(v) => v,
        Err(e) => {
            return Err(e);
        },
    };
    match parse_u32_str(value.as_str()) {
        Some(v) => Ok(v),
        None => {
            let mut m = "Invalid value for ".to_owned();
            m.append(name);
            m.append(": ");
            m.append(value.as_str());
            Err(m)
        },
    }
}

impl CliArgs {
    /// Parse the argument list (without the program name).  Each flag
    /// either stands alone or consumes the following value; an unknown
    /// flag or a missing or malformed value is an error, and
    /// suppressing the config file cannot be combined with naming one.
    pub fn parse(args: &Vec<String>) -> (r: Result<CliArgs, String>)
        ensures
            r matches Ok(c) ==> !(c.no_config && c.config is Some),
            args@.len() == 0 ==> (r matches Ok(c) && c.model is None && c.source_lang is None
                && c.target_lang is None && c.config is None && !c.no_config && !c.stdin
                && !c.benchmark && !c.show_version && !c.show_help),
    {
        let mut cli = CliArgs::default();
        let n = args.len();
        let mut i: usize = 0;
        while i < n
            invariant
                i <= n,
                n == args@.len(),
                args@.len() == 0 ==> (cli.model is None && cli.source_lang is None
                    && cli.target_lang is None && cli.config is None && !cli.no_config
                    && !cli.stdin && !cli.benchmark && !cli.show_version && !cli.show_help),
            decreases n - i,
        {
            let arg = &args[i];
            if str_eq(arg.as_str(), "--model") {
                match parse_path(args, i + 1, "--model") {
                    Ok(v) => {
                        cli.model = Some(v);
                    },
                    Err(e) => {
                        return Err(e);
                    },
                }
                i += 2;
            } else if str_eq(arg.as_str(), "--source-lang") {
                match parse_string(args, i + 1, "--source-lang") {
                    Ok(v) => {
                        cli.source_lang = Some(v);
                    },
                    Err(e) => {
                        return Err(e);
                    },
                }
                i += 2;
            } else if str_eq(arg.as_str(), "--src") {
                match parse_string(args, i + 1, "--src") {
                    Ok(v) => {
                        cli.source_lang = Some(v);
                    },
                    Err(e) => {
                        return Err(e);
                    },
                }
                i += 2;
            } else if str_eq(arg.as_str(), "--target-lang") {
                match parse_string(args, i + 1, "--target-lang") {
                    Ok(v) => {
                        cli.target_lang = Some(v);
                    },
                    Err(e) => {
                        return Err(e);
                    },
                }
                i += 2;
            } else if str_eq(arg.as_str(), "--tgt") {
                match parse_string(args, i + 1, "--tgt") {
                    Ok(v) => {
                        cli.target_lang = Some(v);
                    },
                    Err(e) => {
                        return Err(e);
                    },
                }
                i += 2;
            } else if str_eq(arg.as_str(), "--gpu-layers") {
                match parse_u32(args, i + 1, "--gpu-layers") {
                    Ok(v) => {
                        cli.gpu_layers = Some(v);
                    },
                    Err(e) => {
                        return Err(e);
                    },
                }
                i += 2;
            } else if str_eq(arg.as_str(), "--context-size") {
                match parse_u32(args, i + 1, "--context-size") {
                    Ok(v) => {
                        cli.context_size = Some(v);
                    },
                    Err(e) => {
                        return Err(e);
                    },
                }
                i += 2;
            } else if str_eq(arg.as_str(), "--threads") {
                match parse_u32(args, i + 1, "--threads") {
                    Ok(v) => {
                        cli.threads = Some(v);
                    },
                    Err(e) => {
                        return Err(e);
                    },
                }
                i += 2;
            } else if str_eq(arg.as_str(), "--config") {
                match parse_path(args, i + 1, "--config") {
                    Ok(v) => {
                        cli.config = Some(v);
                    },
                    Err(e) => {
                        return Err(e);
                    },
                }
                i += 2;
            } else if str_eq(arg.as_str(), "--no-config") {
                cli.no_config = true;
                i += 1;
            } else if str_eq(arg.as_str(), "--stdin") {
                cli.stdin = true;
                i += 1;
            } else if str_eq(arg.as_str(), "--benchmark") {
                cli.benchmark = true;
                i += 1;
            } else if str_eq(arg.as_str(), "--text") {
                match parse_string(args, i + 1, "--text") {
                    Ok(v) => {
                        cli.benchmark_text = Some(v);
                    },
                    Err(e) => {
                        return Err(e);
                    },
                }
                i += 2;
            } else if str_eq(arg.as_str(), "--warmup-runs") {
                match parse_u32(args, i + 1, "--warmup-runs") {
                    Ok(v) => {
                        cli.benchmark_warmup_runs = Some(v);
                    },
                    Err(e) => {
                        return Err(e);
                    },
                }
                i += 2;
            } else if str_eq(arg.as_str(), "--runs") {
                match parse_u32(args, i + 1, "--runs") {
                    Ok(v) => {
                        cli.benchmark_runs = Some(v);
                    },
                    Err(e) => {
                        return Err(e);
                    },
                }
                i += 2;
            } else if str_eq(arg.as_str(), "--max-new-tokens") {
                match parse_u32(args, i + 1, "--max-new-tokens") {
                    Ok(v) => {
                        cli.benchmark_max_new_tokens = Some(v);
                    },
                    Err(e) => {
                        return Err(e);
                    },
                }
                i += 2;
            } else if str_eq(arg.as_str(), "--version") || str_eq(arg.as_str(), "-V") {
                cli.show_version = true;
                i += 1;
            } else if str_eq(arg.as_str(), "--help") || str_eq(arg.as_str(), "-h") {
                cli.show_help = true;
                i += 1;
            } else {
                let mut m = "Unknown argument: ".to_owned();
                m.append(arg.as_str());
                return Err(m);
            }
        }
        if cli.no_config && cli.config.is_some() {
            return Err("--no-config cannot be used with --config".to_owned());
        }
        Ok(cli)
    }

    /// The usage text.
    pub fn usage() -> (r: &'static str) {
        "petit - Local TranslateGemma TUI\n\nUsage:\n  petit [options]\n\nOptions:\n  --model <path>         Path to GGUF model\n  --source-lang <code>   Source language (e.g. en)\n  --src <code>           Alias for --source-lang\n  --target-lang <code>   Target language (e.g. fr)\n  --tgt <code>           Alias for --target-lang\n  --gpu-layers <n>       GPU layers to offload\n  --context-size <n>     Context window size\n  --threads <n>          CPU threads for inference\n  --config <path>        Config file path\n  --no-config            Ignore config file\n  --stdin                Read text from stdin and exit\n  --benchmark            Run benchmark mode and exit (uses config precedence)\n  --text <value>         Benchmark input text (benchmark mode)\n  --warmup-runs <n>      Warmup runs before measured runs (benchmark mode)\n  --runs <n>             Measured benchmark runs (benchmark mode)\n  --max-new-tokens <n>   Max output tokens for benchmark run (benchmark mode)\n  --version, -V          Print version\n  --help, -h             Print help\n"
    }
}

} // verus!
