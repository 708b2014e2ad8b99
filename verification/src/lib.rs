//! Core of a local, on-device translation assistant.
//!
//! The library verifies the logic around an autoregressive language model:
//! language-code validation, prompt construction and output cleanup, the
//! greedy token-generation loop, the worker state machine that serves
//! translation requests, and the interactive session state.  The model
//! itself (weights, tokenizer, decode kernels) is an opaque capability
//! reached through the [`engine::ModelEngine`] trait.

use vstd::prelude::*;

pub mod app;
pub mod cli;
pub mod codec;
pub mod config;
pub mod engine;
pub mod error;
pub mod gemma;
pub mod language;
pub mod text;
pub mod ui;
pub mod worker;

pub use config::Config;
pub use error::Error;
pub use gemma::GemmaTranslator;

verus! {

use crate::language::is_supported_spec;
use crate::language::supported_seq;
use crate::text::trim_spec;

/// Translation interface, so that different backends can be used
/// interchangeably.
pub trait Translator {
    /// Translate text from the source language to the target language.
    ///
    /// An unsupported language pair is rejected before any model work
    /// happens, naming the offending code, source first.
    fn translate(&self, text: &str, source_lang: &str, target_lang: &str) -> (r: Result<
        String,
        Error,
    >)
        ensures
            !is_supported_spec(source_lang@) ==> (r matches Err(
                Error::UnsupportedLanguage(c),
            ) && c@ == source_lang@),
            is_supported_spec(source_lang@) && !is_supported_spec(target_lang@) ==> (r matches Err(
                Error::UnsupportedLanguage(c),
            ) && c@ == target_lang@),
            is_supported_spec(source_lang@) && is_supported_spec(target_lang@) ==> (r is Ok || (
            r matches Err(Error::Inference(_)))),
            r matches Ok(s) ==> trim_spec(s@) == s@,
    ;

    /// List the language codes this translator supports.
    fn supported_languages(&self) -> (r: Vec<&'static str>)
        ensures
            r@.len() == supported_seq().len(),
            forall|i: int| 0 <= i < r@.len() ==> #[trigger] r@[i]@ == supported_seq()[i],
    ;
}

} // verus!
