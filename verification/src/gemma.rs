//! Translator facade: composes language validation, the prompt codec
//! and the Model Engine into one `translate` operation.

use vstd::prelude::*;
use vstd::string::StringExecFns;

use crate::Translator;
use crate::codec::build_prompt;
use crate::codec::clean_output;
use crate::codec::lemma_clean_is_trimmed;
use crate::engine::ModelEngine;
use crate::engine::infer;
use crate::error::Error;
use crate::language::supported_languages;
use crate::language::validate_pair;

verus! {

/// Default cap on the number of generated tokens per translation.
pub const DEFAULT_MAX_NEW_TOKENS: u32 = 256;

/// A translator for models that speak the role-turn instruction format,
/// driven through a loaded [`ModelEngine`].
pub struct GemmaTranslator<E: ModelEngine> {
    /// The loaded model engine.
    pub engine: E,
    /// Generation budget for a single translation.
    pub max_new_tokens: u32,
}

impl<E: ModelEngine> GemmaTranslator<E> {
    /// Create a translator around a loaded model engine, with the
    /// default generation budget.
    pub fn with_engine(engine: E) -> (r: GemmaTranslator<E>)
        ensures
            r.engine == engine,
            r.max_new_tokens == DEFAULT_MAX_NEW_TOKENS,
    {
        GemmaTranslator { engine, max_new_tokens: DEFAULT_MAX_NEW_TOKENS }
    }

    /// Set the maximum number of new tokens to generate.
    pub fn with_max_new_tokens(self, max_new_tokens: u32) -> (r: GemmaTranslator<E>)
        ensures
            r.engine == self.engine,
            r.max_new_tokens == max_new_tokens,
    {
        GemmaTranslator { max_new_tokens, ..self }
    }
}

impl<E: ModelEngine> Translator for GemmaTranslator<E> {
    /// Validate the language pair before touching the model, build the
    /// prompt, run inference under the generation budget, and clean the
    /// result.
    fn translate(&self, text: &str, source_lang: &str, target_lang: &str) -> Result<
        String,
        Error,
    > {
        match validate_pair(source_lang, target_lang) {
            Ok(()) => {},
            Err(e) => {
                return Err(e);
            },
        }
        let prompt = build_prompt(text, source_lang, target_lang);
        let output = match infer(&self.engine, prompt.as_str(), self.max_new_tokens) {
            Ok(o) => o,
            Err(e) => {
                return Err(e);
            },
        };
        proof {
            lemma_clean_is_trimmed(output@);
        }
        Ok(clean_output(output.as_str()))
    }

    fn supported_languages(&self) -> Vec<&'static str> {
        supported_languages()
    }
}

} // verus!
