//! Prompt codec: renders the model-specific instruction prompt and
//! cleans raw model output into the final translation string.

use vstd::prelude::*;
use vstd::string::StrSliceExecFns;
use vstd::string::StringExecFns;

use crate::language::lower_of;
use crate::language::normalize_lang;
use crate::text::ends_with_spec;
use crate::text::lemma_trim_idempotent;

use crate::text::str_ends_with;
use crate::text::trim_spec;
use crate::text::trim_str;

verus! {

/// The exact prompt rendered for the model: a role-turn opening marker,
/// the bracketed `[src->tgt]` direction, the raw source text, the
/// turn-end marker, and the opening of the model's turn.  The marker
/// tokens are a contract with the model's instruction format.
pub open spec fn prompt_spec(text: Seq<char>, src: Seq<char>, tgt: Seq<char>) -> Seq<char> {
    "<start_of_turn>user\n["@ + lower_of(src) + "->"@ + lower_of(tgt) + "] "@ + text
        + "<end_of_turn>\n<start_of_turn>model\n"@
}

/// Raw model output after cleanup: trimmed, and if the trimmed text ends
/// with the turn-end marker, that marker stripped and the rest trimmed
/// again.
pub open spec fn clean_spec(s: Seq<char>) -> Seq<char> {
    let t = trim_spec(s);
    let m = "<end_of_turn>"@;
    if ends_with_spec(t, m) {
        trim_spec(t.take(t.len() - m.len()))
    } else {
        t
    }
}

/// Build the instruction prompt for a translation request.  Both
/// language codes are normalized to lowercase first.
pub fn build_prompt(text: &str, source_lang: &str, target_lang: &str) -> (r: String)
    ensures
        r@ == prompt_spec(text@, source_lang@, target_lang@),
{
    let src = normalize_lang(source_lang);
    let tgt = normalize_lang(target_lang);
    let mut out = "<start_of_turn>user\n[".to_owned();
    out.append(src.as_str());
    out.append("->");
    out.append(tgt.as_str());
    out.append("] ");
    out.append(text);
    out.append("<end_of_turn>\n<start_of_turn>model\n");
    out
}

/// Clean raw model output: trim whitespace, strip one trailing turn-end
/// marker, and trim again.
pub fn clean_output(raw: &str) -> (r: String)
    ensures
        r@ == clean_spec(raw@),
{
    let t = trim_str(raw);
    if str_ends_with(t, "<end_of_turn>") {
        let n = t.unicode_len();
        let m = "<end_of_turn>".unicode_len();
        let kept = t.substring_char(0, n - m);
        proof {
            assert(kept@ =~= t@.take(t@.len() - "<end_of_turn>"@.len()));
        }
        let t2 = trim_str(kept);
        t2.to_owned()
    } else {
        t.to_owned()
    }
}

/// Cleaned output carries no leading or trailing whitespace.
pub proof fn lemma_clean_is_trimmed(s: Seq<char>)
    ensures
        trim_spec(clean_spec(s)) == clean_spec(s),
{
    let t = trim_spec(s);
    let m = "<end_of_turn>"@;
    if ends_with_spec(t, m) {
        lemma_trim_idempotent(t.take(t.len() - m.len()));
    } else {
        lemma_trim_idempotent(s);
    }
}

/// Cleanup is stable: when the cleaned text does not itself end with the
/// turn-end marker, cleaning it again changes nothing.
pub proof fn lemma_clean_output_stable(s: Seq<char>)
    requires
        !ends_with_spec(clean_spec(s), "<end_of_turn>"@),
    ensures
        clean_spec(clean_spec(s)) == clean_spec(s),
{
    let t = trim_spec(s);
    let m = "<end_of_turn>"@;
    if ends_with_spec(t, m) {
        lemma_trim_idempotent(t.take(t.len() - m.len()));
    } else {
        lemma_trim_idempotent(s);
    }
}

} // verus!
