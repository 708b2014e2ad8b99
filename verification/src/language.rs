//! Language utilities: the table of supported ISO 639-1 codes,
//! normalization, and validation of language pairs.

use vstd::prelude::*;
use vstd::string::StrSliceExecFns;

use crate::error::Error;
use crate::text::is_space_char;
use crate::text::ascii_lower_char;
use crate::text::ascii_lower_seq;
use crate::text::str_eq;

verus! {

/// The supported ISO 639-1 language codes, as character sequences.
pub open spec fn supported_seq() -> Seq<Seq<char>> {
    seq![
        "af"@,
        "ar"@,
        "bg"@,
        "bn"@,
        "ca"@,
        "cs"@,
        "da"@,
        "de"@,
        "el"@,
        "en"@,
        "es"@,
        "et"@,
        "fa"@,
        "fi"@,
        "fr"@,
        "gl"@,
        "gu"@,
        "he"@,
        "hi"@,
        "hr"@,
        "hu"@,
        "id"@,
        "it"@,
        "ja"@,
        "ka"@,
        "kk"@,
        "ko"@,
        "lt"@,
        "lv"@,
        "mk"@,
        "ml"@,
        "mr"@,
        "ms"@,
        "ne"@,
        "nl"@,
        "no"@,
        "pl"@,
        "pt"@,
        "ro"@,
        "ru"@,
        "sk"@,
        "sl"@,
        "sq"@,
        "sr"@,
        "sv"@,
        "sw"@,
        "ta"@,
        "te"@,
        "th"@,
        "tl"@,
        "tr"@,
        "uk"@,
        "ur"@,
        "vi"@,
        "zh"@
    ]
}

/// Length of the prefix of `s` before the first `-`, or all of `s` when
/// no `-` occurs.
pub open spec fn base_len(s: Seq<char>) -> int
    decreases s.len(),
{
    if s.len() == 0 {
        0
    } else if s[0] == '-' {
        0
    } else {
        1 + base_len(s.drop_first())
    }
}

/// The base language code: the text before the first `-`.
pub open spec fn base_spec(s: Seq<char>) -> Seq<char> {
    s.take(base_len(s))
}

/// The Unicode lowercase form of a character sequence, as
/// `str::to_lowercase` computes it.  The mapping depends on the
/// characters alone, so it can be named without being written out.
pub uninterp spec fn lower_of(s: Seq<char>) -> Seq<char>;

/// Whether a code names a supported language: its base code, lowercased,
/// is in the supported table.
pub open spec fn is_supported_spec(code: Seq<char>) -> bool {
    supported_seq().contains(base_spec(lower_of(code)))
}

proof fn lemma_base_len_at(s: Seq<char>, i: int)
    requires
        0 <= i <= s.len(),
        forall|k: int| 0 <= k < i ==> s[k] != '-',
        i == s.len() || s[i] == '-',
    ensures
        base_len(s) == i,
    decreases i,
{
    if i > 0 {
        lemma_base_len_at(s.drop_first(), i - 1);
    }
}

/// Normalize a language code to lowercase, preserving any region suffix.
///
/// Relies on `str::to_lowercase`: the Unicode lowercase mapping of the
/// characters, named here by `lower_of`.  An empty code stays empty,
/// and on ASCII text the mapping is the per-character fold of `A`-`Z`
/// to `a`-`z`, which is what the Unicode data the documentation points
/// to defines for those characters.
#[verifier::external_body]
pub fn normalize_lang(code: &str) -> (r: String)
    ensures
        r@ == lower_of(code@),
        code@.len() == 0 ==> r@.len() == 0,
        vstd::utf8::is_ascii_chars(code@) ==> r@ == ascii_lower_seq(code@),
{
    code.to_lowercase()
}

/// Extract the base language code from a potentially regional code.
pub fn base_lang(code: &str) -> (r: &str)
    ensures
        r@ == base_spec(code@),
{
    let n = code.unicode_len();
    let mut i: usize = 0;
    while i < n && code.get_char(i) != '-'
        invariant
            i <= n,
            n == code@.len(),
            forall|k: int| 0 <= k < i ==> code@[k] != '-',
        decreases n - i,
    {
        i += 1;
    }
    proof {
        lemma_base_len_at(code@, i as int);
    }
    code.substring_char(0, i)
}

/// The list of supported language codes, in a fixed order.
#[verifier::rlimit(100)]
pub fn supported_languages() -> (r: Vec<&'static str>)
    ensures
        r@.len() == supported_seq().len(),
        forall|i: int| 0 <= i < r@.len() ==> #[trigger] r@[i]@ == supported_seq()[i],
{
    let mut v: Vec<&'static str> = Vec::new();
    v.push("af");
    v.push("ar");
    v.push("bg");
    v.push("bn");
    v.push("ca");
    v.push("cs");
    v.push("da");
    v.push("de");
    v.push("el");
    v.push("en");
    v.push("es");
    v.push("et");
    v.push("fa");
    v.push("fi");
    v.push("fr");
    v.push("gl");
    v.push("gu");
    v.push("he");
    v.push("hi");
    v.push("hr");
    v.push("hu");
    v.push("id");
    v.push("it");
    v.push("ja");
    v.push("ka");
    v.push("kk");
    v.push("ko");
    v.push("lt");
    v.push("lv");
    v.push("mk");
    v.push("ml");
    v.push("mr");
    v.push("ms");
    v.push("ne");
    v.push("nl");
    v.push("no");
    v.push("pl");
    v.push("pt");
    v.push("ro");
    v.push("ru");
    v.push("sk");
    v.push("sl");
    v.push("sq");
    v.push("sr");
    v.push("sv");
    v.push("sw");
    v.push("ta");
    v.push("te");
    v.push("th");
    v.push("tl");
    v.push("tr");
    v.push("uk");
    v.push("ur");
    v.push("vi");
    v.push("zh");
    v
}

/// Check whether a language code is supported.
///
/// Accepts both simple codes and regional codes; the check is
/// case-insensitive.
pub fn is_supported(code: &str) -> (r: bool)
    ensures
        r == is_supported_spec(code@),
        vstd::utf8::is_ascii_chars(code@) ==> r == supported_seq().contains(
            base_spec(ascii_lower_seq(code@)),
        ),
{
    let normalized = normalize_lang(code);
    let base = base_lang(normalized.as_str());
    let table = supported_languages();
    let n = table.len();
    let mut i: usize = 0;
    while i < n
        invariant
            i <= n,
            n == table@.len(),
            n == supported_seq().len(),
            forall|k: int| 0 <= k < n ==> #[trigger] table@[k]@ == supported_seq()[k],
            base@ == base_spec(lower_of(code@)),
            vstd::utf8::is_ascii_chars(code@) ==> lower_of(code@) == ascii_lower_seq(code@),
            forall|k: int| 0 <= k < i ==> supported_seq()[k] != base@,
        decreases n - i,
    {
        if str_eq(table[i], base) {
            proof {
                assert(supported_seq()[i as int] == base@);
            }
            return true;
        }
        i += 1;
    }
    false
}

/// Validate a language pair for translation.
///
/// Fails naming whichever side is unsupported, checking the source
/// before the target.
pub fn validate_pair(source: &str, target: &str) -> (r: Result<(), Error>)
    ensures
        r is Ok <==> is_supported_spec(source@) && is_supported_spec(target@),
        !is_supported_spec(source@) ==> (r matches Err(Error::UnsupportedLanguage(c)) && c@
            == source@),
        is_supported_spec(source@) && !is_supported_spec(target@) ==> (r matches Err(
            Error::UnsupportedLanguage(c),
        ) && c@ == target@),
{
    if !is_supported(source) {
        return Err(Error::UnsupportedLanguage(source.to_owned()));
    }
    if !is_supported(target) {
        return Err(Error::UnsupportedLanguage(target.to_owned()));
    }
    Ok(())
}

/// Shape of a table entry: two characters, neither a dash, both already
/// lowercase.
pub open spec fn entry_wf(s: Seq<char>) -> bool {
    s.len() == 2 && s[0] != '-' && s[1] != '-' && ascii_lower_char(s[0]) == s[0] && ascii_lower_char(s[1])
        == s[1] && !is_space_char(s[0]) && !is_space_char(s[1])
}

/// Every entry of the supported table is a two-letter lowercase code.
#[verifier::rlimit(100)]
pub proof fn lemma_supported_entries_wf()
    ensures
        forall|i: int| 0 <= i < supported_seq().len() ==> entry_wf(#[trigger] supported_seq()[i]),
{
    reveal_strlit("af");
    reveal_strlit("ar");
    reveal_strlit("bg");
    reveal_strlit("bn");
    reveal_strlit("ca");
    reveal_strlit("cs");
    reveal_strlit("da");
    reveal_strlit("de");
    reveal_strlit("el");
    reveal_strlit("en");
    reveal_strlit("es");
    reveal_strlit("et");
    reveal_strlit("fa");
    reveal_strlit("fi");
    reveal_strlit("fr");
    reveal_strlit("gl");
    reveal_strlit("gu");
    reveal_strlit("he");
    reveal_strlit("hi");
    reveal_strlit("hr");
    reveal_strlit("hu");
    reveal_strlit("id");
    reveal_strlit("it");
    reveal_strlit("ja");
    reveal_strlit("ka");
    reveal_strlit("kk");
    reveal_strlit("ko");
    reveal_strlit("lt");
    reveal_strlit("lv");
    reveal_strlit("mk");
    reveal_strlit("ml");
    reveal_strlit("mr");
    reveal_strlit("ms");
    reveal_strlit("ne");
    reveal_strlit("nl");
    reveal_strlit("no");
    reveal_strlit("pl");
    reveal_strlit("pt");
    reveal_strlit("ro");
    reveal_strlit("ru");
    reveal_strlit("sk");
    reveal_strlit("sl");
    reveal_strlit("sq");
    reveal_strlit("sr");
    reveal_strlit("sv");
    reveal_strlit("sw");
    reveal_strlit("ta");
    reveal_strlit("te");
    reveal_strlit("th");
    reveal_strlit("tl");
    reveal_strlit("tr");
    reveal_strlit("uk");
    reveal_strlit("ur");
    reveal_strlit("vi");
    reveal_strlit("zh");
    assert(entry_wf(supported_seq()[0]));
    assert(entry_wf(supported_seq()[1]));
    assert(entry_wf(supported_seq()[2]));
    assert(entry_wf(supported_seq()[3]));
    assert(entry_wf(supported_seq()[4]));
    assert(entry_wf(supported_seq()[5]));
    assert(entry_wf(supported_seq()[6]));
    assert(entry_wf(supported_seq()[7]));
    assert(entry_wf(supported_seq()[8]));
    assert(entry_wf(supported_seq()[9]));
    assert(entry_wf(supported_seq()[10]));
    assert(entry_wf(supported_seq()[11]));
    assert(entry_wf(supported_seq()[12]));
    assert(entry_wf(supported_seq()[13]));
    assert(entry_wf(supported_seq()[14]));
    assert(entry_wf(supported_seq()[15]));
    assert(entry_wf(supported_seq()[16]));
    assert(entry_wf(supported_seq()[17]));
    assert(entry_wf(supported_seq()[18]));
    assert(entry_wf(supported_seq()[19]));
    assert(entry_wf(supported_seq()[20]));
    assert(entry_wf(supported_seq()[21]));
    assert(entry_wf(supported_seq()[22]));
    assert(entry_wf(supported_seq()[23]));
    assert(entry_wf(supported_seq()[24]));
    assert(entry_wf(supported_seq()[25]));
    assert(entry_wf(supported_seq()[26]));
    assert(entry_wf(supported_seq()[27]));
    assert(entry_wf(supported_seq()[28]));
    assert(entry_wf(supported_seq()[29]));
    assert(entry_wf(supported_seq()[30]));
    assert(entry_wf(supported_seq()[31]));
    assert(entry_wf(supported_seq()[32]));
    assert(entry_wf(supported_seq()[33]));
    assert(entry_wf(supported_seq()[34]));
    assert(entry_wf(supported_seq()[35]));
    assert(entry_wf(supported_seq()[36]));
    assert(entry_wf(supported_seq()[37]));
    assert(entry_wf(supported_seq()[38]));
    assert(entry_wf(supported_seq()[39]));
    assert(entry_wf(supported_seq()[40]));
    assert(entry_wf(supported_seq()[41]));
    assert(entry_wf(supported_seq()[42]));
    assert(entry_wf(supported_seq()[43]));
    assert(entry_wf(supported_seq()[44]));
    assert(entry_wf(supported_seq()[45]));
    assert(entry_wf(supported_seq()[46]));
    assert(entry_wf(supported_seq()[47]));
    assert(entry_wf(supported_seq()[48]));
    assert(entry_wf(supported_seq()[49]));
    assert(entry_wf(supported_seq()[50]));
    assert(entry_wf(supported_seq()[51]));
    assert(entry_wf(supported_seq()[52]));
    assert(entry_wf(supported_seq()[53]));
    assert(entry_wf(supported_seq()[54]));
}

/// The ASCII fold is idempotent, and its result holds no uppercase
/// ASCII letter.  By `normalize_lang`'s contract an ASCII code
/// normalizes to its ASCII fold, so normalizing an ASCII code twice
/// gives the same string as normalizing it once.
pub proof fn lemma_ascii_lower_idempotent(s: Seq<char>)
    ensures
        ascii_lower_seq(ascii_lower_seq(s)) == ascii_lower_seq(s),
        forall|i: int| 0 <= i < ascii_lower_seq(s).len() ==> ascii_lower_char(#[trigger] ascii_lower_seq(s)[i])
            == ascii_lower_seq(s)[i],
{
    assert forall|i: int| 0 <= i < ascii_lower_seq(s).len() implies ascii_lower_char(
        #[trigger] ascii_lower_seq(s)[i],
    ) == ascii_lower_seq(s)[i] by {
        assert(ascii_lower_seq(s)[i] == ascii_lower_char(s[i]));
    }
    assert(ascii_lower_seq(ascii_lower_seq(s)) =~= ascii_lower_seq(s));
}

/// A supported base code stays supported under any region suffix: for
/// a table entry `b`, the code `b + "-" + r` passes the membership
/// test that `is_supported` performs, stated here over the ASCII fold,
/// which by `is_supported`'s contract is the test applied to every
/// ASCII code.
pub proof fn lemma_regional_supported(b: Seq<char>, r: Seq<char>)
    requires
        supported_seq().contains(b),
    ensures
        supported_seq().contains(base_spec(ascii_lower_seq(b + seq!['-'] + r))),
{
    lemma_supported_entries_wf();
    let i = choose|i: int| 0 <= i < supported_seq().len() && supported_seq()[i] == b;
    assert(entry_wf(b));
    let code = b + seq!['-'] + r;
    let low = ascii_lower_seq(code);
    assert(low.len() == code.len());
    assert(low[0] == ascii_lower_char(b[0]) && low[1] == ascii_lower_char(b[1])) by {
        assert(code[0] == b[0] && code[1] == b[1]);
    }
    assert(low[2] == ascii_lower_char('-')) by {
        assert(code[2] == '-');
    }
    assert(low[0] == b[0] && low[1] == b[1] && low[2] == '-');
    lemma_base_len_at(low, 2);
    assert(base_spec(low) =~= b);
}

} // verus!
