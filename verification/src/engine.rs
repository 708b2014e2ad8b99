//! Model Engine boundary and the greedy autoregressive generation loop.
//!
//! The model itself — weights, tokenizer, decode kernels — is an opaque
//! capability behind the [`ModelEngine`] and [`InferenceSession`] traits.
//! The orchestration around it (batch seeding, the bounded sampling
//! loop, stop-condition handling, detokenization and trimming) is
//! verified here, for every implementation of those traits.  The traits
//! carry a ghost view of the end-of-generation predicate and of the
//! batch contents, so that the loop's contracts can say which tokens
//! are handed to the model and which come back.

use vstd::prelude::*;
use vstd::string::StrSliceExecFns;
use vstd::string::StringExecFns;

use crate::error::Error;
use crate::text::lemma_trim_idempotent;
use crate::text::starts_with_spec;
use crate::text::trim_spec;
use crate::text::trim_str;

verus! {

/// One in-flight inference: a fresh model context with its token batch
/// and a stateful detokenizer.  A session is created per call and never
/// shared across calls.
pub trait InferenceSession {
    /// Ghost view of the batch: each entry is a token id, its sequence
    /// position, and whether output logits are requested for it.
    spec fn batch_spec(&self) -> Seq<(i32, int, bool)>;

    /// Empty the token batch.
    fn batch_clear(&mut self)
        ensures
            final(self).batch_spec() == Seq::<(i32, int, bool)>::empty(),
    ;

    /// Add one token to the batch at the given sequence position,
    /// requesting output logits for it when `want_logits` is set.
    fn batch_add(&mut self, token: i32, pos: usize, want_logits: bool) -> (r: Result<(), String>)
        ensures
            r is Ok ==> final(self).batch_spec() == old(self).batch_spec().push(
                (token, pos as int, want_logits),
            ),
            r is Err ==> final(self).batch_spec() == old(self).batch_spec(),
    ;

    /// Run one decode step over the current batch; the batch itself is
    /// left as it is.
    fn decode(&mut self) -> (r: Result<(), String>)
        ensures
            final(self).batch_spec() == old(self).batch_spec(),
    ;

    /// Greedy argmax over the candidate distribution at the last batch
    /// position that produced logits.  What comes back depends on the
    /// model alone; nothing is promised of it.
    fn sample_greedy_last(&mut self) -> i32;

    /// The text piece of one generated token; the decoder keeps state
    /// across calls so that multi-token UTF-8 sequences assemble
    /// correctly.
    fn piece_for(&mut self, token: i32) -> Result<String, String>;
}

/// A loaded model and the capability to start inference sessions
/// against it.
pub trait ModelEngine {
    /// The session type this engine produces.
    type Session: InferenceSession;

    /// Ghost view of the model's end-of-generation predicate.
    spec fn end_spec(&self, token: i32) -> bool;

    /// Create a fresh inference context sized and threaded as the
    /// engine was configured.
    fn new_context(&self) -> Result<Self::Session, String>;

    /// Tokenize a prompt, with an implicit beginning-of-sequence marker
    /// prepended.
    fn tokenize(&self, prompt: &str) -> Result<Vec<i32>, String>;

    /// Whether a token is a designated end-of-generation token for the
    /// loaded model.
    fn is_end_token(&self, token: i32) -> (r: bool)
        ensures
            r == self.end_spec(token),
    ;
}

/// The six stages at which one inference call can fail; every
/// inference error names its stage first.
pub open spec fn stage_prefixed(m: Seq<char>) -> bool {
    ||| starts_with_spec(m, "Context creation: "@)
    ||| starts_with_spec(m, "Tokenization: "@)
    ||| starts_with_spec(m, "Batch add: "@)
    ||| starts_with_spec(m, "Decode prompt: "@)
    ||| starts_with_spec(m, "Decode: "@)
    ||| starts_with_spec(m, "Detokenization: "@)
}

/// An inference error with the failing stage named first.
fn inference_error(stage: &str, detail: &str) -> (e: Error)
    ensures
        e matches Error::Inference(m) && m@ == stage@ + detail@,
        e matches Error::Inference(m) && starts_with_spec(m@, stage@),
{
    let mut s = stage.to_owned();
    s.append(detail);
    proof {
        assert((stage@ + detail@).subrange(0, stage@.len() as int) =~= stage@);
    }
    Error::Inference(s)
}

/// The batch contents that seeding a prompt produces: every token at
/// its position, with logits requested only for the last one.
pub open spec fn prompt_batch_spec(tokens: Seq<i32>) -> Seq<(i32, int, bool)> {
    Seq::new(tokens.len(), |i: int| (tokens[i], i, i == tokens.len() - 1))
}

/// Seed the batch with all prompt tokens at sequential positions,
/// requesting logits only for the final token — the only position that
/// is sampled from.
pub fn seed_prompt<S: InferenceSession>(session: &mut S, tokens: &Vec<i32>) -> (r: Result<
    (),
    Error,
>)
    requires
        tokens@.len() > 0,
    ensures
        r is Ok ==> final(session).batch_spec() == prompt_batch_spec(tokens@),
        r matches Err(e) ==> (e matches Error::Inference(m) && starts_with_spec(
            m@,
            "Batch add: "@,
        )),
{
    session.batch_clear();
    let n = tokens.len();
    let mut i: usize = 0;
    while i < n
        invariant
            i <= n,
            n == tokens@.len(),
            n > 0,
            session.batch_spec() == prompt_batch_spec(tokens@).take(i as int),
        decreases n - i,
    {
        let is_last = i == n - 1;
        match session.batch_add(tokens[i], i, is_last) {
            Ok(()) => {},
            Err(e) => {
                return Err(inference_error("Batch add: ", e.as_str()));
            },
        }
        proof {
            assert(prompt_batch_spec(tokens@).take(i + 1) =~= prompt_batch_spec(tokens@).take(
                i as int,
            ).push((tokens@[i as int], i as int, i == n - 1)));
        }
        i += 1;
    }
    proof {
        assert(prompt_batch_spec(tokens@).take(n as int) =~= prompt_batch_spec(tokens@));
    }
    Ok(())
}

/// The generation loop: sample greedily, stop on an end-of-generation
/// token, otherwise append the token, re-batch it at the next position
/// and decode.  Runs at most `max_new_tokens` iterations; reaching the
/// bound is not an error, and no returned token is an end-of-generation
/// token.
pub fn generate_tokens<E: ModelEngine>(
    engine: &E,
    session: &mut E::Session,
    n_prompt: usize,
    max_new_tokens: u32,
) -> (r: Result<Vec<i32>, Error>)
    requires
        n_prompt + max_new_tokens <= usize::MAX,
    ensures
        r matches Ok(toks) ==> toks@.len() <= max_new_tokens,
        r matches Ok(toks) ==> forall|i: int|
            0 <= i < toks@.len() ==> !engine.end_spec(#[trigger] toks@[i]),
        r matches Err(e) ==> (e matches Error::Inference(m) && (starts_with_spec(
            m@,
            "Batch add: "@,
        ) || starts_with_spec(m@, "Decode: "@))),
{
    let mut out: Vec<i32> = Vec::new();
    let mut n_cur: usize = n_prompt;
    let mut i: u32 = 0;
    while i < max_new_tokens
        invariant
            i <= max_new_tokens,
            out@.len() == i,
            n_cur == n_prompt + i,
            n_prompt + max_new_tokens <= usize::MAX,
            forall|k: int| 0 <= k < out@.len() ==> !engine.end_spec(#[trigger] out@[k]),
        decreases max_new_tokens - i,
    {
        let next = session.sample_greedy_last();
        if engine.is_end_token(next) {
            return Ok(out);
        }
        out.push(next);
        session.batch_clear();
        match session.batch_add(next, n_cur, true) {
            Ok(()) => {},
            Err(e) => {
                return Err(inference_error("Batch add: ", e.as_str()));
            },
        }
        n_cur += 1;
        match session.decode() {
            Ok(()) => {},
            Err(e) => {
                return Err(inference_error("Decode: ", e.as_str()));
            },
        }
        i += 1;
    }
    Ok(out)
}

/// The concatenation of a sequence of text pieces, in order.
pub open spec fn concat_pieces_spec(pieces: Seq<Seq<char>>) -> Seq<char>
    decreases pieces.len(),
{
    if pieces.len() == 0 {
        Seq::empty()
    } else {
        concat_pieces_spec(pieces.drop_last()) + pieces.last()
    }
}

/// Join detokenized pieces into one string, in order.
pub fn concat_pieces(pieces: &Vec<String>) -> (r: String)
    ensures
        r@ == concat_pieces_spec(pieces@.map_values(|p: String| p@)),
{
    let ghost views = pieces@.map_values(|p: String| p@);
    let mut out = String::new();
    let n = pieces.len();
    let mut i: usize = 0;
    while i < n
        invariant
            i <= n,
            n == pieces@.len(),
            views == pieces@.map_values(|p: String| p@),
            out@ == concat_pieces_spec(views.take(i as int)),
        decreases n - i,
    {
        out.append(pieces[i].as_str());
        proof {
            assert(views.take(i + 1).drop_last() =~= views.take(i as int));
            assert(views.take(i + 1).last() == pieces@[i as int]@);
        }
        i += 1;
    }
    proof {
        assert(views.take(n as int) =~= views);
    }
    out
}

/// Check a tokenized prompt against the generation budget: it must be
/// nonempty — batch seeding indexes its last token — and short enough
/// that every generated token still gets a sequence position.
pub fn check_prompt_tokens(tokens: &Vec<i32>, max_new_tokens: u32) -> (r: Result<(), Error>)
    ensures
        r is Ok <==> tokens@.len() > 0 && tokens@.len() + max_new_tokens <= usize::MAX,
        tokens@.len() == 0 ==> (r matches Err(e) && e matches Error::Inference(m) && m@
            == "Tokenization: "@ + "prompt produced no tokens"@),
        tokens@.len() > 0 && tokens@.len() + max_new_tokens > usize::MAX ==> (r matches Err(e)
            && e matches Error::Inference(m) && m@ == "Batch add: "@
            + "prompt too long for the position counter"@),
{
    if tokens.len() == 0 {
        return Err(inference_error("Tokenization: ", "prompt produced no tokens"));
    }
    if tokens.len() > usize::MAX - max_new_tokens as usize {
        return Err(inference_error("Batch add: ", "prompt too long for the position counter"));
    }
    Ok(())
}

/// Detokenize the accumulated output tokens, in order, through the
/// session's stateful decoder, and join the pieces.
pub fn assemble_output<S: InferenceSession>(session: &mut S, tokens: &Vec<i32>) -> (r: Result<
    String,
    Error,
>)
    ensures
        r matches Err(e) ==> (e matches Error::Inference(m) && starts_with_spec(
            m@,
            "Detokenization: "@,
        )),
{
    let mut pieces: Vec<String> = Vec::new();
    let n = tokens.len();
    let mut i: usize = 0;
    while i < n
        invariant
            i <= n,
            n == tokens@.len(),
        decreases n - i,
    {
        match session.piece_for(tokens[i]) {
            Ok(piece) => {
                pieces.push(piece);
            },
            Err(e) => {
                return Err(inference_error("Detokenization: ", e.as_str()));
            },
        }
        i += 1;
    }
    Ok(concat_pieces(&pieces))
}

/// One full inference call: fresh context, tokenization with the
/// implicit beginning-of-sequence marker, the prompt check, one decode
/// step over the whole prompt, the bounded generation loop, then
/// detokenization and trimming.  Every failure is an inference error
/// naming its stage; a success is already trimmed.
pub fn infer<E: ModelEngine>(engine: &E, prompt: &str, max_new_tokens: u32) -> (r: Result<
    String,
    Error,
>)
    ensures
        r matches Err(e) ==> (e matches Error::Inference(m) && stage_prefixed(m@)),
        r matches Ok(s) ==> trim_spec(s@) == s@,
{
    let mut session = match engine.new_context() {
        Ok(s) => s,
        Err(e) => {
            return Err(inference_error("Context creation: ", e.as_str()));
        },
    };
    let tokens = match engine.tokenize(prompt) {
        Ok(t) => t,
        Err(e) => {
            return Err(inference_error("Tokenization: ", e.as_str()));
        },
    };
    match check_prompt_tokens(&tokens, max_new_tokens) {
        Ok(()) => {},
        Err(e) => {
            proof {
                if tokens@.len() == 0 {
                    assert(("Tokenization: "@ + "prompt produced no tokens"@).subrange(
                        0,
                        "Tokenization: "@.len() as int,
                    ) =~= "Tokenization: "@);
                } else {
                    assert(("Batch add: "@ + "prompt too long for the position counter"@).subrange(
                        0,
                        "Batch add: "@.len() as int,
                    ) =~= "Batch add: "@);
                }
            }
            return Err(e);
        },
    }
    match seed_prompt(&mut session, &tokens) {
        Ok(()) => {},
        Err(e) => {
            return Err(e);
        },
    }
    match session.decode() {
        Ok(()) => {},
        Err(e) => {
            return Err(inference_error("Decode prompt: ", e.as_str()));
        },
    }
    let out_tokens = match generate_tokens(engine, &mut session, tokens.len(), max_new_tokens) {
        Ok(v) => v,
        Err(e) => {
            return Err(e);
        },
    };
    let text = match assemble_output(&mut session, &out_tokens) {
        Ok(t) => t,
        Err(e) => {
            return Err(e);
        },
    };
    let trimmed = trim_str(text.as_str());
    proof {
        lemma_trim_idempotent(text@);
    }
    Ok(trimmed.to_owned())
}

/// Copy a token vector.
fn clone_tokens(v: &Vec<i32>) -> (r: Vec<i32>)
    ensures
        r@ == v@,
{
    let mut out: Vec<i32> = Vec::new();
    let n = v.len();
    let mut i: usize = 0;
    while i < n
        invariant
            i <= n,
            n == v@.len(),
            out@ == v@.take(i as int),
        decreases n - i,
    {
        out.push(v[i]);
        proof {
            assert(v@.take(i + 1) =~= v@.take(i as int).push(v@[i as int]));
        }
        i += 1;
    }
    proof {
        assert(v@.take(n as int) =~= v@);
    }
    out
}

/// Copy a vector of strings.
fn clone_strings(v: &Vec<String>) -> (r: Vec<String>)
    ensures
        r@.len() == v@.len(),
        forall|i: int| 0 <= i < v@.len() ==> #[trigger] r@[i]@ == v@[i]@,
{
    let mut out: Vec<String> = Vec::new();
    let n = v.len();
    let mut i: usize = 0;
    while i < n
        invariant
            i <= n,
            n == v@.len(),
            out@.len() == i,
            forall|k: int| 0 <= k < i ==> #[trigger] out@[k]@ == v@[k]@,
        decreases n - i,
    {
        let s = v[i].clone();
        out.push(s);
        i += 1;
    }
    out
}

/// A deterministic scripted engine: it plays back a fixed sequence of
/// token ids and maps each id to a fixed text piece.  It exists so that
/// the orchestration around a model can be exercised without any model.
pub struct ScriptedEngine {
    /// Token ids the engine emits, in order.  Once the script is
    /// exhausted it emits `end_token`.
    pub script: Vec<i32>,
    /// The token id treated as the end-of-generation token.
    pub end_token: i32,
    /// The text piece for each token id, indexed by the id.
    pub pieces: Vec<String>,
}

/// Session state for [`ScriptedEngine`]: the playback position and a
/// ghost model of the batch contents.
pub struct ScriptedSession {
    pub script: Vec<i32>,
    pub next: usize,
    pub end_token: i32,
    pub pieces: Vec<String>,
    /// Ghost model of the batch: the scripted engine has no real batch.
    pub batch: Ghost<Seq<(i32, int, bool)>>,
}

impl ModelEngine for ScriptedEngine {
    type Session = ScriptedSession;

    open spec fn end_spec(&self, token: i32) -> bool {
        token == self.end_token
    }

    fn new_context(&self) -> Result<ScriptedSession, String> {
        Ok(
            ScriptedSession {
                script: clone_tokens(&self.script),
                next: 0,
                end_token: self.end_token,
                pieces: clone_strings(&self.pieces),
                batch: Ghost(Seq::empty()),
            },
        )
    }

    fn tokenize(&self, prompt: &str) -> Result<Vec<i32>, String> {
        let mut v: Vec<i32> = Vec::new();
        v.push(0);
        let n = prompt.unicode_len();
        let mut i: usize = 0;
        while i < n
            decreases n - i,
        {
            v.push(0);
            i += 1;
        }
        Ok(v)
    }

    fn is_end_token(&self, token: i32) -> (r: bool) {
        token == self.end_token
    }
}

impl InferenceSession for ScriptedSession {
    open spec fn batch_spec(&self) -> Seq<(i32, int, bool)> {
        self.batch@
    }

    fn batch_clear(&mut self) {
        self.batch = Ghost(Seq::empty());
    }

    fn batch_add(&mut self, token: i32, pos: usize, want_logits: bool) -> (r: Result<
        (),
        String,
    >) {
        self.batch = Ghost(self.batch@.push((token, pos as int, want_logits)));
        Ok(())
    }

    fn decode(&mut self) -> (r: Result<(), String>) {
        Ok(())
    }

    fn sample_greedy_last(&mut self) -> i32 {
        if self.next < self.script.len() {
            let t = self.script[self.next];
            self.next += 1;
            t
        } else {
            self.end_token
        }
    }

    fn piece_for(&mut self, token: i32) -> Result<String, String> {
        if token >= 0 && (token as usize) < self.pieces.len() {
            Ok(self.pieces[token as usize].clone())
        } else {
            Err("token outside the scripted vocabulary".to_owned())
        }
    }
}

} // verus!
