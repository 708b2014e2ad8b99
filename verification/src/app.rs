//! Interactive session state: text buffers, cursor movement, language
//! editing, and the caller-side protocol with the translation worker.

use vstd::prelude::*;
use vstd::string::StrSliceExecFns;
use vstd::string::StringExecFns;

use crate::language::is_supported_spec;
use crate::language::lower_of;
use crate::language::normalize_lang;
use crate::language::validate_pair;

use crate::text::push_char;
use crate::text::trim_spec;
use crate::text::trim_str;

verus! {

/// Which pane is currently focused.
#[derive(Debug, Clone, Copy, PartialEq, Eq, Structural)]
pub enum Focus {
    Input,
    Output,
}

/// Which language a language edit is changing.
#[derive(Debug, Clone, Copy, PartialEq, Eq, Structural)]
pub enum LangTarget {
    Source,
    Target,
}

/// The kind of a status message.
#[derive(Debug, Clone, Copy, PartialEq, Eq, Structural)]
pub enum StatusKind {
    Info,
    Success,
    Error,
}

/// A typed status message shown in the footer.
#[derive(Debug, Clone, PartialEq, Eq)]
pub struct StatusLine {
    pub kind: StatusKind,
    pub text: String,
}

/// One translation request, moved into the worker queue.
pub struct TranslationRequest {
    pub text: String,
    pub source_lang: String,
    pub target_lang: String,
}

/// In-progress edit of one of the two language codes.
pub struct LangEdit {
    pub target: LangTarget,
    pub buffer: String,
    pub cursor: usize,
}

/// A cursor clamped into the sequence: positions past the end insert at
/// the end.
pub open spec fn clamp_cursor(s: Seq<char>, cursor: int) -> int {
    if cursor <= s.len() {
        cursor
    } else {
        s.len() as int
    }
}

/// The sequence with `t` inserted at the (clamped) cursor.
pub open spec fn insert_spec(s: Seq<char>, cursor: int, t: Seq<char>) -> Seq<char> {
    s.take(clamp_cursor(s, cursor)) + t + s.skip(clamp_cursor(s, cursor))
}

/// The sequence with the character at `index` removed; out-of-range
/// indexes leave it unchanged.
pub open spec fn remove_spec(s: Seq<char>, index: int) -> Seq<char> {
    if 0 <= index < s.len() {
        s.take(index) + s.skip(index + 1)
    } else {
        s
    }
}

/// Number of newline characters in the sequence.
pub open spec fn newline_count(s: Seq<char>) -> int
    decreases s.len(),
{
    if s.len() == 0 {
        0
    } else {
        newline_count(s.drop_last()) + if s.last() == '\n' {
            1int
        } else {
            0int
        }
    }
}

/// Number of lines: one more than the number of newlines.
pub open spec fn num_lines(s: Seq<char>) -> int {
    1 + newline_count(s)
}

/// The start positions of each line: position 0, then one position
/// after each newline.
pub open spec fn line_starts_seq(s: Seq<char>) -> Seq<int>
    decreases s.len(),
{
    if s.len() == 0 {
        seq![0int]
    } else {
        line_starts_seq(s.drop_last()) + if s.last() == '\n' {
            seq![s.len() as int]
        } else {
            Seq::empty()
        }
    }
}

/// Scan for the line holding `cursor`, starting at line `j`: the first
/// line whose successor starts after the cursor.
pub open spec fn line_of_from(starts: Seq<int>, cursor: int, j: int) -> int
    decreases starts.len() - j,
{
    if j + 1 >= starts.len() || cursor < starts[j + 1] {
        j
    } else {
        line_of_from(starts, cursor, j + 1)
    }
}

/// The line holding `cursor`.
pub open spec fn line_of(s: Seq<char>, cursor: int) -> int {
    line_of_from(line_starts_seq(s), cursor, 0)
}

/// The column of `cursor` within its line.
pub open spec fn col_of(s: Seq<char>, cursor: int) -> int {
    let st = line_starts_seq(s)[line_of(s, cursor)];
    if cursor >= st {
        cursor - st
    } else {
        0
    }
}

/// The start position of line `line`.
pub open spec fn line_start_of(s: Seq<char>, line: int) -> int {
    line_starts_seq(s)[line]
}

/// The end position of line `line`: just before the next line's start,
/// or the end of the text for the last line.
pub open spec fn line_end_of(s: Seq<char>, line: int) -> int {
    if line + 1 < line_starts_seq(s).len() {
        line_starts_seq(s)[line + 1] - 1
    } else {
        s.len() as int
    }
}

/// Vertical cursor movement by `delta` lines, keeping the column where
/// the target line is long enough; `None` when no such line exists.
pub open spec fn move_vertical_spec(s: Seq<char>, cursor: int, delta: int) -> Option<int> {
    let starts = line_starts_seq(s);
    let line = line_of(s, cursor);
    let col = col_of(s, cursor);
    let target = line + delta;
    if target < 0 || target >= starts.len() {
        None
    } else {
        let ts = starts[target];
        let te = line_end_of(s, target);
        let tlen = if te >= ts {
            te - ts
        } else {
            0
        };
        Some(
            ts + if col <= tlen {
                col
            } else {
                tlen
            },
        )
    }
}

/// A scroll offset moved by `delta` and clamped into `[0, max]`.
pub open spec fn scroll_value_spec(current: int, delta: int, max: int) -> int {
    let sum = current + delta;
    let clamped = if sum < 0 {
        0
    } else if sum > 0xFFFF {
        0xFFFF
    } else {
        sum
    };
    if clamped <= max {
        clamped
    } else {
        max
    }
}

/// The largest scroll offset for a text: its line count minus one,
/// truncated to the offset's width.
pub open spec fn max_scroll_spec(s: Seq<char>) -> int {
    newline_count(s) % 0x10000
}

/// Insert one character at the (clamped) character position.
pub fn insert_into(buffer: &mut String, cursor: usize, ch: char)
    ensures
        final(buffer)@ == insert_spec(old(buffer)@, cursor as int, seq![ch]),
{
    let n = buffer.unicode_len();
    let c = if cursor < n {
        cursor
    } else {
        n
    };
    let mut out = buffer.substring_char(0, c).to_owned();
    push_char(&mut out, ch);
    let tail = buffer.substring_char(c, n);
    out.append(tail);
    proof {
        assert(out@ =~= insert_spec(buffer@, cursor as int, seq![ch]));
    }
    *buffer = out;
}

/// Insert a string at the (clamped) character position.
pub fn insert_str_into(buffer: &mut String, cursor: usize, text: &str)
    ensures
        final(buffer)@ == insert_spec(old(buffer)@, cursor as int, text@),
{
    let n = buffer.unicode_len();
    let c = if cursor < n {
        cursor
    } else {
        n
    };
    let mut out = buffer.substring_char(0, c).to_owned();
    out.append(text);
    let tail = buffer.substring_char(c, n);
    out.append(tail);
    proof {
        assert(out@ =~= insert_spec(buffer@, cursor as int, text@));
    }
    *buffer = out;
}

/// Remove the character at the given character position, if any.
pub fn remove_at(buffer: &mut String, index: usize)
    ensures
        final(buffer)@ == remove_spec(old(buffer)@, index as int),
{
    let n = buffer.unicode_len();
    if index >= n {
        return ;
    }
    let mut out = buffer.substring_char(0, index).to_owned();
    let tail = buffer.substring_char(index + 1, n);
    out.append(tail);
    proof {
        assert(out@ =~= remove_spec(buffer@, index as int));
    }
    *buffer = out;
}

/// The start positions of each line of the text.
pub fn line_starts(text: &str) -> (r: Vec<usize>)
    ensures
        r@.len() == line_starts_seq(text@).len(),
        forall|j: int| 0 <= j < r@.len() ==> #[trigger] r@[j] as int == line_starts_seq(text@)[j],
{
    let n = text.unicode_len();
    let mut starts: Vec<usize> = Vec::new();
    starts.push(0);
    let mut i: usize = 0;
    while i < n
        invariant
            i <= n,
            n == text@.len(),
            starts@.len() == line_starts_seq(text@.take(i as int)).len(),
            forall|j: int|
                0 <= j < starts@.len() ==> #[trigger] starts@[j] as int == line_starts_seq(
                    text@.take(i as int),
                )[j],
        decreases n - i,
    {
        let c = text.get_char(i);
        proof {
            assert(text@.take(i + 1).drop_last() =~= text@.take(i as int));
            assert(text@.take(i + 1).last() == text@[i as int]);
        }
        if c == '\n' {
            starts.push(i + 1);
        }
        i += 1;
    }
    proof {
        assert(text@.take(n as int) =~= text@);
    }
    starts
}

proof fn lemma_line_starts_bounds(s: Seq<char>)
    ensures
        newline_count(s) >= 0,
        line_starts_seq(s).len() == num_lines(s),
        line_starts_seq(s)[0] == 0,
        forall|j: int|
            0 <= j < line_starts_seq(s).len() ==> 0 <= #[trigger] line_starts_seq(s)[j] <= s.len(),
        forall|j: int, k: int|
            0 <= j < k < line_starts_seq(s).len() ==> #[trigger] line_starts_seq(s)[j]
                < #[trigger] line_starts_seq(s)[k],
    decreases s.len(),
{
    if s.len() > 0 {
        lemma_line_starts_bounds(s.drop_last());
    }
}

proof fn lemma_line_of_from_range(starts: Seq<int>, cursor: int, j: int)
    requires
        0 <= j < starts.len(),
    ensures
        j <= line_of_from(starts, cursor, j) < starts.len(),
    decreases starts.len() - j,
{
    if !(j + 1 >= starts.len() || cursor < starts[j + 1]) {
        lemma_line_of_from_range(starts, cursor, j + 1);
    }
}

/// The line holding the cursor is a real line index.
pub proof fn lemma_line_of_range(s: Seq<char>, cursor: int)
    ensures
        0 <= line_of(s, cursor) < num_lines(s),
{
    lemma_line_starts_bounds(s);
    lemma_line_of_from_range(line_starts_seq(s), cursor, 0);
}

/// Line ends lie between their line's start and the end of the text.
pub proof fn lemma_line_end_bounds(s: Seq<char>, line: int)
    requires
        0 <= line < num_lines(s),
    ensures
        line_start_of(s, line) <= line_end_of(s, line) <= s.len(),
        0 <= line_start_of(s, line) <= s.len(),
{
    lemma_line_starts_bounds(s);
}

/// A vertical move lands inside the text.
pub proof fn lemma_move_vertical_in_range(s: Seq<char>, cursor: int, delta: int)
    ensures
        move_vertical_spec(s, cursor, delta) matches Some(v) ==> 0 <= v <= s.len(),
{
    lemma_line_starts_bounds(s);
    lemma_line_of_range(s, cursor);
    let target = line_of(s, cursor) + delta;
    if 0 <= target < line_starts_seq(s).len() {
        lemma_line_end_bounds(s, target);
    }
}

/// The line index and column of a cursor position.
pub fn line_col(text: &str, cursor: usize) -> (r: (usize, usize))
    ensures
        r.0 as int == line_of(text@, cursor as int),
        r.1 as int == col_of(text@, cursor as int),
{
    let starts = line_starts(text);
    proof {
        lemma_line_starts_bounds(text@);
    }
    let ghost gstarts = line_starts_seq(text@);
    let n = starts.len();
    let mut line: usize = 0;
    let mut idx: usize = 0;
    let mut found = false;
    while !found
        invariant
            0 < n == starts@.len(),
            idx < n,
            gstarts.len() == n,
            forall|j: int| 0 <= j < n ==> #[trigger] starts@[j] as int == gstarts[j],
            found ==> line as int == line_of_from(gstarts, cursor as int, 0),
            found ==> line < n,
            !found ==> line_of_from(gstarts, cursor as int, 0) == line_of_from(
                gstarts,
                cursor as int,
                idx as int,
            ),
        decreases n - idx + if found {
            0int
        } else {
            1int
        },
    {
        if idx + 1 == n || cursor < starts[idx + 1] {
            line = idx;
            found = true;
        } else {
            idx += 1;
        }
    }
    let st = starts[line];
    let col = cursor.saturating_sub(st);
    (line, col)
}

/// The start position of a line, when the line exists.
pub fn line_start(text: &str, line: usize) -> (r: Option<usize>)
    ensures
        line < num_lines(text@) ==> (r matches Some(v) && v as int == line_start_of(
            text@,
            line as int,
        )),
        line >= num_lines(text@) ==> r is None,
{
    let starts = line_starts(text);
    proof {
        lemma_line_starts_bounds(text@);
    }
    if line < starts.len() {
        Some(starts[line])
    } else {
        None
    }
}

/// The end position of a line, when the line exists.
pub fn line_end(text: &str, line: usize) -> (r: Option<usize>)
    ensures
        line < num_lines(text@) ==> (r matches Some(v) && v as int == line_end_of(
            text@,
            line as int,
        )),
        line >= num_lines(text@) ==> r is None,
{
    let starts = line_starts(text);
    let total = text.unicode_len();
    proof {
        lemma_line_starts_bounds(text@);
    }
    if line >= starts.len() {
        return None;
    }
    if line + 1 < starts.len() {
        let next = starts[line + 1];
        Some(next - 1)
    } else {
        Some(total)
    }
}

/// Move the cursor `delta` lines vertically, keeping the column where
/// possible.
pub fn move_vertical(text: &str, cursor: usize, delta: isize) -> (r: Option<usize>)
    ensures
        r is Some <==> move_vertical_spec(text@, cursor as int, delta as int) is Some,
        r matches Some(v) ==> move_vertical_spec(text@, cursor as int, delta as int) matches Some(
            w,
        ) && v as int == w,
{
    let starts = line_starts(text);
    proof {
        lemma_line_starts_bounds(text@);
        lemma_line_of_range(text@, cursor as int);
    }
    let (line, col) = line_col(text, cursor);
    let target_i: i128 = line as i128 + delta as i128;
    if target_i < 0 || target_i >= starts.len() as i128 {
        return None;
    }
    let target: usize = target_i as usize;
    proof {
        lemma_line_end_bounds(text@, target as int);
    }
    let target_start = starts[target];
    let target_end = match line_end(text, target) {
        Some(e) => e,
        None => {
            return None;
        },
    };
    let target_len = target_end - target_start;
    let new_col = if col < target_len {
        col
    } else {
        target_len
    };
    Some(target_start + new_col)
}

/// The largest scroll offset for a text.
pub fn max_scroll(text: &str) -> (r: u16)
    ensures
        r as int == max_scroll_spec(text@),
{
    let starts = line_starts(text);
    proof {
        lemma_line_starts_bounds(text@);
    }
    let lines = starts.len();
    let r = ((lines - 1) % 0x10000) as u16;
    r
}

/// Move a scroll offset by `delta`, clamped into `[0, max]`.
pub fn scroll_value(current: u16, delta: i16, max: u16) -> (r: u16)
    ensures
        r as int == scroll_value_spec(current as int, delta as int, max as int),
{
    let sum: i32 = current as i32 + delta as i32;
    let clamped: i32 = if sum < 0 {
        0
    } else if sum > 0xFFFF {
        0xFFFF
    } else {
        sum
    };
    let v: u16 = clamped as u16;
    if v <= max {
        v
    } else {
        max
    }
}

/// Application state for the interactive session.
pub struct App {
    /// Input text to translate.
    pub input: String,
    /// Translated output.
    pub output: String,
    /// Source language code.
    pub source_lang: String,
    /// Target language code.
    pub target_lang: String,
    /// Whether the session should end.
    pub should_quit: bool,
    /// Whether a translation is in flight.
    pub is_loading: bool,
    /// Whether the background translator is initializing.
    pub is_worker_initializing: bool,
    /// Which pane is focused.
    pub focus: Focus,
    /// Cursor position in the input buffer, in characters.
    pub input_cursor: usize,
    /// Scroll offset of the input pane.
    pub input_scroll: u16,
    /// Scroll offset of the output pane.
    pub output_scroll: u16,
    /// Status line shown in the footer when no spinner or prompt is
    /// active.
    pub status_line: Option<StatusLine>,
    /// Language edit state, when a language edit is active.
    pub lang_edit: Option<LangEdit>,
    /// Show the compact language display in the header.
    pub compact_lang_display: bool,
}

impl App {
    /// Cursors sit inside their buffers.
    pub open spec fn wf(self) -> bool {
        &&& self.input_cursor <= self.input@.len()
        &&& match self.lang_edit {
            Some(e) => e.cursor <= e.buffer@.len(),
            None => true,
        }
    }

    /// Both language codes are the same in `a` and `b`.
    pub open spec fn same_languages(a: App, b: App) -> bool {
        a.source_lang == b.source_lang && a.target_lang == b.target_lang
    }

    /// The text buffers, cursor and scroll offsets are the same.
    pub open spec fn same_buffers(a: App, b: App) -> bool {
        &&& a.input == b.input
        &&& a.output == b.output
        &&& a.input_cursor == b.input_cursor
        &&& a.input_scroll == b.input_scroll
        &&& a.output_scroll == b.output_scroll
    }

    /// The session flags and focus are the same.
    pub open spec fn same_flags(a: App, b: App) -> bool {
        &&& a.should_quit == b.should_quit
        &&& a.is_loading == b.is_loading
        &&& a.is_worker_initializing == b.is_worker_initializing
        &&& a.focus == b.focus
        &&& a.compact_lang_display == b.compact_lang_display
    }

    /// Everything but the status line and edit state is the same.
    pub open spec fn same_except_status(a: App, b: App) -> bool {
        App::same_languages(a, b) && App::same_buffers(a, b) && App::same_flags(a, b)
    }
}

impl Default for App {
    /// A fresh session: empty buffers, English to French, input
    /// focused.
    fn default() -> (r: App)
        ensures
            r.wf(),
            r.input@ == Seq::<char>::empty(),
            r.output@ == Seq::<char>::empty(),
            r.source_lang@ == "en"@,
            r.target_lang@ == "fr"@,
            !r.should_quit,
            !r.is_loading,
            !r.is_worker_initializing,
            r.focus == Focus::Input,
            r.input_cursor == 0,
            r.input_scroll == 0,
            r.output_scroll == 0,
            r.status_line is None,
            r.lang_edit is None,
            !r.compact_lang_display,
    {
        App {
            input: String::new(),
            output: String::new(),
            source_lang: "en".to_owned(),
            target_lang: "fr".to_owned(),
            should_quit: false,
            is_loading: false,
            is_worker_initializing: false,
            focus: Focus::Input,
            input_cursor: 0,
            input_scroll: 0,
            output_scroll: 0,
            status_line: None,
            lang_edit: None,
            compact_lang_display: false,
        }
    }
}

impl App {
    /// A fresh session with the given language pair and header layout.
    pub fn with_languages(source_lang: String, target_lang: String, compact_lang_display: bool)
        -> (r: App)
        ensures
            r.wf(),
            r.source_lang == source_lang,
            r.target_lang == target_lang,
            r.compact_lang_display == compact_lang_display,
            r.input@ == Seq::<char>::empty(),
            r.output@ == Seq::<char>::empty(),
            !r.should_quit,
            !r.is_loading,
            !r.is_worker_initializing,
            r.focus == Focus::Input,
            r.input_cursor == 0,
            r.input_scroll == 0,
            r.output_scroll == 0,
            r.status_line is None,
            r.lang_edit is None,
    {
        let mut app = App::default();
        app.source_lang = source_lang;
        app.target_lang = target_lang;
        app.compact_lang_display = compact_lang_display;
        app
    }

    /// Whether a language edit is active.
    pub fn is_editing_language(&self) -> (r: bool)
        ensures
            r == (self.lang_edit is Some),
    {
        self.lang_edit.is_some()
    }

    /// The prompt shown while a language edit is active.
    pub fn language_prompt(&self) -> (r: Option<String>)
        ensures
            self.lang_edit is None ==> r is None,
            self.lang_edit matches Some(e) ==> (r matches Some(p) && p@ == "Set "@ + (
            if e.target == LangTarget::Source {
                "source"@
            } else {
                "target"@
            }) + " language: "@ + e.buffer@),
    {
        match &self.lang_edit {
            None => None,
            Some(edit) => {
                let mut p = "Set ".to_owned();
                match edit.target {
                    LangTarget::Source => {
                        p.append("source");
                    },
                    LangTarget::Target => {
                        p.append("target");
                    },
                }
                p.append(" language: ");
                p.append(edit.buffer.as_str());
                Some(p)
            },
        }
    }

    /// Start editing one of the language codes, seeded with its
    /// current value, and clear the status line.
    pub fn begin_language_edit(&mut self, target: LangTarget)
        requires
            old(self).wf(),
        ensures
            final(self).wf(),
            final(self).lang_edit matches Some(e) && e.target == target && e.buffer == (
            if target == LangTarget::Source {
                old(self).source_lang
            } else {
                old(self).target_lang
            }) && e.cursor == e.buffer@.len(),
            final(self).status_line is None,
            App::same_except_status(*old(self), *final(self)),
    {
        let buffer = match target {
            LangTarget::Source => self.source_lang.clone(),
            LangTarget::Target => self.target_lang.clone(),
        };
        let cursor = buffer.as_str().unicode_len();
        self.lang_edit = Some(LangEdit { target, buffer, cursor });
        self.clear_status();
    }

    /// Abandon the language edit.
    pub fn cancel_language_edit(&mut self)
        requires
            old(self).wf(),
        ensures
            final(self).wf(),
            final(self).lang_edit is None,
            final(self).status_line matches Some(s) && s.kind == StatusKind::Info && s.text@
                == "Language edit canceled"@,
            App::same_except_status(*old(self), *final(self)),
    {
        self.lang_edit = None;
        self.set_info_status("Language edit canceled");
    }

    /// Submit the language edit: normalize the edited code, validate
    /// the resulting pair, and apply it only when valid.
    pub fn submit_language_edit(&mut self)
        requires
            old(self).wf(),
        ensures
            final(self).wf(),
            old(self).lang_edit is None ==> *final(self) == *old(self),
            old(self).lang_edit matches Some(e) ==> {
                let nv = lower_of(e.buffer@);
                let ns = if e.target == LangTarget::Source {
                    nv
                } else {
                    old(self).source_lang@
                };
                let nt = if e.target == LangTarget::Target {
                    nv
                } else {
                    old(self).target_lang@
                };
                &&& final(self).lang_edit is None
                &&& App::same_buffers(*old(self), *final(self))
                &&& App::same_flags(*old(self), *final(self))
                &&& is_supported_spec(ns) && is_supported_spec(nt) ==> {
                    &&& final(self).source_lang@ == ns
                    &&& final(self).target_lang@ == nt
                    &&& final(self).status_line matches Some(s) && s.kind == StatusKind::Success
                        && s.text@ == "Language updated"@
                }
                &&& !(is_supported_spec(ns) && is_supported_spec(nt)) ==> {
                    &&& App::same_languages(*old(self), *final(self))
                    &&& final(self).status_line matches Some(s) && s.kind == StatusKind::Error
                        && s.text@ == "Unsupported language: "@ + (if !is_supported_spec(ns) {
                        ns
                    } else {
                        nt
                    })
                }
            },
    {
        let edit = match self.lang_edit.take() {
            Some(edit) => edit,
            None => {
                return ;
            },
        };
        let new_value = normalize_lang(edit.buffer.as_str());
        let (new_source, new_target) = match edit.target {
            LangTarget::Source => (new_value.clone(), self.target_lang.clone()),
            LangTarget::Target => (self.source_lang.clone(), new_value.clone()),
        };
        match validate_pair(new_source.as_str(), new_target.as_str()) {
            Ok(()) => {
                if edit.target == LangTarget::Source {
                    self.source_lang = new_value;
                } else {
                    self.target_lang = new_value;
                }
                self.set_success_status("Language updated");
            },
            Err(err) => {
                let m = err.message();
                self.set_error_status(m);
            },
        }
    }

    /// Move focus to the other pane.
    pub fn toggle_focus(&mut self)
        requires
            old(self).wf(),
        ensures
            final(self).wf(),
            final(self).focus == (if old(self).focus == Focus::Input {
                Focus::Output
            } else {
                Focus::Input
            }),
            App::same_languages(*old(self), *final(self)),
            App::same_buffers(*old(self), *final(self)),
            final(self).status_line == old(self).status_line,
            final(self).lang_edit == old(self).lang_edit,
            final(self).should_quit == old(self).should_quit,
            final(self).is_loading == old(self).is_loading,
            final(self).is_worker_initializing == old(self).is_worker_initializing,
            final(self).compact_lang_display == old(self).compact_lang_display,
    {
        self.focus = match self.focus {
            Focus::Input => Focus::Output,
            Focus::Output => Focus::Input,
        };
    }

    /// Swap the source and target languages.
    pub fn swap_languages(&mut self)
        requires
            old(self).wf(),
        ensures
            final(self).wf(),
            final(self).source_lang == old(self).target_lang,
            final(self).target_lang == old(self).source_lang,
            final(self).status_line matches Some(s) && s.kind == StatusKind::Info && s.text@
                == "Languages swapped"@,
            App::same_buffers(*old(self), *final(self)),
            App::same_flags(*old(self), *final(self)),
            final(self).lang_edit == old(self).lang_edit,
    {
        core::mem::swap(&mut self.source_lang, &mut self.target_lang);
        self.set_info_status("Languages swapped");
    }

    /// Clear the input buffer and reset its cursor and scroll.
    pub fn clear_input(&mut self)
        requires
            old(self).wf(),
        ensures
            final(self).wf(),
            final(self).input@ == Seq::<char>::empty(),
            final(self).input_cursor == 0,
            final(self).input_scroll == 0,
            final(self).status_line matches Some(s) && s.kind == StatusKind::Info && s.text@
                == "Input cleared"@,
            final(self).output == old(self).output,
            final(self).output_scroll == old(self).output_scroll,
            App::same_languages(*old(self), *final(self)),
            App::same_flags(*old(self), *final(self)),
            final(self).lang_edit == old(self).lang_edit,
    {
        self.input = String::new();
        self.input_cursor = 0;
        self.input_scroll = 0;
        self.set_info_status("Input cleared");
    }

    /// Insert one character into the active buffer at its cursor and
    /// clear the status line.
    pub fn insert_char(&mut self, ch: char)
        requires
            old(self).wf(),
            old(self).input@.len() < usize::MAX,
            old(self).lang_edit matches Some(e) ==> e.buffer@.len() < usize::MAX,
        ensures
            final(self).wf(),
            final(self).status_line is None,
            App::same_languages(*old(self), *final(self)),
            App::same_flags(*old(self), *final(self)),
            final(self).output == old(self).output,
            final(self).input_scroll == old(self).input_scroll,
            final(self).output_scroll == old(self).output_scroll,
            old(self).lang_edit matches Some(e) ==> (final(self).lang_edit matches Some(e2)
                && e2.target == e.target && e2.buffer@ == insert_spec(
                e.buffer@,
                e.cursor as int,
                seq![ch],
            ) && e2.cursor == e.cursor + 1 && final(self).input == old(self).input && final(self).input_cursor == old(self).input_cursor),
            old(self).lang_edit is None && old(self).focus == Focus::Input ==> (final(self).lang_edit is None && final(self).input@ == insert_spec(
                old(self).input@,
                old(self).input_cursor as int,
                seq![ch],
            ) && final(self).input_cursor == old(self).input_cursor + 1),
            old(self).lang_edit is None && old(self).focus == Focus::Output ==> (final(self).lang_edit is None && final(self).input == old(self).input && final(self).input_cursor
                == old(self).input_cursor),
    {
        match &mut self.lang_edit {
            Some(edit) => {
                insert_into(&mut edit.buffer, edit.cursor, ch);
                edit.cursor += 1;
            },
            None => {
                if self.focus == Focus::Input {
                    insert_into(&mut self.input, self.input_cursor, ch);
                    self.input_cursor += 1;
                }
            },
        }
        self.clear_status();
    }

    /// Insert a string into the active buffer at its cursor and clear
    /// the status line.
    pub fn insert_str(&mut self, text: &str)
        requires
            old(self).wf(),
            old(self).input@.len() + text@.len() <= usize::MAX,
            old(self).lang_edit matches Some(e) ==> e.buffer@.len() + text@.len() <= usize::MAX,
        ensures
            final(self).wf(),
            final(self).status_line is None,
            App::same_languages(*old(self), *final(self)),
            App::same_flags(*old(self), *final(self)),
            final(self).output == old(self).output,
            final(self).input_scroll == old(self).input_scroll,
            final(self).output_scroll == old(self).output_scroll,
            old(self).lang_edit matches Some(e) ==> (final(self).lang_edit matches Some(e2)
                && e2.target == e.target && e2.buffer@ == insert_spec(
                e.buffer@,
                e.cursor as int,
                text@,
            ) && e2.cursor == e.cursor + text@.len() && final(self).input == old(self).input
                && final(self).input_cursor == old(self).input_cursor),
            old(self).lang_edit is None && old(self).focus == Focus::Input ==> (final(self).lang_edit is None && final(self).input@ == insert_spec(
                old(self).input@,
                old(self).input_cursor as int,
                text@,
            ) && final(self).input_cursor == old(self).input_cursor + text@.len()),
            old(self).lang_edit is None && old(self).focus == Focus::Output ==> (final(self).lang_edit is None && final(self).input == old(self).input && final(self).input_cursor
                == old(self).input_cursor),
    {
        let insert_len = text.unicode_len();
        match &mut self.lang_edit {
            Some(edit) => {
                insert_str_into(&mut edit.buffer, edit.cursor, text);
                edit.cursor += insert_len;
            },
            None => {
                if self.focus == Focus::Input {
                    insert_str_into(&mut self.input, self.input_cursor, text);
                    self.input_cursor += insert_len;
                }
            },
        }
        self.clear_status();
    }

    /// Delete the character before the cursor in the active buffer and
    /// clear the status line.
    pub fn backspace(&mut self)
        requires
            old(self).wf(),
        ensures
            final(self).wf(),
            final(self).status_line is None,
            App::same_languages(*old(self), *final(self)),
            App::same_flags(*old(self), *final(self)),
            final(self).output == old(self).output,
            final(self).input_scroll == old(self).input_scroll,
            final(self).output_scroll == old(self).output_scroll,
            old(self).lang_edit matches Some(e) ==> (final(self).lang_edit matches Some(e2)
                && e2.target == e.target && final(self).input == old(self).input && final(self).input_cursor == old(self).input_cursor && (if e.cursor == 0 {
                e2.buffer == e.buffer && e2.cursor == 0
            } else {
                e2.buffer@ == remove_spec(e.buffer@, e.cursor - 1) && e2.cursor == e.cursor - 1
            })),
            old(self).lang_edit is None && old(self).focus == Focus::Input ==> (final(self).lang_edit is None && (if old(self).input_cursor == 0 {
                final(self).input == old(self).input && final(self).input_cursor == 0
            } else {
                final(self).input@ == remove_spec(old(self).input@, old(self).input_cursor - 1)
                    && final(self).input_cursor == old(self).input_cursor - 1
            })),
            old(self).lang_edit is None && old(self).focus == Focus::Output ==> (final(self).lang_edit is None && final(self).input == old(self).input && final(self).input_cursor
                == old(self).input_cursor),
    {
        match &mut self.lang_edit {
            Some(edit) => {
                if edit.cursor != 0 {
                    remove_at(&mut edit.buffer, edit.cursor - 1);
                    edit.cursor -= 1;
                }
            },
            None => {
                if self.focus == Focus::Input && self.input_cursor != 0 {
                    remove_at(&mut self.input, self.input_cursor - 1);
                    self.input_cursor -= 1;
                }
            },
        }
        self.clear_status();
    }

    /// Delete the character at the cursor in the active buffer and
    /// clear the status line.
    pub fn delete(&mut self)
        requires
            old(self).wf(),
        ensures
            final(self).wf(),
            final(self).status_line is None,
            App::same_languages(*old(self), *final(self)),
            App::same_flags(*old(self), *final(self)),
            final(self).output == old(self).output,
            final(self).input_scroll == old(self).input_scroll,
            final(self).output_scroll == old(self).output_scroll,
            old(self).lang_edit matches Some(e) ==> (final(self).lang_edit matches Some(e2)
                && e2.target == e.target && e2.cursor == e.cursor && e2.buffer@ == remove_spec(
                e.buffer@,
                e.cursor as int,
            ) && final(self).input == old(self).input && final(self).input_cursor == old(self).input_cursor),
            old(self).lang_edit is None && old(self).focus == Focus::Input ==> (final(self).lang_edit is None && final(self).input@ == remove_spec(
                old(self).input@,
                old(self).input_cursor as int,
            ) && final(self).input_cursor == old(self).input_cursor),
            old(self).lang_edit is None && old(self).focus == Focus::Output ==> (final(self).lang_edit is None && final(self).input == old(self).input && final(self).input_cursor
                == old(self).input_cursor),
    {
        match &mut self.lang_edit {
            Some(edit) => {
                remove_at(&mut edit.buffer, edit.cursor);
            },
            None => {
                if self.focus == Focus::Input {
                    remove_at(&mut self.input, self.input_cursor);
                }
            },
        }
        self.clear_status();
    }

    /// Move the cursor in the active buffer one character left.
    pub fn move_left(&mut self)
        requires
            old(self).wf(),
        ensures
            final(self).wf(),
            final(self).status_line == old(self).status_line,
            App::same_languages(*old(self), *final(self)),
            App::same_flags(*old(self), *final(self)),
            final(self).input == old(self).input,
            final(self).output == old(self).output,
            final(self).input_scroll == old(self).input_scroll,
            final(self).output_scroll == old(self).output_scroll,
            old(self).lang_edit matches Some(e) ==> (final(self).lang_edit matches Some(e2)
                && e2.target == e.target && e2.buffer == e.buffer && e2.cursor == (if e.cursor > 0 {
                (e.cursor - 1) as usize
            } else {
                0usize
            }) && final(self).input_cursor == old(self).input_cursor),
            old(self).lang_edit is None && old(self).focus == Focus::Input ==> (final(self).lang_edit is None && final(self).input_cursor == (if old(self).input_cursor > 0 {
                (old(self).input_cursor - 1) as usize
            } else {
                0usize
            })),
            old(self).lang_edit is None && old(self).focus == Focus::Output ==> (final(self).lang_edit is None && final(self).input_cursor == old(self).input_cursor),
    {
        match &mut self.lang_edit {
            Some(edit) => {
                if edit.cursor > 0 {
                    edit.cursor -= 1;
                }
            },
            None => {
                if self.focus == Focus::Input && self.input_cursor > 0 {
                    self.input_cursor -= 1;
                }
            },
        }
    }

    /// Move the cursor in the active buffer one character right.
    pub fn move_right(&mut self)
        requires
            old(self).wf(),
        ensures
            final(self).wf(),
            final(self).status_line == old(self).status_line,
            App::same_languages(*old(self), *final(self)),
            App::same_flags(*old(self), *final(self)),
            final(self).input == old(self).input,
            final(self).output == old(self).output,
            final(self).input_scroll == old(self).input_scroll,
            final(self).output_scroll == old(self).output_scroll,
            old(self).lang_edit matches Some(e) ==> (final(self).lang_edit matches Some(e2)
                && e2.target == e.target && e2.buffer == e.buffer && e2.cursor == (if (
            e.cursor as int) < e.buffer@.len() {
                (e.cursor + 1) as usize
            } else {
                e.cursor
            }) && final(self).input_cursor == old(self).input_cursor),
            old(self).lang_edit is None && old(self).focus == Focus::Input ==> (final(self).lang_edit is None && final(self).input_cursor == (if (
            old(self).input_cursor as int) < old(self).input@.len() {
                (old(self).input_cursor + 1) as usize
            } else {
                old(self).input_cursor
            })),
            old(self).lang_edit is None && old(self).focus == Focus::Output ==> (final(self).lang_edit is None && final(self).input_cursor == old(self).input_cursor),
    {
        match &mut self.lang_edit {
            Some(edit) => {
                let max = edit.buffer.as_str().unicode_len();
                if edit.cursor < max {
                    edit.cursor += 1;
                }
            },
            None => {
                if self.focus == Focus::Input {
                    let max = self.input.as_str().unicode_len();
                    if self.input_cursor < max {
                        self.input_cursor += 1;
                    }
                }
            },
        }
    }

    /// Move to the start of the line: of the edit buffer while editing
    /// a language, else of the input line under the cursor.
    pub fn move_home(&mut self)
        requires
            old(self).wf(),
        ensures
            final(self).wf(),
            final(self).status_line == old(self).status_line,
            App::same_languages(*old(self), *final(self)),
            App::same_flags(*old(self), *final(self)),
            final(self).input == old(self).input,
            final(self).output == old(self).output,
            final(self).input_scroll == old(self).input_scroll,
            final(self).output_scroll == old(self).output_scroll,
            old(self).lang_edit matches Some(e) ==> (final(self).lang_edit matches Some(e2)
                && e2.target == e.target && e2.buffer == e.buffer && e2.cursor == 0 && final(self).input_cursor == old(self).input_cursor),
            old(self).lang_edit is None ==> final(self).lang_edit is None,
            old(self).lang_edit is None && old(self).focus == Focus::Input ==> final(self).input_cursor as int == line_start_of(
                old(self).input@,
                line_of(old(self).input@, old(self).input_cursor as int),
            ),
            old(self).lang_edit is None && old(self).focus == Focus::Output ==> final(self).input_cursor == old(self).input_cursor,
    {
        match &mut self.lang_edit {
            Some(edit) => {
                edit.cursor = 0;
                return ;
            },
            None => {},
        }
        if self.focus == Focus::Input {
            proof {
                lemma_line_of_range(self.input@, self.input_cursor as int);
                lemma_line_end_bounds(
                    self.input@,
                    line_of(self.input@, self.input_cursor as int),
                );
            }
            let (line, _col) = line_col(self.input.as_str(), self.input_cursor);
            if let Some(start) = line_start(self.input.as_str(), line) {
                self.input_cursor = start;
            }
        }
    }

    /// Move to the end of the line: of the edit buffer while editing a
    /// language, else of the input line under the cursor.
    pub fn move_end(&mut self)
        requires
            old(self).wf(),
        ensures
            final(self).wf(),
            final(self).status_line == old(self).status_line,
            App::same_languages(*old(self), *final(self)),
            App::same_flags(*old(self), *final(self)),
            final(self).input == old(self).input,
            final(self).output == old(self).output,
            final(self).input_scroll == old(self).input_scroll,
            final(self).output_scroll == old(self).output_scroll,
            old(self).lang_edit matches Some(e) ==> (final(self).lang_edit matches Some(e2)
                && e2.target == e.target && e2.buffer == e.buffer && e2.cursor == e.buffer@.len()
                && final(self).input_cursor == old(self).input_cursor),
            old(self).lang_edit is None ==> final(self).lang_edit is None,
            old(self).lang_edit is None && old(self).focus == Focus::Input ==> final(self).input_cursor as int == line_end_of(
                old(self).input@,
                line_of(old(self).input@, old(self).input_cursor as int),
            ),
            old(self).lang_edit is None && old(self).focus == Focus::Output ==> final(self).input_cursor == old(self).input_cursor,
    {
        match &mut self.lang_edit {
            Some(edit) => {
                edit.cursor = edit.buffer.as_str().unicode_len();
                return ;
            },
            None => {},
        }
        if self.focus == Focus::Input {
            proof {
                lemma_line_of_range(self.input@, self.input_cursor as int);
                lemma_line_end_bounds(
                    self.input@,
                    line_of(self.input@, self.input_cursor as int),
                );
            }
            let (line, _col) = line_col(self.input.as_str(), self.input_cursor);
            if let Some(end) = line_end(self.input.as_str(), line) {
                self.input_cursor = end;
            }
        }
    }

    /// Move the input cursor one line up, keeping the column where the
    /// line above is long enough.
    pub fn move_up(&mut self)
        requires
            old(self).wf(),
        ensures
            final(self).wf(),
            final(self).status_line == old(self).status_line,
            App::same_languages(*old(self), *final(self)),
            App::same_flags(*old(self), *final(self)),
            final(self).input == old(self).input,
            final(self).output == old(self).output,
            final(self).input_scroll == old(self).input_scroll,
            final(self).output_scroll == old(self).output_scroll,
            final(self).lang_edit == old(self).lang_edit,
            old(self).lang_edit is Some || old(self).focus == Focus::Output ==> final(self).input_cursor == old(self).input_cursor,
            old(self).lang_edit is None && old(self).focus == Focus::Input ==> final(self).input_cursor as int == (match move_vertical_spec(
                old(self).input@,
                old(self).input_cursor as int,
                -1,
            ) {
                Some(v) => v,
                None => old(self).input_cursor as int,
            }),
    {
        if self.is_editing_language() || self.focus != Focus::Input {
            return ;
        }
        proof {
            lemma_move_vertical_in_range(self.input@, self.input_cursor as int, -1);
        }
        if let Some(new_cursor) = move_vertical(self.input.as_str(), self.input_cursor, -1) {
            self.input_cursor = new_cursor;
        }
    }

    /// Move the input cursor one line down, keeping the column where
    /// the line below is long enough.
    pub fn move_down(&mut self)
        requires
            old(self).wf(),
        ensures
            final(self).wf(),
            final(self).status_line == old(self).status_line,
            App::same_languages(*old(self), *final(self)),
            App::same_flags(*old(self), *final(self)),
            final(self).input == old(self).input,
            final(self).output == old(self).output,
            final(self).input_scroll == old(self).input_scroll,
            final(self).output_scroll == old(self).output_scroll,
            final(self).lang_edit == old(self).lang_edit,
            old(self).lang_edit is Some || old(self).focus == Focus::Output ==> final(self).input_cursor == old(self).input_cursor,
            old(self).lang_edit is None && old(self).focus == Focus::Input ==> final(self).input_cursor as int == (match move_vertical_spec(
                old(self).input@,
                old(self).input_cursor as int,
                1,
            ) {
                Some(v) => v,
                None => old(self).input_cursor as int,
            }),
    {
        if self.is_editing_language() || self.focus != Focus::Input {
            return ;
        }
        proof {
            lemma_move_vertical_in_range(self.input@, self.input_cursor as int, 1);
        }
        if let Some(new_cursor) = move_vertical(self.input.as_str(), self.input_cursor, 1) {
            self.input_cursor = new_cursor;
        }
    }

    /// Scroll the input pane by `delta` lines.
    pub fn scroll_input(&mut self, delta: i16)
        requires
            old(self).wf(),
        ensures
            final(self).wf(),
            final(self).input_scroll as int == scroll_value_spec(
                old(self).input_scroll as int,
                delta as int,
                max_scroll_spec(old(self).input@),
            ),
            final(self).status_line == old(self).status_line,
            final(self).lang_edit == old(self).lang_edit,
            App::same_languages(*old(self), *final(self)),
            App::same_flags(*old(self), *final(self)),
            final(self).input == old(self).input,
            final(self).output == old(self).output,
            final(self).input_cursor == old(self).input_cursor,
            final(self).output_scroll == old(self).output_scroll,
    {
        let max = max_scroll(self.input.as_str());
        self.input_scroll = scroll_value(self.input_scroll, delta, max);
    }

    /// Scroll the output pane by `delta` lines.
    pub fn scroll_output(&mut self, delta: i16)
        requires
            old(self).wf(),
        ensures
            final(self).wf(),
            final(self).output_scroll as int == scroll_value_spec(
                old(self).output_scroll as int,
                delta as int,
                max_scroll_spec(old(self).output@),
            ),
            final(self).status_line == old(self).status_line,
            final(self).lang_edit == old(self).lang_edit,
            App::same_languages(*old(self), *final(self)),
            App::same_flags(*old(self), *final(self)),
            final(self).input == old(self).input,
            final(self).output == old(self).output,
            final(self).input_cursor == old(self).input_cursor,
            final(self).input_scroll == old(self).input_scroll,
    {
        let max = max_scroll(self.output.as_str());
        self.output_scroll = scroll_value(self.output_scroll, delta, max);
    }

    /// Start a translation: rejected locally while one is in flight or
    /// when the input is blank; otherwise marks the translation as in
    /// flight and hands back the request to submit.
    pub fn begin_translation(&mut self) -> (r: Option<TranslationRequest>)
        requires
            old(self).wf(),
        ensures
            final(self).wf(),
            App::same_languages(*old(self), *final(self)),
            App::same_buffers(*old(self), *final(self)),
            final(self).lang_edit == old(self).lang_edit,
            final(self).should_quit == old(self).should_quit,
            final(self).is_worker_initializing == old(self).is_worker_initializing,
            final(self).focus == old(self).focus,
            final(self).compact_lang_display == old(self).compact_lang_display,
            old(self).is_loading ==> (r is None && final(self).is_loading && (final(self).status_line matches Some(s) && s.kind == StatusKind::Info && s.text@
                == "Translation already in progress"@)),
            !old(self).is_loading && trim_spec(old(self).input@).len() == 0 ==> (r is None
                && !final(self).is_loading && (final(self).status_line matches Some(s) && s.kind
                == StatusKind::Error && s.text@ == "Input is empty"@)),
            !old(self).is_loading && trim_spec(old(self).input@).len() > 0 ==> (r matches Some(req)
                && req.text == old(self).input && req.source_lang == old(self).source_lang
                && req.target_lang == old(self).target_lang && final(self).is_loading && (final(self).status_line matches Some(s) && s.kind == StatusKind::Info && s.text@
                == "Translating..."@)),
    {
        if self.is_loading {
            self.set_info_status("Translation already in progress");
            return None;
        }
        let trimmed = trim_str(self.input.as_str());
        if trimmed.unicode_len() == 0 {
            self.set_error_status_str("Input is empty");
            return None;
        }
        self.is_loading = true;
        self.set_info_status("Translating...");
        Some(
            TranslationRequest {
                text: self.input.clone(),
                source_lang: self.source_lang.clone(),
                target_lang: self.target_lang.clone(),
            },
        )
    }

    /// Apply the outcome of a translation delivered by the worker.
    pub fn apply_translation_result(&mut self, result: Result<String, String>)
        requires
            old(self).wf(),
        ensures
            final(self).wf(),
            !final(self).is_loading,
            App::same_languages(*old(self), *final(self)),
            final(self).lang_edit == old(self).lang_edit,
            final(self).input == old(self).input,
            final(self).input_cursor == old(self).input_cursor,
            final(self).input_scroll == old(self).input_scroll,
            final(self).should_quit == old(self).should_quit,
            final(self).is_worker_initializing == old(self).is_worker_initializing,
            final(self).focus == old(self).focus,
            final(self).compact_lang_display == old(self).compact_lang_display,
            result matches Ok(text) ==> (final(self).output == text && final(self).output_scroll
                == 0 && (final(self).status_line matches Some(s) && s.kind == StatusKind::Success
                && s.text@ == "Translation complete"@)),
            result matches Err(err) ==> (final(self).output == old(self).output && final(self).output_scroll == old(self).output_scroll && (final(self).status_line matches Some(s)
                && s.kind == StatusKind::Error && s.text == err)),
    {
        self.is_loading = false;
        match result {
            Ok(text) => {
                self.output = text;
                self.output_scroll = 0;
                self.set_success_status("Translation complete");
            },
            Err(err) => {
                self.set_error_status(err);
            },
        }
    }

    /// Record that the background translator started initializing.
    pub fn begin_worker_initialization(&mut self)
        requires
            old(self).wf(),
        ensures
            final(self).wf(),
            final(self).is_worker_initializing,
            final(self).status_line matches Some(s) && s.kind == StatusKind::Info && s.text@
                == "Initializing translator..."@,
            App::same_languages(*old(self), *final(self)),
            App::same_buffers(*old(self), *final(self)),
            final(self).lang_edit == old(self).lang_edit,
            final(self).should_quit == old(self).should_quit,
            final(self).is_loading == old(self).is_loading,
            final(self).focus == old(self).focus,
            final(self).compact_lang_display == old(self).compact_lang_display,
    {
        self.is_worker_initializing = true;
        self.set_info_status("Initializing translator...");
    }

    /// Record that the background translator became ready.
    pub fn apply_worker_ready(&mut self)
        requires
            old(self).wf(),
        ensures
            final(self).wf(),
            !final(self).is_worker_initializing,
            final(self).status_line matches Some(s) && s.kind == StatusKind::Success && s.text@
                == "Translator ready"@,
            App::same_languages(*old(self), *final(self)),
            App::same_buffers(*old(self), *final(self)),
            final(self).lang_edit == old(self).lang_edit,
            final(self).should_quit == old(self).should_quit,
            final(self).is_loading == old(self).is_loading,
            final(self).focus == old(self).focus,
            final(self).compact_lang_display == old(self).compact_lang_display,
    {
        self.is_worker_initializing = false;
        self.set_success_status("Translator ready");
    }

    /// Record that the background translator failed to initialize.
    pub fn apply_worker_init_error(&mut self, err: &str)
        requires
            old(self).wf(),
        ensures
            final(self).wf(),
            !final(self).is_worker_initializing,
            final(self).status_line matches Some(s) && s.kind == StatusKind::Error && s.text@
                == "Translator initialization failed: "@ + err@,
            App::same_languages(*old(self), *final(self)),
            App::same_buffers(*old(self), *final(self)),
            final(self).lang_edit == old(self).lang_edit,
            final(self).should_quit == old(self).should_quit,
            final(self).is_loading == old(self).is_loading,
            final(self).focus == old(self).focus,
            final(self).compact_lang_display == old(self).compact_lang_display,
    {
        self.is_worker_initializing = false;
        let mut text = "Translator initialization failed: ".to_owned();
        text.append(err);
        self.set_error_status(text);
    }

    /// Record that the translation worker cannot be reached.
    pub fn apply_worker_unavailable(&mut self)
        requires
            old(self).wf(),
        ensures
            final(self).wf(),
            !final(self).is_loading,
            final(self).status_line matches Some(s) && s.kind == StatusKind::Error && s.text@
                == "Translation worker unavailable"@,
            App::same_languages(*old(self), *final(self)),
            App::same_buffers(*old(self), *final(self)),
            final(self).lang_edit == old(self).lang_edit,
            final(self).should_quit == old(self).should_quit,
            final(self).is_worker_initializing == old(self).is_worker_initializing,
            final(self).focus == old(self).focus,
            final(self).compact_lang_display == old(self).compact_lang_display,
    {
        self.is_loading = false;
        self.set_error_status_str("Translation worker unavailable");
    }

    /// Clear the status line.
    fn clear_status(&mut self)
        requires
            old(self).wf(),
        ensures
            final(self).wf(),
            final(self).status_line is None,
            App::same_except_status(*old(self), *final(self)),
            final(self).lang_edit == old(self).lang_edit,
    {
        self.status_line = None;
    }

    /// Set an informational status message.
    fn set_info_status(&mut self, text: &str)
        requires
            old(self).wf(),
        ensures
            final(self).wf(),
            final(self).status_line matches Some(s) && s.kind == StatusKind::Info && s.text@
                == text@,
            App::same_except_status(*old(self), *final(self)),
            final(self).lang_edit == old(self).lang_edit,
    {
        self.set_status(StatusKind::Info, text.to_owned());
    }

    /// Set a success status message.
    fn set_success_status(&mut self, text: &str)
        requires
            old(self).wf(),
        ensures
            final(self).wf(),
            final(self).status_line matches Some(s) && s.kind == StatusKind::Success && s.text@
                == text@,
            App::same_except_status(*old(self), *final(self)),
            final(self).lang_edit == old(self).lang_edit,
    {
        self.set_status(StatusKind::Success, text.to_owned());
    }

    /// Set an error status message from a borrowed string.
    fn set_error_status_str(&mut self, text: &str)
        requires
            old(self).wf(),
        ensures
            final(self).wf(),
            final(self).status_line matches Some(s) && s.kind == StatusKind::Error && s.text@
                == text@,
            App::same_except_status(*old(self), *final(self)),
            final(self).lang_edit == old(self).lang_edit,
    {
        self.set_status(StatusKind::Error, text.to_owned());
    }

    /// Set an error status message.
    fn set_error_status(&mut self, text: String)
        requires
            old(self).wf(),
        ensures
            final(self).wf(),
            final(self).status_line matches Some(s) && s.kind == StatusKind::Error && s.text
                == text,
            App::same_except_status(*old(self), *final(self)),
            final(self).lang_edit == old(self).lang_edit,
    {
        self.set_status(StatusKind::Error, text);
    }

    /// Set the status line.
    fn set_status(&mut self, kind: StatusKind, text: String)
        requires
            old(self).wf(),
        ensures
            final(self).wf(),
            final(self).status_line matches Some(s) && s.kind == kind && s.text == text,
            App::same_except_status(*old(self), *final(self)),
            final(self).lang_edit == old(self).lang_edit,
    {
        self.status_line = Some(StatusLine { kind, text });
    }
}

} // verus!
