//! The single-line command editor: a bounded, control-free text buffer with a
//! character-boundary cursor and a short, de-duplicated command history.
use vstd::prelude::*;
use crate::text::{
    bounded_multiline_prefix, bounded_safe_prefix, byte_len, chars_of, copy_chars, fit_chars,
    fitted, is_blank, is_blank_chars, is_control, lemma_byte_len_concat, lemma_byte_len_take,
    lemma_fitted_within_budget, lemma_strip_controls_is_clean, lemma_strip_keep_newlines_is_clean,
    multiline_prefix, prefix_byte_len, safe_prefix, same_chars, string_of, strip_control_chars,
    strip_controls, strip_controls_keep_newlines,
};

verus! {

/// Upper bound, in UTF-8 bytes, of any text the editor holds.
pub const MAX_INPUT_BYTES: usize = 4096;

/// Number of commands the history keeps.
pub const COMMAND_HISTORY_CAPACITY: usize = 100;

/// Text a line buffer may hold: at most `MAX_INPUT_BYTES` bytes and no control
/// character other than a line feed.
pub open spec fn line_text_ok(s: Seq<char>) -> bool {
    &&& byte_len(s) <= MAX_INPUT_BYTES
    &&& forall|i: int| 0 <= i < s.len() ==> (!is_control(#[trigger] s[i]) || s[i] == '\n')
}

/// A command the history may hold: bounded, free of control characters, not blank.
pub open spec fn history_entry_ok(s: Seq<char>) -> bool {
    &&& byte_len(s) <= MAX_INPUT_BYTES
    &&& forall|i: int| 0 <= i < s.len() ==> !is_control(#[trigger] s[i])
    &&& !is_blank(s)
}

/// A history: at most `COMMAND_HISTORY_CAPACITY` valid entries, no two neighbours equal.
pub open spec fn history_ok(h: Seq<Seq<char>>) -> bool {
    &&& h.len() <= COMMAND_HISTORY_CAPACITY
    &&& forall|i: int| 0 <= i < h.len() ==> history_entry_ok(#[trigger] h[i])
    &&& forall|i: int| 0 < i < h.len() ==> #[trigger] h[i - 1] != h[i]
}

/// The views of a sequence of strings.
pub open spec fn string_views(v: Seq<String>) -> Seq<Seq<char>> {
    v.map_values(|s: String| s@)
}

/// Views of strings follow a push.
pub proof fn lemma_string_views_push(v: Seq<String>, e: String)
    ensures
        string_views(v.push(e)) == string_views(v).push(e@),
{
    assert(string_views(v.push(e)) =~= string_views(v).push(e@));
}

/// Text and cursor (a character index) of an editable line.
#[derive(Debug, PartialEq, Eq)]
pub struct LineBuffer {
    chars: Vec<char>,
    cursor: usize,
}

impl LineBuffer {
    #[verifier::type_invariant]
    pub closed spec fn well_formed(self) -> bool {
        &&& self.cursor <= self.chars.len()
        &&& line_text_ok(self.chars@)
    }

    pub closed spec fn text_view(self) -> Seq<char> {
        self.chars@
    }

    pub closed spec fn cursor_view(self) -> nat {
        self.cursor as nat
    }

    /// An empty line.
    pub fn empty() -> (line: LineBuffer)
        ensures
            line.text_view() == Seq::<char>::empty(),
            line.cursor_view() == 0,
    {
        proof {
            assert(byte_len(Seq::<char>::empty()) == 0);
        }
        LineBuffer { chars: Vec::new(), cursor: 0 }
    }

    fn facts(&self)
        ensures
            self.cursor_view() <= self.text_view().len(),
            line_text_ok(self.text_view()),
    {
        proof {
            use_type_invariant(self);
        }
    }

    /// A copy of this line.
    pub fn duplicate(&self) -> (line: LineBuffer)
        ensures
            line.text_view() == self.text_view(),
            line.cursor_view() == self.cursor_view(),
    {
        proof {
            use_type_invariant(self);
        }
        LineBuffer { chars: copy_chars(&self.chars), cursor: self.cursor }
    }

    /// Byte length of the whole text.
    fn byte_length(&self) -> (n: usize)
        ensures
            n == byte_len(self.text_view()),
            n <= MAX_INPUT_BYTES,
    {
        proof {
            use_type_invariant(self);
            assert(self.chars@.take(self.chars.len() as int) =~= self.chars@);
        }
        prefix_byte_len(&self.chars, self.chars.len())
    }

    /// This line with `accepted` inserted at the cursor and the cursor after it.
    fn inserted(&self, accepted: &Vec<char>) -> (line: LineBuffer)
        requires
            byte_len(self.text_view()) + byte_len(accepted@) <= MAX_INPUT_BYTES,
            forall|i: int|
                0 <= i < accepted@.len() ==> (!is_control(#[trigger] accepted@[i]) || accepted@[i]
                    == '\n'),
        ensures
            line.text_view() == self.text_view().take(self.cursor_view() as int) + accepted@
                + self.text_view().skip(self.cursor_view() as int),
            line.cursor_view() == self.cursor_view() + accepted@.len(),
    {
        proof {
            use_type_invariant(self);
        }
        let mut out: Vec<char> = Vec::new();
        let mut i: usize = 0;
        while i < self.cursor
            invariant
                i <= self.cursor <= self.chars.len(),
                out@ == self.chars@.take(i as int),
            decreases self.cursor - i,
        {
            out.push(self.chars[i]);
            i = i + 1;
            assert(out@ =~= self.chars@.take(i as int));
        }
        let mut j: usize = 0;
        while j < accepted.len()
            invariant
                j <= accepted.len(),
                i == self.cursor <= self.chars.len(),
                out@ == self.chars@.take(i as int) + accepted@.take(j as int),
            decreases accepted.len() - j,
        {
            out.push(accepted[j]);
            j = j + 1;
            assert(out@ =~= self.chars@.take(i as int) + accepted@.take(j as int));
        }
        let mut k: usize = self.cursor;
        assert(accepted@.take(j as int) =~= accepted@);
        while k < self.chars.len()
            invariant
                self.cursor <= k <= self.chars.len(),
                j == accepted.len(),
                out@ == self.chars@.take(self.cursor as int) + accepted@ + self.chars@.subrange(
                    self.cursor as int,
                    k as int,
                ),
            decreases self.chars.len() - k,
        {
            out.push(self.chars[k]);
            k = k + 1;
            assert(out@ =~= self.chars@.take(self.cursor as int) + accepted@
                + self.chars@.subrange(self.cursor as int, k as int));
        }
        let ghost before = self.chars@.take(self.cursor as int);
        let ghost after = self.chars@.skip(self.cursor as int);
        assert(self.chars@.subrange(self.cursor as int, k as int) =~= after);
        proof {
            lemma_byte_len_take(self.chars@, self.cursor as int);
            lemma_byte_len_concat(before, accepted@);
            lemma_byte_len_concat(before + accepted@, after);
            assert forall|x: int| 0 <= x < out@.len() implies (!is_control(#[trigger] out@[x])
                || out@[x] == '\n') by {
                if x < before.len() {
                    assert(out@[x] == self.chars@[x]);
                } else if x < before.len() + accepted@.len() {
                    assert(out@[x] == accepted@[x - before.len()]);
                } else {
                    assert(out@[x] == self.chars@[x - accepted@.len()]);
                }
            }
        }
        let cursor = out.len() - (self.chars.len() - self.cursor);
        LineBuffer { chars: out, cursor }
    }

    /// This line without the character at `index`, the cursor at `cursor`.
    fn removed(&self, index: usize, cursor: usize) -> (line: LineBuffer)
        requires
            index < self.text_view().len(),
            cursor <= self.text_view().len() - 1,
        ensures
            line.text_view() == self.text_view().remove(index as int),
            line.cursor_view() == cursor,
    {
        proof {
            use_type_invariant(self);
        }
        let mut chars = copy_chars(&self.chars);
        chars.remove(index);
        proof {
            let s = self.chars@;
            lemma_byte_len_take(s, index as int);
            lemma_byte_len_take(s, index + 1);
            assert(s.skip(index as int) =~= seq![s[index as int]] + s.skip(index + 1));
            lemma_byte_len_concat(seq![s[index as int]], s.skip(index + 1));
            assert(s.remove(index as int) =~= s.take(index as int) + s.skip(index + 1));
            lemma_byte_len_concat(s.take(index as int), s.skip(index + 1));
            assert forall|x: int| 0 <= x < chars@.len() implies (!is_control(#[trigger] chars@[x])
                || chars@[x] == '\n') by {
                if x < index {
                    assert(chars@[x] == s[x]);
                } else {
                    assert(chars@[x] == s[x + 1]);
                }
            }
        }
        LineBuffer { chars, cursor }
    }

    /// This line with the cursor moved to `cursor`.
    fn moved(&self, cursor: usize) -> (line: LineBuffer)
        requires
            cursor <= self.text_view().len(),
        ensures
            line.text_view() == self.text_view(),
            line.cursor_view() == cursor,
    {
        proof {
            use_type_invariant(self);
        }
        LineBuffer { chars: copy_chars(&self.chars), cursor }
    }

    /// A line holding `chars`, the cursor at its end.
    fn holding(chars: Vec<char>) -> (line: LineBuffer)
        requires
            line_text_ok(chars@),
        ensures
            line.text_view() == chars@,
            line.cursor_view() == chars@.len(),
    {
        let cursor = chars.len();
        LineBuffer { chars, cursor }
    }
}

/// A command line saved while another navigation tab is shown.
#[derive(Debug, PartialEq, Eq)]
pub struct CommandDraft {
    line: LineBuffer,
    history_index: Option<usize>,
}

impl CommandDraft {
    pub closed spec fn text_view(self) -> Seq<char> {
        self.line.text_view()
    }

    pub closed spec fn cursor_view(self) -> nat {
        self.line.cursor_view()
    }

    pub closed spec fn recall_index(self) -> Option<usize> {
        self.history_index
    }

    /// An empty draft.
    pub fn empty() -> (draft: CommandDraft)
        ensures
            draft.text_view() == Seq::<char>::empty(),
            draft.cursor_view() == 0,
            draft.recall_index() == None::<usize>,
    {
        CommandDraft { line: LineBuffer::empty(), history_index: None }
    }

    /// A copy of this draft.
    pub fn duplicate(&self) -> (draft: CommandDraft)
        ensures
            draft.text_view() == self.text_view(),
            draft.cursor_view() == self.cursor_view(),
            draft.recall_index() == self.recall_index(),
    {
        CommandDraft { line: self.line.duplicate(), history_index: self.history_index }
    }
}

/// The command line: text, cursor and command history.
#[derive(Debug, PartialEq, Eq)]
pub struct CommandEditor {
    line: LineBuffer,
    history: Vec<String>,
    history_index: Option<usize>,
}

impl CommandEditor {
    #[verifier::type_invariant]
    pub closed spec fn well_formed(self) -> bool {
        &&& history_ok(string_views(self.history@))
        &&& match self.history_index {
            Some(i) => i < self.history@.len(),
            None => true,
        }
    }

    /// The text being edited.
    pub closed spec fn text_view(self) -> Seq<char> {
        self.line.text_view()
    }

    /// The cursor, as a number of characters before it.
    pub closed spec fn cursor_view(self) -> nat {
        self.line.cursor_view()
    }

    /// The remembered commands, oldest first.
    pub closed spec fn history_view(self) -> Seq<Seq<char>> {
        string_views(self.history@)
    }

    /// The history entry being recalled, if the text is one.
    pub closed spec fn recall_index(self) -> Option<usize> {
        self.history_index
    }

    /// What every editor satisfies: the text is bounded and control-free but for line
    /// feeds, the cursor lies within it, the history is valid and a recalled index exists.
    pub open spec fn consistent(self) -> bool {
        &&& self.cursor_view() <= self.text_view().len()
        &&& line_text_ok(self.text_view())
        &&& history_ok(self.history_view())
        &&& match self.recall_index() {
            Some(i) => i < self.history_view().len(),
            None => true,
        }
    }

    /// Every editor is consistent.
    pub fn assert_consistent(&self)
        ensures
            self.consistent(),
    {
        proof {
            use_type_invariant(self);
        }
        self.line.facts();
    }

    /// An empty editor with no history.
    pub fn new() -> (editor: CommandEditor)
        ensures
            editor.text_view() == Seq::<char>::empty(),
            editor.cursor_view() == 0,
            editor.history_view() == Seq::<Seq<char>>::empty(),
            editor.recall_index() == None::<usize>,
    {
        let editor = CommandEditor { line: LineBuffer::empty(), history: Vec::new(), history_index: None };
        assert(editor.history_view() =~= Seq::<Seq<char>>::empty());
        editor
    }

    /// A copy of this editor.
    pub fn duplicate(&self) -> (editor: CommandEditor)
        ensures
            editor.text_view() == self.text_view(),
            editor.cursor_view() == self.cursor_view(),
            editor.history_view() == self.history_view(),
            editor.recall_index() == self.recall_index(),
    {
        proof {
            use_type_invariant(self);
        }
        let mut history: Vec<String> = Vec::new();
        let mut i: usize = 0;
        while i < self.history.len()
            invariant
                i <= self.history.len(),
                string_views(history@) == string_views(self.history@).take(i as int),
            decreases self.history.len() - i,
        {
            let entry = self.history[i].clone();
            let ghost before = history@;
            history.push(entry);
            proof {
                lemma_string_views_push(before, entry);
                assert(string_views(self.history@)[i as int] == self.history@[i as int]@);
            }
            i = i + 1;
            assert(string_views(history@) =~= string_views(self.history@).take(i as int));
        }
        assert(string_views(self.history@).take(i as int) =~= string_views(self.history@));
        CommandEditor { line: self.line.duplicate(), history, history_index: self.history_index }
    }
}

/// The last position of `t` in `h`.
pub open spec fn last_position(h: Seq<Seq<char>>, t: Seq<char>) -> Option<usize>
    decreases h.len(),
{
    if h.len() == 0 {
        None
    } else if h.last() == t {
        Some((h.len() - 1) as usize)
    } else {
        last_position(h.drop_last(), t)
    }
}

/// Where a saved recall position points once `t` is shown again over history `h`:
/// the same entry if it still holds `t`, else the last entry equal to `t`, if any.
pub open spec fn relocated_recall(h: Seq<Seq<char>>, index: Option<usize>, t: Seq<char>) -> Option<
    usize,
> {
    match index {
        None => None,
        Some(i) => if i < h.len() && h[i as int] == t {
            Some(i)
        } else {
            last_position(h, t)
        },
    }
}

/// `new` is `old` after `accepted` was typed at its cursor; nothing changes when
/// nothing was accepted.
pub open spec fn typed(old: CommandEditor, new: CommandEditor, accepted: Seq<char>) -> bool {
    if accepted.len() == 0 {
        new == old
    } else {
        &&& new.text_view() == old.text_view().take(old.cursor_view() as int) + accepted
            + old.text_view().skip(old.cursor_view() as int)
        &&& new.cursor_view() == old.cursor_view() + accepted.len()
        &&& new.history_view() == old.history_view()
        &&& new.recall_index() == None::<usize>
    }
}

/// A change of the command line made by one key.
#[derive(Debug, Clone, Copy, PartialEq, Eq, Structural)]
pub enum LineEdit {
    MoveLeft,
    MoveRight,
    MoveHome,
    MoveEnd,
    Backspace,
    Delete,
    HistoryPrevious,
    HistoryNext,
    Insert(char),
}

/// `new` is `old` after `edit`, as the method of the same name leaves it.
pub open spec fn edited(old: CommandEditor, new: CommandEditor, edit: LineEdit) -> bool {
    let text = old.text_view();
    let cursor = old.cursor_view();
    let history = old.history_view();
    match edit {
        LineEdit::MoveLeft => {
            &&& new.text_view() == text
            &&& new.cursor_view() == if cursor > 0 {
                cursor - 1
            } else {
                0
            }
            &&& new.history_view() == history
            &&& new.recall_index() == old.recall_index()
        },
        LineEdit::MoveRight => {
            &&& new.text_view() == text
            &&& new.cursor_view() == if cursor < text.len() {
                cursor + 1
            } else {
                cursor
            }
            &&& new.history_view() == history
            &&& new.recall_index() == old.recall_index()
        },
        LineEdit::MoveHome => {
            &&& new.text_view() == text
            &&& new.cursor_view() == 0
            &&& new.history_view() == history
            &&& new.recall_index() == old.recall_index()
        },
        LineEdit::MoveEnd => {
            &&& new.text_view() == text
            &&& new.cursor_view() == text.len()
            &&& new.history_view() == history
            &&& new.recall_index() == old.recall_index()
        },
        LineEdit::Backspace => {
            &&& new.text_view() == if cursor > 0 {
                text.remove(cursor - 1)
            } else {
                text
            }
            &&& new.cursor_view() == if cursor > 0 {
                cursor - 1
            } else {
                0
            }
            &&& new.history_view() == history
            &&& new.recall_index() == None::<usize>
        },
        LineEdit::Delete => {
            &&& new.text_view() == if cursor < text.len() {
                text.remove(cursor as int)
            } else {
                text
            }
            &&& new.cursor_view() == cursor
            &&& new.history_view() == history
            &&& new.recall_index() == None::<usize>
        },
        LineEdit::HistoryPrevious => {
            let target: Option<int> = match old.recall_index() {
                Some(i) => if i > 0 {
                    Some(i - 1)
                } else {
                    None
                },
                None => if history.len() > 0 {
                    Some(history.len() - 1)
                } else {
                    None
                },
            };
            match target {
                Some(j) => {
                    &&& new.text_view() == history[j]
                    &&& new.cursor_view() == new.text_view().len()
                    &&& new.history_view() == history
                    &&& new.recall_index() == Some(j as usize)
                },
                None => new == old,
            }
        },
        LineEdit::HistoryNext => match old.recall_index() {
            None => new == old,
            Some(i) => if i + 1 < history.len() {
                &&& new.text_view() == history[i + 1]
                &&& new.cursor_view() == new.text_view().len()
                &&& new.history_view() == history
                &&& new.recall_index() == Some((i + 1) as usize)
            } else {
                &&& new.text_view() == Seq::<char>::empty()
                &&& new.cursor_view() == 0
                &&& new.history_view() == history
                &&& new.recall_index() == None::<usize>
            },
        },
        LineEdit::Insert(c) => typed(old, new, safe_prefix(seq![c], MAX_INPUT_BYTES - byte_len(text))),
    }
}

/// Backspace right after typing a character that was accepted takes it back: text and
/// cursor are as before, the history is untouched.
pub proof fn law_backspace_undoes_typing(
    before: CommandEditor,
    c: char,
    typed_in: CommandEditor,
    after: CommandEditor,
)
    requires
        before.cursor_view() <= before.text_view().len(),
        typed(before, typed_in, seq![c]),
        edited(typed_in, after, LineEdit::Backspace),
    ensures
        after.text_view() == before.text_view(),
        after.cursor_view() == before.cursor_view(),
        after.history_view() == before.history_view(),
{
    let t = before.text_view();
    let k = before.cursor_view() as int;
    assert(typed_in.text_view().remove(k) =~= t);
}

/// The text holds no control character at all.
pub open spec fn control_free(s: Seq<char>) -> bool {
    forall|i: int| 0 <= i < s.len() ==> !is_control(#[trigger] s[i])
}

/// What single-line typing accepts holds no control character.
pub proof fn lemma_safe_prefix_control_free(s: Seq<char>, limit: int)
    ensures
        control_free(safe_prefix(s, limit)),
{
    lemma_strip_controls_is_clean(s);
    lemma_fitted_within_budget(strip_controls(s), limit);
    assert forall|i: int| 0 <= i < safe_prefix(s, limit).len() implies !is_control(
        #[trigger] safe_prefix(s, limit)[i],
    ) by {
        assert(safe_prefix(s, limit)[i] == strip_controls(s)[i]);
    }
}

/// Typing text without control characters into a text without them leaves none.
pub proof fn lemma_typed_control_free(before: CommandEditor, after: CommandEditor, accepted: Seq<char>)
    requires
        before.cursor_view() <= before.text_view().len(),
        control_free(before.text_view()),
        control_free(accepted),
        typed(before, after, accepted),
    ensures
        control_free(after.text_view()),
{
    if accepted.len() > 0 {
        let t = before.text_view();
        let k = before.cursor_view() as int;
        let u = after.text_view();
        assert forall|i: int| 0 <= i < u.len() implies !is_control(#[trigger] u[i]) by {
            if i < k {
                assert(u[i] == t[i]);
            } else if i < k + accepted.len() {
                assert(u[i] == accepted[i - k]);
            } else {
                assert(u[i] == t[i - accepted.len()]);
            }
        }
    }
}

/// The keys of the command line (moves, deletions, history recall, typing) keep a text
/// free of control characters free of them: only the multi-line memory value methods
/// bring line feeds in.
pub proof fn law_line_edits_keep_text_control_free(
    before: CommandEditor,
    edit: LineEdit,
    after: CommandEditor,
)
    requires
        before.consistent(),
        control_free(before.text_view()),
        edited(before, after, edit),
    ensures
        control_free(after.text_view()),
{
    let t = before.text_view();
    let h = before.history_view();
    match edit {
        LineEdit::Backspace => {
            if before.cursor_view() > 0 {
                let u = after.text_view();
                let k = before.cursor_view() - 1;
                assert forall|i: int| 0 <= i < u.len() implies !is_control(#[trigger] u[i]) by {
                    if i < k {
                        assert(u[i] == t[i]);
                    } else {
                        assert(u[i] == t[i + 1]);
                    }
                }
            }
        },
        LineEdit::Delete => {
            if before.cursor_view() < t.len() {
                let u = after.text_view();
                let k = before.cursor_view() as int;
                assert forall|i: int| 0 <= i < u.len() implies !is_control(#[trigger] u[i]) by {
                    if i < k {
                        assert(u[i] == t[i]);
                    } else {
                        assert(u[i] == t[i + 1]);
                    }
                }
            }
        },
        LineEdit::HistoryPrevious => {
            match before.recall_index() {
                Some(i) => if i > 0 {
                    assert(history_entry_ok(h[i - 1]));
                },
                None => if h.len() > 0 {
                    assert(history_entry_ok(h[h.len() - 1]));
                },
            }
        },
        LineEdit::HistoryNext => {
            match before.recall_index() {
                Some(i) => if i + 1 < h.len() {
                    assert(history_entry_ok(h[i + 1]));
                },
                None => {},
            }
        },
        LineEdit::Insert(c) => {
            lemma_safe_prefix_control_free(seq![c], MAX_INPUT_BYTES - byte_len(t));
            lemma_typed_control_free(
                before,
                after,
                safe_prefix(seq![c], MAX_INPUT_BYTES - byte_len(t)),
            );
        },
        _ => {},
    }
}

/// Ingesting pasted text keeps a text free of control characters free of them.
pub proof fn law_ingest_keeps_text_control_free(before: CommandEditor, text: Seq<char>, after: CommandEditor)
    requires
        before.consistent(),
        control_free(before.text_view()),
        typed(before, after, safe_prefix(text, MAX_INPUT_BYTES - byte_len(before.text_view()))),
    ensures
        control_free(after.text_view()),
{
    lemma_safe_prefix_control_free(text, MAX_INPUT_BYTES - byte_len(before.text_view()));
    lemma_typed_control_free(
        before,
        after,
        safe_prefix(text, MAX_INPUT_BYTES - byte_len(before.text_view())),
    );
}

/// The history after `entry` was offered to it: unchanged for a blank entry or a
/// repeat of the newest one, else `entry` appended, the oldest dropped when full.
pub open spec fn remembered(h: Seq<Seq<char>>, entry: Seq<char>) -> Seq<Seq<char>> {
    if is_blank(entry) || (h.len() > 0 && h.last() == entry) {
        h
    } else if h.len() >= COMMAND_HISTORY_CAPACITY {
        h.skip(1).push(entry)
    } else {
        h.push(entry)
    }
}

impl CommandEditor {
    /// The text being edited.
    pub fn text(&self) -> (s: String)
        ensures
            s@ == self.text_view(),
    {
        string_of(&self.line.chars)
    }

    /// The number of characters of the text.
    pub fn char_count(&self) -> (n: usize)
        ensures
            n == self.text_view().len(),
    {
        self.line.chars.len()
    }

    /// The cursor, as the number of UTF-8 bytes before it.
    pub fn cursor_byte(&self) -> (n: usize)
        ensures
            n == byte_len(self.text_view().take(self.cursor_view() as int)),
    {
        proof {
            use_type_invariant(&self.line);
        }
        prefix_byte_len(&self.line.chars, self.line.cursor)
    }

    /// The text before the cursor.
    pub fn prefix(&self) -> (s: String)
        ensures
            s@ == self.text_view().take(self.cursor_view() as int),
    {
        proof {
            use_type_invariant(&self.line);
        }
        let mut before: Vec<char> = Vec::new();
        let mut i: usize = 0;
        while i < self.line.cursor
            invariant
                i <= self.line.cursor <= self.line.chars.len(),
                before@ == self.line.chars@.take(i as int),
            decreases self.line.cursor - i,
        {
            before.push(self.line.chars[i]);
            i = i + 1;
            assert(before@ =~= self.line.chars@.take(i as int));
        }
        string_of(&before)
    }

    /// Inserts `accepted` at the cursor; does nothing when it is empty.
    fn accept(&mut self, accepted: &Vec<char>)
        requires
            byte_len(old(self).text_view()) + byte_len(accepted@) <= MAX_INPUT_BYTES,
            forall|i: int|
                0 <= i < accepted@.len() ==> (!is_control(#[trigger] accepted@[i]) || accepted@[i]
                    == '\n'),
        ensures
            typed(*old(self), *final(self), accepted@),
    {
        proof {
            use_type_invariant(&*self);
        }
        if accepted.len() == 0 {
            return;
        }
        let line = self.line.inserted(accepted);
        self.line = line;
        self.history_index = None;
    }

    /// Types `character` at the cursor, unless it is a control character or the text
    /// would exceed `MAX_INPUT_BYTES` bytes.
    pub fn insert(&mut self, character: char)
        ensures
            typed(
                *old(self),
                *final(self),
                safe_prefix(seq![character], MAX_INPUT_BYTES - byte_len(old(self).text_view())),
            ),
    {
        proof {
            use_type_invariant(&*self);
        }
        let used = self.line.byte_length();
        let mut single: Vec<char> = Vec::new();
        single.push(character);
        assert(single@ =~= seq![character]);
        let clean = strip_control_chars(&single);
        let accepted = fit_chars(&clean, MAX_INPUT_BYTES - used);
        proof {
            lemma_strip_controls_is_clean(single@);
            lemma_fitted_within_budget(clean@, (MAX_INPUT_BYTES - used) as int);
            assert forall|i: int| 0 <= i < accepted@.len() implies !is_control(
                #[trigger] accepted@[i],
            ) by {
                assert(accepted@[i] == clean@[i]);
            }
        }
        self.accept(&accepted);
    }

    /// Types the characters of `text` other than control characters at the cursor, up
    /// to the last one that keeps the text within `MAX_INPUT_BYTES` bytes.
    pub fn ingest(&mut self, text: &str)
        ensures
            typed(
                *old(self),
                *final(self),
                safe_prefix(text@, MAX_INPUT_BYTES - byte_len(old(self).text_view())),
            ),
    {
        proof {
            use_type_invariant(&*self);
        }
        let used = self.line.byte_length();
        let accepted = bounded_safe_prefix(text, MAX_INPUT_BYTES - used);
        proof {
            lemma_strip_controls_is_clean(text@);
            lemma_fitted_within_budget(strip_controls(text@), (MAX_INPUT_BYTES - used) as int);
            assert forall|i: int| 0 <= i < accepted@.len() implies !is_control(
                #[trigger] accepted@[i],
            ) by {
                assert(accepted@[i] == strip_controls(text@)[i]);
            }
        }
        self.accept(&accepted);
    }

    /// Types `text` at the cursor as a multi-line value: line breaks become `\n`, other
    /// control characters are dropped, and it is cut to fit `MAX_INPUT_BYTES` bytes.
    pub(crate) fn ingest_memory_value(&mut self, text: &str)
        ensures
            typed(
                *old(self),
                *final(self),
                multiline_prefix(text@, MAX_INPUT_BYTES - byte_len(old(self).text_view())),
            ),
    {
        proof {
            use_type_invariant(&*self);
        }
        let used = self.line.byte_length();
        let accepted = bounded_multiline_prefix(text, MAX_INPUT_BYTES - used);
        proof {
            let unified = crate::text::unify_newlines(text@);
            lemma_strip_keep_newlines_is_clean(unified);
            lemma_fitted_within_budget(
                strip_controls_keep_newlines(unified),
                (MAX_INPUT_BYTES - used) as int,
            );
            assert forall|i: int| 0 <= i < accepted@.len() implies (!is_control(
                #[trigger] accepted@[i],
            ) || accepted@[i] == '\n') by {
                assert(accepted@[i] == strip_controls_keep_newlines(unified)[i]);
            }
        }
        self.accept(&accepted);
    }

    /// Replaces the text with the multi-line value `value`.
    pub(crate) fn replace_with_memory_value(&mut self, value: &str)
        ensures
            final(self).text_view() == multiline_prefix(value@, MAX_INPUT_BYTES as int),
            final(self).cursor_view() == final(self).text_view().len(),
            final(self).history_view() == old(self).history_view(),
            final(self).recall_index() == None::<usize>,
    {
        proof {
            use_type_invariant(&*self);
        }
        self.clear();
        self.ingest_memory_value(value);
        proof {
            assert(byte_len(Seq::<char>::empty()) == 0);
            let v = multiline_prefix(value@, MAX_INPUT_BYTES as int);
            assert(Seq::<char>::empty().take(0) + v + Seq::<char>::empty().skip(0) =~= v);
        }
    }

    /// Moves the cursor one character left, if it is not at the start.
    pub fn move_left(&mut self)
        ensures
            final(self).text_view() == old(self).text_view(),
            final(self).cursor_view() == if old(self).cursor_view() > 0 {
                old(self).cursor_view() - 1
            } else {
                0
            },
            final(self).history_view() == old(self).history_view(),
            final(self).recall_index() == old(self).recall_index(),
    {
        proof {
            use_type_invariant(&*self);
        }
        proof {
            use_type_invariant(&self.line);
        }
        if self.line.cursor > 0 {
            let line = self.line.moved(self.line.cursor - 1);
            self.line = line;
        }
    }

    /// Moves the cursor one character right, if it is not at the end.
    pub fn move_right(&mut self)
        ensures
            final(self).text_view() == old(self).text_view(),
            final(self).cursor_view() == if old(self).cursor_view() < old(self).text_view().len() {
                old(self).cursor_view() + 1
            } else {
                old(self).cursor_view()
            },
            final(self).history_view() == old(self).history_view(),
            final(self).recall_index() == old(self).recall_index(),
    {
        proof {
            use_type_invariant(&*self);
        }
        if self.line.cursor < self.line.chars.len() {
            let line = self.line.moved(self.line.cursor + 1);
            self.line = line;
        }
    }

    /// Moves the cursor to the start of the text.
    pub fn move_home(&mut self)
        ensures
            final(self).text_view() == old(self).text_view(),
            final(self).cursor_view() == 0,
            final(self).history_view() == old(self).history_view(),
            final(self).recall_index() == old(self).recall_index(),
    {
        proof {
            use_type_invariant(&*self);
        }
        let line = self.line.moved(0);
        self.line = line;
    }

    /// Moves the cursor to the end of the text.
    pub fn move_end(&mut self)
        ensures
            final(self).text_view() == old(self).text_view(),
            final(self).cursor_view() == old(self).text_view().len(),
            final(self).history_view() == old(self).history_view(),
            final(self).recall_index() == old(self).recall_index(),
    {
        proof {
            use_type_invariant(&*self);
        }
        let line = self.line.moved(self.line.chars.len());
        self.line = line;
    }

    /// Deletes the character before the cursor, if any; always leaves history recall.
    pub fn backspace(&mut self)
        ensures
            old(self).cursor_view() > 0 ==> final(self).text_view() == old(self).text_view().remove(
                old(self).cursor_view() - 1,
            ) && final(self).cursor_view() == old(self).cursor_view() - 1,
            old(self).cursor_view() == 0 ==> final(self).text_view() == old(self).text_view()
                && final(self).cursor_view() == 0,
            final(self).history_view() == old(self).history_view(),
            final(self).recall_index() == None::<usize>,
    {
        proof {
            use_type_invariant(&*self);
        }
        proof {
            use_type_invariant(&self.line);
        }
        self.history_index = None;
        if self.line.cursor > 0 {
            let line = self.line.removed(self.line.cursor - 1, self.line.cursor - 1);
            self.line = line;
        }
    }

    /// Deletes the character after the cursor, if any; always leaves history recall.
    pub fn delete(&mut self)
        ensures
            old(self).cursor_view() < old(self).text_view().len() ==> final(self).text_view()
                == old(self).text_view().remove(old(self).cursor_view() as int),
            old(self).cursor_view() >= old(self).text_view().len() ==> final(self).text_view()
                == old(self).text_view(),
            final(self).cursor_view() == old(self).cursor_view(),
            final(self).history_view() == old(self).history_view(),
            final(self).recall_index() == None::<usize>,
    {
        proof {
            use_type_invariant(&*self);
        }
        proof {
            use_type_invariant(&self.line);
        }
        self.history_index = None;
        if self.line.cursor < self.line.chars.len() {
            let line = self.line.removed(self.line.cursor, self.line.cursor);
            self.line = line;
        }
    }

    /// Empties the text and leaves history recall.
    pub fn clear(&mut self)
        ensures
            final(self).text_view() == Seq::<char>::empty(),
            final(self).cursor_view() == 0,
            final(self).history_view() == old(self).history_view(),
            final(self).recall_index() == None::<usize>,
    {
        proof {
            use_type_invariant(&*self);
        }
        self.line = LineBuffer::empty();
        self.history_index = None;
    }

    /// Hands out the text and empties the editor's line.
    pub fn take_text(&mut self) -> (text: String)
        ensures
            text@ == old(self).text_view(),
            final(self).text_view() == Seq::<char>::empty(),
            final(self).cursor_view() == 0,
            final(self).history_view() == old(self).history_view(),
            final(self).recall_index() == None::<usize>,
    {
        proof {
            use_type_invariant(&*self);
        }
        let text = self.text();
        self.clear();
        text
    }

    /// Offers `entry` to the history: it is cleaned of control characters and cut to
    /// `MAX_INPUT_BYTES` bytes; a blank entry or a repeat of the newest is not kept;
    /// when the history is full the oldest entry gives way.
    pub fn remember(&mut self, entry: String)
        ensures
            final(self).history_view() == remembered(
                old(self).history_view(),
                safe_prefix(entry@, MAX_INPUT_BYTES as int),
            ),
            final(self).text_view() == old(self).text_view(),
            final(self).cursor_view() == old(self).cursor_view(),
            final(self).recall_index() == old(self).recall_index(),
    {
        proof {
            use_type_invariant(&*self);
        }
        let cleaned = bounded_safe_prefix(entry.as_str(), MAX_INPUT_BYTES);
        let ghost e = cleaned@;
        let ghost h = self.history_view();
        if is_blank_chars(&cleaned) {
            return;
        }
        let len = self.history.len();
        if len > 0 {
            let newest = chars_of(self.history[len - 1].as_str());
            assert(h.last() == self.history@[len - 1]@);
            if same_chars(&newest, &cleaned) {
                return;
            }
        }
        assert(len == 0 || h.last() != e);
        proof {
            lemma_strip_controls_is_clean(entry@);
            lemma_fitted_within_budget(strip_controls(entry@), MAX_INPUT_BYTES as int);
        }
        let first: usize = if len >= COMMAND_HISTORY_CAPACITY {
            1
        } else {
            0
        };
        let mut history: Vec<String> = Vec::new();
        let mut i: usize = first;
        while i < len
            invariant
                first <= i <= len == self.history@.len(),
                first <= 1,
                string_views(history@) == h.subrange(first as int, i as int),
                h == string_views(self.history@),
            decreases len - i,
        {
            let kept = self.history[i].clone();
            let ghost before = history@;
            history.push(kept);
            proof {
                lemma_string_views_push(before, kept);
            }
            i = i + 1;
            assert(string_views(history@) =~= h.subrange(first as int, i as int));
        }
        let ghost before = history@;
        let added = string_of(&cleaned);
        history.push(added);
        proof {
            lemma_string_views_push(before, added);
            let expected = remembered(h, e);
            assert(h.subrange(first as int, len as int) =~= if first == 1 {
                h.skip(1)
            } else {
                h
            });
            let n = string_views(history@);
            assert(n =~= expected);
            assert(n[n.len() - 1] == e);
            assert forall|k: int| 0 <= k < e.len() implies !is_control(#[trigger] e[k]) by {
                assert(e[k] == strip_controls(entry@)[k]);
            }
            assert forall|k: int| 0 <= k < n.len() implies history_entry_ok(#[trigger] n[k]) by {
                if k < n.len() - 1 {
                    assert(n[k] == h[k + first]);
                }
            }
            assert forall|k: int| 0 < k < n.len() implies #[trigger] n[k - 1] != n[k] by {
                if k < n.len() - 1 {
                    let m = k + first;
                    assert(n[k] == h[m]);
                    assert(n[k - 1] == h[m - 1]);
                    assert(0 < m < h.len());
                    assert(h[m - 1] != h[m]);
                } else {
                    assert(n[k] == e);
                    assert(n[k - 1] == h[len - 1]);
                    assert(h[len - 1] == h.last());
                }
            }
        }
        self.history = history;
    }

    /// Shows history entry `index` with the cursor at its end.
    fn recall(&mut self, index: usize)
        requires
            index < old(self).history_view().len(),
        ensures
            final(self).text_view() == old(self).history_view()[index as int],
            final(self).cursor_view() == final(self).text_view().len(),
            final(self).history_view() == old(self).history_view(),
            final(self).recall_index() == Some(index),
    {
        proof {
            use_type_invariant(&*self);
        }
        let chars = chars_of(self.history[index].as_str());
        proof {
            assert(chars@ == self.history_view()[index as int]);
        }
        self.line = LineBuffer::holding(chars);
        self.history_index = Some(index);
    }

    /// Recalls the next older history entry: the newest when not recalling yet;
    /// nothing happens at the oldest entry or with an empty history.
    pub fn history_previous(&mut self)
        ensures
            ({
                let target: Option<int> = match old(self).recall_index() {
                    Some(i) => if i > 0 {
                        Some(i - 1)
                    } else {
                        None
                    },
                    None => if old(self).history_view().len() > 0 {
                        Some(old(self).history_view().len() - 1)
                    } else {
                        None
                    },
                };
                match target {
                    Some(j) => {
                        &&& final(self).text_view() == old(self).history_view()[j]
                        &&& final(self).cursor_view() == final(self).text_view().len()
                        &&& final(self).history_view() == old(self).history_view()
                        &&& final(self).recall_index() == Some(j as usize)
                    },
                    None => *final(self) == *old(self),
                }
            }),
    {
        proof {
            use_type_invariant(&*self);
        }
        let next_index = match self.history_index {
            Some(index) => index.checked_sub(1),
            None => self.history.len().checked_sub(1),
        };
        if let Some(index) = next_index {
            self.recall(index);
        }
    }

    /// Recalls the next newer history entry; past the newest the text is cleared;
    /// nothing happens when not recalling.
    pub fn history_next(&mut self)
        ensures
            match old(self).recall_index() {
                None => *final(self) == *old(self),
                Some(i) => if i + 1 < old(self).history_view().len() {
                    &&& final(self).text_view() == old(self).history_view()[i + 1]
                    &&& final(self).cursor_view() == final(self).text_view().len()
                    &&& final(self).history_view() == old(self).history_view()
                    &&& final(self).recall_index() == Some((i + 1) as usize)
                } else {
                    &&& final(self).text_view() == Seq::<char>::empty()
                    &&& final(self).cursor_view() == 0
                    &&& final(self).history_view() == old(self).history_view()
                    &&& final(self).recall_index() == None::<usize>
                },
            },
    {
        proof {
            use_type_invariant(&*self);
        }
        let Some(index) = self.history_index else {
            return;
        };
        let next_index = index + 1;
        if next_index < self.history.len() {
            self.recall(next_index);
        } else {
            self.clear();
        }
    }

    /// Applies `edit`; see `edited`.
    pub fn apply_edit(&mut self, edit: LineEdit)
        ensures
            edited(*old(self), *final(self), edit),
    {
        match edit {
            LineEdit::MoveLeft => self.move_left(),
            LineEdit::MoveRight => self.move_right(),
            LineEdit::MoveHome => self.move_home(),
            LineEdit::MoveEnd => self.move_end(),
            LineEdit::Backspace => self.backspace(),
            LineEdit::Delete => self.delete(),
            LineEdit::HistoryPrevious => self.history_previous(),
            LineEdit::HistoryNext => self.history_next(),
            LineEdit::Insert(c) => self.insert(c),
        }
    }

    /// Number of remembered commands.
    pub fn history_len(&self) -> (n: usize)
        ensures
            n == self.history_view().len(),
    {
        self.history.len()
    }

    /// The newest remembered command.
    pub fn history_back(&self) -> (entry: Option<&str>)
        ensures
            match entry {
                Some(e) => self.history_view().len() > 0 && e@ == self.history_view().last(),
                None => self.history_view().len() == 0,
            },
    {
        let len = self.history.len();
        if len == 0 {
            None
        } else {
            Some(self.history[len - 1].as_str())
        }
    }

    /// Exchanges the shown line with `draft`. The recall position brought back points
    /// to the same entry if that entry still holds the text, else to the last equal
    /// entry, else nowhere.
    pub fn swap_draft(&mut self, draft: &mut CommandDraft)
        ensures
            final(self).text_view() == old(draft).text_view(),
            final(self).cursor_view() == old(draft).cursor_view(),
            final(self).history_view() == old(self).history_view(),
            final(self).recall_index() == relocated_recall(
                old(self).history_view(),
                old(draft).recall_index(),
                old(draft).text_view(),
            ),
            final(draft).text_view() == old(self).text_view(),
            final(draft).cursor_view() == old(self).cursor_view(),
            final(draft).recall_index() == old(self).recall_index(),
    {
        proof {
            use_type_invariant(&*self);
        }
        std::mem::swap(&mut self.line, &mut draft.line);
        let restored = draft.history_index;
        draft.history_index = self.history_index;
        let shown = copy_chars(&self.line.chars);
        let relocated = match restored {
            None => None,
            Some(index) => {
                if index < self.history.len() && same_chars(
                    &chars_of(self.history[index].as_str()),
                    &shown,
                ) {
                    Some(index)
                } else {
                    self.last_position_of(&shown)
                }
            },
        };
        self.history_index = relocated;
    }

    /// The last history position holding `text`.
    fn last_position_of(&self, text: &Vec<char>) -> (position: Option<usize>)
        ensures
            position == last_position(self.history_view(), text@),
            match position {
                Some(j) => j < self.history_view().len(),
                None => true,
            },
    {
        let ghost h = self.history_view();
        let mut i: usize = self.history.len();
        proof {
            assert(h.take(i as int) =~= h);
        }
        while i > 0
            invariant
                i <= self.history@.len(),
                h == string_views(self.history@),
                last_position(h.take(i as int), text@) == last_position(h, text@),
            decreases i,
        {
            let ghost prefix = h.take(i as int);
            let entry = chars_of(self.history[i - 1].as_str());
            assert(prefix.last() == h[i - 1]);
            if same_chars(&entry, text) {
                return Some(i - 1);
            }
            assert(prefix.drop_last() =~= h.take(i - 1));
            i = i - 1;
        }
        None
    }
}

impl Clone for LineBuffer {
    fn clone(&self) -> (line: Self)
        ensures
            line.text_view() == self.text_view(),
            line.cursor_view() == self.cursor_view(),
    {
        self.duplicate()
    }
}

impl Clone for CommandDraft {
    fn clone(&self) -> (draft: Self)
        ensures
            draft.text_view() == self.text_view(),
            draft.cursor_view() == self.cursor_view(),
            draft.recall_index() == self.recall_index(),
    {
        self.duplicate()
    }
}

impl Clone for CommandEditor {
    fn clone(&self) -> (editor: Self)
        ensures
            editor.text_view() == self.text_view(),
            editor.cursor_view() == self.cursor_view(),
            editor.history_view() == self.history_view(),
            editor.recall_index() == self.recall_index(),
    {
        self.duplicate()
    }
}

impl Default for CommandEditor {
    fn default() -> (editor: Self)
        ensures
            editor.text_view() == Seq::<char>::empty(),
            editor.cursor_view() == 0,
            editor.history_view() == Seq::<Seq<char>>::empty(),
            editor.recall_index() == None::<usize>,
    {
        CommandEditor::new()
    }
}

} // verus!
