//! The status of a todo item and its textual forms.
use vstd::prelude::*;
use vstd::string::*;

use crate::text;
use crate::text::same_text;

verus! {

/// Status for a todo item.
///
/// In DAG mode (`Ready`, `Skipped`), items can express dependency-driven
/// scheduling; flat-list items only use `Pending`, `InProgress`, and
/// `Completed`.
#[derive(Debug, Clone, Copy, PartialEq, Eq, Structural)]
pub enum TodoStatus {
    /// Waiting for dependencies to complete.
    Pending,
    /// Dependencies satisfied; ready to be scheduled.
    Ready,
    /// Currently executing.
    InProgress,
    /// Successfully completed.
    Completed,
    /// Failed with an error.
    Failed,
    /// Skipped because a dependency failed.
    Skipped,
}

/// The canonical word for a status.
pub open spec fn status_word(s: TodoStatus) -> Seq<char> {
    match s {
        TodoStatus::Pending => "pending"@,
        TodoStatus::Ready => "ready"@,
        TodoStatus::InProgress => "in_progress"@,
        TodoStatus::Completed => "completed"@,
        TodoStatus::Failed => "failed"@,
        TodoStatus::Skipped => "skipped"@,
    }
}

/// The status that a trimmed, lower-case word stands for. Besides the canonical
/// words, `inprogress` and `done` are known.
pub open spec fn status_of_word(w: Seq<char>) -> Option<TodoStatus> {
    if w == "pending"@ {
        Some(TodoStatus::Pending)
    } else if w == "ready"@ {
        Some(TodoStatus::Ready)
    } else if w == "in_progress"@ || w == "inprogress"@ {
        Some(TodoStatus::InProgress)
    } else if w == "completed"@ || w == "done"@ {
        Some(TodoStatus::Completed)
    } else if w == "failed"@ {
        Some(TodoStatus::Failed)
    } else if w == "skipped"@ {
        Some(TodoStatus::Skipped)
    } else {
        None
    }
}

/// The status that a text stands for: surrounding white space and letter case
/// do not matter.
pub open spec fn parsed_status(s: Seq<char>) -> Option<TodoStatus> {
    status_of_word(text::lowercase(text::trimmed(s)))
}

/// `Completed`, `Failed` and `Skipped` are final.
pub open spec fn terminal(s: TodoStatus) -> bool {
    s == TodoStatus::Completed || s == TodoStatus::Failed || s == TodoStatus::Skipped
}

impl TodoStatus {
    /// The canonical word for this status.
    pub fn as_str(self) -> (r: &'static str)
        ensures
            r@ == status_word(self),
    {
        match self {
            TodoStatus::Pending => "pending",
            TodoStatus::Ready => "ready",
            TodoStatus::InProgress => "in_progress",
            TodoStatus::Completed => "completed",
            TodoStatus::Failed => "failed",
            TodoStatus::Skipped => "skipped",
        }
    }

    /// Parse a string into a todo status.
    #[must_use]
    pub fn from_str(value: &str) -> (r: Option<Self>)
        ensures
            r == parsed_status(value@),
    {
        let word = value.trim().to_lowercase();
        TodoStatus::from_word(word.as_str())
    }

    /// The status that a trimmed, lower-case word stands for.
    #[must_use]
    pub fn from_word(word: &str) -> (r: Option<Self>)
        ensures
            r == status_of_word(word@),
    {
        if same_text(word, "pending") {
            Some(TodoStatus::Pending)
        } else if same_text(word, "ready") {
            Some(TodoStatus::Ready)
        } else if same_text(word, "in_progress") || same_text(word, "inprogress") {
            Some(TodoStatus::InProgress)
        } else if same_text(word, "completed") || same_text(word, "done") {
            Some(TodoStatus::Completed)
        } else if same_text(word, "failed") {
            Some(TodoStatus::Failed)
        } else if same_text(word, "skipped") {
            Some(TodoStatus::Skipped)
        } else {
            None
        }
    }

    /// Whether this status is a terminal state.
    #[must_use]
    pub fn is_terminal(self) -> (r: bool)
        ensures
            r == terminal(self),
    {
        matches!(self, TodoStatus::Completed | TodoStatus::Failed | TodoStatus::Skipped)
    }
}

/// Reading back the canonical word of a status gives that status.
pub proof fn law_word_round_trip(s: TodoStatus)
    ensures
        parsed_status(status_word(s)) == Some(s),
{
    reveal_strlit("pending");
    reveal_strlit("ready");
    reveal_strlit("in_progress");
    reveal_strlit("inprogress");
    reveal_strlit("completed");
    reveal_strlit("done");
    reveal_strlit("failed");
    reveal_strlit("skipped");
    let w = status_word(s);
    assert(vstd::utf8::is_ascii_chars(w));
    assert(text::trimmed(w) == w);
    assert(text::lowercase(w) =~= w);
    assert(status_of_word(w) == Some(s)) by {
        assert("pending"@.len() == 7);
        assert("ready"@.len() == 5);
        assert("in_progress"@.len() == 11);
        assert("inprogress"@.len() == 10);
        assert("completed"@.len() == 9);
        assert("done"@.len() == 4);
        assert("failed"@.len() == 6);
        assert("skipped"@.len() == 7);
        assert("pending"@[0] != "skipped"@[0]);
    }
}

proof fn lemma_trimmed_start_of_space(a: Seq<char>, s: Seq<char>)
    requires
        forall|i: int| 0 <= i < a.len() ==> text::is_white_space(#[trigger] a[i]),
    ensures
        text::trimmed_start(a + s) == text::trimmed_start(s),
    decreases a.len(),
{
    if a.len() == 0 {
        assert(a + s =~= s);
    } else {
        assert(text::is_white_space(a[0]));
        assert((a + s).drop_first() =~= a.drop_first() + s);
        lemma_trimmed_start_of_space(a.drop_first(), s);
    }
}

proof fn lemma_trimmed_end_of_space(s: Seq<char>, b: Seq<char>)
    requires
        forall|i: int| 0 <= i < b.len() ==> text::is_white_space(#[trigger] b[i]),
    ensures
        text::trimmed_end(s + b) == text::trimmed_end(s),
    decreases b.len(),
{
    if b.len() == 0 {
        assert(s + b =~= s);
    } else {
        assert(text::is_white_space(b[b.len() - 1]));
        assert((s + b).last() == b.last());
        assert((s + b).drop_last() =~= s + b.drop_last());
        lemma_trimmed_end_of_space(s, b.drop_last());
    }
}

proof fn lemma_trimmed_start_before_space(s: Seq<char>, b: Seq<char>)
    requires
        forall|i: int| 0 <= i < b.len() ==> text::is_white_space(#[trigger] b[i]),
    ensures
        text::trimmed_end(text::trimmed_start(s + b)) == text::trimmed(s),
    decreases s.len(),
{
    if s.len() == 0 {
        lemma_trimmed_start_of_space(b, s);
        assert(s + b =~= b + s);
    } else if text::is_white_space(s[0]) {
        assert((s + b).drop_first() =~= s.drop_first() + b);
        lemma_trimmed_start_before_space(s.drop_first(), b);
    } else {
        lemma_trimmed_end_of_space(s, b);
    }
}

/// White space around a text does not change the status that it stands for.
pub proof fn law_surrounding_space_is_ignored(a: Seq<char>, s: Seq<char>, b: Seq<char>)
    requires
        forall|i: int| 0 <= i < a.len() ==> text::is_white_space(#[trigger] a[i]),
        forall|i: int| 0 <= i < b.len() ==> text::is_white_space(#[trigger] b[i]),
    ensures
        parsed_status(a + s + b) == parsed_status(s),
{
    assert(a + s + b =~= a + (s + b));
    lemma_trimmed_start_of_space(a, s + b);
    lemma_trimmed_start_before_space(s, b);
}

/// `s` with its ASCII capitals turned into small letters.
pub open spec fn small(s: Seq<char>) -> Seq<char> {
    s.map_values(|c: char| text::ascii_lower(c))
}

proof fn lemma_small_trimmed_start(s: Seq<char>)
    ensures
        text::trimmed_start(small(s)) == small(text::trimmed_start(s)),
        vstd::utf8::is_ascii_chars(s) ==> vstd::utf8::is_ascii_chars(text::trimmed_start(s)),
    decreases s.len(),
{
    if s.len() > 0 {
        assert(text::is_white_space(small(s)[0]) == text::is_white_space(s[0]));
        assert(small(s).drop_first() =~= small(s.drop_first()));
        lemma_small_trimmed_start(s.drop_first());
    }
}

proof fn lemma_small_trimmed_end(s: Seq<char>)
    ensures
        text::trimmed_end(small(s)) == small(text::trimmed_end(s)),
        vstd::utf8::is_ascii_chars(s) ==> vstd::utf8::is_ascii_chars(text::trimmed_end(s)),
    decreases s.len(),
{
    if s.len() > 0 {
        assert(text::is_white_space(small(s).last()) == text::is_white_space(s.last()));
        assert(small(s).drop_last() =~= small(s.drop_last()));
        lemma_small_trimmed_end(s.drop_last());
    }
}

/// On ASCII text, letter case does not change the status that it stands for.
pub proof fn law_letter_case_is_ignored(s: Seq<char>)
    requires
        vstd::utf8::is_ascii_chars(s),
    ensures
        parsed_status(small(s)) == parsed_status(s),
{
    lemma_small_trimmed_start(s);
    lemma_small_trimmed_end(text::trimmed_start(s));
    let t = text::trimmed(s);
    assert(text::trimmed(small(s)) == small(t));
    assert(vstd::utf8::is_ascii_chars(small(t)));
    assert(text::lowercase(small(t)) =~= text::lowercase(t));
}

} // verus!
