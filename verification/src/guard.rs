//! The filter that keeps the identifier field numeric.
//!
//! After every edit the field's text is shown to the guard. A text that is
//! empty or that denotes an account identifier is accepted as it stands. Any
//! other text is an illegal edit: the field snaps back to the last accepted
//! identifier, or to the empty text where none is remembered.

use vstd::prelude::*;
use vstd::string::*;

use crate::decimal::is_account_id_text;
use crate::decimal::parse_account_id;

verus! {

/// Whether the guard lets the text `raw` stand: it is empty, or it is the
/// text of an account identifier.
pub open spec fn guard_accepts(raw: Seq<char>) -> bool {
    raw.len() == 0 || is_account_id_text(raw)
}

/// What the guard remembers after it was shown `raw`, where it remembered
/// `remembered` before.
pub open spec fn guard_remembers(remembered: Option<Seq<char>>, raw: Seq<char>) -> Option<
    Seq<char>,
> {
    if raw.len() == 0 {
        None
    } else if is_account_id_text(raw) {
        Some(raw)
    } else {
        remembered
    }
}

/// What the field must display after the guard was shown `raw`, where the
/// guard remembered `remembered` before.
pub open spec fn guard_displays(remembered: Option<Seq<char>>, raw: Seq<char>) -> Seq<char> {
    if guard_accepts(raw) {
        raw
    } else {
        match remembered {
            Some(text) => text,
            None => Seq::empty(),
        }
    }
}

/// Whether what a guard remembers is something it may remember: nothing, or
/// the text of an account identifier.
pub open spec fn guard_memory_is_valid(remembered: Option<Seq<char>>) -> bool {
    remembered matches Some(text) ==> is_account_id_text(text)
}

/// What the guard answers on an edit.
#[derive(Debug, PartialEq, Eq)]
pub struct GuardOutput {
    /// The text that the field must display.
    pub text: String,
    /// Whether the edit was refused. The field is written only then: an
    /// accepted edit already shows `text`.
    pub reverted: bool,
}

/// Remembers the last accepted content of the identifier field.
pub struct NumericInputGuard {
    last_valid_text: Option<String>,
}

impl View for NumericInputGuard {
    type V = Option<Seq<char>>;

    closed spec fn view(&self) -> Option<Seq<char>> {
        match self.last_valid_text {
            Some(text) => Some(text@),
            None => None,
        }
    }
}

impl NumericInputGuard {
    /// What a guard remembers is nothing or the text of an identifier.
    #[verifier::type_invariant]
    pub open spec fn remembers_only_identifiers(&self) -> bool {
        guard_memory_is_valid(self@)
    }

    /// A guard that remembers nothing.
    pub fn new() -> (guard: NumericInputGuard)
        ensures
            guard@ is None,
    {
        NumericInputGuard { last_valid_text: None }
    }

    /// The last accepted text, if there is one. It is always the text of an
    /// account identifier.
    pub fn remembered(&self) -> (text: Option<&str>)
        ensures
            match text {
                Some(t) => self@ == Some(t@),
                None => self@ is None,
            },
            guard_memory_is_valid(self@),
    {
        proof {
            use_type_invariant(self);
        }
        match &self.last_valid_text {
            Some(text) => Some(text.as_str()),
            None => None,
        }
    }

    /// Shows the guard the field's text after an edit.
    ///
    /// An empty text is accepted and clears what is remembered. The text of an
    /// account identifier is accepted and remembered. Any other text is
    /// refused: the answer is the remembered text, or the empty text, and what
    /// is remembered stays.
    pub fn apply(&mut self, raw: &str) -> (output: GuardOutput)
        ensures
            final(self)@ == guard_remembers(old(self)@, raw@),
            output.text@ == guard_displays(old(self)@, raw@),
            output.reverted == !guard_accepts(raw@),
            output.reverted == (output.text@ != raw@),
    {
        proof {
            use_type_invariant(&*self);
        }
        if raw.is_empty() {
            self.last_valid_text = None;
            return GuardOutput { text: String::new(), reverted: false };
        }
        match parse_account_id(raw) {
            Some(_) => {
                self.last_valid_text = Some(String::from_str(raw));
                GuardOutput { text: String::from_str(raw), reverted: false }
            },
            None => {
                let text = match &self.last_valid_text {
                    Some(text) => text.clone(),
                    None => String::new(),
                };
                GuardOutput { text, reverted: true }
            },
        }
    }
}

/// An accepted text passes the guard unchanged, whatever was remembered, and
/// passes unchanged again when the guard is shown it a second time.
pub proof fn lemma_guard_is_idempotent(remembered: Option<Seq<char>>, text: Seq<char>)
    requires
        is_account_id_text(text),
    ensures
        guard_displays(remembered, text) == text,
        guard_remembers(remembered, text) == Some(text),
        guard_displays(guard_remembers(remembered, text), text) == text,
        guard_remembers(guard_remembers(remembered, text), text) == Some(text),
{
}

/// A refused edit brings back the remembered identifier exactly, whatever the
/// edit holds, and leaves it remembered. The answer is never the edit itself.
pub proof fn lemma_guard_reverts(remembered: Seq<char>, edit: Seq<char>)
    requires
        is_account_id_text(remembered),
        !guard_accepts(edit),
    ensures
        guard_displays(Some(remembered), edit) == remembered,
        guard_displays(Some(remembered), edit) != edit,
        guard_remembers(Some(remembered), edit) == Some(remembered),
{
}

/// A refused edit with nothing remembered empties the field.
pub proof fn lemma_guard_reverts_to_empty(edit: Seq<char>)
    requires
        !guard_accepts(edit),
    ensures
        guard_displays(None, edit) == Seq::<char>::empty(),
        guard_displays(None, edit) != edit,
        guard_remembers(None, edit) is None,
{
}

/// The empty text clears the guard, whatever was remembered.
pub proof fn lemma_guard_clears(remembered: Option<Seq<char>>)
    ensures
        guard_displays(remembered, Seq::<char>::empty()) == Seq::<char>::empty(),
        guard_remembers(remembered, Seq::<char>::empty()) is None,
{
}

/// What the guard remembers is always nothing or the text of an identifier.
pub proof fn lemma_guard_memory_stays_valid(remembered: Option<Seq<char>>, raw: Seq<char>)
    requires
        guard_memory_is_valid(remembered),
    ensures
        guard_memory_is_valid(guard_remembers(remembered, raw)),
        guard_accepts(guard_displays(remembered, raw)),
{
}

} // verus!
