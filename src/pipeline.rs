//! Change detection on clipboard text, and the choice of what to persist.
use vstd::prelude::*;
use crate::url_text::{canonical_url, parsed_url};

verus! {

/// Why a clipboard value leads to nothing being persisted.
#[derive(PartialEq, Eq, Structural, Clone, Copy, Debug)]
pub enum SkipReason {
    /// The value equals the previous snapshot.
    Unchanged,
    /// The value changed but is not a URL.
    NotAUrl,
}

/// What processing one clipboard value asks for.
#[derive(Debug)]
pub enum PersistOutcome {
    /// Nothing is persisted, for this reason.
    Skipped(SkipReason),
    /// This canonical URL is handed to the sink.
    Persist(String),
}

/// The mathematical meaning of a `PersistOutcome`.
pub ghost enum Decision {
    Unchanged,
    NotAUrl,
    Persist(Seq<char>),
}

impl View for PersistOutcome {
    type V = Decision;

    open spec fn view(&self) -> Decision {
        match self {
            PersistOutcome::Skipped(SkipReason::Unchanged) => Decision::Unchanged,
            PersistOutcome::Skipped(SkipReason::NotAUrl) => Decision::NotAUrl,
            PersistOutcome::Persist(u) => Decision::Persist(u@),
        }
    }
}

/// The snapshot kept after processing `new_text` against `previous`: the
/// previous one when nothing changed, the new text otherwise, URL or not.
pub open spec fn snapshot_after(new_text: Seq<char>, previous: Seq<char>) -> Seq<char> {
    if new_text == previous {
        previous
    } else {
        new_text
    }
}

/// The decision for `new_text` against `previous`, given what parsing
/// `new_text` as a URL gave (`None` when it is not one).
pub open spec fn decide_with(
    new_text: Seq<char>,
    previous: Seq<char>,
    parsed: Option<Seq<char>>,
) -> Decision {
    if new_text == previous {
        Decision::Unchanged
    } else {
        match parsed {
            None => Decision::NotAUrl,
            Some(u) => Decision::Persist(u),
        }
    }
}

/// The decision for `new_text` against `previous`.
pub open spec fn decide(new_text: Seq<char>, previous: Seq<char>) -> Decision {
    decide_with(new_text, previous, parsed_url(new_text))
}

/// How many records a decision adds to storage.
pub open spec fn records_added(d: Decision) -> nat {
    match d {
        Decision::Persist(_) => 1,
        _ => 0,
    }
}

/// The view of an optional parsed URL.
pub open spec fn parsed_view(parsed: Option<String>) -> Option<Seq<char>> {
    match parsed {
        Some(u) => Some(u@),
        None => None,
    }
}

/// Processes `new_text` against `previous` when parsing `new_text` as a URL gave
/// `parsed`. Returns the next snapshot and what to persist.
pub fn process_parsed(new_text: String, previous: &String, parsed: Option<String>) -> (r: (
    String,
    PersistOutcome,
))
    ensures
        r.0@ == snapshot_after(new_text@, previous@),
        r.1@ == decide_with(new_text@, previous@, parsed_view(parsed)),
{
    if new_text == *previous {
        return (new_text, PersistOutcome::Skipped(SkipReason::Unchanged));
    }
    let outcome = match parsed {
        None => PersistOutcome::Skipped(SkipReason::NotAUrl),
        Some(u) => PersistOutcome::Persist(u),
    };
    (new_text, outcome)
}

/// Processes one clipboard value against the previous snapshot: an unchanged
/// value is skipped; a changed one becomes the snapshot and, when it parses as a
/// URL, its canonical form is to be persisted.
pub fn process(new_text: String, previous: &String) -> (r: (String, PersistOutcome))
    ensures
        r.0@ == snapshot_after(new_text@, previous@),
        r.1@ == decide(new_text@, previous@),
{
    if new_text == *previous {
        return (new_text, PersistOutcome::Skipped(SkipReason::Unchanged));
    }
    let parsed = canonical_url(new_text.as_str());
    process_parsed(new_text, previous, parsed)
}

/// After any input, the snapshot equals that input: a changed value is adopted
/// whether or not it is a URL, and an unchanged one already equals it.
pub proof fn lemma_snapshot_adopts_input(new_text: Seq<char>, previous: Seq<char>)
    ensures
        snapshot_after(new_text, previous) == new_text,
        new_text != previous ==> snapshot_after(new_text, previous) != previous,
{
}

/// A value is skipped as not a URL exactly when it changed and does not parse,
/// and it is persisted exactly when it changed and parses.
pub proof fn lemma_classification(new_text: Seq<char>, previous: Seq<char>)
    ensures
        decide(new_text, previous) == Decision::NotAUrl <==> (new_text != previous
            && parsed_url(new_text) is None),
        decide(new_text, previous) is Persist <==> (new_text != previous
            && parsed_url(new_text) is Some),
        decide(new_text, previous) == Decision::Unchanged <==> new_text == previous,
{
}

/// Feeding the same text twice in a row persists at most one record: the second
/// time is skipped as unchanged. When the text differs from what came before and
/// is a URL, exactly one record is persisted.
pub proof fn lemma_repeat_is_noop(text: Seq<char>, previous: Seq<char>)
    ensures
        decide(text, snapshot_after(text, previous)) == Decision::Unchanged,
        records_added(decide(text, previous)) + records_added(
            decide(text, snapshot_after(text, previous)),
        ) <= 1,
        (text != previous && parsed_url(text) is Some) ==> records_added(decide(text, previous))
            + records_added(decide(text, snapshot_after(text, previous))) == 1,
{
}

} // verus!
