use vstd::prelude::*;
use crate::position::CursorPosition;

verus! {

/// One query of the accessibility chain that locates the text caret, in the
/// order in which the chain asks them.
#[derive(Clone, Copy, Debug, PartialEq, Eq, Structural)]
pub enum CaretQuery {
    /// The system-wide element's focused UI element.
    FocusedElement,
    /// The focused element's selected text range.
    SelectedTextRange,
    /// The screen bounds of that range (a parameterized attribute).
    BoundsForRange,
    /// The decoding of those bounds into a rectangle.
    RectValue,
}

/// What the operating system answered to one query.
#[derive(Clone, Copy, Debug, PartialEq, Eq, Structural)]
pub enum AxReply {
    /// An attribute copy: its status code (zero on success) and whether the
    /// value it filled in is non-null.
    Copied { status: i32, non_null: bool },
    /// A rectangle decode: the rectangle's bottom-left corner, or `None` when
    /// the value did not decode as a rectangle.
    Decoded(Option<CursorPosition>),
}

/// Where a caret lookup stands: a query to make next, or its outcome.
#[derive(Clone, Copy, Debug, PartialEq, Eq, Structural)]
pub enum CaretProbe {
    Ask(CaretQuery),
    Done(Option<CursorPosition>),
}

/// The query that follows a successful one, if any.
pub open spec fn query_after(q: CaretQuery) -> Option<CaretQuery> {
    match q {
        CaretQuery::FocusedElement => Some(CaretQuery::SelectedTextRange),
        CaretQuery::SelectedTextRange => Some(CaretQuery::BoundsForRange),
        CaretQuery::BoundsForRange => Some(CaretQuery::RectValue),
        CaretQuery::RectValue => None,
    }
}

/// The lookup after query `q` got `reply`: an attribute copy that succeeded
/// leads to the next query; the decode of the rectangle ends the lookup with
/// its corner; any failure, or a reply of the wrong kind, ends it with no
/// caret.
pub open spec fn caret_step(q: CaretQuery, reply: AxReply) -> CaretProbe {
    match reply {
        AxReply::Copied { status, non_null } => {
            if status == 0 && non_null && query_after(q) is Some {
                CaretProbe::Ask(query_after(q)->0)
            } else {
                CaretProbe::Done(None)
            }
        },
        AxReply::Decoded(corner) => {
            if q == CaretQuery::RectValue {
                CaretProbe::Done(corner)
            } else {
                CaretProbe::Done(None)
            }
        },
    }
}

/// The state a caret lookup starts in.
pub fn caret_probe_start() -> (r: CaretProbe)
    ensures
        r == CaretProbe::Ask(CaretQuery::FocusedElement),
{
    CaretProbe::Ask(CaretQuery::FocusedElement)
}

/// Advances a caret lookup by one reply: given the query just made and the
/// operating system's answer, says which query comes next or where the caret
/// is. A lookup that fails at any step ends with `None`.
pub fn get_caret_position(query: CaretQuery, reply: AxReply) -> (r: CaretProbe)
    ensures
        r == caret_step(query, reply),
{
    match reply {
        AxReply::Copied { status, non_null } => {
            if status != 0 || !non_null {
                return CaretProbe::Done(None);
            }
            match query {
                CaretQuery::FocusedElement => CaretProbe::Ask(CaretQuery::SelectedTextRange),
                CaretQuery::SelectedTextRange => CaretProbe::Ask(CaretQuery::BoundsForRange),
                CaretQuery::BoundsForRange => CaretProbe::Ask(CaretQuery::RectValue),
                CaretQuery::RectValue => CaretProbe::Done(None),
            }
        },
        AxReply::Decoded(corner) => {
            match query {
                CaretQuery::RectValue => CaretProbe::Done(corner),
                _ => CaretProbe::Done(None),
            }
        },
    }
}

/// Runs a lookup from `state` over the replies in order, until it is done or
/// the replies run out.
pub open spec fn run_lookup(state: CaretProbe, replies: Seq<AxReply>) -> CaretProbe
    decreases replies.len(),
{
    match state {
        CaretProbe::Done(_) => state,
        CaretProbe::Ask(q) => if replies.len() == 0 {
            state
        } else {
            run_lookup(caret_step(q, replies[0]), replies.drop_first())
        },
    }
}

pub open spec fn copy_succeeded(r: AxReply) -> bool {
    r is Copied && r->status == 0 && r->non_null
}

/// A lookup from the start finds a caret at `corner` exactly when its first
/// three replies are successful attribute copies and the fourth decodes a
/// rectangle with that corner; any failure on the way leaves no caret.
pub proof fn lemma_caret_found_only_after_full_chain(replies: Seq<AxReply>, corner: CursorPosition)
    ensures
        run_lookup(CaretProbe::Ask(CaretQuery::FocusedElement), replies) == CaretProbe::Done(
            Some(corner),
        ) <==> {
            &&& replies.len() >= 4
            &&& copy_succeeded(replies[0])
            &&& copy_succeeded(replies[1])
            &&& copy_succeeded(replies[2])
            &&& replies[3] == AxReply::Decoded(Some(corner))
        },
{
    reveal_with_fuel(run_lookup, 5);
    if replies.len() >= 4 {
        assert(replies.drop_first().drop_first().drop_first().drop_first().len() + 4 == replies.len());
        assert(replies.drop_first()[0] == replies[1]);
        assert(replies.drop_first().drop_first()[0] == replies[2]);
        assert(replies.drop_first().drop_first().drop_first()[0] == replies[3]);
    }
}

} // verus!
