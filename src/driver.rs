//! What the program does with the outcome of a session.

use vstd::prelude::*;
use crate::app::{string_texts, ClipboardState, Verdict};

verus! {

/// The side effect that settles a session.
#[derive(Clone, Debug, PartialEq, Eq)]
pub enum Effect {
    /// Write the text and a newline to standard output.
    Print(String),
    /// Hand the text to the desktop clipboard helper.
    Copy(String),
    /// Replace the stored history with these entries.
    Store(Vec<String>),
    /// Nothing to do.
    Nothing,
}

/// The stored history after a session that ended in `v`, when `stored` was
/// stored before it: a deletion quit stores what is left, anything else leaves
/// the store alone.
pub open spec fn stored_after(stored: Seq<Seq<char>>, v: Verdict) -> Seq<Seq<char>> {
    match v {
        Verdict::Delete(xs) => xs,
        _ => stored,
    }
}

/// The effect of an outcome: a selection is printed, or copied when `copy`
/// is set; a deletion quit stores the remaining entries; a plain quit does
/// nothing.
pub fn settle(state: ClipboardState, copy: bool) -> (r: Effect)
    ensures
        match state@ {
            Verdict::Select(t) => if copy {
                r is Copy && r->Copy_0@ == t
            } else {
                r is Print && r->Print_0@ == t
            },
            Verdict::Delete(xs) => r is Store && string_texts(r->Store_0@) == xs,
            _ => r is Nothing,
        },
{
    match state {
        ClipboardState::Select(text) => {
            if copy {
                Effect::Copy(text)
            } else {
                Effect::Print(text)
            }
        },
        ClipboardState::Delete(items) => Effect::Store(items),
        ClipboardState::Abort => Effect::Nothing,
    }
}

} // verus!
