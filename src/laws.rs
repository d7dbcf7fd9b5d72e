//! Laws of the interaction, stated over the session model and proved.

use vstd::prelude::*;
use crate::app::{
    consistent, cursor_valid, next_index, previous_index, remove_all, run, start, step, Key, LoopError,
    Model, Verdict, lemma_step_consistent, lemma_start_consistent, is_delete, is_quit,
};
use crate::driver::stored_after;

verus! {

/// Every state that a run of keys reaches from the start is consistent: the
/// cursor is absent or on an item, the session is dirty exactly when a `dd`
/// chord completed, a deletion quit hands out the initial history with the
/// deleted positions removed in the order they were deleted, a plain quit
/// comes only when nothing was deleted, and a selection is the text under
/// the cursor when Enter was pressed.
pub proof fn lemma_run_consistent(m: Model, keys: Seq<Key>)
    requires
        consistent(m),
    ensures
        consistent(run(m, keys).0),
        run(m, keys).0.initial == m.initial,
        run(m, keys).1 is Delete ==> run(m, keys).1 == Verdict::Delete(
            remove_all(m.initial, run(m, keys).0.removed),
        ) && run(m, keys).0.removed.len() > 0,
        run(m, keys).1 is Abort ==> run(m, keys).0.removed.len() == 0,
        run(m, keys).1 is Select ==> run(m, keys).0.cursor is Some && run(m, keys).1
            == Verdict::Select(run(m, keys).0.items[run(m, keys).0.cursor.unwrap() as int]),
    decreases keys.len(),
{
    if m.items.len() > 0 && keys.len() > 0 {
        lemma_step_consistent(m, keys[0]);
        let (next, v) = step(m, keys[0]);
        if v == Verdict::Continue {
            lemma_run_consistent(next, keys.drop_first());
        }
    }
}

/// A session run from its start over the history `h`: whatever keys come,
/// the state reached is consistent, a deletion quit hands out `h` with the
/// deleted positions removed in the order they were deleted (and comes only
/// after a deletion), a plain quit comes only when nothing was deleted, and a
/// selection is the text under the cursor when Enter was pressed.
pub proof fn lemma_session_from_start(h: Seq<Seq<char>>, keys: Seq<Key>)
    requires
        h.len() <= usize::MAX,
    ensures
        consistent(run(start(h), keys).0),
        run(start(h), keys).1 is Delete ==> run(start(h), keys).1 == Verdict::Delete(
            remove_all(h, run(start(h), keys).0.removed),
        ) && run(start(h), keys).0.dirty,
        run(start(h), keys).1 is Abort ==> run(start(h), keys).0.items == h
            && !run(start(h), keys).0.dirty,
        run(start(h), keys).1 is Select ==> run(start(h), keys).0.cursor is Some && run(
            start(h),
            keys,
        ).1 == Verdict::Select(
            run(start(h), keys).0.items[run(start(h), keys).0.cursor.unwrap() as int],
        ),
{
    lemma_start_consistent(h);
    lemma_run_consistent(start(h), keys);
}

/// With at least one item, `next` and `previous` leave the cursor on an item.
pub proof fn lemma_motion_selects(cursor: Option<usize>, len: nat)
    requires
        len > 0,
        cursor_valid(cursor, len),
    ensures
        0 <= next_index(cursor, len) < len,
        0 <= previous_index(cursor, len) < len,
{
}

/// Keys that neither delete, quit, nor confirm leave a session without
/// deletions as it was, but for the cursor and the last key; a quit after them
/// aborts.
proof fn lemma_quit_after_browsing(m: Model, keys: Seq<Key>)
    requires
        consistent(m),
        m.removed.len() == 0,
        m.items.len() > 0,
        keys.len() > 0,
        keys.last() == Key::Char('q'),
        forall|i: int|
            0 <= i < keys.len() - 1 ==> !is_delete(#[trigger] keys[i]) && !is_quit(keys[i])
                && keys[i] != Key::Enter,
    ensures
        run(m, keys).1 == Verdict::Abort,
    decreases keys.len(),
{
    if keys.len() > 1 {
        lemma_step_consistent(m, keys[0]);
        let next = step(m, keys[0]).0;
        let rest = keys.drop_first();
        assert(rest.last() == keys.last());
        assert forall|i: int| 0 <= i < rest.len() - 1 implies !is_delete(#[trigger] rest[i])
            && !is_quit(rest[i]) && rest[i] != Key::Enter by {
            assert(rest[i] == keys[i + 1]);
        }
        lemma_quit_after_browsing(next, rest);
    }
}

/// After adding `x` to the history `h`, a session that only browses and then
/// quits leaves the stored history as `h` followed by `x`.
pub proof fn lemma_add_then_quit(h: Seq<Seq<char>>, x: Seq<char>, keys: Seq<Key>)
    requires
        h.len() < usize::MAX,
        keys.len() > 0,
        keys.last() == Key::Char('q'),
        forall|i: int|
            0 <= i < keys.len() - 1 ==> !is_delete(#[trigger] keys[i]) && !is_quit(keys[i])
                && keys[i] != Key::Enter,
    ensures
        run(start(h.push(x)), keys).1 == Verdict::Abort,
        stored_after(h.push(x), run(start(h.push(x)), keys).1) == h.push(x),
{
    lemma_quit_after_browsing(start(h.push(x)), keys);
}

/// After adding `x` to the history `h`, moving up from the first entry onto
/// the new last one and pressing Enter selects `x` and leaves the stored
/// history as `h` followed by `x`.
pub proof fn lemma_add_then_select(h: Seq<Seq<char>>, x: Seq<char>)
    requires
        h.len() < usize::MAX,
    ensures
        run(start(h.push(x)), seq![Key::Up, Key::Enter]).1 == Verdict::Select(x),
        stored_after(h.push(x), run(start(h.push(x)), seq![Key::Up, Key::Enter]).1) == h.push(x),
{
    let keys = seq![Key::Up, Key::Enter];
    let m0 = start(h.push(x));
    let m1 = step(m0, Key::Up).0;
    assert(m1.cursor == Some(h.len() as usize));
    assert(keys.drop_first() =~= seq![Key::Enter]);
    assert(run(m0, keys) == run(m1, seq![Key::Enter]));
    assert(run(m1, seq![Key::Enter]).1 == Verdict::Select(x));
}

/// From a session without deletions whose cursor is on `i` and whose last key
/// was not `d`, the keys `d`, `d`, `q` store the history without its entry at
/// `i`.  (With a single entry the list is empty before `q` is read.)
pub proof fn lemma_delete_then_quit(m: Model, i: usize)
    requires
        consistent(m),
        m.removed.len() == 0,
        m.items.len() > 1,
        m.cursor == Some(i),
        m.last_key != Some(Key::Char('d')),
    ensures
        run(m, seq![Key::Char('d'), Key::Char('d'), Key::Char('q')]).1 == Verdict::Delete(
            m.initial.remove(i as int),
        ),
        stored_after(m.initial, run(m, seq![Key::Char('d'), Key::Char('d'), Key::Char('q')]).1)
            == m.initial.remove(i as int),
{
    let keys = seq![Key::Char('d'), Key::Char('d'), Key::Char('q')];
    let m1 = step(m, Key::Char('d')).0;
    let m2 = step(m1, Key::Char('d')).0;
    assert(keys.drop_first() =~= seq![Key::Char('d'), Key::Char('q')]);
    assert(keys.drop_first().drop_first() =~= seq![Key::Char('q')]);
    assert(m.items == m.initial);
    assert(run(m, keys) == run(m1, seq![Key::Char('d'), Key::Char('q')]));
    assert(run(m1, seq![Key::Char('d'), Key::Char('q')]) == run(m2, seq![Key::Char('q')]));
    assert(m2.items == m.initial.remove(i as int));
    assert(run(m2, seq![Key::Char('q')]).1 == Verdict::Delete(m.initial.remove(i as int)));
}

/// On a single entry `next` and `previous` keep the cursor on it, and a `dd`
/// chord empties the list, so that the next iteration fails for want of items.
pub proof fn lemma_single_entry(m: Model)
    requires
        consistent(m),
        m.items.len() == 1,
        m.cursor == Some(0usize),
        m.last_key != Some(Key::Char('d')),
    ensures
        next_index(m.cursor, 1) == 0,
        previous_index(m.cursor, 1) == 0,
        run(m, seq![Key::Char('d'), Key::Char('d')]).0.items.len() == 0,
        run(m, seq![Key::Char('d'), Key::Char('d')]).1 == Verdict::Fatal(LoopError::NoItems),
{
    let keys = seq![Key::Char('d'), Key::Char('d')];
    let m1 = step(m, Key::Char('d')).0;
    let m2 = step(m1, Key::Char('d')).0;
    assert(keys.drop_first() =~= seq![Key::Char('d')]);
    assert(run(m, keys) == run(m1, seq![Key::Char('d')]));
    assert(seq![Key::Char('d')].drop_first() =~= Seq::<Key>::empty());
    assert(run(m1, seq![Key::Char('d')]) == run(m2, Seq::<Key>::empty()));
}

/// A `d`, then a key `u` other than `d` that does not end the session, then
/// a `d` again deletes nothing: the chord needs two `d` presses in a row.  The
/// last `d` leaves the chord armed afresh.
pub proof fn lemma_chord_interrupted(m: Model, u: Key)
    requires
        consistent(m),
        m.items.len() > 0,
        m.last_key != Some(Key::Char('d')),
        !is_delete(u),
        !is_quit(u),
        u != Key::Enter,
    ensures
        run(m, seq![Key::Char('d'), u, Key::Char('d')]).1 == Verdict::Continue,
        run(m, seq![Key::Char('d'), u, Key::Char('d')]).0.items == m.items,
        run(m, seq![Key::Char('d'), u, Key::Char('d')]).0.removed == m.removed,
        run(m, seq![Key::Char('d'), u, Key::Char('d')]).0.cursor == step(m, u).0.cursor,
        run(m, seq![Key::Char('d'), u, Key::Char('d')]).0.last_key == Some(Key::Char('d')),
{
    let keys = seq![Key::Char('d'), u, Key::Char('d')];
    let m1 = step(m, Key::Char('d')).0;
    let m2 = step(m1, u).0;
    assert(keys.drop_first() =~= seq![u, Key::Char('d')]);
    assert(seq![u, Key::Char('d')].drop_first() =~= seq![Key::Char('d')]);
    assert(seq![Key::Char('d')].drop_first() =~= Seq::<Key>::empty());
    assert(run(m, keys) == run(m1, seq![u, Key::Char('d')]));
    assert(run(m1, seq![u, Key::Char('d')]) == run(m2, seq![Key::Char('d')]));
    assert(run(m2, seq![Key::Char('d')]) == run(step(m2, Key::Char('d')).0, Seq::<Key>::empty()));
}

/// `d`, `j`, `d` deletes nothing and moves the cursor once.
pub proof fn lemma_chord_interrupted_by_motion(m: Model)
    requires
        consistent(m),
        m.items.len() > 0,
        m.last_key != Some(Key::Char('d')),
    ensures
        run(m, seq![Key::Char('d'), Key::Char('j'), Key::Char('d')]).0.items == m.items,
        run(m, seq![Key::Char('d'), Key::Char('j'), Key::Char('d')]).0.cursor == Some(
            next_index(m.cursor, m.items.len()) as usize,
        ),
{
    lemma_chord_interrupted(m, Key::Char('j'));
}

} // verus!
