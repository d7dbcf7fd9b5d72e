use clipse::app::{poll_timeout, App, ClipboardState, Interaction, Key, LoopError, StatefulList, Step};
use clipse::clipboard::ClipBoard;
use clipse::driver::{settle, Effect};

/// Runs the loop's decisions over `keys`: the emptiness check before each key,
/// then the key. Returns the first step that ends the session, or `Continue`
/// when the keys run out, with the texts left in the list.
fn drive(history: &[&str], keys: &[Key]) -> (Step, Vec<String>, Option<usize>) {
    let app = App::new(history.to_vec());
    let mut session = Interaction::new(app);
    for key in keys {
        if let Err(e) = session.check_items() {
            return (Step::Fail(e), texts(&session), None);
        }
        let step = session.handle_key(*key);
        if step != Step::Continue {
            return (step, texts(&session), session.app().list().selected());
        }
    }
    let sel = session.app().list().selected();
    (Step::Continue, texts(&session), sel)
}

fn texts(session: &Interaction) -> Vec<String> {
    session.app().owned_texts()
}

fn strings(v: &[&str]) -> Vec<String> {
    v.iter().map(|s| s.to_string()).collect()
}

const J: Key = Key::Char('j');
const D: Key = Key::Char('d');
const Q: Key = Key::Char('q');

#[test]
fn select_after_moving_down() {
    let (step, left, _) = drive(&["a", "b", "c"], &[J, Key::Enter]);
    assert_eq!(step, Step::Finish(ClipboardState::Select("b".to_string())));
    assert_eq!(left, strings(&["a", "b", "c"]));
    let Step::Finish(state) = step else { panic!("no outcome") };
    assert_eq!(settle(state, false), Effect::Print("b".to_string()));
}

#[test]
fn select_with_copy_hands_text_to_helper() {
    let (step, _, _) = drive(&["a", "b", "c"], &[J, Key::Enter]);
    let Step::Finish(state) = step else { panic!("no outcome") };
    assert_eq!(settle(state, true), Effect::Copy("b".to_string()));
}

#[test]
fn delete_then_quit_persists_rest() {
    let (step, _, _) = drive(&["a", "b", "c"], &[J, D, D, Q]);
    assert_eq!(step, Step::Finish(ClipboardState::Delete(strings(&["a", "c"]))));
    let Step::Finish(state) = step else { panic!("no outcome") };
    assert_eq!(settle(state, false), Effect::Store(strings(&["a", "c"])));
}

#[test]
fn delete_last_entry_then_empty_fails() {
    let (step, left, _) = drive(&["a"], &[D, D]);
    assert_eq!(step, Step::Continue);
    assert!(left.is_empty());
    let (step, _, _) = drive(&["a"], &[D, D, Q]);
    assert_eq!(step, Step::Fail(LoopError::NoItems));
}

#[test]
fn delete_without_selection_fails() {
    let (step, _, _) = drive(&["a"], &[Key::Char('h'), D, D]);
    assert_eq!(step, Step::Fail(LoopError::NoSelection));
}

#[test]
fn enter_without_selection_fails() {
    let (step, _, _) = drive(&["a", "b"], &[Key::Left, Key::Enter]);
    assert_eq!(step, Step::Fail(LoopError::NoSelection));
    let (step, _, _) = drive(&["a", "b"], &[Key::Enter]);
    assert_eq!(step, Step::Finish(ClipboardState::Select("a".to_string())));
}

#[test]
fn quit_without_changes_aborts() {
    let (step, left, _) = drive(&["x", "y"], &[Q]);
    assert_eq!(step, Step::Finish(ClipboardState::Abort));
    assert_eq!(left, strings(&["x", "y"]));
    assert_eq!(settle(ClipboardState::Abort, false), Effect::Nothing);
}

#[test]
fn empty_history_fails_before_input() {
    let session = Interaction::new(App::new(Vec::new()));
    assert_eq!(session.check_items(), Err(LoopError::NoItems));
    let (step, _, _) = drive(&[], &[Q]);
    assert_eq!(step, Step::Fail(LoopError::NoItems));
}

#[test]
fn add_then_select_second_entry() {
    let mut board = ClipBoard { content: strings(&["a"]) };
    board.add("z".to_string());
    assert_eq!(board.content, strings(&["a", "z"]));
    let entries = board.entries();
    let (step, _, _) = drive(&entries, &[J, Key::Enter]);
    let Step::Finish(state) = step else { panic!("no outcome") };
    assert_eq!(settle(state, false), Effect::Print("z".to_string()));
    assert_eq!(board.content, strings(&["a", "z"]));
}

#[test]
fn add_then_quit_keeps_added_entry() {
    let mut board = ClipBoard { content: strings(&["a"]) };
    board.add("z".to_string());
    let entries = board.entries();
    let (step, _, _) = drive(&entries, &[J, Key::Up, Q]);
    let Step::Finish(state) = step else { panic!("no outcome") };
    assert_eq!(settle(state, false), Effect::Nothing);
    assert_eq!(board.content, strings(&["a", "z"]));
}

#[test]
fn add_then_enter_on_added_entry() {
    let mut board = ClipBoard { content: strings(&["a", "b"]) };
    board.add("z".to_string());
    let entries = board.entries();
    let (step, _, _) = drive(&entries, &[Key::Up, Key::Enter]);
    assert_eq!(step, Step::Finish(ClipboardState::Select("z".to_string())));
}

#[test]
fn delete_at_cursor_then_quit() {
    let (step, _, _) = drive(&["a", "b", "c"], &[J, J, D, D, Q]);
    assert_eq!(step, Step::Finish(ClipboardState::Delete(strings(&["a", "b"]))));
    let (step, _, _) = drive(&["a", "b", "c"], &[D, D, Q]);
    assert_eq!(step, Step::Finish(ClipboardState::Delete(strings(&["b", "c"]))));
}

#[test]
fn cursor_moves_up_after_delete() {
    let (_, left, sel) = drive(&["a", "b", "c"], &[J, J, D, D]);
    assert_eq!(left, strings(&["a", "b"]));
    assert_eq!(sel, Some(1));
    let (_, left, sel) = drive(&["a", "b", "c"], &[D, D]);
    assert_eq!(left, strings(&["b", "c"]));
    assert_eq!(sel, Some(0));
}

#[test]
fn held_chord_keeps_deleting() {
    let (step, _, _) = drive(&["a", "b", "c", "d"], &[J, D, D, D, D, Q]);
    assert_eq!(step, Step::Finish(ClipboardState::Delete(strings(&["d"]))));
    let (step, _, _) = drive(&["a", "b", "c", "d"], &[J, D, D, J, D, D, Q]);
    assert_eq!(step, Step::Finish(ClipboardState::Delete(strings(&["a", "d"]))));
}

#[test]
fn chord_interrupted_by_motion() {
    let (step, left, sel) = drive(&["a", "b", "c"], &[D, J, D]);
    assert_eq!(step, Step::Continue);
    assert_eq!(left, strings(&["a", "b", "c"]));
    assert_eq!(sel, Some(1));
}

#[test]
fn unknown_key_breaks_chord() {
    let (step, left, _) = drive(&["a", "b", "c"], &[J, D, Key::Char('x'), D]);
    assert_eq!(step, Step::Continue);
    assert_eq!(left, strings(&["a", "b", "c"]));
    let (_, left, _) = drive(&["a", "b", "c"], &[J, D, Key::Other, D, D]);
    assert_eq!(left, strings(&["a", "c"]));
}

#[test]
fn clear_then_enter_fails() {
    let (step, _, _) = drive(&["a", "b"], &[J, Key::Char('h'), Key::Enter]);
    assert_eq!(step, Step::Fail(LoopError::NoSelection));
    let (step, _, _) = drive(&["a", "b"], &[J, Key::Left, Key::Enter]);
    assert_eq!(step, Step::Fail(LoopError::NoSelection));
}

#[test]
fn cursor_wraps_both_ways() {
    let mut list = StatefulList::with_items(vec!["a", "b", "c"]);
    list.select(2);
    list.next();
    assert_eq!(list.selected(), Some(0));
    list.previous();
    assert_eq!(list.selected(), Some(2));
    list.previous();
    assert_eq!(list.selected(), Some(1));
}

#[test]
fn single_entry_motion_stays() {
    let mut list = StatefulList::with_items(vec!["a"]);
    list.next();
    assert_eq!(list.selected(), Some(0));
    list.next();
    assert_eq!(list.selected(), Some(0));
    list.previous();
    assert_eq!(list.selected(), Some(0));
}

#[test]
fn motion_from_nothing_selects_top() {
    let mut list = StatefulList::with_items(vec!["a", "b", "c"]);
    list.previous();
    assert_eq!(list.selected(), Some(0));
    list.unselect();
    assert_eq!(list.selected(), None);
    list.next();
    assert_eq!(list.selected(), Some(0));
}

#[test]
fn remove_selected_moves_cursor() {
    let mut list = StatefulList::with_items(vec!["a", "b", "c"]);
    list.select(0);
    list.remove_selected();
    assert_eq!(list.items(), &vec!["b", "c"]);
    assert_eq!(list.selected(), Some(0));
    let mut one = StatefulList::with_items(vec!["a"]);
    one.select(0);
    one.remove_selected();
    assert!(one.items().is_empty());
    assert_eq!(one.selected(), None);
}

#[test]
fn arrow_keys_move_like_letters() {
    let (_, _, sel) = drive(&["a", "b", "c"], &[Key::Down, Key::Down]);
    assert_eq!(sel, Some(2));
    let (_, _, sel) = drive(&["a", "b", "c"], &[Key::Down, Key::Char('k'), Key::Up]);
    assert_eq!(sel, Some(2));
}

#[test]
fn timeout_is_rest_of_tick() {
    assert_eq!(poll_timeout(250, 100), 150);
    assert_eq!(poll_timeout(250, 250), 0);
    assert_eq!(poll_timeout(250, 400), 0);
}
