//! The selection model and the interaction state machine behind the list view.

use vstd::prelude::*;

verus! {

/// Where `next` moves a cursor in a list of `len` items: the first item when
/// nothing is selected, else one further down, wrapping round after the last.
pub open spec fn next_index(cursor: Option<usize>, len: nat) -> int {
    match cursor {
        Some(i) => if i + 1 >= len { 0 } else { i + 1 },
        None => 0,
    }
}

/// Where `previous` moves a cursor in a list of `len` items: the first item
/// when nothing is selected, else one further up, wrapping round to the last.
pub open spec fn previous_index(cursor: Option<usize>, len: nat) -> int {
    match cursor {
        Some(i) => if i == 0 { len - 1 } else { i - 1 },
        None => 0,
    }
}

/// Where the cursor lands after the item at `i` was removed from a list that
/// still holds `len` items: on the item above, or on the top one; nowhere when
/// the list has become empty.
pub open spec fn cursor_after_remove(i: usize, len: nat) -> Option<usize> {
    if len == 0 {
        None
    } else if i == 0 {
        Some(0)
    } else {
        Some((i - 1) as usize)
    }
}

/// A cursor is either absent or the index of an item.
pub open spec fn cursor_valid(cursor: Option<usize>, len: nat) -> bool {
    match cursor {
        Some(i) => i < len,
        None => true,
    }
}

/// A list of items with a cursor that is either absent or on one of them.
pub struct StatefulList<T> {
    cursor: Option<usize>,
    items: Vec<T>,
}

impl<T> StatefulList<T> {
    pub closed spec fn spec_items(&self) -> Seq<T> {
        self.items@
    }

    pub closed spec fn spec_cursor(&self) -> Option<usize> {
        self.cursor
    }

    pub open spec fn wf(&self) -> bool {
        cursor_valid(self.spec_cursor(), self.spec_items().len())
    }

    /// A list of the given items with nothing selected.
    pub fn with_items(items: Vec<T>) -> (r: StatefulList<T>)
        ensures
            r.spec_items() == items@,
            r.spec_cursor() is None,
            r.wf(),
    {
        StatefulList { cursor: None, items }
    }

    /// The items, in order.
    pub fn items(&self) -> (r: &Vec<T>)
        ensures
            r@ == self.spec_items(),
    {
        &self.items
    }

    /// The index of the selected item, if any.
    pub fn selected(&self) -> (r: Option<usize>)
        ensures
            r == self.spec_cursor(),
    {
        self.cursor
    }

    /// Moves the cursor one item down, wrapping round after the last item.
    pub fn next(&mut self)
        requires
            old(self).spec_items().len() > 0,
        ensures
            final(self).spec_items() == old(self).spec_items(),
            final(self).spec_cursor() == Some(
                next_index(old(self).spec_cursor(), old(self).spec_items().len()) as usize,
            ),
            final(self).wf(),
    {
        let i: usize = match self.cursor {
            Some(i) => {
                if i >= self.items.len() - 1 {
                    0
                } else {
                    i + 1
                }
            },
            None => 0,
        };
        self.cursor = Some(i);
    }

    /// Moves the cursor one item up, wrapping round to the last item.
    pub fn previous(&mut self)
        requires
            old(self).wf(),
            old(self).spec_items().len() > 0,
        ensures
            final(self).spec_items() == old(self).spec_items(),
            final(self).spec_cursor() == Some(
                previous_index(old(self).spec_cursor(), old(self).spec_items().len()) as usize,
            ),
            final(self).wf(),
    {
        let i: usize = match self.cursor {
            Some(i) => {
                if i == 0 {
                    self.items.len() - 1
                } else {
                    i - 1
                }
            },
            None => 0,
        };
        self.cursor = Some(i);
    }

    /// Puts the cursor on the item at `index`.
    pub fn select(&mut self, index: usize)
        requires
            index < old(self).spec_items().len(),
        ensures
            final(self).spec_items() == old(self).spec_items(),
            final(self).spec_cursor() == Some(index),
            final(self).wf(),
    {
        self.cursor = Some(index);
    }

    /// Clears the cursor.
    pub fn unselect(&mut self)
        ensures
            final(self).spec_items() == old(self).spec_items(),
            final(self).spec_cursor() is None,
            final(self).wf(),
    {
        self.cursor = None;
    }

    /// Removes the selected item and moves the cursor to the item above it (or
    /// to the top item); when the list has become empty nothing is selected.
    pub fn remove_selected(&mut self)
        requires
            old(self).wf(),
            old(self).spec_cursor() is Some,
        ensures
            final(self).spec_items() == old(self).spec_items().remove(
                old(self).spec_cursor().unwrap() as int,
            ),
            final(self).spec_cursor() == cursor_after_remove(
                old(self).spec_cursor().unwrap(),
                final(self).spec_items().len(),
            ),
            final(self).wf(),
    {
        let index = self.cursor.unwrap();
        self.items.remove(index);
        self.unselect();
        if self.items.len() > 0 {
            let to: usize = if index == 0 { 0 } else { index - 1 };
            self.select(to);
        }
    }
}

/// A key as the list view tells them apart.
#[derive(Clone, Copy, Debug, PartialEq, Eq, Structural)]
pub enum Key {
    Char(char),
    Left,
    Right,
    Up,
    Down,
    Enter,
    Other,
}

/// Why the interaction stops without an outcome.
#[derive(Clone, Copy, Debug, PartialEq, Eq, Structural)]
pub enum LoopError {
    /// The list is empty at the top of an iteration.
    NoItems,
    /// Enter, or a completed delete chord, while nothing is selected.
    NoSelection,
}

/// How one session of the list view ends.
#[derive(Clone, Debug, PartialEq, Eq)]
pub enum ClipboardState {
    /// The user quit after deleting: the items that are left, in order.
    Delete(Vec<String>),
    /// The user confirmed an item: its text.
    Select(String),
    /// The user quit without deleting anything.
    Abort,
}

/// What the interaction does after one key.
#[derive(Clone, Debug, PartialEq, Eq)]
pub enum Step {
    Continue,
    Finish(ClipboardState),
    Fail(LoopError),
}

/// The state of one session, as values.
pub ghost struct Model {
    /// The texts the session started with.
    pub initial: Seq<Seq<char>>,
    /// The texts now shown, in order.
    pub items: Seq<Seq<char>>,
    pub cursor: Option<usize>,
    /// The previous key, which arms the delete chord when it is `d`.
    pub last_key: Option<Key>,
    /// Whether anything was deleted.
    pub dirty: bool,
    /// The index of each deletion, at the time it was made, in order.
    pub removed: Seq<int>,
}

/// What one key (or a run of keys) leads to, as values.
pub ghost enum Verdict {
    Continue,
    Select(Seq<char>),
    Delete(Seq<Seq<char>>),
    Abort,
    Fatal(LoopError),
}

/// `s` with the positions of `r` removed one after the other, each position
/// counted in what the earlier removals left.
pub open spec fn remove_all(s: Seq<Seq<char>>, r: Seq<int>) -> Seq<Seq<char>>
    decreases r.len(),
{
    if r.len() == 0 {
        s
    } else {
        remove_all(s, r.drop_last()).remove(r.last())
    }
}

/// A session at its start over the texts `items`: the cursor is on the first
/// item, if there is one.
pub open spec fn start(items: Seq<Seq<char>>) -> Model {
    Model {
        initial: items,
        items,
        cursor: if items.len() > 0 { Some(0usize) } else { None },
        last_key: None,
        dirty: false,
        removed: seq![],
    }
}

/// What a session state owes: the items are the initial texts minus the
/// deletions, it is dirty exactly when something was deleted, and the cursor
/// is absent or on an item.
pub open spec fn consistent(m: Model) -> bool {
    &&& m.items == remove_all(m.initial, m.removed)
    &&& m.dirty == (m.removed.len() > 0)
    &&& cursor_valid(m.cursor, m.items.len())
    &&& m.initial.len() <= usize::MAX
}

pub open spec fn is_quit(k: Key) -> bool {
    k == Key::Char('q')
}

pub open spec fn is_clear(k: Key) -> bool {
    k == Key::Left || k == Key::Char('h')
}

pub open spec fn is_down(k: Key) -> bool {
    k == Key::Down || k == Key::Char('j')
}

pub open spec fn is_up(k: Key) -> bool {
    k == Key::Up || k == Key::Char('k')
}

pub open spec fn is_delete(k: Key) -> bool {
    k == Key::Char('d')
}

/// The effect of one key press on a session.
pub open spec fn step(m: Model, k: Key) -> (Model, Verdict) {
    let pressed = Model { last_key: Some(k), ..m };
    if m.items.len() == 0 {
        (m, Verdict::Fatal(LoopError::NoItems))
    } else if is_quit(k) {
        (m, if m.dirty { Verdict::Delete(m.items) } else { Verdict::Abort })
    } else if is_clear(k) {
        (Model { cursor: None, ..pressed }, Verdict::Continue)
    } else if is_down(k) {
        (
            Model { cursor: Some(next_index(m.cursor, m.items.len()) as usize), ..pressed },
            Verdict::Continue,
        )
    } else if is_up(k) {
        (
            Model { cursor: Some(previous_index(m.cursor, m.items.len()) as usize), ..pressed },
            Verdict::Continue,
        )
    } else if is_delete(k) && m.last_key == Some(Key::Char('d')) {
        match m.cursor {
            None => (m, Verdict::Fatal(LoopError::NoSelection)),
            Some(i) => (
                Model {
                    items: m.items.remove(i as int),
                    cursor: cursor_after_remove(i, (m.items.len() - 1) as nat),
                    dirty: true,
                    removed: m.removed.push(i as int),
                    ..pressed
                },
                Verdict::Continue,
            ),
        }
    } else if k == Key::Enter {
        match m.cursor {
            None => (m, Verdict::Fatal(LoopError::NoSelection)),
            Some(i) => (m, Verdict::Select(m.items[i as int])),
        }
    } else {
        (pressed, Verdict::Continue)
    }
}

/// The session after the keys `keys`: before each key the list must hold an
/// item, and the first key that ends the session ends the run.
pub open spec fn run(m: Model, keys: Seq<Key>) -> (Model, Verdict)
    decreases keys.len(),
{
    if m.items.len() == 0 {
        (m, Verdict::Fatal(LoopError::NoItems))
    } else if keys.len() == 0 {
        (m, Verdict::Continue)
    } else {
        let (next, v) = step(m, keys[0]);
        if v == Verdict::Continue {
            run(next, keys.drop_first())
        } else {
            (next, v)
        }
    }
}

pub open spec fn text_of<'a>(p: (&'a str, usize)) -> Seq<char> {
    p.0@
}

pub open spec fn texts<'a>(s: Seq<(&'a str, usize)>) -> Seq<Seq<char>> {
    s.map_values(|p: (&'a str, usize)| text_of(p))
}

pub open spec fn string_texts(v: Seq<String>) -> Seq<Seq<char>> {
    v.map_values(|s: String| s@)
}

impl ClipboardState {
    pub open spec fn view(&self) -> Verdict {
        match self {
            ClipboardState::Delete(v) => Verdict::Delete(string_texts(v@)),
            ClipboardState::Select(s) => Verdict::Select(s@),
            ClipboardState::Abort => Verdict::Abort,
        }
    }
}

impl Step {
    pub open spec fn view(&self) -> Verdict {
        match self {
            Step::Continue => Verdict::Continue,
            Step::Finish(c) => c@,
            Step::Fail(e) => Verdict::Fatal(*e),
        }
    }
}

/// The entries shown by the list view, each with its position in the history.
pub struct App<'a> {
    items: StatefulList<(&'a str, usize)>,
}

impl<'a> App<'a> {
    pub closed spec fn spec_list(&self) -> StatefulList<(&'a str, usize)> {
        self.items
    }

    pub open spec fn spec_texts(&self) -> Seq<Seq<char>> {
        texts(self.spec_list().spec_items())
    }

    /// The entries `li` in order, with nothing selected.
    pub fn new(li: Vec<&'a str>) -> (r: App<'a>)
        ensures
            r.spec_list().spec_items().len() == li@.len(),
            forall|i: int|
                0 <= i < li@.len() ==> #[trigger] r.spec_list().spec_items()[i] == (li@[i], i as usize),
            r.spec_texts() == li@.map_values(|s: &'a str| s@),
            r.spec_list().spec_cursor() is None,
            r.spec_list().wf(),
    {
        let mut list_items: Vec<(&'a str, usize)> = Vec::new();
        let mut i: usize = 0;
        while i < li.len()
            invariant
                i <= li@.len(),
                list_items@.len() == i,
                forall|j: int| 0 <= j < i ==> #[trigger] list_items@[j] == (li@[j], j as usize),
            decreases li@.len() - i,
        {
            list_items.push((li[i], i));
            i = i + 1;
        }
        let r = App { items: StatefulList::with_items(list_items) };
        assert(r.spec_texts() =~= li@.map_values(|s: &'a str| s@));
        r
    }

    /// The texts of the entries, in order, as owned strings.
    pub fn owned_texts(&self) -> (r: Vec<String>)
        ensures
            string_texts(r@) == self.spec_texts(),
    {
        let items = &self.items.items;
        let mut out: Vec<String> = Vec::new();
        let mut i: usize = 0;
        while i < items.len()
            invariant
                i <= items@.len(),
                items@ == self.spec_list().spec_items(),
                out@.len() == i,
                forall|j: int| 0 <= j < i ==> #[trigger] out@[j]@ == items@[j].0@,
            decreases items@.len() - i,
        {
            out.push(items[i].0.to_owned());
            i = i + 1;
        }
        assert(string_texts(out@) =~= self.spec_texts());
        out
    }

    /// The list behind the view, for drawing.
    pub fn list(&self) -> (r: &StatefulList<(&'a str, usize)>)
        ensures
            *r == self.spec_list(),
    {
        &self.items
    }
}

/// How long the loop waits for input, in milliseconds: what is left of the
/// tick interval `tick_ms` after `elapsed_ms`, and never less than nothing.
pub fn poll_timeout(tick_ms: u64, elapsed_ms: u64) -> (r: u64)
    ensures
        r == if elapsed_ms >= tick_ms { 0 } else { tick_ms - elapsed_ms },
{
    if elapsed_ms >= tick_ms {
        0
    } else {
        tick_ms - elapsed_ms
    }
}

/// Every key keeps a session consistent: the cursor stays absent or on an
/// item, the session is dirty exactly when something was deleted, and the
/// items are the initial texts minus the deletions, in order.  A deletion is
/// recorded exactly when a `dd` chord completes on a selected item.  A deletion
/// quit hands out exactly those items; a plain quit happens only when nothing
/// was deleted.
pub proof fn lemma_step_consistent(m: Model, k: Key)
    requires
        consistent(m),
    ensures
        consistent(step(m, k).0),
        step(m, k).0.initial == m.initial,
        step(m, k).0.removed == if m.items.len() > 0 && is_delete(k) && m.last_key == Some(
            Key::Char('d'),
        ) && m.cursor is Some {
            m.removed.push(m.cursor.unwrap() as int)
        } else {
            m.removed
        },
        step(m, k).1 is Delete ==> step(m, k).1 == Verdict::Delete(
            remove_all(m.initial, m.removed),
        ) && m.removed.len() > 0,
        step(m, k).1 is Abort ==> m.removed.len() == 0 && m.items == m.initial,
{
    if step(m, k).0.removed != m.removed {
        assert(step(m, k).0.removed.drop_last() =~= m.removed);
    }
}

/// A session at its start is consistent.
pub proof fn lemma_start_consistent(items: Seq<Seq<char>>)
    requires
        items.len() <= usize::MAX,
    ensures
        consistent(start(items)),
{
}

/// The interaction state of one session of the list view.
pub struct Interaction<'a> {
    app: App<'a>,
    last_key: Option<Key>,
    dirty: bool,
    initial: Ghost<Seq<Seq<char>>>,
    removed: Ghost<Seq<int>>,
}

impl<'a> Interaction<'a> {
    pub closed spec fn view(&self) -> Model {
        Model {
            initial: self.initial@,
            items: self.app.spec_texts(),
            cursor: self.app.spec_list().spec_cursor(),
            last_key: self.last_key,
            dirty: self.dirty,
            removed: self.removed@,
        }
    }

    pub closed spec fn wf(&self) -> bool {
        &&& consistent(self@)
        &&& self.app.spec_list().wf()
    }

    pub closed spec fn spec_app(&self) -> App<'a> {
        self.app
    }

    /// A session over the entries of `app`, with no key pressed yet and the
    /// cursor on the first entry.
    pub fn new(app: App<'a>) -> (r: Interaction<'a>)
        requires
            app.spec_list().spec_cursor() is None,
        ensures
            r@ == start(app.spec_texts()),
            r.wf(),
    {
        let ghost initial = app.spec_texts();
        let mut app = app;
        if app.items.items.len() > 0 {
            app.items.select(0);
        }
        let r = Interaction {
            app,
            last_key: None,
            dirty: false,
            initial: Ghost(initial),
            removed: Ghost(Seq::empty()),
        };
        r
    }

    /// The entries shown, for drawing.
    pub fn app(&self) -> (r: &App<'a>)
        ensures
            *r == self.spec_app(),
            r.spec_texts() == self@.items,
            r.spec_list().spec_cursor() == self@.cursor,
    {
        &self.app
    }

    /// Handles one key press, as `step` describes: quitting, moving or
    /// clearing the cursor, completing the `dd` delete chord, or confirming
    /// the selected entry.
    pub fn handle_key(&mut self, key: Key) -> (r: Step)
        requires
            old(self).wf(),
        ensures
            final(self).wf(),
            (final(self)@, r@) == step(old(self)@, key),
    {
        proof {
            lemma_step_consistent(self@, key);
        }
        if self.app.items.items.len() == 0 {
            return Step::Fail(LoopError::NoItems);
        }
        match key {
            Key::Char('q') => {
                if self.dirty {
                    return Step::Finish(ClipboardState::Delete(self.app.owned_texts()));
                } else {
                    return Step::Finish(ClipboardState::Abort);
                }
            },
            Key::Left | Key::Char('h') => self.app.items.unselect(),
            Key::Down | Key::Char('j') => self.app.items.next(),
            Key::Up | Key::Char('k') => self.app.items.previous(),
            Key::Char('d') => {
                if let Some(Key::Char('d')) = self.last_key {
                    match self.app.items.cursor {
                        None => {
                            return Step::Fail(LoopError::NoSelection);
                        },
                        Some(index) => {
                            let ghost before = self.app.spec_list().spec_items();
                            self.app.items.remove_selected();
                            proof {
                                assert(texts(before.remove(index as int)) =~= texts(
                                    before,
                                ).remove(index as int));
                            }
                            self.dirty = true;
                            self.removed = Ghost(self.removed@.push(index as int));
                        },
                    }
                }
            },
            Key::Enter => {
                match self.app.items.cursor {
                    None => {
                        return Step::Fail(LoopError::NoSelection);
                    },
                    Some(index) => {
                        let item: &str = self.app.items.items[index].0;
                        return Step::Finish(ClipboardState::Select(item.to_owned()));
                    },
                }
            },
            _ => {},
        }
        self.last_key = Some(key);
        Step::Continue
    }

    /// Fails when the list is empty: checked at the top of every iteration,
    /// before any input is read.
    pub fn check_items(&self) -> (r: Result<(), LoopError>)
        ensures
            r is Ok <==> self@.items.len() > 0,
            r is Err ==> r == Err::<(), LoopError>(LoopError::NoItems),
    {
        if self.app.items.items.len() == 0 {
            Err(LoopError::NoItems)
        } else {
            Ok(())
        }
    }
}

} // verus!
