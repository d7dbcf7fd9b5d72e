//! The clipboard history: an ordered list of texts, duplicates allowed.

use vstd::prelude::*;
use crate::app::string_texts;

verus! {

/// The stored history, oldest entry first.
#[derive(Clone, Debug, Default)]
pub struct ClipBoard {
    pub content: Vec<String>,
}

/// `i` is the position of the first text equal to `t` in `s`.
pub open spec fn is_first_position(s: Seq<Seq<char>>, t: Seq<char>, i: int) -> bool {
    &&& 0 <= i < s.len()
    &&& s[i] == t
    &&& forall|j: int| 0 <= j < i ==> s[j] != t
}

impl ClipBoard {
    pub open spec fn history(&self) -> Seq<Seq<char>> {
        string_texts(self.content@)
    }

    /// An empty history.
    pub fn new() -> (r: ClipBoard)
        ensures
            r.history() == Seq::<Seq<char>>::empty(),
    {
        let r = ClipBoard { content: Vec::new() };
        assert(r.history() =~= Seq::<Seq<char>>::empty());
        r
    }

    /// Appends `content` as the newest entry.
    pub fn add(&mut self, content: String)
        ensures
            final(self).history() == old(self).history().push(content@),
    {
        self.content.push(content);
        assert(final(self).history() =~= old(self).history().push(content@));
    }

    /// Removes the first entry equal to `item`; does nothing when there is none.
    pub fn remove(&mut self, item: &str)
        ensures
            (forall|j: int| 0 <= j < old(self).history().len() ==> old(self).history()[j] != item@)
                ==> final(self).history() == old(self).history(),
            forall|i: int|
                #[trigger] is_first_position(old(self).history(), item@, i) ==> final(self).history()
                    == old(self).history().remove(i),
    {
        let target: String = item.to_owned();
        let ghost h = self.history();
        let mut i: usize = 0;
        while i < self.content.len()
            invariant
                self.history() == h,
                h == old(self).history(),
                h.len() == self.content@.len(),
                target@ == item@,
                i <= self.content@.len(),
                forall|j: int| 0 <= j < i ==> h[j] != item@,
            decreases self.content@.len() - i,
        {
            assert(h[i as int] == self.content@[i as int]@);
            let same: bool = self.content[i] == target;
            if same {
                assert(self.content@[i as int]@ == item@);
                proof {
                    assert(h[i as int] == self.content@[i as int]@);
                    assert forall|p: int| #[trigger] is_first_position(h, item@, p) implies p == i by {
                        if p > i {
                            assert(h[i as int] != item@);
                        } else if p < i {
                            assert(h[p] != item@);
                        }
                    }
                    assert(old(self).history()[i as int] == item@);
                }
                self.content.remove(i);
                assert(self.history() =~= h.remove(i as int));
                return;
            }
            i = i + 1;
        }
    }

    /// The entries as borrowed texts, in order: what the list view shows.
    pub fn entries(&self) -> (r: Vec<&str>)
        ensures
            r@.map_values(|s: &str| s@) == self.history(),
    {
        let mut out: Vec<&str> = Vec::new();
        let mut i: usize = 0;
        while i < self.content.len()
            invariant
                i <= self.content@.len(),
                out@.len() == i,
                forall|j: int| 0 <= j < i ==> #[trigger] out@[j]@ == self.content@[j]@,
            decreases self.content@.len() - i,
        {
            out.push(self.content[i].as_str());
            i = i + 1;
        }
        assert(out@.map_values(|s: &str| s@) =~= self.history());
        out
    }
}

} // verus!
