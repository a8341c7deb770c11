//! The shared playlist: an ordered list of files with a current position.
use vstd::prelude::*;

verus! {

/// One playlist entry. `duration` is in milliseconds, when known.
#[derive(Debug, PartialEq)]
pub struct PlaylistItem {
    pub filename: String,
    pub duration: Option<u64>,
}

impl Clone for PlaylistItem {
    fn clone(&self) -> (r: Self)
        ensures
            r == *self,
    {
        PlaylistItem { filename: self.filename.clone(), duration: self.duration }
    }
}

impl PlaylistItem {
    pub fn new(filename: String) -> (r: Self)
        ensures
            r.filename == filename,
            r.duration is None,
    {
        PlaylistItem { filename, duration: None }
    }

    pub fn with_duration(filename: String, duration: u64) -> (r: Self)
        ensures
            r.filename == filename,
            r.duration == Some(duration),
    {
        PlaylistItem { filename, duration: Some(duration) }
    }
}

/// Where the current index goes when the item at `from` moves to `to`: it
/// keeps designating the same item.
pub open spec fn reordered_index(cur: nat, from: nat, to: nat) -> nat {
    if cur == from {
        to
    } else if from < cur && to >= cur {
        (cur - 1) as nat
    } else if from > cur && to <= cur {
        cur + 1
    } else {
        cur
    }
}

/// Where the current index goes when the item at `index` is removed from a
/// list that then has `new_len` items.
pub open spec fn index_after_removal(cur: nat, index: nat, new_len: nat) -> Option<nat> {
    if cur == index {
        if new_len == 0 {
            None
        } else if cur >= new_len {
            Some((new_len - 1) as nat)
        } else {
            Some(cur)
        }
    } else if cur > index {
        Some((cur - 1) as nat)
    } else {
        Some(cur)
    }
}

/// A fresh entry for `filename`, of unknown duration.
pub open spec fn fresh_item(filename: String) -> PlaylistItem {
    PlaylistItem { filename, duration: None }
}

pub open spec fn current_after_removal(cur: Option<nat>, index: nat, new_len: nat) -> Option<nat> {
    match cur {
        Some(c) => index_after_removal(c, index, new_len),
        None => None,
    }
}

pub open spec fn current_after_reorder(cur: Option<nat>, from: nat, to: nat) -> Option<nat> {
    match cur {
        Some(c) => Some(reordered_index(c, from, to)),
        None => None,
    }
}

/// An ordered list of files and the index of the current one.
pub struct Playlist {
    items: Vec<PlaylistItem>,
    current_index: Option<usize>,
}

impl Playlist {
    pub closed spec fn items(&self) -> Seq<PlaylistItem> {
        self.items@
    }

    pub closed spec fn current(&self) -> Option<nat> {
        match self.current_index {
            Some(i) => Some(i as nat),
            None => None,
        }
    }

    /// The current index is absent exactly when the list is empty, and
    /// otherwise designates an item.
    pub open spec fn wf(&self) -> bool {
        match self.current() {
            None => self.items().len() == 0,
            Some(i) => i < self.items().len(),
        }
    }

    pub fn new() -> (r: Self)
        ensures
            r.wf(),
            r.items() == Seq::<PlaylistItem>::empty(),
    {
        Playlist { items: Vec::new(), current_index: None }
    }

    /// A copy of the items, in order.
    pub fn get_items(&self) -> (r: Vec<PlaylistItem>)
        ensures
            r@ == self.items(),
    {
        let mut out: Vec<PlaylistItem> = Vec::new();
        let mut i: usize = 0;
        while i < self.items.len()
            invariant
                i <= self.items@.len(),
                out@ == self.items@.subrange(0, i as int),
            decreases self.items@.len() - i,
        {
            out.push(self.items[i].clone());
            proof {
                assert(out@ =~= self.items@.subrange(0, i + 1));
            }
            i = i + 1;
        }
        proof {
            assert(out@ =~= self.items@);
        }
        out
    }

    pub fn get_current_index(&self) -> (r: Option<usize>)
        ensures
            match r {
                Some(i) => self.current() == Some(i as nat),
                None => self.current() is None,
            },
    {
        self.current_index
    }

    /// The current item, if any.
    pub fn get_current_item(&self) -> (r: Option<PlaylistItem>)
        requires
            self.wf(),
        ensures
            match self.current() {
                Some(i) => r == Some(self.items()[i as int]),
                None => r is None,
            },
    {
        match self.current_index {
            Some(i) => Some(self.items[i].clone()),
            None => None,
        }
    }

    /// Replaces the whole list; the first item becomes current.
    pub fn set_items(&mut self, items: Vec<String>)
        ensures
            final(self).wf(),
            final(self).items().len() == items@.len(),
            forall|k: int|
                0 <= k < items@.len() ==> #[trigger] final(self).items()[k] == fresh_item(items@[k]),
            items@.len() > 0 ==> final(self).current() == Some(0nat),
    {
        let mut out: Vec<PlaylistItem> = Vec::new();
        let n = items.len();
        let mut k: usize = 0;
        while k < n
            invariant
                n == items@.len(),
                k <= n,
                k == out@.len(),
                forall|j: int|
                    0 <= j < k ==> #[trigger] out@[j] == fresh_item(items@[j]),
            decreases n - k,
        {
            out.push(PlaylistItem::new(items[k].clone()));
            k = k + 1;
        }
        self.items = out;
        self.current_index = if n > 0 {
            Some(0)
        } else {
            None
        };
    }

    /// Appends an item; on an empty list it becomes current.
    pub fn add_item(&mut self, filename: String)
        requires
            old(self).wf(),
        ensures
            final(self).wf(),
            final(self).items() == old(self).items().push(fresh_item(filename)),
            old(self).items().len() == 0 ==> final(self).current() == Some(0nat),
            old(self).items().len() > 0 ==> final(self).current() == old(self).current(),
    {
        self.items.push(PlaylistItem::new(filename));
        if self.items.len() == 1 {
            self.current_index = Some(0);
        }
    }

    /// Removes the item at `index`; false, with nothing changed, when there
    /// is no such item. The current index keeps designating the same item,
    /// moves to the new last item when the current one was last, and is
    /// cleared when the list becomes empty.
    pub fn remove_item(&mut self, index: usize) -> (r: bool)
        requires
            old(self).wf(),
        ensures
            final(self).wf(),
            r == (index < old(self).items().len()),
            !r ==> final(self).items() == old(self).items() && final(self).current() == old(
                self,
            ).current(),
            r ==> final(self).items() == old(self).items().remove(index as int),
            r ==> final(self).current() == current_after_removal(
                old(self).current(),
                index as nat,
                final(self).items().len(),
            ),
    {
        if index >= self.items.len() {
            return false;
        }
        self.items.remove(index);
        match self.current_index {
            Some(c) => {
                if c == index {
                    if self.items.len() == 0 {
                        self.current_index = None;
                    } else if c >= self.items.len() {
                        self.current_index = Some(self.items.len() - 1);
                    }
                } else if c > index {
                    self.current_index = Some(c - 1);
                }
            },
            None => {},
        }
        true
    }

    /// Makes `index` current; false, with nothing changed, when there is no
    /// such item.
    pub fn set_current_index(&mut self, index: usize) -> (r: bool)
        requires
            old(self).wf(),
        ensures
            final(self).wf(),
            final(self).items() == old(self).items(),
            r == (index < old(self).items().len()),
            r ==> final(self).current() == Some(index as nat),
            !r ==> final(self).current() == old(self).current(),
    {
        if index >= self.items.len() {
            return false;
        }
        self.current_index = Some(index);
        true
    }

    /// Moves to the next item, wrapping to the first after the last.
    pub fn next(&mut self) -> (r: Option<PlaylistItem>)
        requires
            old(self).wf(),
        ensures
            final(self).wf(),
            final(self).items() == old(self).items(),
            old(self).items().len() == 0 ==> r is None && final(self).current() is None,
            old(self).items().len() > 0 ==> {
                let c = old(self).current()->0;
                let n = if c + 1 < old(self).items().len() {
                    c + 1
                } else {
                    0
                };
                final(self).current() == Some(n as nat) && r == Some(old(self).items()[n as int])
            },
    {
        if self.items.len() == 0 {
            return None;
        }
        let next_index = match self.current_index {
            Some(i) => if i + 1 < self.items.len() {
                i + 1
            } else {
                0
            },
            None => 0,
        };
        self.current_index = Some(next_index);
        Some(self.items[next_index].clone())
    }

    /// Moves to the next item. After the last item it wraps to the first
    /// only when `loop_at_end` is set; otherwise it stays and gives `None`.
    pub fn next_with_loop(&mut self, loop_at_end: bool) -> (r: Option<PlaylistItem>)
        requires
            old(self).wf(),
        ensures
            final(self).wf(),
            final(self).items() == old(self).items(),
            old(self).items().len() == 0 ==> r is None && final(self).current() is None,
            old(self).items().len() > 0 ==> {
                let c = old(self).current()->0;
                if c + 1 < old(self).items().len() {
                    final(self).current() == Some(c + 1) && r == Some(old(self).items()[(c + 1) as int])
                } else if loop_at_end {
                    final(self).current() == Some(0nat) && r == Some(old(self).items()[0])
                } else {
                    final(self).current() == old(self).current() && r is None
                }
            },
    {
        if self.items.len() == 0 {
            return None;
        }
        let c = match self.current_index {
            Some(i) => i,
            None => 0,
        };
        if c + 1 < self.items.len() {
            self.current_index = Some(c + 1);
            Some(self.items[c + 1].clone())
        } else if loop_at_end {
            self.current_index = Some(0);
            Some(self.items[0].clone())
        } else {
            None
        }
    }

    /// Moves to the previous item, wrapping to the last before the first.
    pub fn previous(&mut self) -> (r: Option<PlaylistItem>)
        requires
            old(self).wf(),
        ensures
            final(self).wf(),
            final(self).items() == old(self).items(),
            old(self).items().len() == 0 ==> r is None && final(self).current() is None,
            old(self).items().len() > 0 ==> {
                let c = old(self).current()->0;
                let p = if c == 0 {
                    old(self).items().len() - 1
                } else {
                    c - 1
                };
                final(self).current() == Some(p as nat) && r == Some(old(self).items()[p as int])
            },
    {
        if self.items.len() == 0 {
            return None;
        }
        let prev_index = match self.current_index {
            Some(i) => if i == 0 {
                self.items.len() - 1
            } else {
                i - 1
            },
            None => self.items.len() - 1,
        };
        self.current_index = Some(prev_index);
        Some(self.items[prev_index].clone())
    }

    pub fn clear(&mut self)
        ensures
            final(self).wf(),
            final(self).items() == Seq::<PlaylistItem>::empty(),
    {
        self.items.clear();
        self.current_index = None;
    }

    pub fn len(&self) -> (r: usize)
        ensures
            r == self.items().len(),
    {
        self.items.len()
    }

    pub fn is_empty(&self) -> (r: bool)
        ensures
            r == (self.items().len() == 0),
    {
        self.items.len() == 0
    }

    /// Moves the item at `from_index` to `to_index`; false, with nothing
    /// changed, when either index is out of range. The current index keeps
    /// designating the same item.
    pub fn reorder(&mut self, from_index: usize, to_index: usize) -> (r: bool)
        requires
            old(self).wf(),
        ensures
            final(self).wf(),
            r == (from_index < old(self).items().len() && to_index < old(self).items().len()),
            !r ==> final(self).items() == old(self).items() && final(self).current() == old(
                self,
            ).current(),
            r ==> final(self).items() == old(self).items().remove(from_index as int).insert(
                to_index as int,
                old(self).items()[from_index as int],
            ),
            r ==> final(self).current() == current_after_reorder(
                old(self).current(),
                from_index as nat,
                to_index as nat,
            ),
    {
        if from_index >= self.items.len() || to_index >= self.items.len() {
            return false;
        }
        if from_index == to_index {
            proof {
                assert(self.items@.remove(from_index as int).insert(
                    to_index as int,
                    self.items@[from_index as int],
                ) =~= self.items@);
            }
            return true;
        }
        let item = self.items.remove(from_index);
        self.items.insert(to_index, item);
        match self.current_index {
            Some(c) => {
                if c == from_index {
                    self.current_index = Some(to_index);
                } else if from_index < c && to_index >= c {
                    self.current_index = Some(c - 1);
                } else if from_index > c && to_index <= c {
                    self.current_index = Some(c + 1);
                }
            },
            None => {},
        }
        true
    }
}

impl Default for Playlist {
    fn default() -> (r: Self)
        ensures
            r.wf(),
            r.items() == Seq::<PlaylistItem>::empty(),
    {
        Playlist::new()
    }
}

/// One playlist operation.
pub enum PlaylistOp {
    Add(Seq<char>),
    Remove(nat),
    SetCurrent(nat),
    Reorder(nat, nat),
    Next,
    Previous,
}

/// The list and current index that `op` leaves, as the operations' own
/// contracts state it.
pub open spec fn apply_op(items: Seq<Seq<char>>, cur: Option<nat>, op: PlaylistOp) -> (Seq<
    Seq<char>,
>, Option<nat>) {
    match op {
        PlaylistOp::Add(f) => (items.push(f), if items.len() == 0 {
            Some(0nat)
        } else {
            cur
        }),
        PlaylistOp::Remove(i) => if i < items.len() {
            (items.remove(i as int), current_after_removal(cur, i, (items.len() - 1) as nat))
        } else {
            (items, cur)
        },
        PlaylistOp::SetCurrent(i) => if i < items.len() {
            (items, Some(i))
        } else {
            (items, cur)
        },
        PlaylistOp::Reorder(f, t) => if f < items.len() && t < items.len() {
            (items.remove(f as int).insert(t as int, items[f as int]), current_after_reorder(cur, f, t))
        } else {
            (items, cur)
        },
        PlaylistOp::Next => if items.len() == 0 {
            (items, cur)
        } else {
            (items, Some(
                if cur->0 + 1 < items.len() {
                    cur->0 + 1
                } else {
                    0nat
                },
            ))
        },
        PlaylistOp::Previous => if items.len() == 0 {
            (items, cur)
        } else {
            (items, Some(
                if cur->0 == 0 {
                    (items.len() - 1) as nat
                } else {
                    (cur->0 - 1) as nat
                },
            ))
        },
    }
}

/// The state after running `ops` in order from `(items, cur)`.
pub open spec fn apply_ops(items: Seq<Seq<char>>, cur: Option<nat>, ops: Seq<PlaylistOp>) -> (Seq<
    Seq<char>,
>, Option<nat>)
    decreases ops.len(),
{
    if ops.len() == 0 {
        (items, cur)
    } else {
        let (i2, c2) = apply_ops(items, cur, ops.drop_last());
        apply_op(i2, c2, ops.last())
    }
}

pub open spec fn index_ok(len: nat, cur: Option<nat>) -> bool {
    match cur {
        None => len == 0,
        Some(i) => i < len,
    }
}

/// Every sequence of add, remove, set-current, reorder, next and previous
/// keeps the current index absent exactly when the list is empty, and in
/// range otherwise.
pub proof fn lemma_ops_keep_index_valid(items: Seq<Seq<char>>, cur: Option<nat>, ops: Seq<PlaylistOp>)
    requires
        index_ok(items.len(), cur),
    ensures
        index_ok(apply_ops(items, cur, ops).0.len(), apply_ops(items, cur, ops).1),
    decreases ops.len(),
{
    if ops.len() > 0 {
        lemma_ops_keep_index_valid(items, cur, ops.drop_last());
    }
}

} // verus!
