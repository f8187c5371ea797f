//! The window recency stack and its sequence model.

use vstd::prelude::*;

verus! {

/// True when no window id occurs twice in `s`.
pub open spec fn no_dups(s: Seq<usize>) -> bool {
    forall|i: int, j: int| 0 <= i < j < s.len() ==> s[i] != s[j]
}

/// The sequence `s` with every occurrence of `id` removed, order kept.
pub open spec fn remove_id(s: Seq<usize>, id: usize) -> Seq<usize>
    decreases s.len(),
{
    if s.len() == 0 {
        Seq::empty()
    } else if s.last() == id {
        remove_id(s.drop_last(), id)
    } else {
        remove_id(s.drop_last(), id).push(s.last())
    }
}

/// The stack after recording `id` as most recent: any earlier occurrence is
/// removed, then `id` is appended at the tail.
pub open spec fn stack_after_push(s: Seq<usize>, id: usize) -> Seq<usize> {
    remove_id(s, id).push(id)
}

proof fn lemma_contains_split(s: Seq<usize>, x: usize)
    requires
        s.len() > 0,
    ensures
        s.contains(x) <==> (s.drop_last().contains(x) || s.last() == x),
{
    if s.drop_last().contains(x) {
        let i = choose|i: int| 0 <= i < s.drop_last().len() && s.drop_last()[i] == x;
        assert(s[i] == x);
    }
    if s.last() == x {
        assert(s[s.len() - 1] == x);
    }
    if s.contains(x) {
        let i = choose|i: int| 0 <= i < s.len() && s[i] == x;
        if i < s.len() - 1 {
            assert(s.drop_last()[i] == x);
        }
    }
}

/// An id is in the stack after a removal exactly when it was there before and
/// is not the removed one.
pub proof fn lemma_remove_id_contains(s: Seq<usize>, id: usize, x: usize)
    ensures
        remove_id(s, id).contains(x) <==> (s.contains(x) && x != id),
    decreases s.len(),
{
    if s.len() == 0 {
    } else {
        lemma_remove_id_contains(s.drop_last(), id, x);
        lemma_contains_split(s, x);
        if s.last() != id {
            lemma_contains_split(remove_id(s.drop_last(), id).push(s.last()), x);
            assert(remove_id(s.drop_last(), id).push(s.last()).drop_last() =~= remove_id(
                s.drop_last(),
                id,
            ));
        }
    }
}

proof fn lemma_no_dups_drop_last(s: Seq<usize>)
    requires
        s.len() > 0,
        no_dups(s),
    ensures
        no_dups(s.drop_last()),
        !s.drop_last().contains(s.last()),
{
    assert forall|i: int, j: int| 0 <= i < j < s.drop_last().len() implies s.drop_last()[i]
        != s.drop_last()[j] by {
        assert(s[i] == s.drop_last()[i]);
        assert(s[j] == s.drop_last()[j]);
    }
    if s.drop_last().contains(s.last()) {
        let i = choose|i: int| 0 <= i < s.drop_last().len() && s.drop_last()[i] == s.last();
        assert(s[i] == s[s.len() - 1]);
    }
}

proof fn lemma_no_dups_push(s: Seq<usize>, x: usize)
    requires
        no_dups(s),
        !s.contains(x),
    ensures
        no_dups(s.push(x)),
{
    assert forall|i: int, j: int| 0 <= i < j < s.push(x).len() implies s.push(x)[i] != s.push(
        x,
    )[j] by {
        if j == s.len() {
            assert(s.push(x)[i] == s[i]);
            if s[i] == x {
                assert(s.contains(x));
            }
        }
    }
}

/// Law: removing an id keeps the remaining entries pairwise distinct, and the
/// removed id is gone entirely.
pub proof fn lemma_remove_id_no_dups(s: Seq<usize>, id: usize)
    requires
        no_dups(s),
    ensures
        no_dups(remove_id(s, id)),
        !remove_id(s, id).contains(id),
    decreases s.len(),
{
    lemma_remove_id_contains(s, id, id);
    if s.len() > 0 {
        lemma_no_dups_drop_last(s);
        lemma_remove_id_no_dups(s.drop_last(), id);
        if s.last() != id {
            lemma_remove_id_contains(s.drop_last(), id, s.last());
            lemma_no_dups_push(remove_id(s.drop_last(), id), s.last());
        }
    }
}

/// Law: when `id` is absent, removal changes nothing.
pub proof fn lemma_remove_id_absent(s: Seq<usize>, id: usize)
    requires
        !s.contains(id),
    ensures
        remove_id(s, id) == s,
    decreases s.len(),
{
    if s.len() == 0 {
        assert(remove_id(s, id) =~= s);
    } else {
        lemma_contains_split(s, id);
        lemma_remove_id_absent(s.drop_last(), id);
        assert(remove_id(s, id) =~= s);
    }
}

/// Law: closing the active window pops exactly that entry. With distinct
/// entries, removing the last id leaves the earlier entries unchanged, so a
/// later "switch to previous" trigger reads the stack that remains.
pub proof fn lemma_close_active_pops(s: Seq<usize>)
    requires
        no_dups(s),
        s.len() > 0,
    ensures
        remove_id(s, s.last()) == s.drop_last(),
{
    lemma_no_dups_drop_last(s);
    lemma_remove_id_absent(s.drop_last(), s.last());
}

/// Law: recording a window as most recent never creates a duplicate entry.
pub proof fn lemma_push_preserves_no_dups(s: Seq<usize>, id: usize)
    requires
        no_dups(s),
    ensures
        no_dups(stack_after_push(s, id)),
{
    lemma_remove_id_no_dups(s, id);
    lemma_no_dups_push(remove_id(s, id), id);
}

/// Law: deleting a window keeps the remaining entries pairwise distinct.
pub proof fn lemma_delete_preserves_no_dups(s: Seq<usize>, id: usize)
    requires
        no_dups(s),
    ensures
        no_dups(remove_id(s, id)),
{
    lemma_remove_id_no_dups(s, id);
}

/// A stack of windows, ordered by when they were last focused. The last
/// entry is the currently focused window. No id appears twice.
pub struct WindowStack {
    ids: Vec<usize>,
}

impl View for WindowStack {
    type V = Seq<usize>;

    closed spec fn view(&self) -> Seq<usize> {
        self.ids@
    }
}

impl WindowStack {
    #[verifier::type_invariant]
    spec fn wf(self) -> bool {
        no_dups(self.ids@)
    }

    pub fn new() -> (s: Self)
        ensures
            s@ == Seq::<usize>::empty(),
    {
        // A generous guess at the number of open windows; the stack grows
        // past it if needed.
        Self::with_capacity(128)
    }

    pub fn with_capacity(capacity: usize) -> (s: Self)
        ensures
            s@ == Seq::<usize>::empty(),
    {
        WindowStack { ids: Vec::with_capacity(capacity) }
    }

    /// Record `win_id` as the most recently focused window.
    pub fn push(&mut self, win_id: usize)
        ensures
            final(self)@ == stack_after_push(old(self)@, win_id),
            no_dups(final(self)@),
    {
        proof {
            use_type_invariant(&*self);
        }
        self.delete(win_id);
        proof {
            lemma_push_preserves_no_dups(old(self)@, win_id);
        }
        let mut tail: Vec<usize> = Vec::new();
        core::mem::swap(&mut tail, &mut self.ids);
        tail.push(win_id);
        self.ids = tail;
    }

    /// Remove `win_id` wherever it occurs; doing so when it is absent is a
    /// no-op and is not an error.
    pub fn delete(&mut self, win_id: usize)
        ensures
            final(self)@ == remove_id(old(self)@, win_id),
            no_dups(final(self)@),
            !old(self)@.contains(win_id) ==> final(self)@ == old(self)@,
    {
        proof {
            use_type_invariant(&*self);
        }
        let ghost s0 = self.ids@;
        let n = self.ids.len();
        let mut kept: Vec<usize> = Vec::new();
        let mut i: usize = 0;
        while i < n
            invariant
                i <= n,
                n == self.ids.len(),
                self.ids@ == s0,
                kept@ == remove_id(s0.take(i as int), win_id),
            decreases n - i,
        {
            let x = self.ids[i];
            proof {
                let t = s0.take(i as int + 1);
                assert(t.drop_last() =~= s0.take(i as int));
                assert(t.last() == s0[i as int]);
            }
            if x != win_id {
                kept.push(x);
            }
            i = i + 1;
        }
        proof {
            assert(s0.take(n as int) =~= s0);
            lemma_remove_id_no_dups(s0, win_id);
            if !s0.contains(win_id) {
                lemma_remove_id_absent(s0, win_id);
            }
        }
        self.ids = kept;
    }

    /// "This window is now focused": the same operation as `push`.
    pub fn set_active(&mut self, win_id: usize)
        ensures
            final(self)@ == stack_after_push(old(self)@, win_id),
            no_dups(final(self)@),
    {
        self.push(win_id)
    }

    /// The most recently focused window, or `None` when the stack is empty.
    pub fn get_active(&self) -> (r: Option<usize>)
        ensures
            r == (if self@.len() == 0 {
                None::<usize>
            } else {
                Some(self@.last())
            }),
    {
        let len = self.ids.len();
        if len == 0 {
            None
        } else {
            Some(self.ids[len - 1])
        }
    }

    /// The window focused just before the active one, or `None` when fewer
    /// than two windows have been seen.
    pub fn get_previous(&self) -> (r: Option<usize>)
        ensures
            r == (if self@.len() > 1 {
                Some(self@[self@.len() - 2])
            } else {
                None::<usize>
            }),
    {
        let len = self.ids.len();
        if len > 1 {
            Some(self.ids[len - 2])
        } else {
            None
        }
    }

    /// Law: every reachable stack holds pairwise-distinct ids. This hands
    /// the type invariant to callers; it compiles to nothing.
    pub fn observe_no_dups(&self)
        ensures
            no_dups(self@),
    {
        proof {
            use_type_invariant(self);
        }
    }
}

} // verus!
