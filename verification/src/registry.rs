//! The books that a container keeps on what was derived from it: the handles of
//! its open files and the slots of its open search sessions.

use vstd::prelude::*;
use crate::call::Call;

verus! {

/// `i` is the position of the first occurrence of `h` in `s`.
pub open spec fn first_at(s: Seq<i32>, h: i32, i: int) -> bool {
    &&& 0 <= i < s.len()
    &&& s[i] == h
    &&& forall|j: int| 0 <= j < i ==> s[j] != h
}

/// `s` without the first occurrence of `h`; `s` itself where `h` does not occur.
pub open spec fn without(s: Seq<i32>, h: i32) -> Seq<i32> {
    if exists|i: int| first_at(s, h, i) {
        s.remove(choose|i: int| first_at(s, h, i))
    } else {
        s
    }
}

/// `i` is the lowest slot of `s` that is free.
pub open spec fn free_at(s: Seq<bool>, i: int) -> bool {
    &&& 0 <= i < s.len()
    &&& !s[i]
    &&& forall|j: int| 0 <= j < i ==> s[j]
}

/// The slot that the next session gets: the lowest free one, or a new one at the
/// end where all are taken.
pub open spec fn next_slot(s: Seq<bool>) -> int {
    if exists|i: int| free_at(s, i) {
        choose|i: int| free_at(s, i)
    } else {
        s.len() as int
    }
}

/// The slots `s` with slot `i` taken.
pub open spec fn taken(s: Seq<bool>, i: int) -> Seq<bool> {
    if i < s.len() {
        s.update(i, true)
    } else {
        s.push(true)
    }
}

/// The calls that close the files `handles`, in their order.
pub open spec fn file_closes(handles: Seq<i32>) -> Seq<Call> {
    Seq::new(handles.len(), |i: int| Call::CloseFile { handle: handles[i] })
}

/// The calls that close the sessions in the taken slots of `slots`, lowest slot
/// first.
pub open spec fn search_closes(slots: Seq<bool>) -> Seq<Call>
    decreases slots.len(),
{
    if slots.len() == 0 {
        Seq::empty()
    } else if slots.last() {
        search_closes(slots.drop_last()).push(
            Call::CloseSearchResult { session: (slots.len() - 1) as usize },
        )
    } else {
        search_closes(slots.drop_last())
    }
}

/// A first occurrence, where there is one, is at one position only.
pub proof fn first_at_unique(s: Seq<i32>, h: i32, i: int, j: int)
    requires
        first_at(s, h, i),
        first_at(s, h, j),
    ensures
        i == j,
{
    if i < j {
        assert(s[i] != h);
    } else if j < i {
        assert(s[j] != h);
    }
}

/// A handle that occurs in `s` at `i` has a first occurrence, at `i` or before.
pub proof fn first_exists(s: Seq<i32>, h: i32, i: int)
    requires
        0 <= i < s.len(),
        s[i] == h,
    ensures
        exists|k: int| 0 <= k <= i && first_at(s, h, k),
    decreases i,
{
    if forall|j: int| 0 <= j < i ==> s[j] != h {
        assert(first_at(s, h, i));
    } else {
        let j = choose|j: int| 0 <= j < i && s[j] == h;
        first_exists(s, h, j);
        let k = choose|k: int| 0 <= k <= j && first_at(s, h, k);
        assert(0 <= k <= i && first_at(s, h, k));
    }
}

/// A lowest free slot, where there is one, is one slot only.
pub proof fn free_at_unique(s: Seq<bool>, i: int, j: int)
    requires
        free_at(s, i),
        free_at(s, j),
    ensures
        i == j,
{
    if i < j {
        assert(s[i]);
    } else if j < i {
        assert(s[j]);
    }
}

/// The slot that the next session gets was free, and taking it disturbs no other
/// slot: a session that is open keeps its slot, and no two open sessions share
/// one.
pub proof fn next_slot_was_free(s: Seq<bool>)
    ensures
        0 <= next_slot(s) <= s.len(),
        next_slot(s) < s.len() ==> !s[next_slot(s)],
        taken(s, next_slot(s)).len() >= s.len(),
        taken(s, next_slot(s))[next_slot(s)],
        forall|j: int| 0 <= j < s.len() && j != next_slot(s) ==> taken(s, next_slot(s))[j] == s[j],
{
    if exists|i: int| free_at(s, i) {
        let i = choose|i: int| free_at(s, i);
        assert(free_at(s, i));
    }
}

/// Striking one handle from the books strikes no other: a handle other than `h`
/// is in the books afterwards exactly if it was before.
pub proof fn without_keeps_others(s: Seq<i32>, h: i32, g: i32)
    requires
        g != h,
    ensures
        without(s, h).contains(g) <==> s.contains(g),
{
    if exists|i: int| first_at(s, h, i) {
        let i = choose|i: int| first_at(s, h, i);
        let t = s.remove(i);
        if s.contains(g) {
            let k = s.index_of(g);
            if k < i {
                assert(t[k] == g);
            } else {
                assert(t[k - 1] == g);
            }
        }
        if t.contains(g) {
            let k = t.index_of(g);
            if k < i {
                assert(s[k] == g);
            } else {
                assert(s[k + 1] == g);
            }
        }
    }
}

/// Striking a handle from the books takes one entry away where the handle is in
/// them, and none where it is not.
pub proof fn without_len(s: Seq<i32>, h: i32)
    ensures
        without(s, h).len() == if s.contains(h) {
            s.len() - 1
        } else {
            s.len() as int
        },
{
    if s.contains(h) {
        first_exists(s, h, s.index_of(h));
    } else if exists|i: int| first_at(s, h, i) {
        let i = choose|i: int| first_at(s, h, i);
        assert(s[i] == h);
    }
}

/// A session is closed by the calls for `slots` exactly if its slot is taken.
pub proof fn search_closes_has(slots: Seq<bool>, session: usize)
    requires
        slots.len() <= usize::MAX,
    ensures
        search_closes(slots).contains(Call::CloseSearchResult { session }) <==> (session
            < slots.len() && slots[session as int]),
    decreases slots.len(),
{
    let c = Call::CloseSearchResult { session };
    if slots.len() == 0 {
    } else {
        let rest = slots.drop_last();
        search_closes_has(rest, session);
        let last = Call::CloseSearchResult { session: (slots.len() - 1) as usize };
        if slots.last() {
            let all = search_closes(rest).push(last);
            if search_closes(rest).contains(c) {
                let k = choose|k: int| 0 <= k < search_closes(
                    rest,
                ).len() && search_closes(rest)[k] == c;
                assert(all[k] == c);
            }
            if session == slots.len() - 1 {
                assert(all[all.len() - 1] == c);
            }
            if all.contains(c) {
                let k = choose|k: int| 0 <= k < all.len() && all[k] == c;
                if k < search_closes(rest).len() {
                    assert(search_closes(rest)[k] == c);
                }
            }
        }
    }
}

/// Every call among those for `slots` closes a search session.
pub proof fn search_closes_only(slots: Seq<bool>, k: int)
    requires
        0 <= k < search_closes(slots).len(),
    ensures
        search_closes(slots)[k] is CloseSearchResult,
    decreases slots.len(),
{
    if slots.len() != 0 {
        let rest = slots.drop_last();
        if k < search_closes(rest).len() {
            search_closes_only(rest, k);
        }
    }
}

} // verus!
