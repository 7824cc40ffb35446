//! Moving through a list as round a circle, and carrying an item along.

use vstd::prelude::*;

verus! {

/// Which way a navigation key moves.
#[derive(Clone, Copy, Debug, PartialEq, Eq, Structural)]
pub enum Direction {
    Forward,
    Backward,
}

impl Direction {
    /// The other direction.
    pub open spec fn reversed(self) -> Direction {
        match self {
            Direction::Forward => Direction::Backward,
            Direction::Backward => Direction::Forward,
        }
    }
}

/// The index after `i` on a circle of `n` places.
pub open spec fn next_index(i: int, n: int) -> int {
    (i + 1) % n
}

/// The index before `i` on a circle of `n` places.
pub open spec fn previous_index(i: int, n: int) -> int {
    (i - 1 + n) % n
}

/// The index that a move from `i` in `direction` arrives at.
pub open spec fn target_index(i: int, n: int, direction: Direction) -> int {
    match direction {
        Direction::Forward => next_index(i, n),
        Direction::Backward => previous_index(i, n),
    }
}

/// The index reached from `i` by `k` steps in `direction` on a circle of `n`
/// places.
pub open spec fn index_after(i: int, n: int, direction: Direction, k: nat) -> int
    decreases k,
{
    if k == 0 {
        i
    } else {
        target_index(index_after(i, n, direction, (k - 1) as nat), n, direction)
    }
}

/// `s` with the items at `i` and `j` exchanged.
pub open spec fn swapped<A>(s: Seq<A>, i: int, j: int) -> Seq<A> {
    s.update(i, s[j]).update(j, s[i])
}

/// `s` after the item at `i` has been carried one step in `direction`.
///
/// A step over the end of the list is no exchange: forward from the last
/// place the item goes to the front, backward from the first place it goes to
/// the back, and the others keep their order. Any other step exchanges the
/// item with its neighbour. A list of fewer than two items stays as it is.
pub open spec fn reordered<A>(s: Seq<A>, i: int, direction: Direction) -> Seq<A> {
    if s.len() <= 1 {
        s
    } else {
        match direction {
            Direction::Forward => if i == s.len() - 1 {
                s.remove(i).insert(0, s[i])
            } else {
                swapped(s, i, i + 1)
            },
            Direction::Backward => if i == 0 {
                s.remove(0).push(s[0])
            } else {
                swapped(s, i, i - 1)
            },
        }
    }
}

/// On a circle of `n` places the next index is `i + 1`, but for the last
/// place, whose next is 0; it is always a place of the circle.
pub proof fn lemma_next_index(i: int, n: int)
    requires
        0 <= i < n,
    ensures
        next_index(i, n) == if i == n - 1 { 0 } else { i + 1 },
        0 <= next_index(i, n) < n,
{
    if i == n - 1 {
        vstd::arithmetic::div_mod::lemma_mod_self_0(n);
    } else {
        vstd::arithmetic::div_mod::lemma_small_mod((i + 1) as nat, n as nat);
    }
}

/// On a circle of `n` places the previous index is `i - 1`, but for place 0,
/// whose previous is the last; it is always a place of the circle.
pub proof fn lemma_previous_index(i: int, n: int)
    requires
        0 <= i < n,
    ensures
        previous_index(i, n) == if i == 0 { n - 1 } else { i - 1 },
        0 <= previous_index(i, n) < n,
{
    if i == 0 {
        vstd::arithmetic::div_mod::lemma_small_mod((n - 1) as nat, n as nat);
    } else {
        vstd::arithmetic::div_mod::lemma_mod_add_multiples_vanish(i - 1, n);
        vstd::arithmetic::div_mod::lemma_small_mod((i - 1) as nat, n as nat);
    }
}

/// Going forward and then backward, or backward and then forward, leads back.
pub proof fn lemma_next_previous_inverse(i: int, n: int)
    requires
        0 <= i < n,
    ensures
        previous_index(next_index(i, n), n) == i,
        next_index(previous_index(i, n), n) == i,
{
    lemma_next_index(i, n);
    lemma_previous_index(i, n);
    lemma_previous_index(next_index(i, n), n);
    lemma_next_index(previous_index(i, n), n);
}

/// A step in one direction is undone by a step in the other.
pub proof fn lemma_target_index_reversed(i: int, n: int, direction: Direction)
    requires
        0 <= i < n,
    ensures
        0 <= target_index(i, n, direction) < n,
        target_index(target_index(i, n, direction), n, direction.reversed()) == i,
{
    lemma_next_previous_inverse(i, n);
    lemma_next_index(i, n);
    lemma_previous_index(i, n);
}

/// Up to `n` steps on a circle of `n` places: forward the index grows by the
/// number of steps, backward it falls by it, and what goes over the end
/// comes in again at the other.
pub proof fn lemma_index_after(i: int, n: int, direction: Direction, k: nat)
    requires
        0 <= i < n,
        k <= n,
    ensures
        0 <= index_after(i, n, direction, k) < n,
        index_after(i, n, direction, k) == match direction {
            Direction::Forward => if i + k < n {
                i + k
            } else {
                i + k - n
            },
            Direction::Backward => if k <= i {
                i - k
            } else {
                i - k + n
            },
        },
    decreases k,
{
    if k > 0 {
        lemma_index_after(i, n, direction, (k - 1) as nat);
        let before = index_after(i, n, direction, (k - 1) as nat);
        lemma_next_index(before, n);
        lemma_previous_index(before, n);
    }
}

/// As many steps as the circle has places lead back to where they began.
pub proof fn lemma_index_after_full_circle(i: int, n: int, direction: Direction)
    requires
        0 <= i < n,
    ensures
        index_after(i, n, direction, n as nat) == i,
{
    lemma_index_after(i, n, direction, n as nat);
}

/// However many steps are taken, the index stays on the circle.
pub proof fn lemma_index_after_in_range(i: int, n: int, direction: Direction, k: nat)
    requires
        0 <= i < n,
    ensures
        0 <= index_after(i, n, direction, k) < n,
    decreases k,
{
    if k > 0 {
        lemma_index_after_in_range(i, n, direction, (k - 1) as nat);
        let before = index_after(i, n, direction, (k - 1) as nat);
        lemma_next_index(before, n);
        lemma_previous_index(before, n);
    }
}

/// Carrying an item one step is the same as taking it out and putting it in
/// again at the index the step arrives at; the other items keep their order.
pub proof fn lemma_reordered_as_insert<A>(s: Seq<A>, i: int, direction: Direction)
    requires
        0 <= i < s.len(),
    ensures
        reordered(s, i, direction) == s.remove(i).insert(
            target_index(i, s.len() as int, direction),
            s[i],
        ),
        reordered(s, i, direction).remove(target_index(i, s.len() as int, direction)) == s.remove(
            i,
        ),
{
    let n = s.len() as int;
    let target = target_index(i, n, direction);
    lemma_next_index(i, n);
    lemma_previous_index(i, n);
    assert(reordered(s, i, direction) =~= s.remove(i).insert(target, s[i]));
    assert(s.remove(i).insert(target, s[i]).remove(target) =~= s.remove(i));
}

/// Carrying an item one step and then one step back leaves the list as it
/// was.
pub proof fn lemma_reordered_there_and_back<A>(s: Seq<A>, i: int, direction: Direction)
    requires
        0 <= i < s.len(),
    ensures
        reordered(
            reordered(s, i, direction),
            target_index(i, s.len() as int, direction),
            direction.reversed(),
        ) == s,
{
    let n = s.len() as int;
    let target = target_index(i, n, direction);
    let there = reordered(s, i, direction);
    lemma_target_index_reversed(i, n, direction);
    lemma_reordered_as_insert(s, i, direction);
    lemma_reordered_as_insert(there, target, direction.reversed());
    assert(there[target] == s[i]);
    assert(s.remove(i).insert(i, s[i]) =~= s);
}

/// Exchanging two items loses or adds nothing.
pub proof fn lemma_swapped_multiset<A>(s: Seq<A>, i: int, j: int)
    requires
        0 <= i < s.len(),
        0 <= j < s.len(),
    ensures
        swapped(s, i, j).to_multiset() == s.to_multiset(),
{
    broadcast use {
        vstd::seq_lib::group_to_multiset_ensures,
        vstd::multiset::group_multiset_axioms,
    };

    assert(s.contains(s[i]));
    assert(s.update(i, s[j]).contains(s[j])) by {
        assert(s.update(i, s[j])[i] == s[j]);
    }
    assert(swapped(s, i, j).to_multiset() =~= s.to_multiset());
}

/// Carrying an item keeps the length of the list, puts the item at the index
/// the move arrives at, and loses or adds nothing.
pub proof fn lemma_reordered_tracks<A>(s: Seq<A>, i: int, direction: Direction)
    requires
        0 <= i < s.len(),
    ensures
        reordered(s, i, direction).len() == s.len(),
        reordered(s, i, direction)[target_index(i, s.len() as int, direction)] == s[i],
        reordered(s, i, direction).to_multiset() == s.to_multiset(),
{
    broadcast use {
        vstd::seq_lib::group_to_multiset_ensures,
        vstd::multiset::group_multiset_axioms,
    };

    let n = s.len() as int;
    lemma_next_index(i, n);
    lemma_previous_index(i, n);
    if n > 1 {
        assert(s.contains(s[i]));
        match direction {
            Direction::Forward => {
                if i == n - 1 {
                    assert(s.remove(i).insert(0, s[i]).to_multiset() =~= s.to_multiset());
                } else {
                    lemma_swapped_multiset(s, i, i + 1);
                }
            },
            Direction::Backward => {
                if i == 0 {
                    assert(s.remove(0).push(s[0]).to_multiset() =~= s.to_multiset());
                } else {
                    lemma_swapped_multiset(s, i, i - 1);
                }
            },
        }
    }
}

/// The index after `i` among `n` places, going round.
pub fn advance(i: usize, n: usize) -> (next: usize)
    requires
        i < n,
    ensures
        next == next_index(i as int, n as int),
        next == if i == n - 1 { 0 } else { i + 1 },
        next < n,
{
    proof {
        lemma_next_index(i as int, n as int);
    }
    if i >= n - 1 {
        0
    } else {
        i + 1
    }
}

/// The index before `i` among `n` places, going round.
pub fn retreat(i: usize, n: usize) -> (previous: usize)
    requires
        i < n,
    ensures
        previous == previous_index(i as int, n as int),
        previous == if i == 0 { n - 1 } else { i - 1 },
        previous < n,
{
    proof {
        lemma_previous_index(i as int, n as int);
    }
    if i == 0 {
        n - 1
    } else {
        i - 1
    }
}

/// What the documentation of the slice method `swap` says: the two elements
/// change places and the rest stays; both indices must be in bounds.
pub assume_specification<Item>[ <[Item]>::swap ](items: &mut [Item], a: usize, b: usize)
    requires
        a < old(items)@.len(),
        b < old(items)@.len(),
    ensures
        final(items)@ == swapped(old(items)@, a as int, b as int),
;

/// Carries the item at `current` one step in `direction` and returns the
/// index at which it then stands.
pub fn reorder<T>(items: &mut Vec<T>, current: usize, direction: Direction) -> (target: usize)
    requires
        current < old(items).len(),
    ensures
        final(items)@ == reordered(old(items)@, current as int, direction),
        target == target_index(current as int, old(items).len() as int, direction),
        target < old(items).len(),
{
    let n = items.len();
    proof {
        lemma_next_index(current as int, n as int);
        lemma_previous_index(current as int, n as int);
    }
    let target = match direction {
        Direction::Forward => advance(current, n),
        Direction::Backward => retreat(current, n),
    };
    if n > 1 {
        match direction {
            Direction::Forward => {
                if current == n - 1 {
                    let item = items.remove(current);
                    items.insert(0, item);
                } else {
                    items.swap(current, target);
                }
            },
            Direction::Backward => {
                if current == 0 {
                    let item = items.remove(0);
                    items.push(item);
                } else {
                    items.swap(current, target);
                }
            },
        }
    }
    target
}

} // verus!
