//! Sets of user ids, held as lists without repetition.
//!
//! A list of members may name a user twice. The set of users it stands for
//! is kept as the list of its distinct values in the order in which they
//! first occur, so that walking the set is repeatable.

use std::collections::HashSet;
use vstd::prelude::*;

verus! {

/// The distinct values of `users`, each at the place of its first occurrence.
pub open spec fn distinct(users: Seq<u64>) -> Seq<u64>
    decreases users.len(),
{
    if users.len() == 0 {
        Seq::empty()
    } else {
        let before = distinct(users.drop_last());
        if before.contains(users.last()) {
            before
        } else {
            before.push(users.last())
        }
    }
}

/// `distinct` repeats nothing and holds exactly the values of its argument.
pub proof fn lemma_distinct(users: Seq<u64>)
    ensures
        distinct(users).no_duplicates(),
        forall|user: u64| distinct(users).contains(user) <==> users.contains(user),
        distinct(users).to_set() == users.to_set(),
        distinct(users).len() <= users.len(),
    decreases users.len(),
{
    if users.len() > 0 {
        let front = users.drop_last();
        let before = distinct(front);
        lemma_distinct(front);
        assert forall|user: u64| distinct(users).contains(user) <==> users.contains(user) by {
            if users.contains(user) {
                let i = choose|i: int| 0 <= i < users.len() && users[i] == user;
                if i < users.len() - 1 {
                    assert(front[i] == user);
                    assert(front.contains(user));
                    assert(before.contains(user));
                    let j = choose|j: int| 0 <= j < before.len() && before[j] == user;
                    assert(distinct(users)[j] == user);
                } else if !before.contains(users.last()) {
                    assert(distinct(users)[before.len() as int] == user);
                }
            }
            if distinct(users).contains(user) {
                let j = choose|j: int| 0 <= j < distinct(users).len() && distinct(users)[j] == user;
                if j < before.len() {
                    assert(before[j] == user);
                    assert(front.contains(user));
                    let i = choose|i: int| 0 <= i < front.len() && front[i] == user;
                    assert(users[i] == user);
                } else {
                    assert(users[users.len() - 1] == user);
                }
            }
        }
    }
    assert(distinct(users).to_set() =~= users.to_set());
}

/// A list without repetition is its own list of distinct values.
pub proof fn lemma_distinct_fixed(users: Seq<u64>)
    requires
        users.no_duplicates(),
    ensures
        distinct(users) == users,
    decreases users.len(),
{
    if users.len() > 0 {
        let front = users.drop_last();
        lemma_distinct_fixed(front);
        lemma_distinct(front);
        if front.contains(users.last()) {
            let i = choose|i: int| 0 <= i < front.len() && front[i] == users.last();
            assert(users[i] == users[users.len() - 1]);
        }
        assert(front.push(users.last()) =~= users);
    } else {
        assert(users =~= Seq::empty());
    }
}

/// The set of the values of `users`.
pub fn user_set(users: &Vec<u64>) -> (set: HashSet<u64>)
    ensures
        set@ == users@.to_set(),
{
    broadcast use vstd::std_specs::hash::group_hash_axioms;

    let mut set: HashSet<u64> = HashSet::new();
    let mut i: usize = 0;
    assert(users@.take(0).to_set() =~= Set::<u64>::empty());
    while i < users.len()
        invariant
            i <= users.len(),
            set@ == users@.take(i as int).to_set(),
        decreases users.len() - i,
    {
        set.insert(users[i]);
        proof {
            lemma_take_next(users@, i as int);
        }
        i += 1;
    }
    assert(users@.take(users.len() as int) =~= users@);
    set
}

/// The values of one more item of a list are those before and the item.
proof fn lemma_take_next(users: Seq<u64>, i: int)
    requires
        0 <= i < users.len(),
    ensures
        users.take(i + 1).to_set() == users.take(i).to_set().insert(users[i]),
{
    let longer = users.take(i + 1);
    let shorter = users.take(i);
    assert forall|user: u64| longer.contains(user) <==> shorter.contains(user) || user
        == users[i] by {
        if longer.contains(user) {
            let j = choose|j: int| 0 <= j < longer.len() && longer[j] == user;
            if j < i {
                assert(shorter[j] == user);
            }
        }
        if shorter.contains(user) {
            let j = choose|j: int| 0 <= j < shorter.len() && shorter[j] == user;
            assert(longer[j] == user);
        }
        assert(longer[i] == users[i]);
    }
    assert(longer.to_set() =~= shorter.to_set().insert(users[i]));
}

/// Appends to `list` the values of `users` that it does not hold yet;
/// `seen` is the set of what `list` holds.
fn absorb(list: &mut Vec<u64>, seen: &mut HashSet<u64>, users: &Vec<u64>)
    requires
        old(list)@.no_duplicates(),
        old(seen)@ == old(list)@.to_set(),
    ensures
        final(list)@ == distinct(old(list)@ + users@),
        final(seen)@ == final(list)@.to_set(),
{
    broadcast use vstd::std_specs::hash::group_hash_axioms;

    proof {
        lemma_distinct_fixed(list@);
        assert(old(list)@ + users@.take(0) =~= old(list)@);
    }
    let mut i: usize = 0;
    while i < users.len()
        invariant
            i <= users.len(),
            list@ == distinct(old(list)@ + users@.take(i as int)),
            seen@ == list@.to_set(),
        decreases users.len() - i,
    {
        let ghost prefix = old(list)@ + users@.take(i as int);
        let ghost next = old(list)@ + users@.take(i + 1);
        let ghost before = list@;
        assert(next.drop_last() =~= prefix);
        assert(next.last() == users@[i as int]);
        let user = users[i];
        if seen.insert(user) {
            list.push(user);
            assert(list@.to_set() =~= before.to_set().insert(user)) by {
                assert forall|other: u64| list@.contains(other) <==> before.contains(other)
                    || other == user by {
                    if list@.contains(other) {
                        let j = choose|j: int| 0 <= j < list@.len() && list@[j] == other;
                        if j < before.len() {
                            assert(before[j] == other);
                        }
                    }
                    if before.contains(other) {
                        let j = choose|j: int| 0 <= j < before.len() && before[j] == other;
                        assert(list@[j] == other);
                    }
                    assert(list@[before.len() as int] == user);
                }
            }
        } else {
            assert(seen@ =~= list@.to_set());
        }
        i += 1;
    }
    assert(users@.take(users.len() as int) =~= users@);
}

/// The distinct values of `users`, each at the place of its first occurrence.
pub fn distinct_users(users: &Vec<u64>) -> (out: Vec<u64>)
    ensures
        out@ == distinct(users@),
{
    let mut out: Vec<u64> = Vec::new();
    let mut seen: HashSet<u64> = HashSet::new();
    assert(out@.to_set() =~= Set::<u64>::empty());
    absorb(&mut out, &mut seen, users);
    assert(Seq::<u64>::empty() + users@ =~= users@);
    out
}

/// The distinct values of `first` followed by those of `second` that `first`
/// lacks.
pub fn merged_users(first: &Vec<u64>, second: &Vec<u64>) -> (out: Vec<u64>)
    ensures
        out@ == distinct(first@ + second@),
{
    let mut out: Vec<u64> = Vec::new();
    let mut seen: HashSet<u64> = HashSet::new();
    assert(out@.to_set() =~= Set::<u64>::empty());
    absorb(&mut out, &mut seen, first);
    proof {
        assert(Seq::<u64>::empty() + first@ =~= first@);
        lemma_distinct(first@);
    }
    absorb(&mut out, &mut seen, second);
    proof {
        lemma_distinct_concat(first@, second@);
    }
    out
}

/// Taking distinct values of the front first changes nothing.
pub proof fn lemma_distinct_concat(first: Seq<u64>, second: Seq<u64>)
    ensures
        distinct(distinct(first) + second) == distinct(first + second),
    decreases second.len(),
{
    if second.len() == 0 {
        assert(distinct(first) + second =~= distinct(first));
        assert(first + second =~= first);
        lemma_distinct(first);
        lemma_distinct_fixed(distinct(first));
    } else {
        let short = second.drop_last();
        lemma_distinct_concat(first, short);
        assert((distinct(first) + second).drop_last() =~= distinct(first) + short);
        assert((first + second).drop_last() =~= first + short);
        assert((distinct(first) + second).last() == second.last());
        assert((first + second).last() == second.last());
    }
}

/// Whether every value of `part` occurs in `whole`.
pub fn within(part: &Vec<u64>, whole: &Vec<u64>) -> (all: bool)
    ensures
        all == part@.to_set().subset_of(whole@.to_set()),
{
    broadcast use vstd::std_specs::hash::group_hash_axioms;

    let known = user_set(whole);
    let mut i: usize = 0;
    while i < part.len()
        invariant
            i <= part.len(),
            known@ == whole@.to_set(),
            forall|j: int| 0 <= j < i ==> whole@.contains(part@[j]),
        decreases part.len() - i,
    {
        if !known.contains(&part[i]) {
            assert(part@.to_set().contains(part@[i as int]));
            return false;
        }
        i += 1;
    }
    assert forall|user: u64| part@.to_set().contains(user) implies whole@.to_set().contains(
        user,
    ) by {
        let j = choose|j: int| 0 <= j < part@.len() && part@[j] == user;
        assert(whole@.contains(part@[j]));
    }
    true
}

/// Whether two lists stand for the same set of users.
pub fn same_users(first: &Vec<u64>, second: &Vec<u64>) -> (same: bool)
    ensures
        same == (first@.to_set() == second@.to_set()),
{
    let same = within(first, second) && within(second, first);
    proof {
        if same {
            assert(first@.to_set() =~= second@.to_set());
        }
    }
    same
}

} // verus!
