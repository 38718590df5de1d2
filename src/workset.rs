use vstd::prelude::*;

use crate::checkerror::CheckError;

verus! {

/// The entries of `items` whose probe did not succeed, in their order:
/// `succeeded[i]` tells whether the probe of `items[i]` succeeded.
pub open spec fn survivors<A>(items: Seq<A>, succeeded: Seq<bool>) -> Seq<A>
    decreases items.len(),
{
    if items.len() == 0 {
        Seq::empty()
    } else {
        let rest = survivors(items.drop_last(), succeeded);
        if succeeded[items.len() - 1] {
            rest
        } else {
            rest.push(items.last())
        }
    }
}

/// Which of the outcomes are successes.
pub open spec fn successes(outcomes: Seq<Result<(), CheckError>>) -> Seq<bool> {
    outcomes.map_values(|r: Result<(), CheckError>| r is Ok)
}

/// What is left of `items` after one pass for each entry of `rounds`, in
/// order; each round gives the success of every entry that was still pending.
pub open spec fn after_rounds<A>(items: Seq<A>, rounds: Seq<Seq<bool>>) -> Seq<A>
    decreases rounds.len(),
{
    if rounds.len() == 0 {
        items
    } else {
        survivors(after_rounds(items, rounds.drop_last()), rounds.last())
    }
}

/// A pass never adds entries: what survives is no longer than what was
/// pending, and every survivor was pending before.
pub proof fn lemma_survivors_shrink<A>(items: Seq<A>, succeeded: Seq<bool>)
    ensures
        survivors(items, succeeded).len() <= items.len(),
        forall|x: A| survivors(items, succeeded).contains(x) ==> items.contains(x),
    decreases items.len(),
{
    if items.len() > 0 {
        let rest = items.drop_last();
        lemma_survivors_shrink(rest, succeeded);
        let s = survivors(rest, succeeded);
        assert forall|x: A| survivors(items, succeeded).contains(x) implies items.contains(x) by {
            let t = survivors(items, succeeded);
            let j = choose|j: int| 0 <= j < t.len() && t[j] == x;
            if j < s.len() {
                assert(s[j] == x);
                assert(s.contains(x));
                assert(rest.contains(x));
                let m = choose|m: int| 0 <= m < rest.len() && rest[m] == x;
                assert(items[m] == x);
            } else {
                assert(items[items.len() - 1] == x);
            }
        }
    }
}

/// A pass in which no probe succeeds leaves the pending entries as they were.
pub proof fn lemma_all_failed_keeps_all<A>(items: Seq<A>, succeeded: Seq<bool>)
    requires
        forall|i: int| 0 <= i < items.len() ==> !succeeded[i],
    ensures
        survivors(items, succeeded) == items,
    decreases items.len(),
{
    if items.len() > 0 {
        lemma_all_failed_keeps_all(items.drop_last(), succeeded);
        assert(items.drop_last().push(items.last()) =~= items);
    }
}

/// A pass in which every probe succeeds leaves nothing pending.
pub proof fn lemma_all_succeeded_drains<A>(items: Seq<A>, succeeded: Seq<bool>)
    requires
        forall|i: int| 0 <= i < items.len() ==> succeeded[i],
    ensures
        survivors(items, succeeded).len() == 0,
    decreases items.len(),
{
    if items.len() > 0 {
        lemma_all_succeeded_drains(items.drop_last(), succeeded);
    }
}

/// However many passes run, the pending entries never grow in number and
/// never include an entry that was not pending at the start.
pub proof fn lemma_rounds_never_grow<A>(items: Seq<A>, rounds: Seq<Seq<bool>>)
    ensures
        after_rounds(items, rounds).len() <= items.len(),
        forall|x: A| after_rounds(items, rounds).contains(x) ==> items.contains(x),
    decreases rounds.len(),
{
    if rounds.len() > 0 {
        lemma_rounds_never_grow(items, rounds.drop_last());
        lemma_survivors_shrink(after_rounds(items, rounds.drop_last()), rounds.last());
    }
}

/// Where every address is unreachable, so that every probe of every pass
/// fails, a non-empty set of pending entries stays exactly as it was: it never
/// grows and never drains.
pub proof fn lemma_unreachable_never_drain<A>(items: Seq<A>, rounds: Seq<Seq<bool>>)
    requires
        items.len() > 0,
        forall|k: int, i: int| 0 <= k < rounds.len() && 0 <= i < items.len() ==> !rounds[k][i],
    ensures
        after_rounds(items, rounds) == items,
        after_rounds(items, rounds).len() > 0,
    decreases rounds.len(),
{
    if rounds.len() > 0 {
        let init = rounds.drop_last();
        assert forall|k: int, i: int| 0 <= k < init.len() && 0 <= i < items.len() implies !init[k][i] by {
            assert(init[k] == rounds[k]);
        }
        lemma_unreachable_never_drain(items, init);
        let last = rounds.last();
        assert forall|i: int| 0 <= i < items.len() implies !last[i] by {
            assert(!rounds[rounds.len() - 1][i]);
        }
        lemma_all_failed_keeps_all(items, last);
    }
}

/// A single pending endpoint whose probe fails on the first `n - 1` passes and
/// succeeds on the `n`-th is pending after each of the first `n - 1` passes,
/// gone after the `n`-th, and never comes back on any later pass.
pub proof fn lemma_removed_once_after_nth<A>(e: A, rounds: Seq<Seq<bool>>, n: int)
    requires
        1 <= n <= rounds.len(),
        forall|k: int| 0 <= k < n - 1 ==> !rounds[k][0],
        rounds[n - 1][0],
    ensures
        forall|k: int| 0 <= k < n ==> after_rounds(seq![e], rounds.take(k)) == seq![e],
        forall|k: int| n <= k <= rounds.len() ==> after_rounds(seq![e], rounds.take(k)).len() == 0,
{
    assert forall|k: int| 0 <= k < n implies after_rounds(seq![e], rounds.take(k)) == seq![e] by {
        lemma_single_pending(e, rounds, k);
    }
    assert forall|k: int| n <= k <= rounds.len() implies after_rounds(seq![e], rounds.take(k)).len()
        == 0 by {
        lemma_single_gone(e, rounds, n, k);
    }
}

proof fn lemma_single_pending<A>(e: A, rounds: Seq<Seq<bool>>, k: int)
    requires
        0 <= k <= rounds.len(),
        forall|j: int| 0 <= j < k ==> !rounds[j][0],
    ensures
        after_rounds(seq![e], rounds.take(k)) == seq![e],
    decreases k,
{
    if k > 0 {
        lemma_single_pending(e, rounds, k - 1);
        assert(rounds.take(k).drop_last() =~= rounds.take(k - 1));
        lemma_all_failed_keeps_all(seq![e], rounds[k - 1]);
    }
}

proof fn lemma_single_gone<A>(e: A, rounds: Seq<Seq<bool>>, n: int, k: int)
    requires
        1 <= n <= k <= rounds.len(),
        forall|j: int| 0 <= j < n - 1 ==> !rounds[j][0],
        rounds[n - 1][0],
    ensures
        after_rounds(seq![e], rounds.take(k)).len() == 0,
    decreases k,
{
    assert(rounds.take(k).drop_last() =~= rounds.take(k - 1));
    if k == n {
        lemma_single_pending(e, rounds, n - 1);
        lemma_all_succeeded_drains(seq![e], rounds[n - 1]);
    } else {
        lemma_single_gone(e, rounds, n, k - 1);
        let before = after_rounds(seq![e], rounds.take(k - 1));
        assert(before =~= Seq::<A>::empty());
    }
}

/// Removes from `v` the entries whose outcome is a success, keeping the order
/// of the rest.
pub fn drop_succeeded(v: &mut Vec<String>, outcomes: &Vec<Result<(), CheckError>>)
    requires
        outcomes@.len() == old(v)@.len(),
    ensures
        final(v)@ == survivors(old(v)@, successes(outcomes@)),
{
    let ghost orig = v@;
    let ghost ok = successes(outcomes@);
    let n = outcomes.len();
    let mut i: usize = 0;
    let mut p: usize = 0;
    while i < n
        invariant
            n == outcomes@.len(),
            n == orig.len(),
            ok == successes(outcomes@),
            i <= n,
            v@ == survivors(orig.take(i as int), ok) + orig.skip(i as int),
            p as int == survivors(orig.take(i as int), ok).len(),
        decreases n - i,
    {
        proof {
            lemma_survivors_shrink(orig.take(i as int), ok);
            assert(orig.take(i as int + 1).drop_last() =~= orig.take(i as int));
            assert(orig.take(i as int + 1).last() == orig[i as int]);
        }
        if outcomes[i].is_ok() {
            v.remove(p);
            assert(v@ =~= survivors(orig.take(i as int + 1), ok) + orig.skip(i as int + 1));
        } else {
            assert(v@ =~= survivors(orig.take(i as int + 1), ok) + orig.skip(i as int + 1));
            p = p + 1;
        }
        i = i + 1;
    }
    assert(orig.take(n as int) =~= orig);
    assert(v@ =~= survivors(orig, ok));
}

} // verus!
