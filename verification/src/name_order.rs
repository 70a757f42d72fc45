//! Targets in the natural order of their names, where the numbers in a name compare by
//! value (`OST2` before `OST10`).

use crate::wire::Target;
use std::cmp::Ordering;
use vstd::prelude::*;

verus! {

broadcast use vstd::seq_lib::group_to_multiset_ensures;

/// How natord orders two names: negative when `left` comes first, zero when they are
/// alike, positive when `right` comes first.
pub uninterp spec fn natural_order(left: Seq<char>, right: Seq<char>) -> int;

/// `natord::compare`, with its three answers as -1, 0 and 1.
///
/// The contract claims that the answer is `natural_order` of the two names, and that
/// swapping the names reverses it: every branch of natord's comparison treats its two
/// sides alike (digits, runs of digits, skipped whitespace, the end of either name)
/// and answers mirrored results. It claims nothing of which names come first: that is
/// the crate's algorithm, left unstated here.
#[verifier::external_body]
fn natord_compare(left: &str, right: &str) -> (r: i8)
    ensures
        r == natural_order(left@, right@),
        -1 <= r <= 1,
        natural_order(right@, left@) == -r,
{
    match natord::compare(left, right) {
        Ordering::Less => -1,
        Ordering::Equal => 0,
        Ordering::Greater => 1,
    }
}

/// `s` with `x` put after every target whose name does not come after its own, counted
/// from the end: the step of a stable insertion sort.
pub open spec fn insert_by_name<T>(s: Seq<Target<T>>, x: Target<T>) -> Seq<Target<T>>
    decreases s.len(),
{
    if s.len() == 0 {
        seq![x]
    } else if natural_order(x.name@, s.last().name@) < 0 {
        insert_by_name(s.drop_last(), x).push(s.last())
    } else {
        s.push(x)
    }
}

/// The targets sorted by the natural order of their names; targets whose names are
/// alike keep their order.
pub open spec fn sorted_by_name<T>(s: Seq<Target<T>>) -> Seq<Target<T>>
    decreases s.len(),
{
    if s.len() == 0 {
        s
    } else {
        insert_by_name(sorted_by_name(s.drop_last()), s.last())
    }
}

/// No target's name comes after the name of the target that follows it.
pub open spec fn names_in_order<T>(s: Seq<Target<T>>) -> bool {
    forall|i: int, j: int|
        #![trigger s[i], s[j]]
        0 <= i && j == i + 1 && j < s.len() ==> natural_order(s[i].name@, s[j].name@) <= 0
}

fn insert_target_by_name<T>(res: &mut Vec<Target<T>>, x: Target<T>)
    requires
        names_in_order(old(res)@),
    ensures
        final(res)@ == insert_by_name(old(res)@, x),
        names_in_order(final(res)@),
        final(res)@.len() == old(res)@.len() + 1,
        final(res)@.last() == x || (old(res)@.len() > 0 && final(res)@.last() == old(res)@.last()),
        final(res)@.to_multiset() =~= old(res)@.to_multiset().insert(x),
    decreases old(res)@.len(),
{
    let ghost r0 = res@;
    let n = res.len();
    if n == 0 {
        res.push(x);
        assert(res@ =~= seq![x]);
        assert(r0 =~= Seq::<Target<T>>::empty());
        return ;
    }
    let c = natord_compare(x.name.as_str(), res[n - 1].name.as_str());
    if c < 0 {
        let y = res.pop().unwrap();
        proof {
            assert(res@ =~= r0.drop_last());
            assert(r0 =~= res@.push(y));
            assert forall|i: int, j: int|
                0 <= i && j == i + 1 && j < res@.len() implies natural_order(
                res@[i].name@,
                res@[j].name@,
            ) <= 0 by {
                assert(res@[i] == r0[i] && res@[j] == r0[j]);
            }
        }
        let ghost r1 = res@;
        insert_target_by_name(res, x);
        let ghost r2 = res@;
        res.push(y);
        proof {
            assert forall|i: int, j: int|
                0 <= i && j == i + 1 && j < res@.len() implies natural_order(
                res@[i].name@,
                res@[j].name@,
            ) <= 0 by {
                if j == res@.len() - 1 {
                    assert(res@[i] == r2.last());
                    if r2.last() != x {
                        assert(r2.last() == r1.last());
                        assert(r1.last() == r0[n - 2]);
                        assert(r0[n - 2] == r0[(n - 2) as int] && r0[n - 1] == y);
                    }
                } else {
                    assert(res@[i] == r2[i] && res@[j] == r2[j]);
                }
            }
        }
    } else {
        res.push(x);
        proof {
            assert forall|i: int, j: int|
                0 <= i && j == i + 1 && j < res@.len() implies natural_order(
                res@[i].name@,
                res@[j].name@,
            ) <= 0 by {
                if j == res@.len() - 1 {
                    assert(res@[i] == r0[n - 1]);
                } else {
                    assert(res@[i] == r0[i] && res@[j] == r0[j]);
                }
            }
        }
    }
}

/// Sorts the targets by the natural order of their names, keeping the order of targets
/// whose names are alike.
pub fn sort_targets_by_name<T>(xs: Vec<Target<T>>) -> (r: Vec<Target<T>>)
    ensures
        r@ == sorted_by_name(xs@),
        names_in_order(r@),
        r@.to_multiset() =~= xs@.to_multiset(),
    decreases xs@.len(),
{
    let ghost x0 = xs@;
    let mut xs = xs;
    match xs.pop() {
        None => {
            assert(x0 =~= Seq::<Target<T>>::empty());
            xs
        },
        Some(x) => {
            proof {
                assert(xs@ =~= x0.drop_last());
                assert(x0 =~= xs@.push(x));
            }
            let mut r = sort_targets_by_name(xs);
            insert_target_by_name(&mut r, x);
            r
        },
    }
}

} // verus!
