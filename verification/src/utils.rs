//! Visiting each item of a collection beside all the others.

use vstd::prelude::*;

verus! {

/// Whether `k` is one of the first `n` places.
pub open spec fn in_turn(k: int, n: nat) -> bool {
    0 <= k < n
}

/// Calls `f` on (one item, the rest of the collection) pairs, once for
/// each item. While an item has its call it is not in the collection, so
/// `f` may change the item and the others at once.
///
/// The first item is called beside the items behind it. Then, place by
/// place through what the rest holds after that call, the item at the
/// place changes places with the one called last and is called beside the
/// rest; the one called last of all goes to the end. So `f` may add to the
/// rest but must not take from it, and of the items that it adds only
/// those of the first call get a call of their own.
///
/// In the contract, `ones[0]` and `rests[0]` are the first item and the
/// rest as the first call left them, and `ones[k + 1]` and `rests[k + 1]`
/// the same for the call of place `k`.
pub fn one_rest_split_iter<T, F>(vec: &mut Vec<T>, mut f: F) where F: FnMut(&mut T, &mut Vec<T>)
    requires
        old(vec)@.len() > 0,
        forall|one: &mut T, rest: &mut Vec<T>| #[trigger] call_requires(f, (one, rest)),
        forall|one: &mut T, rest: &mut Vec<T>| #[trigger]
            call_ensures(f, (one, rest), ()) ==> final(rest)@.len() >= rest@.len(),
    ensures
        (exists|ones: Seq<T>, rests: Seq<Seq<T>>|
            #![trigger ones.len(), rests.len()]
            {
                &&& ones.len() == rests.len() > 0
                &&& rests.len() == rests[0].len() + 1
                &&& (exists|a: &mut T, b: &mut Vec<T>|
                    {
                        &&& #[trigger] call_ensures(f, (a, b), ())
                        &&& *a == old(vec)@[0]
                        &&& b@ == old(vec)@.skip(1)
                        &&& *final(a) == ones[0]
                        &&& final(b)@ == rests[0]
                    })
                &&& (forall|k: int| #[trigger]
                    in_turn(k, rests[0].len()) ==> k < rests[k].len() && (exists|
                        a: &mut T,
                        b: &mut Vec<T>,
                    |
                        {
                            &&& #[trigger] call_ensures(f, (a, b), ())
                            &&& *a == rests[k][k]
                            &&& b@ == rests[k].update(k, ones[k])
                            &&& *final(a) == ones[k + 1]
                            &&& final(b)@ == rests[k + 1]
                        }))
                &&& final(vec)@ == rests.last().push(ones.last())
            }),
{
    let ghost before = vec@;
    let ghost f0 = f;
    let mut kept = vec.remove(0);
    f(&mut kept, vec);
    let ghost mut ones: Seq<T> = seq![kept];
    let ghost mut rests: Seq<Seq<T>> = seq![vec@];
    let n = vec.len();
    let mut i: usize = 0;
    while i < n
        invariant
            i <= n <= vec@.len(),
            f == f0,
            before.len() > 0,
            ones.len() == i + 1,
            rests.len() == i + 1,
            n == rests[0].len(),
            ones.last() == kept,
            rests.last() == vec@,
            forall|one: &mut T, rest: &mut Vec<T>| #[trigger] call_requires(f, (one, rest)),
            forall|one: &mut T, rest: &mut Vec<T>| #[trigger]
                call_ensures(f, (one, rest), ()) ==> final(rest)@.len() >= rest@.len(),
            (exists|a: &mut T, b: &mut Vec<T>|
                {
                    &&& #[trigger] call_ensures(f, (a, b), ())
                    &&& *a == before[0]
                    &&& b@ == before.skip(1)
                    &&& *final(a) == ones[0]
                    &&& final(b)@ == rests[0]
                }),
            (forall|k: int| #[trigger]
                in_turn(k, n as nat) && k < i ==> k < rests[k].len() && (exists|
                    a: &mut T,
                    b: &mut Vec<T>,
                |
                    {
                        &&& #[trigger] call_ensures(f, (a, b), ())
                        &&& *a == rests[k][k]
                        &&& b@ == rests[k].update(k, ones[k])
                        &&& *final(a) == ones[k + 1]
                        &&& final(b)@ == rests[k + 1]
                    })),
        decreases n - i,
    {
        std::mem::swap(&mut vec[i], &mut kept);
        f(&mut kept, vec);
        proof {
            ones = ones.push(kept);
            rests = rests.push(vec@);
        }
        i = i + 1;
    }
    vec.push(kept);
}

} // verus!
