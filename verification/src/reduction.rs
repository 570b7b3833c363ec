//! Folding many presences into one, under the `Absent > Null > Present`
//! precedence.
//!
//! Every reduction scans the elements in order and stops the instant an
//! `Absent` is found; with no `Absent` but at least one `Null` the result
//! is `Null`; with all elements `Present` the payloads are aggregated in
//! their original order, from the aggregate's identity element.

use vstd::prelude::*;

use crate::presence::Presence;

verus! {

/// True when some element of the sequence is `Absent`.
pub open spec fn has_absent<T>(s: Seq<Presence<T>>) -> bool {
    exists|i: int| 0 <= i < s.len() && s[i] is Absent
}

/// True when some element of the sequence is `Null`.
pub open spec fn has_null<T>(s: Seq<Presence<T>>) -> bool {
    exists|i: int| 0 <= i < s.len() && s[i] is Null
}

/// The payloads of the `Present` elements, in their original order.
pub open spec fn payloads<T>(s: Seq<Presence<T>>) -> Seq<T>
    decreases s.len(),
{
    if s.len() == 0 {
        Seq::empty()
    } else if s.last() is Present {
        payloads(s.drop_last()).push(s.last()->0)
    } else {
        payloads(s.drop_last())
    }
}

/// The mathematical sum of a sequence of machine integers.
pub open spec fn sum_of(s: Seq<i64>) -> int
    decreases s.len(),
{
    if s.len() == 0 {
        0
    } else {
        sum_of(s.drop_last()) + s.last()
    }
}

/// The mathematical product of a sequence of machine integers.
pub open spec fn product_of(s: Seq<i64>) -> int
    decreases s.len(),
{
    if s.len() == 0 {
        1
    } else {
        product_of(s.drop_last()) * s.last()
    }
}

/// Collects a sequence of presences into a presence of the collected
/// payloads: `Absent` the instant any element is `Absent` (later elements
/// are not examined), else `Null` when any element is `Null`, else
/// `Present` of all payloads in order (the empty collection for an empty
/// input).
pub fn collect_vec<T>(items: Vec<Presence<T>>) -> (r: Presence<Vec<T>>)
    ensures
        has_absent(items@) ==> r is Absent,
        !has_absent(items@) && has_null(items@) ==> r is Null,
        !has_absent(items@) && !has_null(items@) ==> (r matches Presence::Present(vs)
            && vs@ == payloads(items@)),
{
    let ghost orig: Seq<Presence<T>> = items@;
    let mut rest = items;
    let mut absent_seen = false;
    let mut null_seen = false;
    let mut values: Vec<T> = Vec::new();
    let ghost mut j: int = 0;
    while !absent_seen && rest.len() > 0
        invariant
            0 <= j <= orig.len(),
            rest@ == orig.subrange(j, orig.len() as int),
            absent_seen ==> has_absent(orig),
            !absent_seen ==> !has_absent(orig.take(j)),
            !absent_seen ==> null_seen == has_null(orig.take(j)),
            !absent_seen ==> values@ == payloads(orig.take(j)),
        decreases orig.len() - j,
    {
        let item = rest.remove(0);
        proof {
            assert(item == orig[j]);
            assert(rest@ =~= orig.subrange(j + 1, orig.len() as int));
            assert(orig.take(j + 1).drop_last() =~= orig.take(j));
            assert(orig.take(j + 1).last() == orig[j]);
        }
        match item {
            Presence::Absent => {
                proof {
                    assert(has_absent(orig));
                }
                absent_seen = true;
            },
            Presence::Null => {
                null_seen = true;
            },
            Presence::Present(value) => {
                values.push(value);
            },
        }
        proof {
            j = j + 1;
        }
    }
    if absent_seen {
        Presence::Absent
    } else {
        proof {
            assert(orig.take(j) =~= orig);
        }
        if null_seen {
            Presence::Null
        } else {
            Presence::Present(values)
        }
    }
}

/// Sums a sequence of presences of machine integers: `Absent` the instant
/// any element is `Absent`, else `Null` when any element is `Null`, else
/// the sum of all payloads, starting from zero. Machine arithmetic forces
/// every running sum of the scanned payloads to fit the integer type.
pub fn sum(items: Vec<Presence<i64>>) -> (r: Presence<i64>)
    requires
        forall|k: int|
            0 <= k <= items@.len() ==> i64::MIN <= sum_of(payloads(#[trigger] items@.take(k)))
                <= i64::MAX,
    ensures
        has_absent(items@) ==> r is Absent,
        !has_absent(items@) && has_null(items@) ==> r is Null,
        !has_absent(items@) && !has_null(items@) ==> r == Presence::<i64>::Present(
            sum_of(payloads(items@)) as i64,
        ),
{
    let ghost orig: Seq<Presence<i64>> = items@;
    let mut rest = items;
    let mut absent_seen = false;
    let mut null_seen = false;
    let mut acc: i64 = 0;
    let ghost mut j: int = 0;
    proof {
        assert(orig.take(0) =~= Seq::<Presence<i64>>::empty());
    }
    while !absent_seen && rest.len() > 0
        invariant
            0 <= j <= orig.len(),
            rest@ == orig.subrange(j, orig.len() as int),
            absent_seen ==> has_absent(orig),
            !absent_seen ==> !has_absent(orig.take(j)),
            !absent_seen ==> null_seen == has_null(orig.take(j)),
            !absent_seen ==> acc == sum_of(payloads(orig.take(j))),
            forall|k: int|
                0 <= k <= orig.len() ==> i64::MIN <= sum_of(payloads(
                    #[trigger] orig.take(k),
                )) <= i64::MAX,
        decreases orig.len() - j,
    {
        let item = rest.remove(0);
        proof {
            assert(item == orig[j]);
            assert(rest@ =~= orig.subrange(j + 1, orig.len() as int));
            assert(orig.take(j + 1).drop_last() =~= orig.take(j));
            assert(orig.take(j + 1).last() == orig[j]);
        }
        match item {
            Presence::Absent => {
                proof {
                    assert(has_absent(orig));
                }
                absent_seen = true;
            },
            Presence::Null => {
                null_seen = true;
            },
            Presence::Present(value) => {
                proof {
                    assert(payloads(orig.take(j + 1)).drop_last() =~= payloads(orig.take(j)));
                    assert(sum_of(payloads(orig.take(j + 1))) == acc + value);
                }
                acc = acc + value;
            },
        }
        proof {
            j = j + 1;
        }
    }
    if absent_seen {
        Presence::Absent
    } else {
        proof {
            assert(orig.take(j) =~= orig);
        }
        if null_seen {
            Presence::Null
        } else {
            Presence::Present(acc)
        }
    }
}

/// Multiplies a sequence of presences of machine integers: `Absent` the
/// instant any element is `Absent`, else `Null` when any element is
/// `Null`, else the product of all payloads, starting from one. Machine
/// arithmetic forces every running product of the scanned payloads to fit
/// the integer type.
pub fn product(items: Vec<Presence<i64>>) -> (r: Presence<i64>)
    requires
        forall|k: int|
            0 <= k <= items@.len() ==> i64::MIN <= product_of(payloads(#[trigger] items@.take(k)))
                <= i64::MAX,
    ensures
        has_absent(items@) ==> r is Absent,
        !has_absent(items@) && has_null(items@) ==> r is Null,
        !has_absent(items@) && !has_null(items@) ==> r == Presence::<i64>::Present(
            product_of(payloads(items@)) as i64,
        ),
{
    let ghost orig: Seq<Presence<i64>> = items@;
    let mut rest = items;
    let mut absent_seen = false;
    let mut null_seen = false;
    let mut acc: i64 = 1;
    let ghost mut j: int = 0;
    proof {
        assert(orig.take(0) =~= Seq::<Presence<i64>>::empty());
    }
    while !absent_seen && rest.len() > 0
        invariant
            0 <= j <= orig.len(),
            rest@ == orig.subrange(j, orig.len() as int),
            absent_seen ==> has_absent(orig),
            !absent_seen ==> !has_absent(orig.take(j)),
            !absent_seen ==> null_seen == has_null(orig.take(j)),
            !absent_seen ==> acc == product_of(payloads(orig.take(j))),
            forall|k: int|
                0 <= k <= orig.len() ==> i64::MIN <= product_of(payloads(
                    #[trigger] orig.take(k),
                )) <= i64::MAX,
        decreases orig.len() - j,
    {
        let item = rest.remove(0);
        proof {
            assert(item == orig[j]);
            assert(rest@ =~= orig.subrange(j + 1, orig.len() as int));
            assert(orig.take(j + 1).drop_last() =~= orig.take(j));
            assert(orig.take(j + 1).last() == orig[j]);
        }
        match item {
            Presence::Absent => {
                proof {
                    assert(has_absent(orig));
                }
                absent_seen = true;
            },
            Presence::Null => {
                null_seen = true;
            },
            Presence::Present(value) => {
                proof {
                    assert(payloads(orig.take(j + 1)).drop_last() =~= payloads(orig.take(j)));
                    assert(product_of(payloads(orig.take(j + 1))) == acc * value);
                }
                acc = acc * value;
            },
        }
        proof {
            j = j + 1;
        }
    }
    if absent_seen {
        Presence::Absent
    } else {
        proof {
            assert(orig.take(j) =~= orig);
        }
        if null_seen {
            Presence::Null
        } else {
            Presence::Present(acc)
        }
    }
}

} // verus!


