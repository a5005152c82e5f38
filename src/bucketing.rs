//! Sorting one range of transactions into month buckets on the client side.
use vstd::prelude::*;
use crate::calendar::Date;

verus! {

/// The date fields of a transaction record, in the order they are consulted.
#[derive(Clone, Copy, Debug, PartialEq, Eq, Structural)]
pub struct TxDates {
    pub booking_date: Option<Date>,
    /// The calendar day, in UTC, of the booking timestamp.
    pub booking_day: Option<Date>,
    pub value_date: Option<Date>,
}

/// The transactions of one month, or the undated ones, as indices into the
/// booked and pending lists.
pub struct MonthBucket {
    /// First day of the month; `None` for the undated bucket.
    pub month: Option<Date>,
    pub booked: Vec<usize>,
    pub pending: Vec<usize>,
}

/// The first of the booking date, the booking day and the value date that is
/// present.
pub open spec fn tx_date(t: TxDates) -> Option<Date> {
    if t.booking_date is Some {
        t.booking_date
    } else if t.booking_day is Some {
        t.booking_day
    } else {
        t.value_date
    }
}

/// The bucket of a transaction: the first day of the month of its date, or
/// `None` when it has no date.
pub open spec fn tx_month(t: TxDates) -> Option<Date> {
    match tx_date(t) {
        Some(d) => Some(Date { day: 1, ..d }),
        None => None,
    }
}

/// The indices below `n` of the transactions in `s` that fall in bucket
/// `key`, in increasing order.
pub open spec fn indices_in(s: Seq<TxDates>, key: Option<Date>, n: int) -> Seq<usize>
    decreases n,
{
    if n <= 0 {
        Seq::empty()
    } else if tx_month(s[n - 1]) == key {
        indices_in(s, key, n - 1).push((n - 1) as usize)
    } else {
        indices_in(s, key, n - 1)
    }
}

/// `buckets` sorts the first `nb` booked and the first `np` pending
/// transactions: one bucket per month that occurs, each with exactly its
/// transactions in the order they were listed, and none empty.
pub open spec fn sorts_into(
    buckets: Seq<MonthBucket>,
    booked: Seq<TxDates>,
    nb: int,
    pending: Seq<TxDates>,
    np: int,
) -> bool {
    &&& forall|i: int, j: int|
        0 <= i < j < buckets.len() ==> buckets[i].month != buckets[j].month
    &&& forall|i: int|
        0 <= i < buckets.len() ==> {
            let b = #[trigger] buckets[i];
            &&& b.booked@ == indices_in(booked, b.month, nb)
            &&& b.pending@ == indices_in(pending, b.month, np)
            &&& b.booked@.len() + b.pending@.len() > 0
        }
    &&& forall|k: int|
        0 <= k < nb ==> exists|i: int|
            0 <= i < buckets.len() && #[trigger] buckets[i].month == tx_month(#[trigger] booked[k])
    &&& forall|k: int|
        0 <= k < np ==> exists|i: int|
            0 <= i < buckets.len() && #[trigger] buckets[i].month == tx_month(#[trigger] pending[k])
}

fn month_of(t: &TxDates) -> (r: Option<Date>)
    ensures
        r == tx_month(*t),
{
    let date = match t.booking_date {
        Some(d) => Some(d),
        None => match t.booking_day {
            Some(d) => Some(d),
            None => t.value_date,
        },
    };
    match date {
        Some(d) => Some(Date { day: 1, ..d }),
        None => None,
    }
}

fn same_bucket(a: Option<Date>, b: Option<Date>) -> (r: bool)
    ensures
        r == (a == b),
{
    match (a, b) {
        (Some(x), Some(y)) => x == y,
        (None, None) => true,
        _ => false,
    }
}

proof fn lemma_indices_in_empty(s: Seq<TxDates>, key: Option<Date>, n: int)
    requires
        forall|k: int| 0 <= k < n ==> tx_month(#[trigger] s[k]) != key,
    ensures
        indices_in(s, key, n) == Seq::<usize>::empty(),
    decreases n,
{
    if n > 0 {
        lemma_indices_in_empty(s, key, n - 1);
    }
}

proof fn lemma_indices_in_step(s: Seq<TxDates>, key: Option<Date>, n: int)
    requires
        n >= 0,
    ensures
        indices_in(s, key, n + 1) == (if tx_month(s[n]) == key {
            indices_in(s, key, n).push(n as usize)
        } else {
            indices_in(s, key, n)
        }),
{
}

/// Adds transaction `k` of one list to its bucket, opening the bucket when
/// it is the first of its month.
fn place(
    buckets: &mut Vec<MonthBucket>,
    s: &Vec<TxDates>,
    k: usize,
    in_booked: bool,
    Ghost(booked): Ghost<Seq<TxDates>>,
    Ghost(nb): Ghost<int>,
    Ghost(pending): Ghost<Seq<TxDates>>,
    Ghost(np): Ghost<int>,
)
    requires
        k < s.len(),
        in_booked ==> s@ == booked && nb == k && np == 0,
        !in_booked ==> s@ == pending && np == k && nb == booked.len(),
        sorts_into(old(buckets)@, booked, nb, pending, np),
    ensures
        in_booked ==> sorts_into(final(buckets)@, booked, nb + 1, pending, np),
        !in_booked ==> sorts_into(final(buckets)@, booked, nb, pending, np + 1),
{
    let key = month_of(&s[k]);
    let ghost old_b = buckets@;
    let mut i: usize = 0;
    while i < buckets.len()
        invariant
            buckets@ == old_b,
            i <= buckets.len(),
            forall|j: int| 0 <= j < i ==> (#[trigger] buckets@[j]).month != key,
        ensures
            buckets@ == old_b,
            i <= buckets.len(),
            forall|j: int| 0 <= j < i ==> (#[trigger] buckets@[j]).month != key,
            i < buckets.len() ==> buckets@[i as int].month == key,
        decreases buckets.len() - i,
    {
        if same_bucket(buckets[i].month, key) {
            break;
        }
        i = i + 1;
    }
    if i < buckets.len() {
        let mut b = buckets.remove(i);
        if in_booked {
            b.booked.push(k);
        } else {
            b.pending.push(k);
        }
        buckets.insert(i, b);
        proof {
            let nb2 = if in_booked { nb + 1 } else { nb };
            let np2 = if in_booked { np } else { np + 1 };
            assert(s@[k as int] == (if in_booked { booked[nb] } else { pending[np] }));
            assert forall|j: int| 0 <= j < buckets@.len() implies (#[trigger] buckets@[j]).month
                == old_b[j].month && (j != i ==> buckets@[j] == old_b[j]) by {}
            assert forall|j: int| 0 <= j < buckets@.len() implies {
                let c = #[trigger] buckets@[j];
                &&& c.booked@ == indices_in(booked, c.month, nb2)
                &&& c.pending@ == indices_in(pending, c.month, np2)
                &&& c.booked@.len() + c.pending@.len() > 0
            } by {
                let c = buckets@[j];
                if in_booked {
                    lemma_indices_in_step(booked, c.month, nb);
                } else {
                    lemma_indices_in_step(pending, c.month, np);
                }
                if j != i {
                    assert(old_b[j].month != old_b[i as int].month);
                }
            }
            assert forall|q: int| 0 <= q < nb2 implies exists|w: int|
                0 <= w < buckets@.len() && #[trigger] buckets@[w].month == tx_month(
                    #[trigger] booked[q],
                ) by {
                if q < nb {
                    let w = choose|w: int|
                        0 <= w < old_b.len() && #[trigger] old_b[w].month == tx_month(booked[q]);
                    assert(buckets@[w].month == old_b[w].month);
                } else {
                    assert(buckets@[i as int].month == tx_month(booked[q]));
                }
            }
            assert forall|q: int| 0 <= q < np2 implies exists|w: int|
                0 <= w < buckets@.len() && #[trigger] buckets@[w].month == tx_month(
                    #[trigger] pending[q],
                ) by {
                if q < np {
                    let w = choose|w: int|
                        0 <= w < old_b.len() && #[trigger] old_b[w].month == tx_month(pending[q]);
                    assert(buckets@[w].month == old_b[w].month);
                } else {
                    assert(buckets@[i as int].month == tx_month(pending[q]));
                }
            }
            assert forall|a: int, c: int| 0 <= a < c < buckets@.len() implies buckets@[a].month
                != buckets@[c].month by {
                assert(buckets@[a].month == old_b[a].month);
                assert(buckets@[c].month == old_b[c].month);
            }
        }
    } else {
        let mut booked_ix: Vec<usize> = Vec::new();
        let mut pending_ix: Vec<usize> = Vec::new();
        if in_booked {
            booked_ix.push(k);
        } else {
            pending_ix.push(k);
        }
        proof {
            assert forall|q: int| 0 <= q < nb implies tx_month(#[trigger] booked[q]) != key by {
                let w = choose|w: int| 0 <= w < old_b.len() && #[trigger] old_b[w].month == tx_month(booked[q]);
                assert(old_b[w].month != key);
            }
            assert forall|q: int| 0 <= q < np implies tx_month(#[trigger] pending[q]) != key by {
                let w = choose|w: int| 0 <= w < old_b.len() && #[trigger] old_b[w].month == tx_month(pending[q]);
                assert(old_b[w].month != key);
            }
            lemma_indices_in_empty(booked, key, nb);
            lemma_indices_in_empty(pending, key, np);
        }
        buckets.push(MonthBucket { month: key, booked: booked_ix, pending: pending_ix });
        proof {
            let nb2 = if in_booked { nb + 1 } else { nb };
            let np2 = if in_booked { np } else { np + 1 };
            let last = old_b.len() as int;
            assert(s@[k as int] == (if in_booked { booked[nb] } else { pending[np] }));
            assert(buckets@[last].month == key);
            assert forall|j: int| 0 <= j < old_b.len() implies #[trigger] buckets@[j] == old_b[j] by {}
            assert forall|j: int| 0 <= j < buckets@.len() implies {
                let c = #[trigger] buckets@[j];
                &&& c.booked@ == indices_in(booked, c.month, nb2)
                &&& c.pending@ == indices_in(pending, c.month, np2)
                &&& c.booked@.len() + c.pending@.len() > 0
            } by {
                let c = buckets@[j];
                if in_booked {
                    lemma_indices_in_step(booked, c.month, nb);
                } else {
                    lemma_indices_in_step(pending, c.month, np);
                }
                if j < last {
                    assert(old_b[j].month != key);
                } else {
                    assert(c.booked@ =~= indices_in(booked, c.month, nb2));
                    assert(c.pending@ =~= indices_in(pending, c.month, np2));
                }
            }
            assert forall|q: int| 0 <= q < nb2 implies exists|w: int|
                0 <= w < buckets@.len() && #[trigger] buckets@[w].month == tx_month(
                    #[trigger] booked[q],
                ) by {
                if q < nb {
                    let w = choose|w: int|
                        0 <= w < old_b.len() && #[trigger] old_b[w].month == tx_month(booked[q]);
                    assert(buckets@[w].month == old_b[w].month);
                } else {
                    assert(buckets@[last].month == tx_month(booked[q]));
                }
            }
            assert forall|q: int| 0 <= q < np2 implies exists|w: int|
                0 <= w < buckets@.len() && #[trigger] buckets@[w].month == tx_month(
                    #[trigger] pending[q],
                ) by {
                if q < np {
                    let w = choose|w: int|
                        0 <= w < old_b.len() && #[trigger] old_b[w].month == tx_month(pending[q]);
                    assert(buckets@[w].month == old_b[w].month);
                } else {
                    assert(buckets@[last].month == tx_month(pending[q]));
                }
            }
        }
    }
}

/// Sorts the booked and pending transactions of one range into month
/// buckets; transactions without any date form the undated bucket.
pub fn bucket_transactions(booked: &Vec<TxDates>, pending: &Vec<TxDates>) -> (r: Vec<MonthBucket>)
    ensures
        sorts_into(r@, booked@, booked@.len() as int, pending@, pending@.len() as int),
{
    let mut buckets: Vec<MonthBucket> = Vec::new();
    for k in 0..booked.len()
        invariant
            sorts_into(buckets@, booked@, k as int, pending@, 0),
    {
        place(&mut buckets, booked, k, true, Ghost(booked@), Ghost(k as int), Ghost(pending@), Ghost(0));
    }
    for k in 0..pending.len()
        invariant
            sorts_into(buckets@, booked@, booked@.len() as int, pending@, k as int),
    {
        place(&mut buckets, pending, k, false, Ghost(booked@), Ghost(booked@.len() as int), Ghost(pending@), Ghost(k as int));
    }
    buckets
}

} // verus!
