//! Answers keyed by symbol.
//!
//! The service answers with one entry for each symbol asked about. The
//! entries are kept as a list of pairs of a symbol and what belongs to it, in
//! which no symbol occurs twice; where one did, the first entry would count.
use crate::text::text_eq;
use vstd::prelude::*;

verus! {

/// The place of the first entry under a symbol; the number of entries
/// where there is none.
pub open spec fn place<T>(entries: Seq<(String, T)>, symbol: Seq<char>) -> int
    decreases entries.len(),
{
    if entries.len() == 0 {
        0
    } else if entries[0].0@ == symbol {
        0
    } else {
        1 + place(entries.drop_first(), symbol)
    }
}

/// What belongs to a symbol: the second part of the first entry under it.
pub open spec fn lookup<T>(entries: Seq<(String, T)>, symbol: Seq<char>) -> Option<T> {
    if 0 <= place(entries, symbol) < entries.len() {
        Some(entries[place(entries, symbol)].1)
    } else {
        None
    }
}

/// Whether no symbol occurs twice.
pub open spec fn distinct_symbols<T>(entries: Seq<(String, T)>) -> bool {
    forall|i: int, j: int|
        0 <= i < j < entries.len() ==> (#[trigger] entries[i]).0@ != (#[trigger] entries[j]).0@
}

/// How many items the lists of all symbols hold together.
pub open spec fn total_len<T>(entries: Seq<(String, Vec<T>)>) -> nat
    decreases entries.len(),
{
    if entries.len() == 0 {
        0
    } else {
        total_len(entries.drop_last()) + entries.last().1@.len()
    }
}

/// Whether the list of every symbol is empty.
pub open spec fn all_empty<T>(entries: Seq<(String, Vec<T>)>) -> bool {
    forall|i: int| 0 <= i < entries.len() ==> (#[trigger] entries[i]).1@.len() == 0
}

/// The items of all symbols, each with its symbol: symbol after symbol, and
/// for each symbol its items in order.
pub open spec fn flattened<T>(entries: Seq<(String, Vec<T>)>) -> Seq<(Seq<char>, T)>
    decreases entries.len(),
{
    if entries.len() == 0 {
        Seq::empty()
    } else {
        flattened(entries.drop_last()) + Seq::new(
            entries.last().1@.len(),
            |k: int| (entries.last().0@, entries.last().1@[k]),
        )
    }
}

/// The place of a symbol lies within the entries or just behind them; an
/// entry at that place stands under the symbol, and none before it does.
pub proof fn lemma_place<T>(entries: Seq<(String, T)>, symbol: Seq<char>)
    ensures
        0 <= place(entries, symbol) <= entries.len(),
        place(entries, symbol) < entries.len() ==> entries[place(entries, symbol)].0@ == symbol,
        forall|j: int| 0 <= j < place(entries, symbol) ==> (#[trigger] entries[j]).0@ != symbol,
    decreases entries.len(),
{
    if entries.len() > 0 && entries[0].0@ != symbol {
        let rest = entries.drop_first();
        lemma_place(rest, symbol);
        assert forall|j: int| 0 <= j < place(entries, symbol) implies (#[trigger] entries[j]).0@
            != symbol by {
            if j > 0 {
                assert(rest[j - 1] == entries[j]);
            }
        }
    }
}

/// Every symbol that has an entry has something; where no symbol occurs
/// twice, it has what its entry holds.
pub proof fn lemma_lookup_finds<T>(entries: Seq<(String, T)>, i: int)
    requires
        0 <= i < entries.len(),
    ensures
        lookup(entries, entries[i].0@) is Some,
        distinct_symbols(entries) ==> lookup(entries, entries[i].0@) == Some(entries[i].1),
{
    lemma_place(entries, entries[i].0@);
    let p = place(entries, entries[i].0@);
    if p > i {
        assert(entries[i].0@ != entries[i].0@);
    }
    if distinct_symbols(entries) && p < i {
        assert(entries[p].0@ != entries[i].0@);
    }
}

/// Finds the place of the first entry under a symbol.
pub fn index_of<T>(entries: &Vec<(String, T)>, symbol: &str) -> (r: Option<usize>)
    ensures
        match r {
            Some(i) => i < entries@.len() && i == place(entries@, symbol@),
            None => place(entries@, symbol@) == entries@.len(),
        },
{
    let mut i: usize = 0;
    assert(entries@.subrange(0, entries@.len() as int) =~= entries@);
    while i < entries.len()
        invariant
            i <= entries.len(),
            place(entries@, symbol@) == i + place(
                entries@.subrange(i as int, entries@.len() as int),
                symbol@,
            ),
        decreases entries.len() - i,
    {
        let ghost rest = entries@.subrange(i as int, entries@.len() as int);
        assert(rest[0] == entries@[i as int]);
        assert(rest.drop_first() =~= entries@.subrange(i + 1, entries@.len() as int));
        if text_eq(entries[i].0.as_str(), symbol) {
            return Some(i);
        }
        i += 1;
    }
    None
}

/// Finds what belongs to a symbol.
pub fn find<'a, T>(entries: &'a Vec<(String, T)>, symbol: &str) -> (r: Option<&'a T>)
    ensures
        match r {
            Some(x) => lookup(entries@, symbol@) == Some(*x),
            None => lookup(entries@, symbol@) is None,
        },
{
    match index_of(entries, symbol) {
        Some(i) => Some(&entries[i].1),
        None => None,
    }
}

/// Finds what belongs to a symbol, to change it. Nothing else changes.
pub fn find_mut<'a, T>(entries: &'a mut Vec<(String, T)>, symbol: &str) -> (r: Option<&'a mut T>)
    ensures
        match r {
            Some(x) => lookup(old(entries)@, symbol@) == Some(*x)
                && final(entries)@ == old(entries)@.update(
                place(old(entries)@, symbol@),
                (old(entries)@[place(old(entries)@, symbol@)].0, *final(x)),
            ),
            None => lookup(old(entries)@, symbol@) is None && final(entries)@ == old(entries)@,
        },
{
    match index_of(entries, symbol) {
        Some(i) => Some(&mut entries[i].1),
        None => None,
    }
}

/// Whether a symbol has an entry.
pub fn contains<T>(entries: &Vec<(String, T)>, symbol: &str) -> (r: bool)
    ensures
        r == lookup(entries@, symbol@) is Some,
{
    find(entries, symbol).is_some()
}

/// The symbols, in the order of the entries.
pub fn symbols_of<T>(entries: &Vec<(String, T)>) -> (r: Vec<&String>)
    ensures
        r@.len() == entries@.len(),
        forall|i: int| 0 <= i < r@.len() ==> *(#[trigger] r@[i]) == entries@[i].0,
{
    let mut out: Vec<&String> = Vec::new();
    let mut i: usize = 0;
    while i < entries.len()
        invariant
            i <= entries.len(),
            out@.len() == i,
            forall|j: int| 0 <= j < i ==> *(#[trigger] out@[j]) == entries@[j].0,
        decreases entries.len() - i,
    {
        out.push(&entries[i].0);
        i += 1;
    }
    out
}

/// How many items the lists of all symbols hold together; the largest
/// `usize` where the count does not fit.
pub fn count_all<T>(entries: &Vec<(String, Vec<T>)>) -> (r: usize)
    ensures
        r == if total_len(entries@) <= usize::MAX {
            total_len(entries@)
        } else {
            usize::MAX as nat
        },
{
    let mut total: usize = 0;
    let mut i: usize = 0;
    assert(entries@.subrange(0, 0) =~= Seq::empty());
    while i < entries.len()
        invariant
            i <= entries.len(),
            total == if total_len(entries@.subrange(0, i as int)) <= usize::MAX {
                total_len(entries@.subrange(0, i as int))
            } else {
                usize::MAX as nat
            },
        decreases entries.len() - i,
    {
        assert(entries@.subrange(0, i + 1).drop_last() =~= entries@.subrange(0, i as int));
        let n = entries[i].1.len();
        total = if n > usize::MAX - total {
            usize::MAX
        } else {
            total + n
        };
        i += 1;
    }
    assert(entries@.subrange(0, i as int) =~= entries@);
    total
}

/// Whether the list of every symbol is empty.
pub fn none_has_items<T>(entries: &Vec<(String, Vec<T>)>) -> (r: bool)
    ensures
        r == all_empty(entries@),
{
    let mut i: usize = 0;
    while i < entries.len()
        invariant
            i <= entries.len(),
            forall|j: int| 0 <= j < i ==> (#[trigger] entries@[j]).1@.len() == 0,
        decreases entries.len() - i,
    {
        if entries[i].1.len() > 0 {
            return false;
        }
        i += 1;
    }
    true
}

/// The items of all symbols, each with its symbol.
pub fn flatten<'a, T>(entries: &'a Vec<(String, Vec<T>)>) -> (r: Vec<(&'a String, &'a T)>)
    ensures
        r@.len() == flattened(entries@).len(),
        forall|k: int|
            0 <= k < r@.len() ==> (#[trigger] r@[k]).0@ == flattened(entries@)[k].0 && *r@[k].1
                == flattened(entries@)[k].1,
{
    let mut out: Vec<(&String, &T)> = Vec::new();
    let mut i: usize = 0;
    assert(entries@.subrange(0, 0) =~= Seq::empty());
    while i < entries.len()
        invariant
            i <= entries.len(),
            out@.len() == flattened(entries@.subrange(0, i as int)).len(),
            forall|k: int|
                0 <= k < out@.len() ==> (#[trigger] out@[k]).0@ == flattened(
                    entries@.subrange(0, i as int),
                )[k].0 && *out@[k].1 == flattened(entries@.subrange(0, i as int))[k].1,
        decreases entries.len() - i,
    {
        let ghost done = flattened(entries@.subrange(0, i as int));
        let ghost next = entries@.subrange(0, i + 1);
        assert(next.drop_last() =~= entries@.subrange(0, i as int));
        assert(next.last() == entries@[i as int]);
        let items = &entries[i].1;
        let mut k: usize = 0;
        while k < items.len()
            invariant
                k <= items.len(),
                i < entries.len(),
                items == &entries@[i as int].1,
                out@.len() == done.len() + k,
                forall|q: int| 0 <= q < done.len() ==> (#[trigger] out@[q]).0@ == done[q].0 && *out@[q].1 == done[q].1,
                forall|q: int|
                    done.len() <= q < out@.len() ==> (#[trigger] out@[q]).0@ == entries@[i as int].0@
                        && *out@[q].1 == items@[q - done.len()],
            decreases items.len() - k,
        {
            out.push((&entries[i].0, &items[k]));
            k += 1;
        }
        i += 1;
    }
    assert(entries@.subrange(0, i as int) =~= entries@);
    out
}

} // verus!
