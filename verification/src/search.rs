//! Binary search over sorted, embedded lookup tables.
//!
//! Every static table in this crate is a sequence of tuples whose key column
//! is strictly increasing. The mathematical model of a lookup is
//! [`spec_lookup`] (respectively [`spec_lookup64`], [`spec_lookup_by_second`],
//! [`spec_find_range`]): a left-to-right scan for the key. The executable
//! functions narrow an index interval by binary search and are proved to
//! return exactly what the model returns.

use vstd::prelude::*;

verus! {

/// The key column (`.0`) of `s` is strictly increasing.
pub open spec fn sorted_by_key<T>(s: Seq<(u32, T)>) -> bool {
    forall|i: int, j: int| 0 <= i < j < s.len() ==> s[i].0 < s[j].0
}

/// Adjacent form of [`sorted_by_key`]; the two are equivalent
/// (see [`lemma_adjacent_sorted_by_key`]).
pub open spec fn adjacent_sorted_by_key<T>(s: Seq<(u32, T)>) -> bool {
    forall|i: int| 0 <= i < s.len() - 1 ==> #[trigger] s[i].0 < s[i + 1].0
}

proof fn lemma_key_chain<T>(s: Seq<(u32, T)>, i: int, j: int)
    requires
        adjacent_sorted_by_key(s),
        0 <= i < j < s.len(),
    ensures
        s[i].0 < s[j].0,
    decreases j - i,
{
    if i + 1 < j {
        lemma_key_chain(s, i, j - 1);
    }
}

/// A table whose adjacent keys increase is sorted by key throughout.
pub proof fn lemma_adjacent_sorted_by_key<T>(s: Seq<(u32, T)>)
    requires
        adjacent_sorted_by_key(s),
    ensures
        sorted_by_key(s),
{
    assert forall|i: int, j: int| 0 <= i < j < s.len() implies s[i].0 < s[j].0 by {
        lemma_key_chain(s, i, j);
    }
}

/// Left-to-right scan of `s` for key `key`, starting at index `i`.
pub open spec fn spec_lookup_from<T>(s: Seq<(u32, T)>, key: u32, i: int) -> Option<T>
    decreases s.len() - i,
{
    if i < 0 || i >= s.len() {
        None
    } else if s[i].0 == key {
        Some(s[i].1)
    } else {
        spec_lookup_from(s, key, i + 1)
    }
}

/// The entry of `s` whose key is `key`, if one exists.
pub open spec fn spec_lookup<T>(s: Seq<(u32, T)>, key: u32) -> Option<T> {
    spec_lookup_from(s, key, 0)
}

proof fn lemma_lookup_from_found<T>(s: Seq<(u32, T)>, key: u32, i: int, at: int)
    requires
        0 <= i <= at < s.len(),
        s[at].0 == key,
        forall|k: int| i <= k < at ==> s[k].0 != key,
    ensures
        spec_lookup_from(s, key, i) == Some(s[at].1),
    decreases at - i,
{
    if i < at {
        lemma_lookup_from_found(s, key, i + 1, at);
    }
}

proof fn lemma_lookup_from_missing<T>(s: Seq<(u32, T)>, key: u32, i: int)
    requires
        forall|k: int| i <= k < s.len() ==> s[k].0 != key,
    ensures
        spec_lookup_from(s, key, i) is None,
    decreases s.len() - i,
{
    if 0 <= i < s.len() {
        lemma_lookup_from_missing(s, key, i + 1);
    }
}

/// In a table sorted by key, an entry `(key, v)` at any index is the value of
/// [`spec_lookup`], and absence of the key everywhere makes it `None`.
pub proof fn lemma_lookup_characterizes<T>(s: Seq<(u32, T)>, key: u32)
    requires
        sorted_by_key(s),
    ensures
        forall|at: int|
            0 <= at < s.len() && s[at].0 == key ==> spec_lookup(s, key) == Some(s[at].1),
        (forall|k: int| 0 <= k < s.len() ==> s[k].0 != key) ==> spec_lookup(s, key) is None,
{
    assert forall|at: int|
        0 <= at < s.len() && s[at].0 == key implies spec_lookup(s, key) == Some(s[at].1) by {
        lemma_lookup_from_found(s, key, 0, at);
    }
    if forall|k: int| 0 <= k < s.len() ==> s[k].0 != key {
        lemma_lookup_from_missing(s, key, 0);
    }
}

/// A found [`spec_lookup`] result comes from some entry of the table.
pub proof fn lemma_lookup_is_entry<T>(s: Seq<(u32, T)>, key: u32, i: int)
    requires
        spec_lookup_from(s, key, i) is Some,
        0 <= i,
    ensures
        exists|at: int|
            i <= at < s.len() && s[at] == (key, spec_lookup_from(s, key, i).unwrap()),
    decreases s.len() - i,
{
    if i < s.len() && s[i].0 != key {
        lemma_lookup_is_entry(s, key, i + 1);
    }
}

/// Finds the entry of `table` whose key (first component) is `key` by binary
/// search and returns its payload.
pub fn lookup_by_key<T: Copy>(table: &Vec<(u32, T)>, key: u32) -> (r: Option<T>)
    requires
        sorted_by_key(table@),
    ensures
        r == spec_lookup(table@, key),
{
    let ghost s = table@;
    let mut lo: usize = 0;
    let mut hi: usize = table.len();
    while lo < hi
        invariant
            lo <= hi <= s.len(),
            table@ == s,
            sorted_by_key(s),
            forall|i: int| 0 <= i < s.len() && s[i].0 == key ==> lo <= i < hi,
        decreases hi - lo,
    {
        let mid = lo + (hi - lo) / 2;
        let entry = table[mid];
        if entry.0 == key {
            proof {
                lemma_lookup_characterizes(s, key);
            }
            return Some(entry.1);
        } else if entry.0 < key {
            lo = mid + 1;
        } else {
            hi = mid;
        }
    }
    proof {
        lemma_lookup_characterizes(s, key);
    }
    None
}

/// The payload column (`.1`) of `s` is strictly increasing.
pub open spec fn sorted_by_second(s: Seq<(u32, u32)>) -> bool {
    forall|i: int, j: int| 0 <= i < j < s.len() ==> s[i].1 < s[j].1
}

/// Adjacent form of [`sorted_by_second`].
pub open spec fn adjacent_sorted_by_second(s: Seq<(u32, u32)>) -> bool {
    forall|i: int| 0 <= i < s.len() - 1 ==> #[trigger] s[i].1 < s[i + 1].1
}

proof fn lemma_second_chain(s: Seq<(u32, u32)>, i: int, j: int)
    requires
        adjacent_sorted_by_second(s),
        0 <= i < j < s.len(),
    ensures
        s[i].1 < s[j].1,
    decreases j - i,
{
    if i + 1 < j {
        lemma_second_chain(s, i, j - 1);
    }
}

/// A table whose adjacent payloads increase is sorted by payload throughout.
pub proof fn lemma_adjacent_sorted_by_second(s: Seq<(u32, u32)>)
    requires
        adjacent_sorted_by_second(s),
    ensures
        sorted_by_second(s),
{
    assert forall|i: int, j: int| 0 <= i < j < s.len() implies s[i].1 < s[j].1 by {
        lemma_second_chain(s, i, j);
    }
}

/// Left-to-right scan of `s` for an entry whose second component is `key`,
/// returning the first component.
pub open spec fn spec_lookup_by_second_from(s: Seq<(u32, u32)>, key: u32, i: int) -> Option<u32>
    decreases s.len() - i,
{
    if i < 0 || i >= s.len() {
        None
    } else if s[i].1 == key {
        Some(s[i].0)
    } else {
        spec_lookup_by_second_from(s, key, i + 1)
    }
}

/// The first component of the entry of `s` whose second component is `key`.
pub open spec fn spec_lookup_by_second(s: Seq<(u32, u32)>, key: u32) -> Option<u32> {
    spec_lookup_by_second_from(s, key, 0)
}

proof fn lemma_lookup_by_second_found(s: Seq<(u32, u32)>, key: u32, i: int, at: int)
    requires
        0 <= i <= at < s.len(),
        s[at].1 == key,
        forall|k: int| i <= k < at ==> s[k].1 != key,
    ensures
        spec_lookup_by_second_from(s, key, i) == Some(s[at].0),
    decreases at - i,
{
    if i < at {
        lemma_lookup_by_second_found(s, key, i + 1, at);
    }
}

proof fn lemma_lookup_by_second_missing(s: Seq<(u32, u32)>, key: u32, i: int)
    requires
        forall|k: int| i <= k < s.len() ==> s[k].1 != key,
    ensures
        spec_lookup_by_second_from(s, key, i) is None,
    decreases s.len() - i,
{
    if 0 <= i < s.len() {
        lemma_lookup_by_second_missing(s, key, i + 1);
    }
}

/// Characterization of [`spec_lookup_by_second`] on a table sorted by payload.
pub proof fn lemma_lookup_by_second_characterizes(s: Seq<(u32, u32)>, key: u32)
    requires
        sorted_by_second(s),
    ensures
        forall|at: int|
            0 <= at < s.len() && s[at].1 == key ==> spec_lookup_by_second(s, key) == Some(
                s[at].0,
            ),
        (forall|k: int| 0 <= k < s.len() ==> s[k].1 != key) ==> spec_lookup_by_second(s, key)
            is None,
{
    assert forall|at: int|
        0 <= at < s.len() && s[at].1 == key implies spec_lookup_by_second(s, key) == Some(
        s[at].0,
    ) by {
        lemma_lookup_by_second_found(s, key, 0, at);
    }
    if forall|k: int| 0 <= k < s.len() ==> s[k].1 != key {
        lemma_lookup_by_second_missing(s, key, 0);
    }
}


/// A found [`spec_lookup_by_second`] result comes from some entry of the
/// table.
pub proof fn lemma_lookup_by_second_is_entry(s: Seq<(u32, u32)>, key: u32, i: int)
    requires
        spec_lookup_by_second_from(s, key, i) is Some,
        0 <= i,
    ensures
        exists|at: int|
            i <= at < s.len() && s[at] == (spec_lookup_by_second_from(s, key, i).unwrap(), key),
    decreases s.len() - i,
{
    if i < s.len() && s[i].1 != key {
        lemma_lookup_by_second_is_entry(s, key, i + 1);
    }
}

/// Finds the entry of `table` whose second component is `key` by binary search
/// over the payload column and returns its first component.
pub fn lookup_by_second(table: &Vec<(u32, u32)>, key: u32) -> (r: Option<u32>)
    requires
        sorted_by_second(table@),
    ensures
        r == spec_lookup_by_second(table@, key),
{
    let ghost s = table@;
    let mut lo: usize = 0;
    let mut hi: usize = table.len();
    while lo < hi
        invariant
            lo <= hi <= s.len(),
            table@ == s,
            sorted_by_second(s),
            forall|i: int| 0 <= i < s.len() && s[i].1 == key ==> lo <= i < hi,
        decreases hi - lo,
    {
        let mid = lo + (hi - lo) / 2;
        let entry = table[mid];
        if entry.1 == key {
            proof {
                lemma_lookup_by_second_characterizes(s, key);
            }
            return Some(entry.0);
        } else if entry.1 < key {
            lo = mid + 1;
        } else {
            hi = mid;
        }
    }
    proof {
        lemma_lookup_by_second_characterizes(s, key);
    }
    None
}

/// The key column (`.0`) of a 64-bit-keyed table is strictly increasing.
pub open spec fn sorted_by_key64<T>(s: Seq<(u64, T)>) -> bool {
    forall|i: int, j: int| 0 <= i < j < s.len() ==> s[i].0 < s[j].0
}

/// Adjacent form of [`sorted_by_key64`].
pub open spec fn adjacent_sorted_by_key64<T>(s: Seq<(u64, T)>) -> bool {
    forall|i: int| 0 <= i < s.len() - 1 ==> #[trigger] s[i].0 < s[i + 1].0
}

proof fn lemma_key64_chain<T>(s: Seq<(u64, T)>, i: int, j: int)
    requires
        adjacent_sorted_by_key64(s),
        0 <= i < j < s.len(),
    ensures
        s[i].0 < s[j].0,
    decreases j - i,
{
    if i + 1 < j {
        lemma_key64_chain(s, i, j - 1);
    }
}

/// A 64-bit-keyed table whose adjacent keys increase is sorted throughout.
pub proof fn lemma_adjacent_sorted_by_key64<T>(s: Seq<(u64, T)>)
    requires
        adjacent_sorted_by_key64(s),
    ensures
        sorted_by_key64(s),
{
    assert forall|i: int, j: int| 0 <= i < j < s.len() implies s[i].0 < s[j].0 by {
        lemma_key64_chain(s, i, j);
    }
}

/// Left-to-right scan of a 64-bit-keyed table for `key`, starting at `i`.
pub open spec fn spec_lookup64_from<T>(s: Seq<(u64, T)>, key: u64, i: int) -> Option<T>
    decreases s.len() - i,
{
    if i < 0 || i >= s.len() {
        None
    } else if s[i].0 == key {
        Some(s[i].1)
    } else {
        spec_lookup64_from(s, key, i + 1)
    }
}

/// The entry of a 64-bit-keyed table whose key is `key`, if one exists.
pub open spec fn spec_lookup64<T>(s: Seq<(u64, T)>, key: u64) -> Option<T> {
    spec_lookup64_from(s, key, 0)
}

proof fn lemma_lookup64_found<T>(s: Seq<(u64, T)>, key: u64, i: int, at: int)
    requires
        0 <= i <= at < s.len(),
        s[at].0 == key,
        forall|k: int| i <= k < at ==> s[k].0 != key,
    ensures
        spec_lookup64_from(s, key, i) == Some(s[at].1),
    decreases at - i,
{
    if i < at {
        lemma_lookup64_found(s, key, i + 1, at);
    }
}

proof fn lemma_lookup64_missing<T>(s: Seq<(u64, T)>, key: u64, i: int)
    requires
        forall|k: int| i <= k < s.len() ==> s[k].0 != key,
    ensures
        spec_lookup64_from(s, key, i) is None,
    decreases s.len() - i,
{
    if 0 <= i < s.len() {
        lemma_lookup64_missing(s, key, i + 1);
    }
}

/// Characterization of [`spec_lookup64`] on a sorted table.
pub proof fn lemma_lookup64_characterizes<T>(s: Seq<(u64, T)>, key: u64)
    requires
        sorted_by_key64(s),
    ensures
        forall|at: int|
            0 <= at < s.len() && s[at].0 == key ==> spec_lookup64(s, key) == Some(s[at].1),
        (forall|k: int| 0 <= k < s.len() ==> s[k].0 != key) ==> spec_lookup64(s, key) is None,
{
    assert forall|at: int|
        0 <= at < s.len() && s[at].0 == key implies spec_lookup64(s, key) == Some(s[at].1) by {
        lemma_lookup64_found(s, key, 0, at);
    }
    if forall|k: int| 0 <= k < s.len() ==> s[k].0 != key {
        lemma_lookup64_missing(s, key, 0);
    }
}

/// A found [`spec_lookup64`] result comes from some entry of the table.
pub proof fn lemma_lookup64_is_entry<T>(s: Seq<(u64, T)>, key: u64, i: int)
    requires
        spec_lookup64_from(s, key, i) is Some,
        0 <= i,
    ensures
        exists|at: int|
            i <= at < s.len() && s[at] == (key, spec_lookup64_from(s, key, i).unwrap()),
    decreases s.len() - i,
{
    if i < s.len() && s[i].0 != key {
        lemma_lookup64_is_entry(s, key, i + 1);
    }
}

/// Finds the entry of a 64-bit-keyed `table` whose key is `key` by binary
/// search and returns its payload.
pub fn lookup_by_key64<T: Copy>(table: &Vec<(u64, T)>, key: u64) -> (r: Option<T>)
    requires
        sorted_by_key64(table@),
    ensures
        r == spec_lookup64(table@, key),
{
    let ghost s = table@;
    let mut lo: usize = 0;
    let mut hi: usize = table.len();
    while lo < hi
        invariant
            lo <= hi <= s.len(),
            table@ == s,
            sorted_by_key64(s),
            forall|i: int| 0 <= i < s.len() && s[i].0 == key ==> lo <= i < hi,
        decreases hi - lo,
    {
        let mid = lo + (hi - lo) / 2;
        let entry = table[mid];
        if entry.0 == key {
            proof {
                lemma_lookup64_characterizes(s, key);
            }
            return Some(entry.1);
        } else if entry.0 < key {
            lo = mid + 1;
        } else {
            hi = mid;
        }
    }
    proof {
        lemma_lookup64_characterizes(s, key);
    }
    None
}

/// The rows `(start, end, payload)` of `s` are non-empty, disjoint intervals
/// in increasing order.
pub open spec fn ranges_wf<T>(s: Seq<(u32, u32, T)>) -> bool {
    &&& forall|i: int| 0 <= i < s.len() ==> #[trigger] s[i].0 <= s[i].1
    &&& forall|i: int, j: int| 0 <= i < j < s.len() ==> s[i].1 < s[j].0
}

/// Adjacent form of [`ranges_wf`].
pub open spec fn adjacent_ranges_wf<T>(s: Seq<(u32, u32, T)>) -> bool {
    &&& forall|i: int| 0 <= i < s.len() ==> #[trigger] s[i].0 <= s[i].1
    &&& forall|i: int| 0 <= i < s.len() - 1 ==> #[trigger] s[i].1 < s[i + 1].0
}

proof fn lemma_range_chain<T>(s: Seq<(u32, u32, T)>, i: int, j: int)
    requires
        adjacent_ranges_wf(s),
        0 <= i < j < s.len(),
    ensures
        s[i].1 < s[j].0,
    decreases j - i,
{
    if i + 1 < j {
        lemma_range_chain(s, i, j - 1);
    }
}

/// A range table whose adjacent rows are ordered is well-formed throughout.
pub proof fn lemma_adjacent_ranges_wf<T>(s: Seq<(u32, u32, T)>)
    requires
        adjacent_ranges_wf(s),
    ensures
        ranges_wf(s),
{
    assert forall|i: int, j: int| 0 <= i < j < s.len() implies s[i].1 < s[j].0 by {
        lemma_range_chain(s, i, j);
    }
}

/// Left-to-right scan of a range table for the interval containing `c`.
pub open spec fn spec_find_range_from<T>(s: Seq<(u32, u32, T)>, c: u32, i: int) -> Option<T>
    decreases s.len() - i,
{
    if i < 0 || i >= s.len() {
        None
    } else if s[i].0 <= c && c <= s[i].1 {
        Some(s[i].2)
    } else {
        spec_find_range_from(s, c, i + 1)
    }
}

/// The payload of the interval of `s` that contains `c`, if one does.
pub open spec fn spec_find_range<T>(s: Seq<(u32, u32, T)>, c: u32) -> Option<T> {
    spec_find_range_from(s, c, 0)
}

proof fn lemma_find_range_found<T>(s: Seq<(u32, u32, T)>, c: u32, i: int, at: int)
    requires
        0 <= i <= at < s.len(),
        s[at].0 <= c && c <= s[at].1,
        forall|k: int| i <= k < at ==> !(s[k].0 <= c && c <= s[k].1),
    ensures
        spec_find_range_from(s, c, i) == Some(s[at].2),
    decreases at - i,
{
    if i < at {
        lemma_find_range_found(s, c, i + 1, at);
    }
}

proof fn lemma_find_range_missing<T>(s: Seq<(u32, u32, T)>, c: u32, i: int)
    requires
        forall|k: int| i <= k < s.len() ==> !(s[k].0 <= c && c <= s[k].1),
    ensures
        spec_find_range_from(s, c, i) is None,
    decreases s.len() - i,
{
    if 0 <= i < s.len() {
        lemma_find_range_missing(s, c, i + 1);
    }
}

/// Characterization of [`spec_find_range`] on a well-formed range table.
pub proof fn lemma_find_range_characterizes<T>(s: Seq<(u32, u32, T)>, c: u32)
    requires
        ranges_wf(s),
    ensures
        forall|at: int|
            0 <= at < s.len() && s[at].0 <= c && c <= s[at].1 ==> spec_find_range(s, c) == Some(
                s[at].2,
            ),
        (forall|k: int| 0 <= k < s.len() ==> !(s[k].0 <= c && c <= s[k].1)) ==> spec_find_range(
            s,
            c,
        ) is None,
{
    assert forall|at: int|
        0 <= at < s.len() && s[at].0 <= c && c <= s[at].1 implies spec_find_range(s, c) == Some(
        s[at].2,
    ) by {
        lemma_find_range_found(s, c, 0, at);
    }
    if forall|k: int| 0 <= k < s.len() ==> !(s[k].0 <= c && c <= s[k].1) {
        lemma_find_range_missing(s, c, 0);
    }
}


/// A found [`spec_find_range`] result comes from some row of the table.
pub proof fn lemma_find_range_is_entry<T>(s: Seq<(u32, u32, T)>, c: u32, i: int)
    requires
        spec_find_range_from(s, c, i) is Some,
        0 <= i,
    ensures
        exists|at: int|
            i <= at < s.len() && s[at].0 <= c && c <= s[at].1 && s[at].2
                == spec_find_range_from(s, c, i).unwrap(),
    decreases s.len() - i,
{
    if i < s.len() && !(s[i].0 <= c && c <= s[i].1) {
        lemma_find_range_is_entry(s, c, i + 1);
    }
}

/// Finds the interval of `table` that contains `c` by binary search and
/// returns its payload.
pub fn find_range<T: Copy>(table: &Vec<(u32, u32, T)>, c: u32) -> (r: Option<T>)
    requires
        ranges_wf(table@),
    ensures
        r == spec_find_range(table@, c),
{
    let ghost s = table@;
    let mut lo: usize = 0;
    let mut hi: usize = table.len();
    while lo < hi
        invariant
            lo <= hi <= s.len(),
            table@ == s,
            ranges_wf(s),
            forall|i: int| 0 <= i < s.len() && s[i].0 <= c && c <= s[i].1 ==> lo <= i < hi,
        decreases hi - lo,
    {
        let mid = lo + (hi - lo) / 2;
        let entry = table[mid];
        if c < entry.0 {
            hi = mid;
        } else if c > entry.1 {
            lo = mid + 1;
        } else {
            proof {
                lemma_find_range_characterizes(s, c);
            }
            return Some(entry.2);
        }
    }
    proof {
        lemma_find_range_characterizes(s, c);
    }
    None
}

} // verus!
