use vstd::prelude::*;

verus! {

/// Whether `addr` lies in the interval `r`: `[lo, hi]` where `closed` holds,
/// `[lo, hi)` where it does not.
pub open spec fn range_holds(r: (u32, u32), addr: u32, closed: bool) -> bool {
    r.0 <= addr && if closed {
        addr <= r.1
    } else {
        addr < r.1
    }
}

/// The index of the first interval at or after `from` that holds `addr`.
pub open spec fn first_range_from(ranges: Seq<(u32, u32)>, addr: u32, closed: bool, from: int)
    -> Option<int>
    decreases ranges.len() - from,
{
    if from < 0 || from >= ranges.len() {
        None
    } else if range_holds(ranges[from], addr, closed) {
        Some(from)
    } else {
        first_range_from(ranges, addr, closed, from + 1)
    }
}

/// The index of the first interval that holds `addr`.
pub open spec fn first_range(ranges: Seq<(u32, u32)>, addr: u32, closed: bool) -> Option<int> {
    first_range_from(ranges, addr, closed, 0)
}

/// What `first_range_from` finds is the earliest interval that holds the
/// address, and it finds none only where no interval holds it.
pub proof fn lemma_first_range_from(ranges: Seq<(u32, u32)>, addr: u32, closed: bool, from: int)
    requires
        0 <= from,
    ensures
        match first_range_from(ranges, addr, closed, from) {
            Some(i) => from <= i < ranges.len() && range_holds(ranges[i], addr, closed)
                && forall|j: int| from <= j < i ==> !range_holds(#[trigger] ranges[j], addr, closed),
            None => forall|j: int|
                from <= j < ranges.len() ==> !range_holds(#[trigger] ranges[j], addr, closed),
        },
    decreases ranges.len() - from,
{
    if from < ranges.len() && !range_holds(ranges[from], addr, closed) {
        lemma_first_range_from(ranges, addr, closed, from + 1);
    }
}

/// An interval appended to a list is found only where none before it holds
/// the address.
pub proof fn lemma_first_range_push(
    ranges: Seq<(u32, u32)>,
    r: (u32, u32),
    addr: u32,
    closed: bool,
    from: int,
)
    requires
        0 <= from <= ranges.len(),
    ensures
        first_range_from(ranges.push(r), addr, closed, from) == match first_range_from(
            ranges,
            addr,
            closed,
            from,
        ) {
            Some(i) => Some(i),
            None => if range_holds(r, addr, closed) {
                Some(ranges.len() as int)
            } else {
                None
            },
        },
    decreases ranges.len() - from,
{
    if from < ranges.len() {
        assert(ranges.push(r)[from] == ranges[from]);
        if !range_holds(ranges[from], addr, closed) {
            lemma_first_range_push(ranges, r, addr, closed, from + 1);
        }
    } else {
        assert(ranges.push(r)[from] == r);
        assert(first_range_from(ranges.push(r), addr, closed, from + 1) is None);
    }
}

/// Finds the first interval that holds `addr`.
pub fn find_range(ranges: &Vec<(u32, u32)>, addr: u32, closed: bool) -> (res: Option<usize>)
    ensures
        match res {
            Some(i) => first_range(ranges@, addr, closed) == Some(i as int) && i < ranges@.len(),
            None => first_range(ranges@, addr, closed) is None,
        },
{
    let mut i: usize = 0;
    while i < ranges.len()
        invariant
            i <= ranges@.len(),
            first_range(ranges@, addr, closed) == first_range_from(ranges@, addr, closed, i as int),
        decreases ranges@.len() - i,
    {
        let r = ranges[i];
        let inside = r.0 <= addr && if closed {
            addr <= r.1
        } else {
            addr < r.1
        };
        if inside {
            return Some(i);
        }
        i += 1;
    }
    None
}

} // verus!
