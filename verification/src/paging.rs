//! Pagination of listings: a page starts at index `from` and holds at most
//! `size` entries, and never more than [`MAX_PAGE_SIZE`].

use vstd::prelude::*;

verus! {

/// The largest number of entries that one page holds.
pub const MAX_PAGE_SIZE: u64 = 100;

/// The number of entries that a page of the requested size may hold.
pub open spec fn capped_size(size: u64) -> int {
    if size < MAX_PAGE_SIZE {
        size as int
    } else {
        MAX_PAGE_SIZE as int
    }
}

/// Index of the first entry of a page: `from`, or the end of a listing of
/// `len` entries when `from` lies past it.
pub open spec fn page_start(len: nat, from: u64) -> int {
    if from < len {
        from as int
    } else {
        len as int
    }
}

/// Index one past the last entry of a page.
pub open spec fn page_end(len: nat, from: u64, size: u64) -> int {
    let start = page_start(len, from);
    if start + capped_size(size) < len {
        start + capped_size(size)
    } else {
        len as int
    }
}

/// The page of `listing` that starts at `from` with at most `size` entries:
/// the listing with its first `from` entries skipped, then cut to
/// `min(size, MAX_PAGE_SIZE)` entries.
pub open spec fn page<T>(listing: Seq<T>, from: u64, size: u64) -> Seq<T> {
    listing.subrange(page_start(listing.len(), from), page_end(listing.len(), from, size))
}

/// The bounds `(start, end)` of a page in a listing of `len` entries.
pub fn page_bounds(from: u64, size: u64, len: usize) -> (r: (usize, usize))
    ensures
        r.0 == page_start(len as nat, from),
        r.1 == page_end(len as nat, from, size),
        r.0 <= r.1 <= len,
{
    let cap: u64 = if size < MAX_PAGE_SIZE { size } else { MAX_PAGE_SIZE };
    let start: usize = if from < len as u64 { from as usize } else { len };
    let end: usize = if cap < (len - start) as u64 { start + cap as usize } else { len };
    (start, end)
}

/// A page holds `min(size, 100)` entries, or fewer where the listing ends
/// first: `min(size, 100, len - from)`; none when `from` lies at or past the
/// end of the listing.
pub proof fn lemma_page_len<T>(listing: Seq<T>, from: u64, size: u64)
    ensures
        from >= listing.len() ==> page(listing, from, size).len() == 0,
        from < listing.len() ==> {
            let room = listing.len() - from;
            let wanted = if size < 100 { size as int } else { 100 };
            page(listing, from, size).len() == if wanted <= room { wanted } else { room }
        },
        page(listing, from, size).len() <= 100,
        page(listing, from, size).len() <= size,
{
}

/// The `j`-th entry of a page is the `(from + j)`-th entry of the listing.
pub proof fn lemma_page_index<T>(listing: Seq<T>, from: u64, size: u64, j: int)
    requires
        0 <= j < page(listing, from, size).len(),
    ensures
        page(listing, from, size)[j] == listing[from + j],
{
}

/// Two adjacent pages, the second starting where the first ends, together
/// hold exactly the entries of one page of their combined size (sizes within
/// the cap).
pub proof fn lemma_adjacent_pages<T>(listing: Seq<T>, from: u64, a: u64, b: u64)
    requires
        a + b <= MAX_PAGE_SIZE,
        from + a <= u64::MAX,
    ensures
        page(listing, from, a) + page(listing, (from + a) as u64, b) == page(
            listing,
            from,
            (a + b) as u64,
        ),
{
    let n = listing.len();
    let p1 = page(listing, from, a);
    let p2 = page(listing, (from + a) as u64, b);
    let p = page(listing, from, (a + b) as u64);
    assert(p1 + p2 =~= p);
}

/// A page that starts at the beginning and is at least as large as the
/// listing (and within the cap) holds the whole listing.
pub proof fn lemma_first_page_is_whole_listing<T>(listing: Seq<T>, size: u64)
    requires
        listing.len() <= size,
        listing.len() <= MAX_PAGE_SIZE,
    ensures
        page(listing, 0, size) == listing,
{
    assert(page(listing, 0, size) =~= listing);
}

} // verus!
