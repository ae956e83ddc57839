use std::time::Instant;
use vstd::prelude::*;

verus! {

#[verifier::external_type_specification]
#[verifier::external_body]
pub struct ExInstant(Instant);

/// Calls `std::time::Instant::now`. Nothing is claimed of the moment it
/// returns: it depends on the clock.
#[verifier::external_body]
fn instant_now() -> Instant {
    Instant::now()
}

/// Marks the start of a measured piece of work.
pub fn measure_start() -> Instant {
    instant_now()
}

/// The resident memory of a process in bytes, from its resident set size
/// in pages of 4096 bytes, as a signed count (a size past `i64::MAX` wraps,
/// as the cast does); zero when the size could not be read.
pub open spec fn resident_bytes(rss_pages: Option<u64>) -> i64 {
    match rss_pages {
        Some(pages) => (pages * 4096) as i64,
        None => 0,
    }
}

/// The resident memory in bytes for a resident set size in pages, zero when
/// the size could not be read. A page count whose byte count does not fit in
/// a `u64` is left out: the multiplication overflows there.
pub fn memory_bytes(rss_pages: Option<u64>) -> (bytes: i64)
    requires
        rss_pages matches Some(pages) ==> pages * 4096 <= u64::MAX,
    ensures
        bytes == resident_bytes(rss_pages),
        rss_pages matches Some(pages) ==> (pages * 4096 <= i64::MAX ==> bytes == pages * 4096),
        rss_pages is None ==> bytes == 0,
{
    match rss_pages {
        Some(pages) => (pages * 4096) as i64,
        None => 0,
    }
}

/// A resident set of `pages` pages takes `pages * 4096` bytes, whenever that
/// count fits in an `i64`; an unreadable size counts as none.
pub proof fn lemma_resident_bytes_counts_pages(pages: u64)
    requires
        pages * 4096 <= i64::MAX,
    ensures
        resident_bytes(Some(pages)) == pages * 4096,
        resident_bytes(None) == 0,
{
}

} // verus!
