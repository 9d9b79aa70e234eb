//! Pagination accounting: whether a further page exists, from the upstream's
//! reported total, the 1-based current page and the fixed page size.
use vstd::prelude::*;

verus! {

/// A further page exists exactly when the reported total exceeds what the
/// pages up to and including the current one can hold.
pub open spec fn spec_has_next_page(total: int, page: int, size: int) -> bool {
    total - page * size > 0
}

/// The next-page cursor: the successor page when a further page exists,
/// absent otherwise.
pub open spec fn spec_next_page(total: int, page: int, size: int) -> Option<i32> {
    if spec_has_next_page(total, page, size) {
        Option::Some((page + 1) as i32)
    } else {
        Option::None
    }
}

/// Decides `spec_has_next_page` executably; the subtraction and product are
/// computed widened so no input can overflow.
pub fn has_next_page(total: i32, page: i32, size: i32) -> (r: bool)
    ensures
        r == spec_has_next_page(total as int, page as int, size as int),
{
    let wide_total: i64 = total as i64;
    let wide_page: i64 = page as i64;
    let wide_size: i64 = size as i64;
    proof {
        assert(-0x4000_0000_0000_0000 <= wide_page * wide_size <= 0x4000_0000_0000_0000)
            by (nonlinear_arith)
            requires
                -0x8000_0000 <= wide_page <= 0x7fff_ffff,
                -0x8000_0000 <= wide_size <= 0x7fff_ffff,
        ;
    }
    wide_total - wide_page * wide_size > 0
}

/// The cursor handed to callers of a search: `Some(page + 1)` iff a further
/// page exists, `None` otherwise.
pub fn next_page_cursor(total: i32, page: i32, size: i32) -> (r: Option<i32>)
    requires
        1 <= page,
        1 <= size,
    ensures
        r == spec_next_page(total as int, page as int, size as int),
{
    if has_next_page(total, page, size) {
        proof {
            assert(page * size >= page) by (nonlinear_arith)
                requires
                    1 <= page,
                    1 <= size,
            ;
        }
        Some(page + 1)
    } else {
        None
    }
}

} // verus!
