//! Validation and normalization of pagination parameters.
//!
//! Callers may omit `page` and `size`; omitted values take the documented
//! defaults. Out-of-range values are rejected, never silently corrected.

use vstd::prelude::*;

verus! {

/// The default page number used when the caller supplies none.
pub const DEFAULT_PAGE: u32 = 1;

/// The default page size used when the caller supplies none.
pub const DEFAULT_SIZE: u32 = 20;

/// The largest page size the upstream API accepts.
pub const MAX_SIZE: u32 = 2000;

/// A caller-supplied pagination input that failed validation.
#[derive(Debug, Clone, PartialEq, Eq, Structural)]
pub enum ValidationError {
    /// The page number is below 1.
    PageTooSmall,
    /// The page size is below 1 or above `MAX_SIZE`.
    SizeOutOfRange,
    /// A required transaction hash was empty.
    MissingTransactionHash,
}

/// A validated pair of pagination parameters.
#[derive(Debug, Clone, Copy, PartialEq, Eq, Structural)]
pub struct PageRequest {
    pub page: u32,
    pub size: u32,
}

impl PageRequest {
    /// Both fields lie in the ranges the upstream API accepts.
    pub open spec fn wf(self) -> bool {
        self.page >= 1 && 1 <= self.size <= MAX_SIZE
    }
}

/// The page number that `normalize` works with: the given one, or the default.
pub open spec fn effective_page(page: Option<u32>) -> u32 {
    match page {
        Some(p) => p,
        None => DEFAULT_PAGE,
    }
}

/// The page size that `normalize` works with: the given one, or the default.
pub open spec fn effective_size(size: Option<u32>) -> u32 {
    match size {
        Some(s) => s,
        None => DEFAULT_SIZE,
    }
}

/// Defaults absent pagination parameters and rejects out-of-range ones.
///
/// Valid inputs pass through unchanged; `page < 1` fails with
/// `PageTooSmall`, and a size outside `1..=MAX_SIZE` fails with
/// `SizeOutOfRange` (checked after the page).
pub fn normalize(page: Option<u32>, size: Option<u32>) -> (r: Result<
    PageRequest,
    ValidationError,
>)
    ensures
        effective_page(page) >= 1 && 1 <= effective_size(size) <= MAX_SIZE ==> r == Ok::<
            PageRequest,
            ValidationError,
        >(PageRequest { page: effective_page(page), size: effective_size(size) }),
        effective_page(page) < 1 ==> r == Err::<PageRequest, ValidationError>(
            ValidationError::PageTooSmall,
        ),
        effective_page(page) >= 1 && !(1 <= effective_size(size) <= MAX_SIZE) ==> r == Err::<
            PageRequest,
            ValidationError,
        >(ValidationError::SizeOutOfRange),
        r is Ok ==> r->Ok_0.wf(),
{
    let page: u32 = match page {
        Some(p) => p,
        None => DEFAULT_PAGE,
    };
    let size: u32 = match size {
        Some(s) => s,
        None => DEFAULT_SIZE,
    };
    if page < 1 {
        return Err(ValidationError::PageTooSmall);
    }
    if size < 1 || size > MAX_SIZE {
        return Err(ValidationError::SizeOutOfRange);
    }
    Ok(PageRequest { page, size })
}

} // verus!
