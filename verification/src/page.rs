//! Page arithmetic shared by writing and verifying: how many pages an image
//! takes, how many of its bytes lie in a given page, the page buffer that is
//! sent for it, and whether a page read back agrees with it.

use vstd::prelude::*;
use crate::variant::PAGE_SIZE;

verus! {

/// The number of pages that an image of `len` bytes takes, the last of them
/// possibly in part.
pub open spec fn page_count(len: int) -> int {
    (len + 255) / 256
}

/// The number of bytes of an image of `len` bytes that lie in page `page`:
/// 256 for a full page, fewer for a last page held in part, none for a page
/// beyond the image.
pub open spec fn page_len(len: int, page: int) -> int {
    if len - 256 * page >= 256 {
        256
    } else if len - 256 * page >= 0 {
        len - 256 * page
    } else {
        0
    }
}

/// The buffer sent for page `page` of `image`: the bytes of the image that lie
/// in the page, followed by zeros up to the page's end.
pub open spec fn padded_page(image: Seq<u8>, page: int) -> Seq<u8> {
    Seq::new(
        256,
        |k: int|
            if 0 <= 256 * page + k < image.len() {
                image[256 * page + k]
            } else {
                0u8
            },
    )
}

/// Whether `data`, a page read back, holds the bytes of `image` that lie in
/// page `page`. What `data` holds behind them is not looked at.
pub open spec fn page_agrees(image: Seq<u8>, page: int, data: Seq<u8>) -> bool {
    forall|k: int|
        0 <= k < page_len(image.len() as int, page) ==> #[trigger] data[k] == image[256 * page + k]
}

/// Computes `page_count`.
pub fn pages_needed(len: usize) -> (pages: usize)
    ensures
        pages == page_count(len as int),
{
    if len % PAGE_SIZE == 0 {
        len / PAGE_SIZE
    } else {
        len / PAGE_SIZE + 1
    }
}

/// Computes `page_len`: the count of bytes to copy from an image into page
/// `page`, and to compare when that page is read back.
pub fn bytes_in_page(len: usize, page: usize) -> (count: usize)
    ensures
        count == page_len(len as int, page as int),
{
    if page > len / PAGE_SIZE {
        0
    } else {
        let rest: usize = len - page * PAGE_SIZE;
        if rest >= PAGE_SIZE {
            PAGE_SIZE
        } else {
            rest
        }
    }
}

/// Builds the buffer to send for page `page` of `image`.
pub fn build_page(image: &[u8], page: usize) -> (buffer: [u8; 256])
    ensures
        buffer@ == padded_page(image@, page as int),
{
    let count: usize = bytes_in_page(image.len(), page);
    let mut buffer: [u8; 256] = [0u8; 256];
    let mut k: usize = 0;
    while k < count
        invariant
            k <= count,
            count == page_len(image@.len() as int, page as int),
            count > 0 ==> 256 * page + count <= image@.len() <= usize::MAX,
            forall|j: int| 0 <= j < k ==> buffer@[j] == image@[256 * page + j],
            forall|j: int| k <= j < 256 ==> buffer@[j] == 0u8,
        decreases count - k,
    {
        buffer[k] = image[page * PAGE_SIZE + k];
        k += 1;
    }
    assert(buffer@ =~= padded_page(image@, page as int));
    buffer
}

/// Compares a page read back with the bytes of `image` that lie in it.
pub fn page_matches(image: &[u8], page: usize, data: &[u8; 256]) -> (same: bool)
    ensures
        same == page_agrees(image@, page as int, data@),
{
    let count: usize = bytes_in_page(image.len(), page);
    let mut k: usize = 0;
    while k < count
        invariant
            k <= count,
            count == page_len(image@.len() as int, page as int),
            count > 0 ==> 256 * page + count <= image@.len() <= usize::MAX,
            forall|j: int| 0 <= j < k ==> #[trigger] data@[j] == image@[256 * page + j],
        decreases count - k,
    {
        if data[k] != image[page * PAGE_SIZE + k] {
            return false;
        }
        k += 1;
    }
    true
}

} // verus!
