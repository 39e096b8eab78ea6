//! Arithmetic of a list that is shown in pages of a fixed size.
use vstd::prelude::*;
use vstd::arithmetic::div_mod::*;
use vstd::arithmetic::mul::*;

verus! {

/// The index of the first entry on the page that holds entry `i`.
pub open spec fn page_start(i: int, size: int) -> int {
    (i / size) * size
}

/// How many pages a list takes: a last, partly filled page counts.
pub open spec fn page_count(len: int, size: int) -> int {
    if len % size == 0 {
        len / size
    } else {
        len / size + 1
    }
}

pub proof fn lemma_page_start(i: int, size: int)
    requires
        0 <= i,
        0 < size,
    ensures
        0 <= i / size <= i,
        0 <= page_start(i, size) <= i,
        i < page_start(i, size) + size,
        i == page_start(i, size) + i % size,
        0 <= i % size < size,
{
    lemma_fundamental_div_mod(i, size);
    lemma_mod_bound(i, size);
    lemma_div_pos_is_pos(i, size);
    lemma_div_nonincreasing(i, size);
    lemma_mul_is_commutative(i / size, size);
    lemma_mul_nonnegative(i / size, size);
}

/// A page number below the page count starts inside the list.
pub proof fn lemma_page_in_list(page: int, len: int, size: int)
    requires
        0 < len,
        0 < size,
        0 <= page < page_count(len, size),
    ensures
        0 <= page * size < len,
        (page * size) / size == page,
{
    lemma_page_start(len, size);
    lemma_mul_nonnegative(page, size);
    if len % size == 0 {
        lemma_mul_inequality(page, len / size - 1, size);
        lemma_mul_is_distributive_sub_other_way(size, len / size, 1);
    } else {
        lemma_mul_inequality(page, len / size, size);
    }
    lemma_div_by_multiple(page, size);
}

/// The page of an entry of the list is below the page count.
pub proof fn lemma_entry_page(i: int, len: int, size: int)
    requires
        0 <= i < len,
        0 < size,
    ensures
        0 <= i / size < page_count(len, size),
{
    lemma_page_start(i, size);
    lemma_page_start(len, size);
    lemma_div_is_ordered(i, len, size);
    if len % size == 0 && i / size == len / size {
        assert(false);
    }
}

/// A list with entries has at least one page.
pub proof fn lemma_page_count_positive(len: int, size: int)
    requires
        0 < len,
        0 < size,
    ensures
        0 < page_count(len, size) <= len,
{
    lemma_entry_page(0, len, size);
    lemma_page_start(len, size);
    if len % size != 0 {
        if len / size == len {
            lemma_mul_inequality(1, size, len);
            lemma_mul_is_commutative(size, len);
        }
    }
}

/// Executable form of [`page_count`].
pub fn pages_of(len: usize, size: usize) -> (r: usize)
    requires
        0 < size,
    ensures
        r == page_count(len as int, size as int),
{
    proof {
        lemma_page_start(len as int, size as int);
        if len > 0 {
            lemma_page_count_positive(len as int, size as int);
        }
    }
    if len % size == 0 {
        len / size
    } else {
        len / size + 1
    }
}

/// Executable form of [`page_start`].
pub fn start_of_page(i: usize, size: usize) -> (r: usize)
    requires
        0 < size,
    ensures
        r == page_start(i as int, size as int),
        r <= i,
        i < r + size,
{
    proof {
        lemma_page_start(i as int, size as int);
    }
    (i / size) * size
}

}
