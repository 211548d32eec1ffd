//! Sets of squares as the bits of a `u64`: bit `i` stands for square `i`.

use vstd::prelude::*;

verus! {

/// Whether `square` is in the set.
pub open spec fn has_square(bits: u64, square: int) -> bool {
    0 <= square < 64 && (bits >> (square as u64)) & 1 == 1
}

/// How many of the squares below `n` are in the set.
pub open spec fn count_below(bits: u64, n: int) -> int
    decreases n,
{
    if n <= 0 {
        0
    } else {
        count_below(bits, n - 1) + if has_square(bits, n - 1) {
            1int
        } else {
            0int
        }
    }
}

/// The number of squares in the set.
pub open spec fn count_of(bits: u64) -> int {
    count_below(bits, 64)
}

pub proof fn lemma_count_bounds(bits: u64, n: int)
    requires
        0 <= n,
    ensures
        0 <= count_below(bits, n) <= n,
    decreases n,
{
    if n > 0 {
        lemma_count_bounds(bits, n - 1);
    }
}

/// Whether `square` is in the set.
pub fn contains_square(bits: u64, square: u8) -> (r: bool)
    requires
        square < 64,
    ensures
        r == has_square(bits, square as int),
{
    (bits >> (square as u64)) & 1 == 1
}

/// The number of squares in the set.
pub fn count_squares(bits: u64) -> (r: u32)
    ensures
        r == count_of(bits),
        r <= 64,
{
    let mut count: u32 = 0;
    let mut square: u8 = 0;
    while square < 64
        invariant
            square <= 64,
            count == count_below(bits, square as int),
            count <= square,
        decreases 64 - square,
    {
        if contains_square(bits, square) {
            count = count + 1;
        }
        square = square + 1;
    }
    count
}

/// The lowest square of the set that is not below `n`, or 64 where there is
/// none.
pub open spec fn lowest_from(bits: u64, n: int) -> int
    decreases 64 - n,
{
    if n >= 64 {
        64
    } else if has_square(bits, n) {
        n
    } else {
        lowest_from(bits, n + 1)
    }
}

/// The lowest square of the set, or 64 where the set is empty.
pub open spec fn lowest_square(bits: u64) -> int {
    lowest_from(bits, 0)
}

/// Whether two squares touch, by a side or by a corner, or are the same.
pub open spec fn neighbours(a: int, b: int) -> bool {
    -1 <= a / 8 - b / 8 <= 1 && -1 <= a % 8 - b % 8 <= 1
}

/// Whether each of the two sets holds one square, and the two squares do
/// not touch: what two sets of squares must be like to be the places of the
/// two kings.
pub open spec fn kings_apart(white: u64, black: u64) -> bool {
    count_of(white) == 1 && count_of(black) == 1 && !neighbours(
        lowest_square(white),
        lowest_square(black),
    )
}

/// The lowest square of the set, or 64 where the set is empty.
pub fn first_square(bits: u64) -> (r: u8)
    ensures
        r == lowest_square(bits),
        r <= 64,
{
    let mut square: u8 = 0;
    while square < 64
        invariant
            square <= 64,
            lowest_square(bits) == lowest_from(bits, square as int),
        decreases 64 - square,
    {
        if contains_square(bits, square) {
            return square;
        }
        square = square + 1;
    }
    square
}

/// Whether each of the two sets holds one square, and the two squares do
/// not touch.
pub fn kings_stand_apart(white: u64, black: u64) -> (r: bool)
    ensures
        r == kings_apart(white, black),
{
    if count_squares(white) != 1 || count_squares(black) != 1 {
        return false;
    }
    let a = first_square(white);
    let b = first_square(black);
    let ranks = if a / 8 >= b / 8 {
        a / 8 - b / 8
    } else {
        b / 8 - a / 8
    };
    let files = if a % 8 >= b % 8 {
        a % 8 - b % 8
    } else {
        b % 8 - a % 8
    };
    ranks > 1 || files > 1
}

} // verus!
