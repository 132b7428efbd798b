//! Functions that return one value and functions that return several.

use vstd::prelude::*;

verus! {

/// The sum of a wide and a narrow integer, as a narrow integer.
///
/// The sum has to fit in 32 bits.
pub fn add_numbers(x: i64, y: i32) -> (sum: i32)
    requires
        i32::MIN <= x + y <= i32::MAX,
    ensures
        sum == x + y,
{
    let wide: i128 = x as i128 + y as i128;
    wide as i32
}

/// The sum and the product of two integers, in that order.
///
/// Both have to fit in 32 bits.
pub fn add_and_multiply(x: i32, y: i32) -> (pair: (i32, i32))
    requires
        i32::MIN <= x + y <= i32::MAX,
        i32::MIN <= x * y <= i32::MAX,
    ensures
        pair.0 == x + y,
        pair.1 == x * y,
{
    (x + y, x * y)
}

} // verus!
