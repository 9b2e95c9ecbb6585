use vstd::prelude::*;

verus! {

/// Draws a number from `low..high` with `fastrand::i64`, on the thread-local
/// generator: `low` plus a draw below the range's length. Which number comes
/// out is left to chance. The range must not be empty.
#[verifier::external_body]
pub(crate) fn random_in(low: i64, high: i64) -> (r: i64)
    requires
        low < high,
    ensures
        low <= r < high,
{
    fastrand::i64(low..high)
}

} // verus!
