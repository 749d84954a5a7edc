//! Run-state toggling: the shortcut watcher flips the "active" flag on each
//! matching key press. The parity law relates repeated toggles to the
//! starting value.

use vstd::prelude::*;

verus! {

/// The value of the "active" flag after `n` toggles starting from `b`.
pub open spec fn toggled(b: bool, n: nat) -> bool
    decreases n,
{
    if n == 0 {
        b
    } else {
        !toggled(b, (n - 1) as nat)
    }
}

/// One shortcut press: flip "active" to its logical negation.
pub fn toggle_active(active: bool) -> (r: bool)
    ensures
        r == !active,
{
    !active
}

/// Toggling an even number of times returns "active" to its original value;
/// an odd number flips it.
pub proof fn lemma_toggle_parity(b: bool, n: nat)
    ensures
        n % 2 == 0 ==> toggled(b, n) == b,
        n % 2 == 1 ==> toggled(b, n) == !b,
    decreases n,
{
    if n > 0 {
        lemma_toggle_parity(b, (n - 1) as nat);
    }
}

} // verus!
