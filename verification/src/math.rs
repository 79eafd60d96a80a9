//! The integer square root.

use integer_sqrt::IntegerSquareRoot;
use vstd::prelude::*;

verus! {

/// Whether `root` is the greatest number whose square does not exceed `n`.
pub open spec fn is_integer_sqrt(root: nat, n: nat) -> bool {
    root * root <= n < (root + 1) * (root + 1)
}

/// The greatest number whose square does not exceed `n`.
pub open spec fn integer_sqrt_of(n: nat) -> nat {
    choose|root: nat| is_integer_sqrt(root, n)
}

/// A number has one integer square root only.
pub proof fn lemma_integer_sqrt_unique(a: nat, b: nat, n: nat)
    requires
        is_integer_sqrt(a, n),
        is_integer_sqrt(b, n),
    ensures
        a == b,
{
    if a < b {
        assert((a + 1) * (a + 1) <= b * b) by (nonlinear_arith)
            requires
                a + 1 <= b,
        ;
    } else if b < a {
        assert((b + 1) * (b + 1) <= a * a) by (nonlinear_arith)
            requires
                b + 1 <= a,
        ;
    }
}

/// Calls `integer_sqrt::IntegerSquareRoot::integer_sqrt` on a `u64`, which
/// gives the greatest integer whose square does not exceed `n`.
#[verifier::external_body]
fn integer_sqrt_u64(n: u64) -> (root: u64)
    ensures
        is_integer_sqrt(root as nat, n as nat),
{
    n.integer_sqrt()
}

/// Returns the integer square root of `n`.
pub fn integer_sqrt(n: u64) -> (root: u64)
    ensures
        root == integer_sqrt_of(n as nat),
        is_integer_sqrt(root as nat, n as nat),
{
    let root = integer_sqrt_u64(n);
    proof {
        lemma_integer_sqrt_unique(root as nat, integer_sqrt_of(n as nat), n as nat);
    }
    root
}

} // verus!
