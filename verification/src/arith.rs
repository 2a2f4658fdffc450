//! What the native integer operators compute, stated over the integers.

use vstd::prelude::*;

verus! {

/// The quotient of `a` by `b` rounded toward zero, as native integer
/// division gives it.
pub open spec fn quotient(a: int, b: int) -> int
    recommends
        b != 0,
{
    if a >= 0 {
        a / b
    } else {
        -((-a) / b)
    }
}

/// A quotient is no larger in magnitude than its dividend, and of the same
/// magnitude only if the divisor is `1` or `-1`.
pub proof fn quotient_bounds(a: int, b: int)
    requires
        b != 0,
    ensures
        a >= 0 ==> -a <= quotient(a, b) <= a,
        a < 0 ==> a <= quotient(a, b) <= -a,
        a < 0 && b != -1 ==> quotient(a, b) < -a,
{
    if a >= 0 {
        assert(-a <= a / b <= a) by (nonlinear_arith)
            requires
                a >= 0,
                b != 0,
        ;
    } else {
        let m = -a;
        assert(-m <= m / b <= m) by (nonlinear_arith)
            requires
                m >= 0,
                b != 0,
        ;
        if b != -1 {
            assert(-m < m / b) by (nonlinear_arith)
                requires
                    m > 0,
                    b != 0,
                    b != -1,
            ;
        }
    }
}

} // verus!
