//! Peer-to-peer energy trading: which site a seller trades with.

use vstd::prelude::*;

verus! {

/// The buyer paired with seller `i` among `n` sites at simulation tick `tick`.
pub open spec fn spec_trade_partner(i: int, n: int, tick: int) -> int {
    (i + 1 + (tick * 7 + i * 3) % (n - 1)) % n
}

/// The buyer paired with seller `i` among `n` sites at simulation tick
/// `tick` (the whole seconds of simulation time). Pairs rotate with time;
/// a site never trades with itself.
pub fn trade_partner(i: usize, n: usize, tick: usize) -> (j: usize)
    requires
        2 <= n,
        i < n,
        tick * 7 + i * 3 <= usize::MAX,
    ensures
        j == spec_trade_partner(i as int, n as int, tick as int),
        j < n,
        j != i,
{
    let k = (tick * 7 + i * 3) % (n - 1);
    let d = 1 + k;
    let j = if d < n - i {
        i + d
    } else {
        i - (n - d)
    };
    proof {
        assert(1 <= d <= n - 1);
        if i + d < n {
            assert((i + d) % (n as int) == i + d) by (nonlinear_arith)
                requires
                    0 <= i + d < n,
            ;
        } else {
            assert((i + d) % (n as int) == i + d - n) by (nonlinear_arith)
                requires
                    n <= i + d < 2 * n,
            ;
        }
    }
    j
}

} // verus!
