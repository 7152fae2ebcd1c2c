use vstd::prelude::*;

verus! {

/// Seconds between two block boundaries, counted from genesis.
pub const BLOCK_INTERVAL_SECS: u64 = 10;

/// The first block boundary strictly after `elapsed` seconds since genesis.
pub open spec fn next_boundary(elapsed: nat) -> nat {
    (elapsed / 10 + 1) * 10
}

/// How many seconds a mutation applied `elapsed_secs` seconds after genesis
/// waits before it is acknowledged: until the next block boundary strictly
/// after it, so between 1 and 10 seconds.
pub fn confirmation_wait(elapsed_secs: u64) -> (wait: u64)
    ensures
        wait == next_boundary(elapsed_secs as nat) - elapsed_secs,
        1 <= wait <= BLOCK_INTERVAL_SECS,
{
    let wait = BLOCK_INTERVAL_SECS - elapsed_secs % BLOCK_INTERVAL_SECS;
    assert(wait == next_boundary(elapsed_secs as nat) - elapsed_secs) by (nonlinear_arith)
        requires
            wait == 10 - elapsed_secs % 10,
    ;
    wait
}

/// The acknowledgment of a mutation applied `elapsed` seconds after genesis
/// is released at `elapsed + confirmation_wait(elapsed)`: a block boundary
/// strictly later than `elapsed` (even when `elapsed` is itself a boundary),
/// and no later than any other boundary strictly after `elapsed`. That is the
/// ceiling of `elapsed + epsilon` to the block interval for every small
/// positive epsilon.
pub proof fn lemma_release_is_next_boundary(elapsed: u64)
    ensures
        next_boundary(elapsed as nat) > elapsed,
        next_boundary(elapsed as nat) % 10 == 0,
        forall|boundary: int|
            boundary > elapsed && #[trigger] (boundary % 10) == 0 ==> next_boundary(elapsed as nat) <= boundary,
{
    assert(next_boundary(elapsed as nat) % 10 == 0) by (nonlinear_arith);
    assert(next_boundary(elapsed as nat) > elapsed) by (nonlinear_arith);
    assert forall|boundary: int| boundary > elapsed && #[trigger] (boundary % 10) == 0 implies next_boundary(
        elapsed as nat,
    ) <= boundary by {
        assert(next_boundary(elapsed as nat) <= boundary) by (nonlinear_arith)
            requires
                boundary > elapsed,
                boundary % 10 == 0,
        ;
    }
}

} // verus!
