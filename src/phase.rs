use vstd::prelude::*;

verus! {

/// Phase units in one full cycle of the oscillator (one turn, 2π radians).
pub const TURN: u64 = 4294967296;

/// Brings an advanced phase back into `[0, TURN]` by taking whole turns off
/// while it lies strictly above one turn; a phase of exactly one turn stays.
pub open spec fn wrap(p: nat) -> nat
    decreases p,
{
    if p > TURN {
        wrap((p - TURN) as nat)
    } else {
        p
    }
}

/// The phase after one sample: advance by the increment, then wrap.
pub open spec fn step(p: nat, inc: nat) -> nat {
    wrap(p + inc)
}

/// The phase after `n` samples, starting from `p`.
pub open spec fn phase_after(p: nat, inc: nat, n: nat) -> nat
    decreases n,
{
    if n == 0 {
        p
    } else {
        step(phase_after(p, inc, (n - 1) as nat), inc)
    }
}

/// The phases of the first `n` samples produced from phase `p` with increment `inc`.
pub open spec fn phases(p: nat, inc: nat, n: nat) -> Seq<nat> {
    Seq::new(n, |k: int| phase_after(p, inc, k as nat))
}

/// A wrapped phase never lies above one turn.
pub proof fn lemma_wrap_bound(p: nat)
    ensures
        wrap(p) <= TURN,
    decreases p,
{
    if p > TURN {
        lemma_wrap_bound((p - TURN) as nat);
    }
}

/// Starting within one turn, the phase stays within one turn after any
/// number of samples, whatever the increment.
pub proof fn lemma_phase_bound(p: nat, inc: nat, n: nat)
    requires
        p <= TURN,
    ensures
        phase_after(p, inc, n) <= TURN,
{
    if n > 0 {
        lemma_wrap_bound(phase_after(p, inc, (n - 1) as nat) + inc);
    }
}

/// Advancing `n` samples and then `m` more lands where advancing `n + m` does.
pub proof fn lemma_phase_after_add(p: nat, inc: nat, n: nat, m: nat)
    ensures
        phase_after(p, inc, n + m) == phase_after(phase_after(p, inc, n), inc, m),
    decreases m,
{
    if m > 0 {
        lemma_phase_after_add(p, inc, n, (m - 1) as nat);
        assert(phase_after(p, inc, n + m) == step(phase_after(p, inc, (n + m - 1) as nat), inc));
    }
}

/// Producing `n` samples and then `m` more gives the same phases, and the
/// same final phase, as producing `n + m` samples at once: a buffer boundary
/// leaves no trace in the signal.
pub proof fn lemma_continuity(p: nat, inc: nat, n: nat, m: nat)
    ensures
        phases(p, inc, n + m) == phases(p, inc, n) + phases(phase_after(p, inc, n), inc, m),
        phase_after(p, inc, n + m) == phase_after(phase_after(p, inc, n), inc, m),
{
    lemma_phase_after_add(p, inc, n, m);
    assert forall|k: int| n <= k < n + m implies #[trigger] phase_after(p, inc, k as nat) == phase_after(
        phase_after(p, inc, n),
        inc,
        (k - n) as nat,
    ) by {
        lemma_phase_after_add(p, inc, n, (k - n) as nat);
    }
    assert(phases(p, inc, n + m) =~= phases(p, inc, n) + phases(phase_after(p, inc, n), inc, m));
}

/// Advances `p` by `inc` and wraps it, as one sample of the oscillator does.
pub fn advance(p: u64, inc: u64) -> (r: u64)
    requires
        p <= TURN,
        inc <= u64::MAX - TURN,
    ensures
        r as nat == step(p as nat, inc as nat),
        r <= TURN,
{
    let mut q: u64 = p + inc;
    while q > TURN
        invariant
            wrap(q as nat) == step(p as nat, inc as nat),
        decreases q,
    {
        q = q - TURN;
    }
    proof {
        lemma_wrap_bound(q as nat);
    }
    q
}

} // verus!
