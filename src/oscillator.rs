use vstd::prelude::*;
use vstd::arithmetic::div_mod::{lemma_div_is_ordered, lemma_div_is_ordered_by_denominator};

use crate::phase::{advance, phase_after, phases, TURN};

verus! {

/// The reference pitch, 440 Hz, in millihertz.
pub const DEFAULT_FREQUENCY_MHZ: u32 = 440000;

/// Half amplitude, in thousandths of full scale.
pub const DEFAULT_GAIN_MILLI: u32 = 500;

/// The largest phase increment the oscillator ever holds: an advanced phase
/// then still fits in a `u64`.
pub const MAX_INCREMENT: u64 = 18446744069414584319;

/// What the render callback tells the audio stream driver to do next.
#[derive(Clone, Copy, Debug, PartialEq, Eq, Structural)]
pub enum Continuation {
    /// Invoke the callback again for the next buffer.
    Continue,
    /// Tear the stream down.
    Stop,
}

/// Where the oscillator stands in the stream's life: before the first
/// callback the sample rate is unknown, so there is no increment yet.
#[derive(Clone, Copy, Debug, PartialEq, Eq, Structural)]
pub enum Stage {
    Uninitialized,
    /// Running, with this phase increment per sample.
    Running(u64),
}

/// The per-sample phase increment for a tone of `frequency_mhz` millihertz at
/// `sample_rate` samples per second: `frequency * TURN / sample_rate`, rounded down.
pub open spec fn increment_for(frequency_mhz: nat, sample_rate: nat) -> nat {
    ((frequency_mhz * TURN) / (sample_rate * 1000) as int) as nat
}

/// The stage after one callback at `sample_rate`: the increment is derived on
/// the first callback and kept from then on.
pub open spec fn stage_after(stage: Stage, frequency_mhz: nat, sample_rate: nat) -> Stage {
    match stage {
        Stage::Uninitialized => Stage::Running(increment_for(frequency_mhz, sample_rate) as u64),
        Stage::Running(inc) => Stage::Running(inc),
    }
}

/// The stage after callbacks at each of `rates` in turn.
pub open spec fn stage_after_rates(stage: Stage, frequency_mhz: nat, rates: Seq<nat>) -> Stage
    decreases rates.len(),
{
    if rates.len() == 0 {
        stage
    } else {
        stage_after_rates(
            stage_after(stage, frequency_mhz, rates[0]),
            frequency_mhz,
            rates.drop_first(),
        )
    }
}

/// The increment is derived once, from the rate of the first callback: however
/// many callbacks follow, and whatever rates they report, it stays as it was.
pub proof fn lemma_increment_derived_once(frequency_mhz: nat, rates: Seq<nat>)
    requires
        rates.len() >= 1,
    ensures
        stage_after_rates(Stage::Uninitialized, frequency_mhz, rates) == Stage::Running(
            increment_for(frequency_mhz, rates[0]) as u64,
        ),
{
    lemma_running_stays(
        increment_for(frequency_mhz, rates[0]) as u64,
        frequency_mhz,
        rates.drop_first(),
    );
}

/// Once running, no callback changes the increment.
pub proof fn lemma_running_stays(inc: u64, frequency_mhz: nat, rates: Seq<nat>)
    ensures
        stage_after_rates(Stage::Running(inc), frequency_mhz, rates) == Stage::Running(inc),
    decreases rates.len(),
{
    if rates.len() > 0 {
        lemma_running_stays(inc, frequency_mhz, rates.drop_first());
    }
}

/// The per-sample increment a stage holds; none before the first callback.
pub open spec fn stage_increment(stage: Stage) -> nat {
    match stage {
        Stage::Uninitialized => 0,
        Stage::Running(inc) => inc as nat,
    }
}

/// A sine oscillator whose phase is counted in units of `TURN` per cycle.
pub struct SineWave {
    frequency_mhz: u32,
    gain_milli: u32,
    phase: u64,
    stage: Stage,
}

impl SineWave {
    /// The phase stays within one turn and the increment leaves room to advance it.
    pub open spec fn wf(&self) -> bool {
        &&& self.spec_phase() <= TURN
        &&& match self.spec_stage() {
            Stage::Uninitialized => true,
            Stage::Running(inc) => inc <= MAX_INCREMENT,
        }
    }

    pub closed spec fn spec_frequency_mhz(&self) -> nat {
        self.frequency_mhz as nat
    }

    pub closed spec fn spec_gain_milli(&self) -> nat {
        self.gain_milli as nat
    }

    pub closed spec fn spec_phase(&self) -> nat {
        self.phase as nat
    }

    pub closed spec fn spec_stage(&self) -> Stage {
        self.stage
    }

    /// A fresh oscillator: zero phase, no increment until the first callback.
    pub fn new(frequency_mhz: u32, gain_milli: u32) -> (r: SineWave)
        ensures
            r.wf(),
            r.spec_frequency_mhz() == frequency_mhz,
            r.spec_gain_milli() == gain_milli,
            r.spec_phase() == 0,
            r.spec_stage() == Stage::Uninitialized,
    {
        SineWave { frequency_mhz, gain_milli, phase: 0, stage: Stage::Uninitialized }
    }

    /// The tone's frequency, in millihertz.
    pub fn frequency_mhz(&self) -> (r: u32)
        ensures
            r == self.spec_frequency_mhz(),
    {
        self.frequency_mhz
    }

    /// The output scale, in thousandths of full scale.
    pub fn gain_milli(&self) -> (r: u32)
        ensures
            r == self.spec_gain_milli(),
    {
        self.gain_milli
    }

    /// The phase of the next sample, in units of `TURN` per cycle.
    pub fn phase(&self) -> (r: u64)
        ensures
            r == self.spec_phase(),
    {
        self.phase
    }

    /// Whether the increment has been derived yet, and if so which it is.
    pub fn stage(&self) -> (r: Stage)
        ensures
            r == self.spec_stage(),
    {
        self.stage
    }

    /// The per-sample phase increment, once the first callback has derived it.
    pub fn increment(&self) -> (r: Option<u64>)
        ensures
            r == match self.spec_stage() {
                Stage::Uninitialized => None,
                Stage::Running(inc) => Some(inc),
            },
    {
        match self.stage {
            Stage::Uninitialized => None,
            Stage::Running(inc) => Some(inc),
        }
    }

    /// Fills `out` with the phases of the next `out.len()` samples, in order,
    /// and advances the oscillator past them. On the first callback the
    /// increment is derived from `sample_rate`; later rates are ignored.
    pub fn render(&mut self, out: &mut [u64], sample_rate: u32) -> (r: Continuation)
        requires
            old(self).wf(),
            sample_rate > 0,
        ensures
            final(self).wf(),
            final(self).spec_frequency_mhz() == old(self).spec_frequency_mhz(),
            final(self).spec_gain_milli() == old(self).spec_gain_milli(),
            final(self).spec_stage() == stage_after(
                old(self).spec_stage(),
                old(self).spec_frequency_mhz(),
                sample_rate as nat,
            ),
            final(out)@.len() == old(out)@.len(),
            forall|k: int|
                0 <= k < final(out)@.len() ==> final(out)@[k] as nat == phases(
                    old(self).spec_phase(),
                    stage_increment(final(self).spec_stage()),
                    old(out)@.len(),
                )[k],
            final(self).spec_phase() == phase_after(
                old(self).spec_phase(),
                stage_increment(final(self).spec_stage()),
                old(out)@.len(),
            ),
            r == Continuation::Continue,
    {
        let inc: u64 = match self.stage {
            Stage::Uninitialized => {
                let d = derive_increment(self.frequency_mhz, sample_rate);
                self.stage = Stage::Running(d);
                d
            },
            Stage::Running(inc) => inc,
        };
        let n: usize = out.len();
        let mut i: usize = 0;
        while i < n
            invariant
                i <= n,
                n == old(out)@.len(),
                out@.len() == n,
                self.phase <= TURN,
                inc <= MAX_INCREMENT,
                self.stage == Stage::Running(inc),
                self.frequency_mhz == old(self).frequency_mhz,
                self.gain_milli == old(self).gain_milli,
                self.phase as nat == phase_after(old(self).phase as nat, inc as nat, i as nat),
                forall|k: int|
                    0 <= k < i ==> out@[k] as nat == phase_after(
                        old(self).phase as nat,
                        inc as nat,
                        k as nat,
                    ),
            decreases n - i,
        {
            out[i] = self.phase;
            self.phase = advance(self.phase, inc);
            i = i + 1;
        }
        Continuation::Continue
    }
}

impl Default for SineWave {
    /// The reference pitch at half amplitude.
    fn default() -> (r: SineWave)
        ensures
            r.wf(),
            r.spec_frequency_mhz() == DEFAULT_FREQUENCY_MHZ,
            r.spec_gain_milli() == DEFAULT_GAIN_MILLI,
            r.spec_phase() == 0,
            r.spec_stage() == Stage::Uninitialized,
    {
        SineWave::new(DEFAULT_FREQUENCY_MHZ, DEFAULT_GAIN_MILLI)
    }
}

/// The increment for a frequency and a positive sample rate, computed without overflow.
fn derive_increment(frequency_mhz: u32, sample_rate: u32) -> (r: u64)
    requires
        sample_rate > 0,
    ensures
        r as nat == increment_for(frequency_mhz as nat, sample_rate as nat),
        r <= MAX_INCREMENT,
{
    let num: u64 = (frequency_mhz as u64) * TURN;
    let den: u64 = (sample_rate as u64) * 1000;
    proof {
        let n = num as int;
        lemma_div_is_ordered_by_denominator(n, 1000, den as int);
        lemma_div_is_ordered(n, 4294967295 * TURN, 1000);
    }
    num / den
}

} // verus!
