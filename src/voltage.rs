//! Voltage sensing: calibration against the internal reference, averaging of
//! sample batches and conversion to millivolts.

use vstd::prelude::*;

use crate::registry::Registry;

verus! {

/// Samples taken for one calibration or one published reading.
pub const NUM_SAMPLES: usize = 300;

/// Voltage of the internal reference, in millivolts.
pub const VREFINT_MV: u32 = 1200;

/// Sum of a sequence of samples.
pub open spec fn sum_of(s: Seq<u16>) -> int
    decreases s.len(),
{
    if s.len() == 0 {
        0
    } else {
        sum_of(s.drop_last()) + s.last()
    }
}

/// Mean of a non-empty sequence of samples, rounded down.
pub open spec fn mean_of(s: Seq<u16>) -> int {
    sum_of(s) / (s.len() as int)
}

/// Millivolts that a sample stands for against a reference sample.
pub open spec fn millivolts_of(sample: u16, reference: u16) -> int {
    (sample as int) * (VREFINT_MV as int) / (reference as int)
}

/// Mean of the samples, rounded down.
pub fn average(samples: &[u16]) -> (r: u16)
    requires
        samples@.len() > 0,
    ensures
        r == mean_of(samples@),
{
    let mut sum: u128 = 0;
    let mut i: usize = 0;
    assert(samples@.take(0) == Seq::<u16>::empty());
    while i < samples.len()
        invariant
            0 <= i <= samples@.len(),
            sum == sum_of(samples@.take(i as int)),
            sum <= 65535 * (i as int),
        decreases samples@.len() - i,
    {
        assert(samples@.take(i + 1).drop_last() == samples@.take(i as int));
        sum = sum + samples[i] as u128;
        i = i + 1;
    }
    assert(samples@.take(i as int) == samples@);
    let n = samples.len() as u128;
    proof {
        let total = sum as int;
        let count = n as int;
        assert(total / count <= 65535) by (nonlinear_arith)
            requires
                total <= 65535 * count,
                count > 0,
                total >= 0,
        ;
    }
    (sum / n) as u16
}

/// Reference sample from a calibration batch: the mean, raised to one when
/// it is zero so that it can always divide.
pub fn calibrate_vrefint(samples: &[u16]) -> (r: u16)
    requires
        samples@.len() > 0,
    ensures
        r >= 1,
        mean_of(samples@) >= 1 ==> r == mean_of(samples@),
        mean_of(samples@) == 0 ==> r == 1,
{
    let mean = average(samples);
    if mean == 0 {
        1
    } else {
        mean
    }
}

/// Converts samples to millivolts against a reference sample that is never
/// zero.
pub struct VoltageConverter {
    reference: u16,
}

impl View for VoltageConverter {
    type V = u16;

    closed spec fn view(&self) -> u16 {
        self.reference
    }
}

impl VoltageConverter {
    #[verifier::type_invariant]
    spec fn inv(&self) -> bool {
        self.reference >= 1
    }

    /// The reference sample used as divisor.
    pub fn reference(&self) -> (r: u16)
        ensures
            r == self@,
            r >= 1,
    {
        proof {
            use_type_invariant(self);
        }
        self.reference
    }

    /// `sample * 1200 / reference`, rounded down.
    pub fn to_millivolts(&self, sample: u16) -> (r: u32)
        ensures
            self@ >= 1,
            r == millivolts_of(sample, self@),
    {
        proof {
            use_type_invariant(self);
        }
        let scaled = sample as u32 * VREFINT_MV;
        scaled / self.reference as u32
    }
}

/// A converter for a reference sample, raised to one when it is zero.
pub fn create_voltage_converter(vrefint_sample: u16) -> (r: VoltageConverter)
    ensures
        r@ == (if vrefint_sample == 0 { 1 } else { vrefint_sample }),
{
    let reference = if vrefint_sample == 0 {
        1
    } else {
        vrefint_sample
    };
    VoltageConverter { reference }
}

/// Converts the mean of one batch of samples to millivolts and publishes it
/// to the arbiter's and the status queries' reading cells.
pub fn measure_voltage(samples: &[u16], converter: &VoltageConverter, reg: &mut Registry) -> (r: u32)
    requires
        samples@.len() > 0,
    ensures
        r == millivolts_of(mean_of(samples@) as u16, converter@),
        0 <= mean_of(samples@) <= u16::MAX,
        final(reg).millivolts@ == Some(r),
        final(reg).voltage_status@ == Some(r),
        *final(reg) == (Registry {
            millivolts: final(reg).millivolts,
            voltage_status: final(reg).voltage_status,
            ..*old(reg)
        }),
{
    let mean = average(samples);
    let mv = converter.to_millivolts(mean);
    reg.millivolts.signal(mv);
    reg.voltage_status.signal(mv);
    mv
}

/// The mean of any number of identical samples is that sample.
pub proof fn lemma_mean_exact(s: Seq<u16>, v: u16)
    requires
        s.len() > 0,
        forall|i: int| 0 <= i < s.len() ==> s[i] == v,
    ensures
        mean_of(s) == v,
{
    lemma_sum_uniform(s, v);
    let n = s.len() as int;
    assert((n * v) / n == v as int) by (nonlinear_arith)
        requires
            n > 0,
    ;
}

proof fn lemma_sum_uniform(s: Seq<u16>, v: u16)
    requires
        forall|i: int| 0 <= i < s.len() ==> s[i] == v,
    ensures
        sum_of(s) == s.len() * v,
    decreases s.len(),
{
    if s.len() > 0 {
        lemma_sum_uniform(s.drop_last(), v);
        assert(sum_of(s) == (s.len() - 1) * v + v);
        assert((s.len() - 1) * v + v == s.len() * v) by (nonlinear_arith);
    }
}

/// The mean of the samples `0, 1, ..., n - 1` is `(n - 1) / 2` rounded down.
pub proof fn lemma_mean_of_ramp(s: Seq<u16>)
    requires
        s.len() > 0,
        forall|i: int| 0 <= i < s.len() ==> s[i] == i,
    ensures
        mean_of(s) == (s.len() - 1) / 2,
{
    lemma_sum_ramp(s);
    let n = s.len() as int;
    assert((n * (n - 1) / 2) / n == (n - 1) / 2) by (nonlinear_arith)
        requires
            n > 0,
    ;
}

proof fn lemma_sum_ramp(s: Seq<u16>)
    requires
        forall|i: int| 0 <= i < s.len() ==> s[i] == i,
    ensures
        sum_of(s) == s.len() * (s.len() - 1) / 2,
    decreases s.len(),
{
    if s.len() > 0 {
        let n = s.len() as int;
        lemma_sum_ramp(s.drop_last());
        assert(sum_of(s) == (n - 1) * (n - 2) / 2 + (n - 1));
        assert((n - 1) * (n - 2) / 2 + (n - 1) == n * (n - 1) / 2) by (nonlinear_arith)
            requires
                n >= 1,
        ;
    }
}

} // verus!
