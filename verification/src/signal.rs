use vstd::prelude::*;

verus! {

/// The sample at absolute index `i` of the signal whose period is `period`.
pub open spec fn tone_at(period: Seq<i16>, i: int) -> i16 {
    period[i % (period.len() as int)]
}

/// The run of `len` samples of the signal that starts at absolute index `start`.
pub open spec fn tone_run(period: Seq<i16>, start: int, len: nat) -> Seq<i16> {
    Seq::new(len, |k: int| tone_at(period, start + k))
}

/// What `count` successive fills of `len` samples each produce, laid end to
/// end, when the first fill starts at absolute index `start`.
pub open spec fn tone_fills(period: Seq<i16>, start: int, len: nat, count: nat) -> Seq<i16>
    decreases count,
{
    if count == 0 {
        Seq::empty()
    } else {
        tone_fills(period, start, len, (count - 1) as nat) + tone_run(
            period,
            start + (count - 1) * len,
            len,
        )
    }
}

/// Two runs that touch make one run.
pub proof fn lemma_runs_join(period: Seq<i16>, start: int, a: nat, b: nat)
    ensures
        tone_run(period, start, a) + tone_run(period, start + a, b) =~= tone_run(
            period,
            start,
            a + b,
        ),
{
}

/// Phase continuity: successive fills laid end to end are the one continuous
/// run over the same range of absolute indices.
pub proof fn lemma_fills_are_continuous(period: Seq<i16>, start: int, len: nat, count: nat)
    ensures
        tone_fills(period, start, len, count) == tone_run(period, start, count * len),
    decreases count,
{
    if count == 0 {
        assert(tone_fills(period, start, len, 0) =~= tone_run(period, start, 0));
        assert(0 * len == 0);
    } else {
        let prev = (count - 1) as nat;
        lemma_fills_are_continuous(period, start, len, prev);
        lemma_runs_join(period, start, prev * len, len);
        assert(prev * len + len == count * len) by (nonlinear_arith)
            requires
                prev + 1 == count,
        ;
    }
}

/// One period of the tone, quantized to signed 16-bit samples.
///
/// The sample at absolute index `i` is entry `i mod period` of the table, so
/// the signal is a function of the absolute index alone.
#[derive(Debug)]
pub struct Waveform {
    period: Vec<i16>,
}

impl Waveform {
    /// A waveform always holds at least one sample.
    #[verifier::type_invariant]
    spec fn inv(self) -> bool {
        self.period@.len() > 0
    }

    /// The samples of one period.
    pub closed spec fn view(&self) -> Seq<i16> {
        self.period@
    }

    /// The sample at absolute index `i`.
    pub open spec fn sample_at(&self, i: int) -> i16 {
        tone_at(self@, i)
    }

    /// The run of `len` samples that starts at absolute index `start`.
    pub open spec fn run(&self, start: int, len: nat) -> Seq<i16> {
        tone_run(self@, start, len)
    }

    /// Builds a waveform from one period of samples; there is none for an empty period.
    pub fn new(period: Vec<i16>) -> (r: Option<Waveform>)
        ensures
            r is Some <==> period@.len() > 0,
            r is Some ==> r->0@ == period@,
    {
        if period.len() == 0 {
            None
        } else {
            Some(Waveform { period })
        }
    }

    /// Number of samples in one period.
    pub fn period_len(&self) -> (r: usize)
        ensures
            r == self@.len(),
            r > 0,
    {
        proof {
            use_type_invariant(self);
        }
        self.period.len()
    }

    /// The sample at absolute index `i`.
    pub fn sample(&self, i: usize) -> (r: i16)
        ensures
            r == self.sample_at(i as int),
    {
        proof {
            use_type_invariant(self);
        }
        self.period[i % self.period.len()]
    }
}

/// Overwrites the whole buffer with the next run of the signal and advances
/// the sample clock by the length of the buffer.
pub fn fill_buff(buffer: &mut Vec<i16>, samp_idx: &mut usize, wave: &Waveform)
    requires
        *old(samp_idx) + old(buffer)@.len() <= usize::MAX,
    ensures
        final(buffer)@ == wave.run(*old(samp_idx) as int, old(buffer)@.len()),
        *final(samp_idx) == *old(samp_idx) + old(buffer)@.len(),
{
    let n: usize = buffer.len();
    let base: usize = *samp_idx;
    let mut buff_idx: usize = 0;
    while buff_idx < n
        invariant
            buff_idx <= n,
            buffer@.len() == n,
            base + n <= usize::MAX,
            forall|k: int| 0 <= k < buff_idx ==> buffer@[k] == wave.sample_at(base + k),
        decreases n - buff_idx,
    {
        buffer[buff_idx] = wave.sample(base + buff_idx);
        buff_idx += 1;
    }
    *samp_idx = base + n;
    assert(buffer@ =~= wave.run(base as int, n as nat));
}

} // verus!
