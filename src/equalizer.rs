use vstd::prelude::*;
use crate::sample::{Sample, Real};
use crate::butterworth_filter::{
    make_peak_eq_constant_q, designed, constant_q_feedback, constant_q_feedforward,
};
use crate::iir_filter::{IIRFilter, IIRFilterView, ProcessingBlock, stepped, repeated};

verus! {

/// Why an equalizer could not be built or reconfigured.
#[derive(Debug)]
pub enum EqualizerError<S> {
    /// An equalizer needs at least one band.
    NoBands,
    /// A band gain outside `[min, max]` dB was requested.
    OutOfRangeGain { gain: S, min: S, max: S },
}

/// The abstract state of an equalizer.
pub ghost struct EqualizerView<S> {
    pub sample_rate: u32,
    /// Band centre frequencies, in cascade order.
    pub bands: Seq<S>,
    /// Band gains in dB, index-aligned with `bands`.
    pub gains: Seq<S>,
    pub gain_min: S,
    pub gain_max: S,
    pub q_factor: S,
    /// One filter per band, index-aligned with `bands`.
    pub filters: Seq<IIRFilterView<S>>,
}

/// Whether `gain_db` lies in `[gain_min, gain_max]`; an unordered gain
/// (such as a NaN) does not.
pub open spec fn gain_in_range<S: Sample>(eq: EqualizerView<S>, gain_db: S) -> bool {
    eq.gain_min.spec_at_most(gain_db) && gain_db.spec_at_most(eq.gain_max)
}

/// Band filter `k` of `eq` holds the constant-Q design for its centre at
/// `gain_db`, and its delay lines are those of `delay_lines`.
pub open spec fn band_holds<S: Real>(
    eq: EqualizerView<S>,
    k: int,
    gain_db: S,
    delay_lines: IIRFilterView<S>,
) -> bool {
    eq.filters[k] == (IIRFilterView {
        feedback: constant_q_feedback(eq.bands[k], eq.sample_rate, gain_db, eq.q_factor),
        feedforward: constant_q_feedforward(eq.bands[k], eq.sample_rate, gain_db, eq.q_factor),
        ..delay_lines
    })
}

/// What filter `k` of a cascade sees: the cascade's input for the first
/// stage, the previous stage's newest output for the others. Past the last
/// stage this is the cascade's output.
pub open spec fn stage_input<S>(after: Seq<IIRFilterView<S>>, sample: S, k: int) -> S {
    if k == 0 {
        sample
    } else {
        after[k - 1].outputs[0]
    }
}

/// Filter `k` after one cascade step: its own step on `stage_input`.
pub open spec fn stage_stepped<S: Sample>(
    after: Seq<IIRFilterView<S>>,
    before: Seq<IIRFilterView<S>>,
    sample: S,
    k: int,
) -> bool {
    after[k] == stepped(before[k], stage_input(after, sample, k))
}

/// The state after band `index` was given `gain`: that gain is stored, that
/// band's filter holds the constant-Q design at `gain` with its delay lines
/// kept, and nothing else changed.
pub open spec fn band_regained<S: Real>(after: EqualizerView<S>, before: EqualizerView<S>, index: int, gain: S) -> bool {
    &&& after == (EqualizerView {
        gains: before.gains.update(index, gain),
        filters: before.filters.update(index, after.filters[index]),
        ..before
    })
    &&& band_holds(after, index, gain, before.filters[index])
}

/// The band centres of the ten-band preset, in Hz.
pub open spec fn ten_band_centers<S: Real>() -> Seq<S> {
    seq![
        S::spec_from_u32(29),
        S::spec_from_u32(59),
        S::spec_from_u32(119),
        S::spec_from_u32(237),
        S::spec_from_u32(474),
        S::spec_from_u32(947),
        S::spec_from_u32(1889),
        S::spec_from_u32(3770),
        S::spec_from_u32(7523),
        S::spec_from_u32(15011),
    ]
}

/// The quality factor of the ten-band preset, `2 sqrt(2)`.
pub open spec fn ten_band_q<S: Real>() -> S {
    S::spec_from_i32(2).spec_times(S::spec_from_i32(2).spec_sqrt())
}

/// A chain of peaking filters, one per band, applied in band order.
pub struct Equalizer<S: Real> {
    sample_rate: u32,
    bands_vec: Vec<S>,
    bands_gain_vec: Vec<S>,
    gain_max_db: S,
    gain_min_db: S,
    q_factor: S,
    iir_filters_vec: Vec<IIRFilter<S>>,
}

impl<S: Real> View for Equalizer<S> {
    type V = EqualizerView<S>;

    closed spec fn view(&self) -> EqualizerView<S> {
        EqualizerView {
            sample_rate: self.sample_rate,
            bands: self.bands_vec@,
            gains: self.bands_gain_vec@,
            gain_min: self.gain_min_db,
            gain_max: self.gain_max_db,
            q_factor: self.q_factor,
            filters: self.iir_filters_vec@.map_values(|f: IIRFilter<S>| f@),
        }
    }
}

impl<S: Real> Equalizer<S> {
    /// At least one band, as many gains and filters as bands, and every band
    /// filter of the second order.
    pub open spec fn wf(&self) -> bool {
        &&& self@.bands.len() >= 1
        &&& self@.gains.len() == self@.bands.len()
        &&& self@.filters.len() == self@.bands.len()
        &&& forall|k: int| 0 <= k < self@.filters.len() ==> (#[trigger] self@.filters[k]).order == 2
    }

    /// A well-formed equalizer holding the given configuration, with every
    /// band at 0 dB and holding a fresh constant-Q design for that gain.
    pub open spec fn configured(&self, sample_rate: u32, bands: Seq<S>, gain_max_db: S, gain_min_db: S, q_factor: S) -> bool {
        &&& self.wf()
        &&& self@.sample_rate == sample_rate
        &&& self@.bands == bands
        &&& self@.gains == repeated(S::spec_zero(), bands.len())
        &&& self@.gain_min == gain_min_db
        &&& self@.gain_max == gain_max_db
        &&& self@.q_factor == q_factor
        &&& forall|k: int|
            0 <= k < bands.len() ==> designed(
                #[trigger] self@.filters[k],
                constant_q_feedback(bands[k], sample_rate, S::spec_zero(), q_factor),
                constant_q_feedforward(bands[k], sample_rate, S::spec_zero(), q_factor),
            )
    }

    /// One peaking filter per band centre at 0 dB, in the given order.
    ///
    /// Fails with `NoBands` exactly when `bands_vec` is empty.
    pub fn new(sample_rate: u32, bands_vec: &Vec<S>, gain_max_db: S, gain_min_db: S, q_factor: S) -> (r: Result<Self, EqualizerError<S>>)
        ensures
            match r {
                Err(e) => bands_vec@.len() == 0 && e == EqualizerError::<S>::NoBands,
                Ok(eq) => bands_vec@.len() >= 1 && eq.configured(sample_rate, bands_vec@, gain_max_db, gain_min_db, q_factor),
            },
    {
        if bands_vec.len() == 0 {
            return Err(EqualizerError::NoBands);
        }
        Ok(Self::gen_chain_filters(sample_rate, bands_vec, gain_max_db, gain_min_db, q_factor))
    }

    /// Builds the chain: one constant-Q peaking filter per band at 0 dB.
    fn gen_chain_filters(sample_rate: u32, bands_vec: &Vec<S>, gain_max_db: S, gain_min_db: S, q_factor: S) -> (eq: Self)
        requires
            bands_vec@.len() >= 1,
        ensures
            eq.configured(sample_rate, bands_vec@, gain_max_db, gain_min_db, q_factor),
    {
        let n = bands_vec.len();
        let zero = S::zero();
        let mut bands: Vec<S> = Vec::with_capacity(n);
        let mut gains: Vec<S> = Vec::with_capacity(n);
        let mut filters: Vec<IIRFilter<S>> = Vec::with_capacity(n);
        let mut k: usize = 0;
        while k < n
            invariant
                n == bands_vec@.len(),
                k <= n,
                zero == S::spec_zero(),
                bands@ == bands_vec@.take(k as int),
                gains@ == repeated(zero, k as nat),
                filters@.len() == k,
                forall|j: int|
                    0 <= j < k ==> designed(
                        #[trigger] filters@[j]@,
                        constant_q_feedback(bands_vec@[j], sample_rate, zero, q_factor),
                        constant_q_feedforward(bands_vec@[j], sample_rate, zero, q_factor),
                    ),
            decreases n - k,
        {
            let band = bands_vec[k];
            bands.push(band);
            gains.push(zero);
            filters.push(make_peak_eq_constant_q(band, sample_rate, zero, Some(q_factor)));
            k += 1;
            proof {
                assert(bands@ =~= bands_vec@.take(k as int));
                assert(gains@ =~= repeated(zero, k as nat));
            }
        }
        assert(bands_vec@.take(n as int) =~= bands_vec@);
        let eq = Equalizer {
            sample_rate,
            bands_vec: bands,
            bands_gain_vec: gains,
            gain_max_db,
            gain_min_db,
            q_factor,
            iir_filters_vec: filters,
        };
        assert forall|k: int| 0 <= k < n implies designed(
            #[trigger] eq@.filters[k],
            constant_q_feedback(bands_vec@[k], sample_rate, zero, q_factor),
            constant_q_feedforward(bands_vec@[k], sample_rate, zero, q_factor),
        ) by {
            assert(eq@.filters[k] == eq.iir_filters_vec@[k]@);
        }
        eq
    }

    /// The number of bands.
    pub fn band_count(&self) -> (r: usize)
        requires
            self.wf(),
        ensures
            r == self@.bands.len(),
            r >= 1,
    {
        self.bands_vec.len()
    }

    /// Centre frequency of band `index`.
    pub fn get_bands_freq(&self, index: usize) -> (r: S)
        requires
            self.wf(),
            index < self@.bands.len(),
        ensures
            r == self@.bands[index as int],
    {
        self.bands_vec[index]
    }

    /// Gain of band `index`, in dB.
    pub fn get_band_gain(&self, index: usize) -> (r: S)
        requires
            self.wf(),
            index < self@.bands.len(),
        ensures
            r == self@.gains[index as int],
    {
        self.bands_gain_vec[index]
    }

    /// The filter of band `index`.
    pub fn band_filter(&self, index: usize) -> (r: &IIRFilter<S>)
        requires
            self.wf(),
            index < self@.bands.len(),
        ensures
            r@ == self@.filters[index as int],
    {
        &self.iir_filters_vec[index]
    }

    /// Redesigns band `index` at its stored gain and swaps the new
    /// coefficients into the band's filter, keeping its delay lines.
    fn change_filter(&mut self, index: usize)
        requires
            old(self).wf(),
            index < old(self)@.bands.len(),
        ensures
            final(self).wf(),
            band_regained(final(self)@, old(self)@, index as int, old(self)@.gains[index as int]),
    {
        let designed_filter = make_peak_eq_constant_q(
            self.bands_vec[index],
            self.sample_rate,
            self.bands_gain_vec[index],
            Some(self.q_factor),
        );
        let ghost before = self.iir_filters_vec@;
        assert(self@.filters[index as int].order == 2);
        assert(before[index as int]@ == self@.filters[index as int]);
        let assigned = self.iir_filters_vec[index].set_coefficients(
            designed_filter.a_coeffs(),
            designed_filter.b_coeffs(),
        );
        proof {
            assert(assigned is Ok);
            assert(self.bands_gain_vec@ =~= old(self).bands_gain_vec@.update(index as int, old(self)@.gains[index as int]));
            assert(self@.filters =~= old(self)@.filters.update(index as int, self@.filters[index as int]));
            assert forall|k: int| 0 <= k < self@.filters.len() implies (#[trigger] self@.filters[k]).order == 2 by {
                if k != index {
                    assert(self@.filters[k] == old(self)@.filters[k]);
                }
            }
        }
    }

    /// Sets band `index` to `gain_db` dB and re-derives that band's filter
    /// in place, keeping its delay lines so the stream does not click.
    ///
    /// Fails with `OutOfRangeGain` unless `gain_min <= gain_db <= gain_max`;
    /// the equalizer is then left as it was.
    pub fn set_band_gain(&mut self, index: usize, gain_db: S) -> (r: Result<(), EqualizerError<S>>)
        requires
            old(self).wf(),
            index < old(self)@.bands.len(),
        ensures
            final(self).wf(),
            r is Err <==> !gain_in_range(old(self)@, gain_db),
            match r {
                Err(e) => {
                    &&& e == EqualizerError::<S>::OutOfRangeGain {
                        gain: gain_db,
                        min: old(self)@.gain_min,
                        max: old(self)@.gain_max,
                    }
                    &&& final(self)@ == old(self)@
                },
                Ok(_) => band_regained(final(self)@, old(self)@, index as int, gain_db),
            },
    {
        if !(self.gain_min_db.at_most(gain_db) && gain_db.at_most(self.gain_max_db)) {
            return Err(
                EqualizerError::OutOfRangeGain {
                    gain: gain_db,
                    min: self.gain_min_db,
                    max: self.gain_max_db,
                },
            );
        }
        self.bands_gain_vec.set(index, gain_db);
        let ghost stored = self@;
        proof {
            assert(stored.filters == old(self)@.filters);
        }
        self.change_filter(index);
        proof {
            assert(stored.gains =~= old(self)@.gains.update(index as int, gain_db));
            assert(stored.gains.update(index as int, stored.gains[index as int]) =~= stored.gains);
        }
        Ok(())
    }

    /// Feeds `sample` through band filter 0, its output through band
    /// filter 1, and so on in band order; returns the last filter's output.
    pub fn process(&mut self, sample: S) -> (r: S)
        ensures
            old(self).wf() ==> final(self).wf(),
            final(self)@ == (EqualizerView { filters: final(self)@.filters, ..old(self)@ }),
            final(self)@.filters.len() == old(self)@.filters.len(),
            forall|k: int|
                #![trigger final(self)@.filters[k]]
                0 <= k < old(self)@.filters.len() ==> stage_stepped(
                    final(self)@.filters,
                    old(self)@.filters,
                    sample,
                    k,
                ),
            r == stage_input(final(self)@.filters, sample, final(self)@.filters.len() as int),
    {
        let n = self.iir_filters_vec.len();
        let mut sample_t = sample;
        let mut i: usize = 0;
        while i < n
            invariant
                n == self@.filters.len(),
                n == old(self)@.filters.len(),
                i <= n,
                self@ == (EqualizerView { filters: self@.filters, ..old(self)@ }),
                forall|k: int| 0 <= k < i ==> stage_stepped(self@.filters, old(self)@.filters, sample, k),
                forall|k: int| i <= k < n ==> self@.filters[k] == old(self)@.filters[k],
                sample_t == stage_input(self@.filters, sample, i as int),
            decreases n - i,
        {
            let ghost before = self@.filters;
            let ghost stage_in = sample_t;
            sample_t = self.iir_filters_vec[i].process(sample_t);
            proof {
                let after_i = self.iir_filters_vec@[i as int]@;
                assert(after_i.outputs[0] == sample_t);
                assert(before[i as int] == old(self)@.filters[i as int]);
                assert(self@.filters =~= before.update(i as int, self.iir_filters_vec@[i as int]@));
                assert forall|k: int| 0 <= k < i + 1 implies stage_stepped(self@.filters, old(self)@.filters, sample, k) by {
                    if k < i {
                        assert(stage_stepped(before, old(self)@.filters, sample, k));
                        assert(self@.filters[k] == before[k]);
                        if k > 0 {
                            assert(self@.filters[k - 1] == before[k - 1]);
                        }
                    } else {
                        if k > 0 {
                            assert(self@.filters[k - 1] == before[k - 1]);
                        }
                        assert(stage_input(self@.filters, sample, k) == stage_in);
                    }
                }
            }
            i += 1;
        }
        proof {
            assert forall|k: int| 0 <= k < n implies (#[trigger] self@.filters[k]).order == old(self)@.filters[k].order by {
                assert(stage_stepped(self@.filters, old(self)@.filters, sample, k));
            }
        }
        sample_t
    }

    /// Ten bands centred on 29, 59, 119, 237, 474, 947, 1889, 3770, 7523
    /// and 15011 Hz, gains from -24 to +12 dB, and `q = 2 sqrt(2)`, about
    /// one octave per band.
    pub fn make_equalizer_10_band(sample_rate: u32) -> (r: Self)
        ensures
            r.configured(
                sample_rate,
                ten_band_centers(),
                S::spec_from_i32(12),
                S::spec_from_i32(-24i32),
                ten_band_q(),
            ),
    {
        let bands_vec: Vec<S> = vec![
            S::from_u32(29),
            S::from_u32(59),
            S::from_u32(119),
            S::from_u32(237),
            S::from_u32(474),
            S::from_u32(947),
            S::from_u32(1889),
            S::from_u32(3770),
            S::from_u32(7523),
            S::from_u32(15011),
        ];
        assert(bands_vec@ =~= ten_band_centers());
        let gain_max_db = S::from_i32(12);
        let gain_min_db = S::from_i32(-24);
        let q_factor = S::from_i32(2).times(S::from_i32(2).sqrt());
        Self::gen_chain_filters(sample_rate, &bands_vec, gain_max_db, gain_min_db, q_factor)
    }
}

impl<S: Real> ProcessingBlock<S> for Equalizer<S> {
    fn process(&mut self, sample: S) -> S {
        Equalizer::process(self, sample)
    }
}

/// Giving a band the same gain twice in a row ends in the very state the
/// first call left: the same gains, the same coefficients for that band,
/// and its delay lines as they were before either call.
pub proof fn lemma_same_gain_twice<S: Real>(
    first: EqualizerView<S>,
    second: EqualizerView<S>,
    third: EqualizerView<S>,
    index: int,
    gain: S,
)
    requires
        0 <= index < first.filters.len(),
        first.gains.len() == first.filters.len(),
        band_regained(second, first, index, gain),
        band_regained(third, second, index, gain),
    ensures
        third == second,
        third.filters[index].inputs == first.filters[index].inputs,
        third.filters[index].outputs == first.filters[index].outputs,
{
    assert(third.gains =~= second.gains);
    assert(third.filters =~= second.filters);
}

} // verus!
