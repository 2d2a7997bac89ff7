use vstd::prelude::*;
use crate::sample::{Sample, Real};
use crate::iir_filter::{IIRFilter, IIRFilterView, repeated};

verus! {

/// A freshly built second-order section: three coefficients of each kind
/// and both delay lines holding zeros.
pub open spec fn fresh_biquad<S: Sample>(f: IIRFilterView<S>) -> bool {
    &&& f.order == 2
    &&& f.feedback.len() == 3
    &&& f.feedforward.len() == 3
    &&& f.inputs == repeated(S::spec_zero(), 2)
    &&& f.outputs == repeated(S::spec_zero(), 2)
}

/// A fresh second-order section holding exactly `feedback` and `feedforward`.
pub open spec fn designed<S: Sample>(f: IIRFilterView<S>, feedback: Seq<S>, feedforward: Seq<S>) -> bool {
    &&& fresh_biquad(f)
    &&& f.feedback == feedback
    &&& f.feedforward == feedforward
}

/// The quality factor used: the given one, or `1/sqrt(2)` for a flat
/// (Butterworth) response.
pub open spec fn quality_of<S: Real>(q_factor: Option<S>) -> S {
    match q_factor {
        Some(q) => q,
        None => S::spec_one().spec_divided_by(S::spec_from_i32(2).spec_sqrt()),
    }
}

/// Leaving the quality factor out designs the same filter as giving
/// `1/sqrt(2)` explicitly, for every design function.
pub proof fn lemma_default_quality<S: Real>()
    ensures
        quality_of::<S>(None) == quality_of(Some(S::spec_one().spec_divided_by(S::spec_from_i32(2).spec_sqrt()))),
{
}

/// `w0 = tau * frequency / sample_rate`.
pub open spec fn angular_frequency<S: Real>(frequency: S, sample_rate: u32) -> S {
    S::spec_tau().spec_times(frequency).spec_divided_by(S::spec_from_u32(sample_rate))
}

/// `alpha = sin(w0) / (2 q)`.
pub open spec fn alpha_of<S: Real>(frequency: S, sample_rate: u32, q: S) -> S {
    angular_frequency(frequency, sample_rate).spec_sin().spec_divided_by(
        S::spec_from_i32(2).spec_times(q),
    )
}

/// `-2 cos(w0)`, the middle feedback coefficient of every cookbook design.
pub open spec fn minus_two_cos<S: Real>(frequency: S, sample_rate: u32) -> S {
    S::spec_from_i32(-2i32).spec_times(angular_frequency(frequency, sample_rate).spec_cos())
}

/// `1 + alpha, -2 cos(w0), 1 - alpha`: the feedback shared by the low-pass,
/// high-pass, band-pass and all-pass designs.
pub open spec fn cookbook_feedback<S: Real>(frequency: S, sample_rate: u32, q: S) -> Seq<S> {
    let alpha = alpha_of(frequency, sample_rate, q);
    seq![S::spec_one().spec_plus(alpha), minus_two_cos(frequency, sample_rate), S::spec_one().spec_minus(alpha)]
}

/// `(1 - cos w0) / 2, 1 - cos w0, (1 - cos w0) / 2`.
pub open spec fn lowpass_feedforward<S: Real>(frequency: S, sample_rate: u32) -> Seq<S> {
    let cos = angular_frequency(frequency, sample_rate).spec_cos();
    let b0 = S::spec_one().spec_minus(cos).spec_divided_by(S::spec_from_i32(2));
    seq![b0, S::spec_one().spec_minus(cos), b0]
}

/// `(1 + cos w0) / 2, -1 - cos w0, (1 + cos w0) / 2`.
pub open spec fn highpass_feedforward<S: Real>(frequency: S, sample_rate: u32) -> Seq<S> {
    let cos = angular_frequency(frequency, sample_rate).spec_cos();
    let b0 = S::spec_one().spec_plus(cos).spec_divided_by(S::spec_from_i32(2));
    seq![b0, S::spec_from_i32(-1i32).spec_minus(cos), b0]
}

/// `sin(w0) / 2, 0, -(sin(w0) / 2)`.
pub open spec fn bandpass_feedforward<S: Real>(frequency: S, sample_rate: u32) -> Seq<S> {
    let b0 = angular_frequency(frequency, sample_rate).spec_sin().spec_divided_by(S::spec_from_i32(2));
    seq![b0, S::spec_zero(), b0.spec_negated()]
}

/// `1 - alpha, -2 cos(w0), 1 + alpha`: the shared feedback in reverse.
pub open spec fn allpass_feedforward<S: Real>(frequency: S, sample_rate: u32, q: S) -> Seq<S> {
    let alpha = alpha_of(frequency, sample_rate, q);
    seq![S::spec_one().spec_minus(alpha), minus_two_cos(frequency, sample_rate), S::spec_one().spec_plus(alpha)]
}

/// `A = 10^(gain_db / 40)`.
pub open spec fn shelf_gain<S: Real>(gain_db: S) -> S {
    S::spec_from_i32(10).spec_powf(gain_db.spec_divided_by(S::spec_from_i32(40)))
}

/// `1 + alpha A, -2 cos(w0), 1 - alpha A`.
pub open spec fn peak_feedforward<S: Real>(frequency: S, sample_rate: u32, gain_db: S, q: S) -> Seq<S> {
    let alpha = alpha_of(frequency, sample_rate, q);
    let big_a = shelf_gain(gain_db);
    seq![
        S::spec_one().spec_plus(alpha.spec_times(big_a)),
        minus_two_cos(frequency, sample_rate),
        S::spec_one().spec_minus(alpha.spec_times(big_a)),
    ]
}

/// `1 + alpha / A, -2 cos(w0), 1 - alpha / A`.
pub open spec fn peak_feedback<S: Real>(frequency: S, sample_rate: u32, gain_db: S, q: S) -> Seq<S> {
    let alpha = alpha_of(frequency, sample_rate, q);
    let big_a = shelf_gain(gain_db);
    seq![
        S::spec_one().spec_plus(alpha.spec_divided_by(big_a)),
        minus_two_cos(frequency, sample_rate),
        S::spec_one().spec_minus(alpha.spec_divided_by(big_a)),
    ]
}

/// `(A + 1) - (A - 1) cos w0`.
pub open spec fn shelf_pmc<S: Real>(frequency: S, sample_rate: u32, gain_db: S) -> S {
    let a = shelf_gain(gain_db);
    let cos = angular_frequency(frequency, sample_rate).spec_cos();
    a.spec_plus(S::spec_one()).spec_minus(a.spec_minus(S::spec_one()).spec_times(cos))
}

/// `(A + 1) + (A - 1) cos w0`.
pub open spec fn shelf_ppmc<S: Real>(frequency: S, sample_rate: u32, gain_db: S) -> S {
    let a = shelf_gain(gain_db);
    let cos = angular_frequency(frequency, sample_rate).spec_cos();
    a.spec_plus(S::spec_one()).spec_plus(a.spec_minus(S::spec_one()).spec_times(cos))
}

/// `(A - 1) - (A + 1) cos w0`.
pub open spec fn shelf_mpc<S: Real>(frequency: S, sample_rate: u32, gain_db: S) -> S {
    let a = shelf_gain(gain_db);
    let cos = angular_frequency(frequency, sample_rate).spec_cos();
    a.spec_minus(S::spec_one()).spec_minus(a.spec_plus(S::spec_one()).spec_times(cos))
}

/// `(A - 1) + (A + 1) cos w0`.
pub open spec fn shelf_pmpc<S: Real>(frequency: S, sample_rate: u32, gain_db: S) -> S {
    let a = shelf_gain(gain_db);
    let cos = angular_frequency(frequency, sample_rate).spec_cos();
    a.spec_minus(S::spec_one()).spec_plus(a.spec_plus(S::spec_one()).spec_times(cos))
}

/// `2 sqrt(A) alpha`.
pub open spec fn shelf_aa2<S: Real>(frequency: S, sample_rate: u32, gain_db: S, q: S) -> S {
    S::spec_from_i32(2).spec_times(shelf_gain(gain_db).spec_sqrt()).spec_times(alpha_of(frequency, sample_rate, q))
}

/// `A (pmc + aa2), 2 A mpc, A (pmc - aa2)`.
pub open spec fn lowshelf_feedforward<S: Real>(frequency: S, sample_rate: u32, gain_db: S, q: S) -> Seq<S> {
    let a = shelf_gain(gain_db);
    let pmc = shelf_pmc(frequency, sample_rate, gain_db);
    let aa2 = shelf_aa2(frequency, sample_rate, gain_db, q);
    seq![
        a.spec_times(pmc.spec_plus(aa2)),
        S::spec_from_i32(2).spec_times(a).spec_times(shelf_mpc(frequency, sample_rate, gain_db)),
        a.spec_times(pmc.spec_minus(aa2)),
    ]
}

/// `ppmc + aa2, -2 pmpc, ppmc - aa2`.
pub open spec fn lowshelf_feedback<S: Real>(frequency: S, sample_rate: u32, gain_db: S, q: S) -> Seq<S> {
    let ppmc = shelf_ppmc(frequency, sample_rate, gain_db);
    let aa2 = shelf_aa2(frequency, sample_rate, gain_db, q);
    seq![
        ppmc.spec_plus(aa2),
        S::spec_from_i32(-2i32).spec_times(shelf_pmpc(frequency, sample_rate, gain_db)),
        ppmc.spec_minus(aa2),
    ]
}

/// `A (ppmc + aa2), -2 A pmpc, A (ppmc - aa2)`.
pub open spec fn highshelf_feedforward<S: Real>(frequency: S, sample_rate: u32, gain_db: S, q: S) -> Seq<S> {
    let a = shelf_gain(gain_db);
    let ppmc = shelf_ppmc(frequency, sample_rate, gain_db);
    let aa2 = shelf_aa2(frequency, sample_rate, gain_db, q);
    seq![
        a.spec_times(ppmc.spec_plus(aa2)),
        S::spec_from_i32(-2i32).spec_times(a).spec_times(shelf_pmpc(frequency, sample_rate, gain_db)),
        a.spec_times(ppmc.spec_minus(aa2)),
    ]
}

/// `pmc + aa2, 2 mpc, pmc - aa2`.
pub open spec fn highshelf_feedback<S: Real>(frequency: S, sample_rate: u32, gain_db: S, q: S) -> Seq<S> {
    let pmc = shelf_pmc(frequency, sample_rate, gain_db);
    let aa2 = shelf_aa2(frequency, sample_rate, gain_db, q);
    seq![
        pmc.spec_plus(aa2),
        S::spec_from_i32(2).spec_times(shelf_mpc(frequency, sample_rate, gain_db)),
        pmc.spec_minus(aa2),
    ]
}

/// The notch's bandwidth-derived `alpha`:
/// `sin w0 * sinh(log_e(2) / 2 * q * (w0 / sin w0))`.
pub open spec fn notch_alpha<S: Real>(frequency: S, sample_rate: u32, q: S) -> S {
    let w0 = angular_frequency(frequency, sample_rate);
    let sin = w0.spec_sin();
    let half_ln2 = S::spec_from_i32(2).spec_log(S::spec_e()).spec_divided_by(S::spec_from_i32(2));
    sin.spec_times(half_ln2.spec_times(q).spec_times(w0.spec_divided_by(sin)).spec_sinh())
}

/// `1 + alpha, -2 cos(w0), 1 - alpha` with the notch's `alpha`.
pub open spec fn notch_feedback<S: Real>(frequency: S, sample_rate: u32, q: S) -> Seq<S> {
    let alpha = notch_alpha(frequency, sample_rate, q);
    seq![S::spec_one().spec_plus(alpha), minus_two_cos(frequency, sample_rate), S::spec_one().spec_minus(alpha)]
}

/// `1, -2 cos(w0), 0`.
pub open spec fn notch_feedforward<S: Real>(frequency: S, sample_rate: u32) -> Seq<S> {
    seq![S::spec_one(), minus_two_cos(frequency, sample_rate), S::spec_zero()]
}

/// `k = tan(pi * frequency_center / sample_rate)`.
pub open spec fn constant_q_k<S: Real>(frequency_center: S, sample_rate: u32) -> S {
    S::spec_pi().spec_times(frequency_center).spec_divided_by(S::spec_from_u32(sample_rate)).spec_tan()
}

/// `v0 = 10^(gain_db / 20)`, inverted when below one.
pub open spec fn constant_q_v0<S: Real>(gain_db: S) -> S {
    let v = S::spec_from_i32(10).spec_powf(gain_db.spec_divided_by(S::spec_from_i32(20)));
    if v.spec_less_than(S::spec_one()) {
        S::spec_one().spec_divided_by(v)
    } else {
        v
    }
}

/// `(b0, b1, b2, a2)` of the constant-Q design. With `k2 = k^2`,
/// `p = (1 / q) k` and `g = (v0 / q) k`: a boost (`0 < gain_db`) divides
/// `1 + g + k2, 2 (k2 - 1), 1 - g + k2, 1 - p + k2` by `1 + p + k2`; a cut
/// divides `1 + p + k2, 2 (k2 - 1), 1 - p + k2, 1 - g + k2` by `1 + g + k2`.
pub open spec fn constant_q_terms<S: Real>(frequency_center: S, sample_rate: u32, gain_db: S, q: S) -> (S, S, S, S) {
    let one = S::spec_one();
    let k = constant_q_k(frequency_center, sample_rate);
    let k_sqr = k.spec_powf(S::spec_from_i32(2));
    let plain = one.spec_divided_by(q).spec_times(k);
    let gain = constant_q_v0(gain_db).spec_divided_by(q).spec_times(k);
    let b1_num = S::spec_from_i32(2).spec_times(k_sqr.spec_minus(one));
    if S::spec_zero().spec_less_than(gain_db) {
        let den = one.spec_plus(plain).spec_plus(k_sqr);
        (
            one.spec_plus(gain).spec_plus(k_sqr).spec_divided_by(den),
            b1_num.spec_divided_by(den),
            one.spec_minus(gain).spec_plus(k_sqr).spec_divided_by(den),
            one.spec_minus(plain).spec_plus(k_sqr).spec_divided_by(den),
        )
    } else {
        let den = one.spec_plus(gain).spec_plus(k_sqr);
        (
            one.spec_plus(plain).spec_plus(k_sqr).spec_divided_by(den),
            b1_num.spec_divided_by(den),
            one.spec_minus(plain).spec_plus(k_sqr).spec_divided_by(den),
            one.spec_minus(gain).spec_plus(k_sqr).spec_divided_by(den),
        )
    }
}

/// `1, b1, a2` of the constant-Q design.
pub open spec fn constant_q_feedback<S: Real>(frequency_center: S, sample_rate: u32, gain_db: S, q: S) -> Seq<S> {
    let (_b0, b1, _b2, a2) = constant_q_terms(frequency_center, sample_rate, gain_db, q);
    seq![S::spec_one(), b1, a2]
}

/// `b0, b1, b2` of the constant-Q design.
pub open spec fn constant_q_feedforward<S: Real>(frequency_center: S, sample_rate: u32, gain_db: S, q: S) -> Seq<S> {
    let (b0, b1, b2, _a2) = constant_q_terms(frequency_center, sample_rate, gain_db, q);
    seq![b0, b1, b2]
}

/// The quality factor to use: the given one, or `1/sqrt(2)`.
fn quality<S: Real>(q_factor: Option<S>) -> (r: S)
    ensures
        r == quality_of(q_factor),
{
    match q_factor {
        Some(q) => q,
        None => S::one().divided_by(S::from_i32(2).sqrt()),
    }
}

/// A new second-order filter holding the given coefficients.
fn biquad<S: Sample>(a_coeffs: &[S], b_coeffs: &[S]) -> (r: IIRFilter<S>)
    requires
        a_coeffs@.len() == 2 || a_coeffs@.len() == 3,
        b_coeffs@.len() == 3,
    ensures
        designed(
            r@,
            if a_coeffs@.len() == 2 {
                seq![S::spec_one()] + a_coeffs@
            } else {
                a_coeffs@
            },
            b_coeffs@,
        ),
{
    let mut filter = IIRFilter::new(2);
    let assigned = filter.set_coefficients(a_coeffs, b_coeffs);
    assert(assigned is Ok);
    filter
}

/// The shared front half of the cookbook designs:
/// `(w0, sin w0, cos w0, alpha)`.
fn angular_terms<S: Real>(frequency: S, sample_rate: u32, q_factor: S) -> (r: (S, S, S, S))
    ensures
        r.0 == angular_frequency(frequency, sample_rate),
        r.1 == angular_frequency(frequency, sample_rate).spec_sin(),
        r.2 == angular_frequency(frequency, sample_rate).spec_cos(),
        r.3 == alpha_of(frequency, sample_rate, q_factor),
{
    let w0 = S::tau().times(frequency).divided_by(S::from_u32(sample_rate));
    let sin = w0.sin();
    let cos = w0.cos();
    let alpha = sin.divided_by(S::from_i32(2).times(q_factor));
    (w0, sin, cos, alpha)
}

/// Second-order low-pass filter at `frequency` Hz.
pub fn make_lowpass<S: Real>(frequency: S, sample_rate: u32, q_factor: Option<S>) -> (r: IIRFilter<S>)
    ensures
        designed(
            r@,
            cookbook_feedback(frequency, sample_rate, quality_of(q_factor)),
            lowpass_feedforward(frequency, sample_rate),
        ),
{
    let (_w0, _sin, cos, alpha) = angular_terms(frequency, sample_rate, quality(q_factor));

    let b0 = S::one().minus(cos).divided_by(S::from_i32(2));
    let b1 = S::one().minus(cos);

    let a0 = S::one().plus(alpha);
    let a1 = S::from_i32(-2).times(cos);
    let a2 = S::one().minus(alpha);

    biquad(&[a0, a1, a2], &[b0, b1, b0])
}

/// Second-order high-pass filter at `frequency` Hz.
pub fn make_highpass<S: Real>(frequency: S, sample_rate: u32, q_factor: Option<S>) -> (r: IIRFilter<S>)
    ensures
        designed(
            r@,
            cookbook_feedback(frequency, sample_rate, quality_of(q_factor)),
            highpass_feedforward(frequency, sample_rate),
        ),
{
    let (_w0, _sin, cos, alpha) = angular_terms(frequency, sample_rate, quality(q_factor));

    let b0 = S::one().plus(cos).divided_by(S::from_i32(2));
    let b1 = S::from_i32(-1).minus(cos);

    let a0 = S::one().plus(alpha);
    let a1 = S::from_i32(-2).times(cos);
    let a2 = S::one().minus(alpha);

    biquad(&[a0, a1, a2], &[b0, b1, b0])
}

/// Second-order band-pass filter centred on `frequency` Hz, with peak gain
/// `sin(w0) / 2`.
pub fn make_bandpass<S: Real>(frequency: S, sample_rate: u32, q_factor: Option<S>) -> (r: IIRFilter<S>)
    ensures
        designed(
            r@,
            cookbook_feedback(frequency, sample_rate, quality_of(q_factor)),
            bandpass_feedforward(frequency, sample_rate),
        ),
{
    let (_w0, sin, cos, alpha) = angular_terms(frequency, sample_rate, quality(q_factor));

    let b0 = sin.divided_by(S::from_i32(2));
    let b1 = S::zero();
    let b2 = b0.negated();

    let a0 = S::one().plus(alpha);
    let a1 = S::from_i32(-2).times(cos);
    let a2 = S::one().minus(alpha);

    biquad(&[a0, a1, a2], &[b0, b1, b2])
}

/// Second-order all-pass filter at `frequency` Hz: its feedback
/// coefficients are its feedforward ones in reverse.
pub fn make_allpass<S: Real>(frequency: S, sample_rate: u32, q_factor: Option<S>) -> (r: IIRFilter<S>)
    ensures
        designed(
            r@,
            cookbook_feedback(frequency, sample_rate, quality_of(q_factor)),
            allpass_feedforward(frequency, sample_rate, quality_of(q_factor)),
        ),
        r@.feedback == r@.feedforward.reverse(),
{
    let (_w0, _sin, cos, alpha) = angular_terms(frequency, sample_rate, quality(q_factor));

    let b0 = S::one().minus(alpha);
    let b1 = S::from_i32(-2).times(cos);
    let b2 = S::one().plus(alpha);

    let r = biquad(&[b2, b1, b0], &[b0, b1, b2]);
    assert(seq![b2, b1, b0] =~= seq![b0, b1, b2].reverse());
    r
}

/// Second-order peaking filter at `frequency` Hz with `gain_db` of boost
/// (cut when negative), using `A = 10^(gain_db / 40)`.
pub fn make_peak<S: Real>(frequency: S, sample_rate: u32, gain_db: S, q_factor: Option<S>) -> (r: IIRFilter<S>)
    ensures
        designed(
            r@,
            peak_feedback(frequency, sample_rate, gain_db, quality_of(q_factor)),
            peak_feedforward(frequency, sample_rate, gain_db, quality_of(q_factor)),
        ),
{
    let (_w0, _sin, cos, alpha) = angular_terms(frequency, sample_rate, quality(q_factor));
    let big_a = S::from_i32(10).powf(gain_db.divided_by(S::from_i32(40)));

    let b0 = S::one().plus(alpha.times(big_a));
    let b1 = S::from_i32(-2).times(cos);
    let b2 = S::one().minus(alpha.times(big_a));
    let a0 = S::one().plus(alpha.divided_by(big_a));
    let a1 = b1;
    let a2 = S::one().minus(alpha.divided_by(big_a));

    biquad(&[a0, a1, a2], &[b0, b1, b2])
}

/// The terms the two shelving designs share: `(A, pmc, ppmc, mpc, pmpc, aa2)`.
fn shelf_terms<S: Real>(frequency: S, sample_rate: u32, gain_db: S, q_factor: Option<S>) -> (r: (S, S, S, S, S, S))
    ensures
        r.0 == shelf_gain(gain_db),
        r.1 == shelf_pmc(frequency, sample_rate, gain_db),
        r.2 == shelf_ppmc(frequency, sample_rate, gain_db),
        r.3 == shelf_mpc(frequency, sample_rate, gain_db),
        r.4 == shelf_pmpc(frequency, sample_rate, gain_db),
        r.5 == shelf_aa2(frequency, sample_rate, gain_db, quality_of(q_factor)),
{
    let (_w0, _sin, cos, alpha) = angular_terms(frequency, sample_rate, quality(q_factor));
    let big_a = S::from_i32(10).powf(gain_db.divided_by(S::from_i32(40)));
    let pmc = big_a.plus(S::one()).minus(big_a.minus(S::one()).times(cos));
    let ppmc = big_a.plus(S::one()).plus(big_a.minus(S::one()).times(cos));
    let mpc = big_a.minus(S::one()).minus(big_a.plus(S::one()).times(cos));
    let pmpc = big_a.minus(S::one()).plus(big_a.plus(S::one()).times(cos));
    let aa2 = S::from_i32(2).times(big_a.sqrt()).times(alpha);
    (big_a, pmc, ppmc, mpc, pmpc, aa2)
}

/// Second-order low-shelf filter: frequencies below `frequency` Hz are
/// boosted (or cut) by `gain_db`.
pub fn make_lowshelf<S: Real>(frequency: S, sample_rate: u32, gain_db: S, q_factor: Option<S>) -> (r: IIRFilter<S>)
    ensures
        designed(
            r@,
            lowshelf_feedback(frequency, sample_rate, gain_db, quality_of(q_factor)),
            lowshelf_feedforward(frequency, sample_rate, gain_db, quality_of(q_factor)),
        ),
{
    let (big_a, pmc, ppmc, mpc, pmpc, aa2) = shelf_terms(frequency, sample_rate, gain_db, q_factor);

    let b0 = big_a.times(pmc.plus(aa2));
    let b1 = S::from_i32(2).times(big_a).times(mpc);
    let b2 = big_a.times(pmc.minus(aa2));
    let a0 = ppmc.plus(aa2);
    let a1 = S::from_i32(-2).times(pmpc);
    let a2 = ppmc.minus(aa2);

    biquad(&[a0, a1, a2], &[b0, b1, b2])
}

/// Second-order high-shelf filter: frequencies above `frequency` Hz are
/// boosted (or cut) by `gain_db`; the boost and cut terms trade places
/// relative to the low shelf.
pub fn make_highshelf<S: Real>(frequency: S, sample_rate: u32, gain_db: S, q_factor: Option<S>) -> (r: IIRFilter<S>)
    ensures
        designed(
            r@,
            highshelf_feedback(frequency, sample_rate, gain_db, quality_of(q_factor)),
            highshelf_feedforward(frequency, sample_rate, gain_db, quality_of(q_factor)),
        ),
{
    let (big_a, pmc, ppmc, mpc, pmpc, aa2) = shelf_terms(frequency, sample_rate, gain_db, q_factor);

    let b0 = big_a.times(ppmc.plus(aa2));
    let b1 = S::from_i32(-2).times(big_a).times(pmpc);
    let b2 = big_a.times(ppmc.minus(aa2));
    let a0 = pmc.plus(aa2);
    let a1 = S::from_i32(2).times(mpc);
    let a2 = pmc.minus(aa2);

    biquad(&[a0, a1, a2], &[b0, b1, b2])
}

/// Second-order notch filter at `frequency` Hz, with feedforward
/// `1, -2 cos w0, 0` and a bandwidth-derived `alpha`.
pub fn make_notch<S: Real>(frequency: S, sample_rate: u32, q_factor: Option<S>) -> (r: IIRFilter<S>)
    ensures
        designed(
            r@,
            notch_feedback(frequency, sample_rate, quality_of(q_factor)),
            notch_feedforward(frequency, sample_rate),
        ),
{
    let q_factor = quality(q_factor);
    let (w0, sin, cos, _alpha) = angular_terms(frequency, sample_rate, q_factor);
    let half_ln2 = S::from_i32(2).log(S::e()).divided_by(S::from_i32(2));
    let alpha = sin.times(half_ln2.times(q_factor).times(w0.divided_by(sin)).sinh());

    let b0 = S::one();
    let b1 = S::from_i32(-2).times(cos);
    let b2 = S::zero();

    let a0 = S::one().plus(alpha);
    let a1 = b1;
    let a2 = S::one().minus(alpha);

    biquad(&[a0, a1, a2], &[b0, b1, b2])
}

/// Constant-Q peaking filter centred on `frequency_center` Hz, as used by
/// equalizer bands: the bandwidth stays the same at every gain.
///
/// With `k = tan(pi * frequency_center / sample_rate)` and the linear gain
/// `v0 = 10^(gain_db / 20)`, inverted when below one, a boost
/// (`gain_db > 0`) puts `v0` in the feedforward numerators and a cut puts it
/// in the shared denominator. The leading feedback coefficient is the
/// implied one.
pub fn make_peak_eq_constant_q<S: Real>(frequency_center: S, sample_rate: u32, gain_db: S, q_factor: Option<S>) -> (r: IIRFilter<S>)
    ensures
        designed(
            r@,
            constant_q_feedback(frequency_center, sample_rate, gain_db, quality_of(q_factor)),
            constant_q_feedforward(frequency_center, sample_rate, gain_db, quality_of(q_factor)),
        ),
{
    let q = quality(q_factor);
    let one = S::one();
    let k = S::pi().times(frequency_center).divided_by(S::from_u32(sample_rate)).tan();
    let mut v0 = S::from_i32(10).powf(gain_db.divided_by(S::from_i32(20)));
    if v0.less_than(one) {
        v0 = one.divided_by(v0);
    }
    let k_sqr = k.powf(S::from_i32(2));
    let plain_term = one.divided_by(q).times(k);
    let gain_term = v0.divided_by(q).times(k);
    let two = S::from_i32(2);

    let (b0, b1, b2, a2) = if S::zero().less_than(gain_db) {
        let den = one.plus(plain_term).plus(k_sqr);
        (
            one.plus(gain_term).plus(k_sqr).divided_by(den),
            two.times(k_sqr.minus(one)).divided_by(den),
            one.minus(gain_term).plus(k_sqr).divided_by(den),
            one.minus(plain_term).plus(k_sqr).divided_by(den),
        )
    } else {
        let den = one.plus(gain_term).plus(k_sqr);
        (
            one.plus(plain_term).plus(k_sqr).divided_by(den),
            two.times(k_sqr.minus(one)).divided_by(den),
            one.minus(plain_term).plus(k_sqr).divided_by(den),
            one.minus(gain_term).plus(k_sqr).divided_by(den),
        )
    };
    let a1 = b1;

    let r = biquad(&[a1, a2], &[b0, b1, b2]);
    assert(seq![S::spec_one()] + seq![a1, a2] =~= seq![S::spec_one(), a1, a2]);
    r
}

} // verus!
