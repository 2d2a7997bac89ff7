use audio_filters::butterworth_filter::{
    make_allpass, make_bandpass, make_highpass, make_highshelf, make_lowpass, make_lowshelf,
    make_notch, make_peak, make_peak_eq_constant_q,
};
use audio_filters::equalizer::{Equalizer, EqualizerError};
use audio_filters::iir_filter::{check_coefficient_lengths, CoefficientSet, FilterError, IIRFilter, ProcessingBlock};
use audio_filters::sample::{Real, Sample};

/// Double-precision samples.
#[derive(Debug, Clone, Copy, PartialEq)]
struct F(f64);

impl Sample for F {
    // Each operation is named by itself: the value a spec function stands
    // for is the value the operation returns.
    fn spec_zero() -> Self {
        Self::zero()
    }
    fn spec_one() -> Self {
        Self::one()
    }
    fn spec_plus(self, other: Self) -> Self {
        self.plus(other)
    }
    fn spec_minus(self, other: Self) -> Self {
        self.minus(other)
    }
    fn spec_times(self, other: Self) -> Self {
        self.times(other)
    }
    fn spec_divided_by(self, other: Self) -> Self {
        self.divided_by(other)
    }
    fn spec_less_than(self, other: Self) -> bool {
        self.less_than(other)
    }
    fn spec_at_most(self, other: Self) -> bool {
        self.at_most(other)
    }
    fn zero() -> Self {
        F(0.0)
    }
    fn one() -> Self {
        F(1.0)
    }
    fn plus(self, other: Self) -> Self {
        F(self.0 + other.0)
    }
    fn minus(self, other: Self) -> Self {
        F(self.0 - other.0)
    }
    fn times(self, other: Self) -> Self {
        F(self.0 * other.0)
    }
    fn divided_by(self, other: Self) -> Self {
        F(self.0 / other.0)
    }
    fn less_than(self, other: Self) -> bool {
        self.0 < other.0
    }
    fn at_most(self, other: Self) -> bool {
        self.0 <= other.0
    }
}

impl Real for F {
    fn spec_from_i32(n: i32) -> Self {
        Self::from_i32(n)
    }
    fn spec_from_u32(n: u32) -> Self {
        Self::from_u32(n)
    }
    fn spec_pi() -> Self {
        Self::pi()
    }
    fn spec_tau() -> Self {
        Self::tau()
    }
    fn spec_e() -> Self {
        Self::e()
    }
    fn spec_negated(self) -> Self {
        self.negated()
    }
    fn spec_sqrt(self) -> Self {
        Real::sqrt(self)
    }
    fn spec_sin(self) -> Self {
        Real::sin(self)
    }
    fn spec_cos(self) -> Self {
        Real::cos(self)
    }
    fn spec_tan(self) -> Self {
        Real::tan(self)
    }
    fn spec_sinh(self) -> Self {
        Real::sinh(self)
    }
    fn spec_powf(self, exponent: Self) -> Self {
        Real::powf(self, exponent)
    }
    fn spec_log(self, base: Self) -> Self {
        Real::log(self, base)
    }
    fn from_i32(n: i32) -> Self {
        F(n as f64)
    }
    fn from_u32(n: u32) -> Self {
        F(n as f64)
    }
    fn pi() -> Self {
        F(std::f64::consts::PI)
    }
    fn tau() -> Self {
        F(std::f64::consts::TAU)
    }
    fn e() -> Self {
        F(std::f64::consts::E)
    }
    fn negated(self) -> Self {
        F(-self.0)
    }
    fn sqrt(self) -> Self {
        F(self.0.sqrt())
    }
    fn sin(self) -> Self {
        F(self.0.sin())
    }
    fn cos(self) -> Self {
        F(self.0.cos())
    }
    fn tan(self) -> Self {
        F(self.0.tan())
    }
    fn sinh(self) -> Self {
        F(self.0.sinh())
    }
    fn powf(self, exponent: Self) -> Self {
        F(self.0.powf(exponent.0))
    }
    fn log(self, base: Self) -> Self {
        F(self.0.log(base.0))
    }
}

fn values(samples: &[F]) -> Vec<f64> {
    samples.iter().map(|s| s.0).collect()
}

fn all_coefficients(filter: &IIRFilter<F>) -> Vec<f64> {
    let mut all = values(filter.a_coeffs());
    all.extend(values(filter.b_coeffs()));
    all
}

fn assert_coefficients(filter: &IIRFilter<F>, target: &[f64]) {
    let got = all_coefficients(filter);
    assert_eq!(got.len(), target.len());
    for i in 0..target.len() {
        assert_eq!(got[i], target[i], "coefficient {}", i);
    }
}

#[test]
fn test_make_lowpass() {
    let filter = make_lowpass(F(1_000.0), 48_000, None);
    assert_coefficients(
        &filter,
        &[
            1.0922959556412573,
            -1.9828897227476208,
            0.9077040443587427,
            0.004277569313094809,
            0.008555138626189618,
            0.004277569313094809,
        ],
    );
}

#[test]
fn test_make_highpass() {
    let filter = make_highpass(F(1_000.0), 48_000, None);
    assert_coefficients(
        &filter,
        &[
            1.0922959556412573,
            -1.9828897227476208,
            0.9077040443587427,
            0.9957224306869052,
            -1.9914448613738105,
            0.9957224306869052,
        ],
    );
}

#[test]
fn test_make_bandpass() {
    let filter = make_bandpass(F(1_000.0), 48_000, None);
    assert_coefficients(
        &filter,
        &[
            1.0922959556412573,
            -1.9828897227476208,
            0.9077040443587427,
            0.06526309611002579,
            0.0,
            -0.06526309611002579,
        ],
    );
}

#[test]
fn test_make_allpass() {
    let filter = make_allpass(F(1_000.0), 48_000, None);
    assert_coefficients(
        &filter,
        &[
            1.0922959556412573,
            -1.9828897227476208,
            0.9077040443587427,
            0.9077040443587427,
            -1.9828897227476208,
            1.0922959556412573,
        ],
    );
}

#[test]
fn test_make_peak() {
    let filter = make_peak(F(1_000.0), 48_000, F(6.0), None);
    assert_coefficients(
        &filter,
        &[
            1.0653405327119334,
            -1.9828897227476208,
            0.9346594672880666,
            1.1303715025601122,
            -1.9828897227476208,
            0.8696284974398878,
        ],
    );
}

#[test]
fn test_make_lowshelf() {
    let filter = make_lowshelf(F(1_000.0), 48_000, F(6.0), None);
    assert_coefficients(
        &filter,
        &[
            3.0409336710888786,
            -5.608870992220748,
            2.602157875636628,
            3.139954022810743,
            -5.591841778072785,
            2.5201667380627257,
        ],
    );
}

#[test]
fn test_make_highshelf() {
    let filter = make_highshelf(F(1_000.0), 48_000, F(6.0), None);
    assert_coefficients(
        &filter,
        &[
            2.2229172136088806,
            -3.9587208137297303,
            1.7841414181566304,
            4.295432981120543,
            -7.922740859457287,
            3.6756456963725253,
        ],
    );
}

#[test]
fn test_iir_filter_000() {
    let mut filter: IIRFilter<F> = IIRFilter::new(2);
    let res = filter.process(F(0.0));
    assert!((res.0 - 0.0).abs() < 0.00001);
}

#[test]
fn test_iir_filter_001() {
    let a_coeffs = [F(0.0), F(0.0)];
    let b_coeffs = [F(0.0), F(0.0), F(0.0)];
    let mut filter: IIRFilter<F> = IIRFilter::new(2);
    let res_coef = filter.set_coefficients(&a_coeffs, &b_coeffs);
    assert!(res_coef.is_ok());
    let res = filter.process(F(0.0));
    assert!((res.0 - 0.0).abs() < 0.00001);

    let a_coeffs = [F(1.0), F(0.0), F(0.0)];
    let b_coeffs = [F(0.0), F(0.0), F(0.0)];
    let mut filter: IIRFilter<F> = IIRFilter::new(2);
    let res_coef = filter.set_coefficients(&a_coeffs, &b_coeffs);
    assert!(res_coef.is_ok());
    let res = filter.process(F(0.0));
    assert!((res.0 - 0.0).abs() < 0.00001);
}

#[test]
fn identity_filter_returns_each_input() {
    let samples = [0.5, -1.0, 0.25, 3.0, -0.125, 0.0, 1e-9, -7.5];
    for order in [1usize, 2, 3, 8] {
        let mut filter: IIRFilter<F> = IIRFilter::new(order);
        for &x in samples.iter() {
            assert_eq!(filter.process(F(x)), F(x));
        }
    }
}

#[test]
fn new_filter_is_identity_with_zero_history() {
    let filter: IIRFilter<F> = IIRFilter::new(3);
    assert_eq!(filter.order(), 3);
    assert_eq!(values(filter.a_coeffs()), vec![1.0, 0.0, 0.0, 0.0]);
    assert_eq!(values(filter.b_coeffs()), vec![1.0, 0.0, 0.0, 0.0]);
    assert_eq!(values(filter.input_history()), vec![0.0, 0.0, 0.0]);
    assert_eq!(values(filter.output_history()), vec![0.0, 0.0, 0.0]);
}

#[test]
fn silence_in_gives_silence_out() {
    let mut filters = vec![
        make_lowpass(F(1_000.0), 48_000, None),
        make_highpass(F(5_000.0), 44_100, Some(F(0.9))),
        make_bandpass(F(200.0), 48_000, None),
        make_allpass(F(1_000.0), 48_000, None),
        make_peak(F(1_000.0), 48_000, F(6.0), None),
        make_lowshelf(F(300.0), 48_000, F(-6.0), None),
        make_highshelf(F(8_000.0), 48_000, F(3.0), None),
        make_notch(F(1_000.0), 48_000, None),
        make_peak_eq_constant_q(F(1_000.0), 48_000, F(-4.0), None),
        IIRFilter::new(5),
    ];
    for filter in filters.iter_mut() {
        for _ in 0..100 {
            assert_eq!(filter.process(F(0.0)), F(0.0));
        }
    }
}

#[test]
fn process_follows_the_recurrence() {
    let mut filter: IIRFilter<F> = IIRFilter::new(2);
    filter
        .set_coefficients(&[F(2.0), F(0.5), F(0.25)], &[F(1.0), F(2.0), F(3.0)])
        .unwrap();
    // y0 = (1 * 4) / 2
    assert_eq!(filter.process(F(4.0)), F(2.0));
    // y1 = (2 * 4 - 0.5 * 2 + 1 * 2) / 2
    assert_eq!(filter.process(F(2.0)), F(4.5));
    // y2 = (2 * 2 - 0.5 * 4.5 + 3 * 4 - 0.25 * 2 + 1 * 0) / 2
    assert_eq!(filter.process(F(0.0)), F(6.625));
    assert_eq!(values(filter.input_history()), vec![0.0, 2.0]);
    assert_eq!(values(filter.output_history()), vec![6.625, 4.5]);
}

#[test]
fn history_shifts_newest_first() {
    let mut filter: IIRFilter<F> = IIRFilter::new(3);
    filter.process(F(1.0));
    filter.process(F(2.0));
    assert_eq!(values(filter.input_history()), vec![2.0, 1.0, 0.0]);
    filter.process(F(3.0));
    filter.process(F(4.0));
    assert_eq!(values(filter.input_history()), vec![4.0, 3.0, 2.0]);
    assert_eq!(values(filter.output_history()), vec![4.0, 3.0, 2.0]);
}

#[test]
fn implicit_leading_feedback_coefficient() {
    let mut filter: IIRFilter<F> = IIRFilter::new(2);
    assert_eq!(filter.set_coefficients(&[F(0.5), F(0.25)], &[F(1.0), F(2.0), F(3.0)]), Ok(()));
    assert_eq!(values(filter.a_coeffs()), vec![1.0, 0.5, 0.25]);
    assert_eq!(values(filter.b_coeffs()), vec![1.0, 2.0, 3.0]);
}

#[test]
fn wrong_feedforward_length_is_rejected_and_keeps_coefficients() {
    let mut filter = make_lowpass(F(1_000.0), 48_000, None);
    let before = all_coefficients(&filter);
    let r = filter.set_coefficients(&[F(1.0), F(2.0), F(3.0)], &[F(1.0), F(2.0)]);
    assert_eq!(
        r,
        Err(FilterError::InvalidCoefficientLength {
            set: CoefficientSet::Feedforward,
            expected: 3,
            received: 2
        })
    );
    assert_eq!(all_coefficients(&filter), before);
}

#[test]
fn wrong_feedback_length_is_rejected_and_keeps_coefficients() {
    let mut filter = make_highpass(F(1_000.0), 48_000, None);
    let before = all_coefficients(&filter);
    let r = filter.set_coefficients(&[F(1.0)], &[F(1.0), F(2.0), F(3.0)]);
    assert_eq!(
        r,
        Err(FilterError::InvalidCoefficientLength {
            set: CoefficientSet::Feedback,
            expected: 3,
            received: 1
        })
    );
    assert_eq!(all_coefficients(&filter), before);
}

#[test]
fn coefficient_length_check() {
    assert_eq!(check_coefficient_lengths(2, 3, 3), Ok(false));
    assert_eq!(check_coefficient_lengths(2, 2, 3), Ok(true));
    assert_eq!(
        check_coefficient_lengths(2, 4, 3),
        Err(FilterError::InvalidCoefficientLength {
            set: CoefficientSet::Feedback,
            expected: 3,
            received: 4
        })
    );
    assert_eq!(
        check_coefficient_lengths(1, 2, 3),
        Err(FilterError::InvalidCoefficientLength {
            set: CoefficientSet::Feedforward,
            expected: 2,
            received: 3
        })
    );
}

#[test]
fn reassigning_keeps_history() {
    let mut filter = make_lowpass(F(1_000.0), 48_000, None);
    for x in [1.0, 0.5, -0.25] {
        filter.process(F(x));
    }
    let inputs = values(filter.input_history());
    let outputs = values(filter.output_history());
    filter
        .set_coefficients(&[F(1.0), F(0.1), F(0.2)], &[F(0.3), F(0.4), F(0.5)])
        .unwrap();
    assert_eq!(values(filter.input_history()), inputs);
    assert_eq!(values(filter.output_history()), outputs);
}

#[test]
fn notch_feedforward_layout() {
    let filter = make_notch(F(1_000.0), 48_000, None);
    let b = values(filter.b_coeffs());
    let a = values(filter.a_coeffs());
    let w0 = std::f64::consts::TAU * 1_000.0 / 48_000.0;
    assert_eq!(b, vec![1.0, -2.0 * w0.cos(), 0.0]);
    assert_eq!(a[1], b[1]);
    assert!(a[0] > 1.0 && a[2] < 1.0);
}

#[test]
fn constant_q_peak_at_zero_gain_is_pass_through() {
    let filter = make_peak_eq_constant_q(F(1_000.0), 48_000, F(0.0), Some(F(2.0)));
    let a = values(filter.a_coeffs());
    let b = values(filter.b_coeffs());
    assert_eq!(a[0], 1.0);
    for i in 0..3 {
        assert!((a[i] - b[i]).abs() < 1e-12);
    }
}

#[test]
fn constant_q_peak_boost_and_cut_branches() {
    let boost = make_peak_eq_constant_q(F(1_000.0), 48_000, F(6.0), Some(F(2.0)));
    let cut = make_peak_eq_constant_q(F(1_000.0), 48_000, F(-6.0), Some(F(2.0)));
    let k = (std::f64::consts::PI * 1_000.0 / 48_000.0).tan();
    let k2 = k.powf(2.0);
    let v0 = 10.0_f64.powf(6.0 / 20.0);
    let q = 2.0;
    let den = 1.0 + ((1.0 / q) * k) + k2;
    assert_eq!(boost.b_coeffs()[0], F((1.0 + ((v0 / q) * k) + k2) / den));
    assert_eq!(boost.a_coeffs()[2], F((1.0 - ((1.0 / q) * k) + k2) / den));
    let v0_cut = 1.0 / 10.0_f64.powf(-6.0 / 20.0);
    let den_cut = 1.0 + ((v0_cut / q) * k) + k2;
    assert_eq!(cut.b_coeffs()[0], F((1.0 + ((1.0 / q) * k) + k2) / den_cut));
    assert_eq!(cut.a_coeffs()[2], F((1.0 - ((v0_cut / q) * k) + k2) / den_cut));
    assert_eq!(boost.a_coeffs()[1], boost.b_coeffs()[1]);
}

#[test]
fn equalizer_without_bands_is_rejected() {
    let r: Result<Equalizer<F>, EqualizerError<F>> = Equalizer::new(48_000, &vec![], F(12.0), F(-24.0), F(2.0));
    assert!(matches!(r, Err(EqualizerError::NoBands)));
}

#[test]
fn ten_band_preset_layout() {
    let eq: Equalizer<F> = Equalizer::make_equalizer_10_band(48_000);
    let centers = [29.0, 59.0, 119.0, 237.0, 474.0, 947.0, 1889.0, 3770.0, 7523.0, 15011.0];
    for (i, c) in centers.iter().enumerate() {
        assert_eq!(eq.get_bands_freq(i), F(*c));
        assert_eq!(eq.get_band_gain(i), F(0.0));
    }
}

#[test]
fn out_of_range_gain_is_rejected_and_keeps_state() {
    let mut eq: Equalizer<F> = Equalizer::make_equalizer_10_band(48_000);
    eq.set_band_gain(3, F(4.0)).unwrap();
    let before = all_coefficients(eq.band_filter(3));
    for bad in [12.5, -24.5, 100.0] {
        match eq.set_band_gain(3, F(bad)) {
            Err(EqualizerError::OutOfRangeGain { gain, min, max }) => {
                assert_eq!(gain, F(bad));
                assert_eq!(min, F(-24.0));
                assert_eq!(max, F(12.0));
            }
            other => panic!("expected an out-of-range error, got {:?}", other),
        }
        assert_eq!(eq.get_band_gain(3), F(4.0));
        assert_eq!(all_coefficients(eq.band_filter(3)), before);
    }
    assert!(eq.set_band_gain(3, F(12.0)).is_ok());
    assert!(eq.set_band_gain(3, F(-24.0)).is_ok());
}

#[test]
fn gain_change_swaps_coefficients_and_keeps_history() {
    let mut eq: Equalizer<F> = Equalizer::make_equalizer_10_band(48_000);
    for x in [1.0, -0.5, 0.25, 0.125] {
        eq.process(F(x));
    }
    let inputs = values(eq.band_filter(5).input_history());
    let outputs = values(eq.band_filter(5).output_history());
    let other = all_coefficients(eq.band_filter(4));
    eq.set_band_gain(5, F(-6.0)).unwrap();
    assert_eq!(eq.get_band_gain(5), F(-6.0));
    assert_eq!(values(eq.band_filter(5).input_history()), inputs);
    assert_eq!(values(eq.band_filter(5).output_history()), outputs);
    assert_eq!(all_coefficients(eq.band_filter(4)), other);
    let fresh = make_peak_eq_constant_q(F(947.0), 48_000, F(-6.0), Some(F(2.0 * 2.0f64.sqrt())));
    assert_eq!(all_coefficients(eq.band_filter(5)), all_coefficients(&fresh));
}

#[test]
fn setting_the_same_gain_twice_gives_the_same_stream() {
    let input: Vec<f64> = (0..256).map(|i| ((i * 37 % 17) as f64 - 8.0) / 8.0).collect();
    let mut once: Equalizer<F> = Equalizer::make_equalizer_10_band(48_000);
    let mut twice: Equalizer<F> = Equalizer::make_equalizer_10_band(48_000);
    once.set_band_gain(2, F(7.5)).unwrap();
    twice.set_band_gain(2, F(7.5)).unwrap();
    let coefficients = all_coefficients(twice.band_filter(2));
    twice.set_band_gain(2, F(7.5)).unwrap();
    assert_eq!(all_coefficients(twice.band_filter(2)), coefficients);
    for &x in input.iter() {
        assert_eq!(once.process(F(x)), twice.process(F(x)));
    }
}

#[test]
fn zero_gain_cascade_passes_samples_through() {
    let all_centers = [100.0, 250.0, 600.0, 1_500.0, 4_000.0, 9_000.0];
    for count in 1..=all_centers.len() {
        let centers: Vec<F> = all_centers[..count].iter().map(|&c| F(c)).collect();
        let mut eq = Equalizer::new(48_000, &centers, F(12.0), F(-24.0), F(2.0 * 2.0f64.sqrt())).unwrap();
        for x in [1.0, -0.5, 0.25, 0.0, 0.75] {
            let y = eq.process(F(x));
            assert!((y.0 - x).abs() < 1e-9, "{} bands: {} became {}", count, x, y.0);
        }
    }
    let mut preset: Equalizer<F> = Equalizer::make_equalizer_10_band(48_000);
    for x in [1.0, -0.5, 0.25, 0.0, 0.75] {
        assert!((preset.process(F(x)).0 - x).abs() < 1e-9);
    }
}

#[test]
fn cascade_runs_in_band_order() {
    let centers = vec![F(100.0), F(1_000.0), F(10_000.0)];
    let mut eq = Equalizer::new(48_000, &centers, F(12.0), F(-24.0), F(2.0)).unwrap();
    eq.set_band_gain(0, F(9.0)).unwrap();
    eq.set_band_gain(1, F(-9.0)).unwrap();
    eq.set_band_gain(2, F(3.0)).unwrap();
    let mut stages = vec![
        make_peak_eq_constant_q(F(100.0), 48_000, F(9.0), Some(F(2.0))),
        make_peak_eq_constant_q(F(1_000.0), 48_000, F(-9.0), Some(F(2.0))),
        make_peak_eq_constant_q(F(10_000.0), 48_000, F(3.0), Some(F(2.0))),
    ];
    for x in [1.0, 0.0, 0.0, -0.5, 0.25] {
        let mut expected = F(x);
        for stage in stages.iter_mut() {
            expected = stage.process(expected);
        }
        assert_eq!(eq.process(F(x)), expected);
        assert_eq!(eq.band_filter(0).input_history()[0], F(x));
        assert_eq!(eq.band_filter(1).input_history()[0], eq.band_filter(0).output_history()[0]);
        assert_eq!(eq.band_filter(2).input_history()[0], eq.band_filter(1).output_history()[0]);
    }
}

#[test]
fn ten_band_impulse_response_is_stable() {
    let mut eq: Equalizer<F> = Equalizer::make_equalizer_10_band(48_000);
    eq.set_band_gain(0, F(-10.0)).unwrap();
    eq.set_band_gain(9, F(12.0)).unwrap();
    let mut response = Vec::with_capacity(48_000);
    for i in 0..48_000 {
        let x = if i == 0 { 1.0 } else { 0.0 };
        response.push(eq.process(F(x)).0);
    }
    assert_eq!(response.len(), 48_000);
    assert!(response.iter().all(|y| y.is_finite()));
    assert!(response.iter().all(|y| y.abs() < 10.0));
    assert!(response.iter().any(|y| *y != 0.0));
    assert!(response[47_000..].iter().all(|y| y.abs() < 1e-6));
}

#[test]
fn nan_gain_is_refused() {
    let mut eq: Equalizer<F> = Equalizer::make_equalizer_10_band(48_000);
    let before = all_coefficients(eq.band_filter(4));
    assert!(matches!(eq.set_band_gain(4, F(f64::NAN)), Err(EqualizerError::OutOfRangeGain { .. })));
    assert_eq!(eq.get_band_gain(4), F(0.0));
    assert_eq!(all_coefficients(eq.band_filter(4)), before);
}

#[test]
fn default_quality_is_one_over_root_two() {
    let q = F(1.0 / 2.0f64.sqrt());
    assert_eq!(
        all_coefficients(&make_lowpass(F(3_000.0), 44_100, None)),
        all_coefficients(&make_lowpass(F(3_000.0), 44_100, Some(q)))
    );
    assert_eq!(
        all_coefficients(&make_notch(F(3_000.0), 44_100, None)),
        all_coefficients(&make_notch(F(3_000.0), 44_100, Some(q)))
    );
}

#[test]
fn cookbook_designs_share_their_feedback() {
    let low = make_lowpass(F(2_000.0), 48_000, None);
    let high = make_highpass(F(2_000.0), 48_000, None);
    let band = make_bandpass(F(2_000.0), 48_000, None);
    let all = make_allpass(F(2_000.0), 48_000, None);
    assert_eq!(values(high.a_coeffs()), values(low.a_coeffs()));
    assert_eq!(values(band.a_coeffs()), values(low.a_coeffs()));
    assert_eq!(values(all.a_coeffs()), values(low.a_coeffs()));
}

#[test]
fn processing_block_drives_filters_and_equalizers_alike() {
    fn run<P: ProcessingBlock<F>>(block: &mut P, xs: &[f64]) -> Vec<f64> {
        xs.iter().map(|&x| block.process(F(x)).0).collect()
    }
    let xs = [1.0, 0.0, -0.5, 0.25];
    let mut filter = make_lowpass(F(1_000.0), 48_000, None);
    let mut same = make_lowpass(F(1_000.0), 48_000, None);
    let expected: Vec<f64> = xs.iter().map(|&x| same.process(F(x)).0).collect();
    assert_eq!(run(&mut filter, &xs), expected);
    let mut eq: Equalizer<F> = Equalizer::make_equalizer_10_band(48_000);
    let mut eq2: Equalizer<F> = Equalizer::make_equalizer_10_band(48_000);
    let expected: Vec<f64> = xs.iter().map(|&x| eq2.process(F(x)).0).collect();
    assert_eq!(run(&mut eq, &xs), expected);
}
