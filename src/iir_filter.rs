use vstd::prelude::*;
use crate::sample::Sample;

verus! {

/// Which of the two coefficient sequences a length error is about.
#[derive(Debug, Clone, Copy, PartialEq, Eq, Structural)]
pub enum CoefficientSet {
    /// The `a` coefficients, applied to past outputs.
    Feedback,
    /// The `b` coefficients, applied to the current and past inputs.
    Feedforward,
}

/// A coefficient sequence whose length does not fit the filter's order.
#[derive(Debug, Clone, Copy, PartialEq, Eq, Structural)]
pub enum FilterError {
    InvalidCoefficientLength { set: CoefficientSet, expected: usize, received: usize },
}

/// The outcome of checking coefficient lengths against `order`: `Ok(true)`
/// when the feedback sequence omits its leading coefficient.
pub open spec fn coefficient_layout(order: nat, feedback_len: nat, feedforward_len: nat) -> Result<
    bool,
    FilterError,
> {
    if feedback_len != order + 1 && feedback_len != order {
        Err(
            FilterError::InvalidCoefficientLength {
                set: CoefficientSet::Feedback,
                expected: (order + 1) as usize,
                received: feedback_len as usize,
            },
        )
    } else if feedforward_len != order + 1 {
        Err(
            FilterError::InvalidCoefficientLength {
                set: CoefficientSet::Feedforward,
                expected: (order + 1) as usize,
                received: feedforward_len as usize,
            },
        )
    } else {
        Ok(feedback_len == order)
    }
}

/// Checks coefficient lengths for a filter of `order`: the feedback sequence
/// has `order + 1` elements, or `order` with the leading one implied; the
/// feedforward sequence has `order + 1`.
pub fn check_coefficient_lengths(order: usize, feedback_len: usize, feedforward_len: usize) -> (r:
    Result<bool, FilterError>)
    requires
        order < usize::MAX,
    ensures
        r == coefficient_layout(order as nat, feedback_len as nat, feedforward_len as nat),
{
    if feedback_len != order + 1 && feedback_len != order {
        Err(
            FilterError::InvalidCoefficientLength {
                set: CoefficientSet::Feedback,
                expected: order + 1,
                received: feedback_len,
            },
        )
    } else if feedforward_len != order + 1 {
        Err(
            FilterError::InvalidCoefficientLength {
                set: CoefficientSet::Feedforward,
                expected: order + 1,
                received: feedforward_len,
            },
        )
    } else {
        Ok(feedback_len == order)
    }
}

} // verus!

verus! {

/// The history after one step: `head` enters at the front and the oldest
/// element leaves at the back, so the length stays the same.
pub open spec fn shift_in<S>(history: Seq<S>, head: S) -> Seq<S> {
    seq![head] + history.drop_last()
}

/// `len` copies of `value`.
pub open spec fn repeated<S>(value: S, len: nat) -> Seq<S> {
    Seq::new(len, |_i: int| value)
}

/// Identity coefficients: one followed by `order` zeros.
pub open spec fn identity_coefficients<S: Sample>(order: nat) -> Seq<S> {
    seq![S::spec_one()] + repeated(S::spec_zero(), order)
}

/// The feedback coefficients stored for a given sequence: the implicit
/// leading one is prepended when the sequence omits it.
pub open spec fn stored_feedback<S: Sample>(order: nat, feedback: Seq<S>) -> Seq<S> {
    if feedback.len() == order {
        seq![S::spec_one()] + feedback
    } else {
        feedback
    }
}

/// The abstract state of a filter.
pub ghost struct IIRFilterView<S> {
    pub order: nat,
    /// `a_0 ... a_order`
    pub feedback: Seq<S>,
    /// `b_0 ... b_order`
    pub feedforward: Seq<S>,
    /// `x[n-1] ... x[n-order]`, most recent first.
    pub inputs: Seq<S>,
    /// `y[n-1] ... y[n-order]`, most recent first.
    pub outputs: Seq<S>,
}

/// `0 + (b_1 x[n-1] - a_1 y[n-1]) + ... + (b_terms x[n-terms] - a_terms y[n-terms])`,
/// added from the left, as the filter in state `f` accumulates it.
pub open spec fn partial_sum<S: Sample>(f: IIRFilterView<S>, terms: nat) -> S
    decreases terms,
{
    if terms == 0 {
        S::spec_zero()
    } else {
        let i = terms as int;
        partial_sum(f, (terms - 1) as nat).spec_plus(
            f.feedforward[i].spec_times(f.inputs[i - 1]).spec_minus(
                f.feedback[i].spec_times(f.outputs[i - 1]),
            ),
        )
    }
}

/// The output of a filter in state `f` for input `sample`:
/// `(partial_sum(f, order) + b_0 x[n]) / a_0`.
pub open spec fn recurrence_output<S: Sample>(f: IIRFilterView<S>, sample: S) -> S {
    partial_sum(f, f.order).spec_plus(f.feedforward[0].spec_times(sample)).spec_divided_by(
        f.feedback[0],
    )
}

/// The state of a filter after one step on `sample` from `before`.
pub open spec fn stepped<S: Sample>(before: IIRFilterView<S>, sample: S) -> IIRFilterView<S> {
    IIRFilterView {
        inputs: shift_in(before.inputs, sample),
        outputs: shift_in(before.outputs, recurrence_output(before, sample)),
        ..before
    }
}

/// What assigning `feedback` and `feedforward` to a filter in state
/// `before` does: on a length error, that error and no change; otherwise
/// success, with both sequences stored and nothing else changed.
pub open spec fn assignment_outcome<S: Sample>(
    before: IIRFilterView<S>,
    feedback: Seq<S>,
    feedforward: Seq<S>,
    r: Result<(), FilterError>,
    after: IIRFilterView<S>,
) -> bool {
    match coefficient_layout(before.order, feedback.len(), feedforward.len()) {
        Err(e) => r == Err::<(), FilterError>(e) && after == before,
        Ok(_) => r == Ok::<(), FilterError>(()) && after == (IIRFilterView {
            feedback: stored_feedback(before.order, feedback),
            feedforward: feedforward,
            ..before
        }),
    }
}

/// A feedforward sequence whose length is not `order + 1` is refused,
/// whatever the feedback sequence, and the filter keeps every coefficient
/// and history sample it had.
pub proof fn lemma_wrong_feedforward_length_refused<S: Sample>(
    before: IIRFilterView<S>,
    feedback: Seq<S>,
    feedforward: Seq<S>,
    r: Result<(), FilterError>,
    after: IIRFilterView<S>,
)
    requires
        feedforward.len() != before.order + 1,
        assignment_outcome(before, feedback, feedforward, r, after),
    ensures
        r is Err,
        after == before,
{
}

/// An IIR filter of fixed order `k`, computing
/// `y[n] = (b_0 x[n] + ... + b_k x[n-k] - a_1 y[n-1] - ... - a_k y[n-k]) / a_0`
/// one sample at a time.
pub struct IIRFilter<S: Sample> {
    order: usize,
    a_coeffs: Vec<S>,
    b_coeffs: Vec<S>,
    input_history: Vec<S>,
    output_history: Vec<S>,
}

impl<S: Sample> View for IIRFilter<S> {
    type V = IIRFilterView<S>;

    closed spec fn view(&self) -> IIRFilterView<S> {
        IIRFilterView {
            order: self.order as nat,
            feedback: self.a_coeffs@,
            feedforward: self.b_coeffs@,
            inputs: self.input_history@,
            outputs: self.output_history@,
        }
    }
}

/// A vector holding `len` copies of `value`.
fn repeat_vec<S: Copy>(value: S, len: usize) -> (r: Vec<S>)
    ensures
        r@ == repeated(value, len as nat),
{
    let mut r: Vec<S> = Vec::with_capacity(len);
    let mut i: usize = 0;
    while i < len
        invariant
            i <= len,
            r@ == repeated(value, i as nat),
        decreases len - i,
    {
        r.push(value);
        i += 1;
        proof {
            assert(r@ =~= repeated(value, i as nat));
        }
    }
    r
}

/// A copy of `head` followed by `rest`.
fn prepend_vec<S: Copy>(head: S, rest: &[S]) -> (r: Vec<S>)
    ensures
        r@ == seq![head] + rest@,
{
    let mut r: Vec<S> = Vec::new();
    r.push(head);
    let mut i: usize = 0;
    while i < rest.len()
        invariant
            i <= rest@.len(),
            r@ == seq![head] + rest@.take(i as int),
        decreases rest@.len() - i,
    {
        r.push(rest[i]);
        i += 1;
        proof {
            assert(r@ =~= seq![head] + rest@.take(i as int));
        }
    }
    assert(rest@.take(rest@.len() as int) =~= rest@);
    r
}

/// A copy of a slice.
fn copy_vec<S: Copy>(items: &[S]) -> (r: Vec<S>)
    ensures
        r@ == items@,
{
    let mut r: Vec<S> = Vec::with_capacity(items.len());
    let mut i: usize = 0;
    while i < items.len()
        invariant
            i <= items@.len(),
            r@ == items@.take(i as int),
        decreases items@.len() - i,
    {
        r.push(items[i]);
        i += 1;
        proof {
            assert(r@ =~= items@.take(i as int));
        }
    }
    assert(items@.take(items@.len() as int) =~= items@);
    r
}

/// The history after one step, as a new vector.
fn shifted_vec<S: Copy>(history: &Vec<S>, head: S) -> (r: Vec<S>)
    requires
        history@.len() >= 1,
    ensures
        r@ == shift_in(history@, head),
{
    let last: usize = history.len() - 1;
    let mut r: Vec<S> = Vec::with_capacity(history.len());
    r.push(head);
    let mut i: usize = 0;
    while i < last
        invariant
            last == history@.len() - 1,
            i <= last,
            r@ == seq![head] + history@.take(i as int),
        decreases last - i,
    {
        r.push(history[i]);
        i += 1;
        proof {
            assert(r@ =~= seq![head] + history@.take(i as int));
        }
    }
    assert(history@.take(last as int) =~= history@.drop_last());
    r
}

impl<S: Sample> IIRFilter<S> {
    #[verifier::type_invariant]
    spec fn inv(&self) -> bool {
        &&& 1 <= self.order < usize::MAX
        &&& self.a_coeffs@.len() == self.order + 1
        &&& self.b_coeffs@.len() == self.order + 1
        &&& self.input_history@.len() == self.order
        &&& self.output_history@.len() == self.order
    }

    /// The filter's order. Every filter has a positive order, `order + 1`
    /// coefficients of each kind and `order` samples of each history.
    pub fn order(&self) -> (r: usize)
        ensures
            r == self@.order,
            1 <= r < usize::MAX,
            self@.feedback.len() == r + 1,
            self@.feedforward.len() == r + 1,
            self@.inputs.len() == r,
            self@.outputs.len() == r,
    {
        proof {
            use_type_invariant(self);
        }
        self.order
    }

    /// An identity filter of `order`: `a_0 = b_0 = 1`, every other
    /// coefficient and every history sample 0.
    pub fn new(order: usize) -> (r: Self)
        requires
            1 <= order < usize::MAX,
        ensures
            r@.order == order,
            r@.feedback == identity_coefficients::<S>(order as nat),
            r@.feedforward == identity_coefficients::<S>(order as nat),
            r@.inputs == repeated(S::spec_zero(), order as nat),
            r@.outputs == repeated(S::spec_zero(), order as nat),
    {
        let zero = S::zero();
        let one = S::one();
        let zeros = repeat_vec(zero, order);
        let a_coeffs = prepend_vec(one, zeros.as_slice());
        let b_coeffs = prepend_vec(one, zeros.as_slice());
        IIRFilter {
            order,
            a_coeffs,
            b_coeffs,
            input_history: repeat_vec(zero, order),
            output_history: repeat_vec(zero, order),
        }
    }

    /// Replaces both coefficient sequences, or neither.
    ///
    /// `b_coeffs` must hold `order + 1` elements; `a_coeffs` either
    /// `order + 1`, or `order` with `a_0 = 1` implied. On any other length
    /// the filter is left as it was. The histories are never touched, so a
    /// running filter changes shape without a jump in its delay lines.
    pub fn set_coefficients(&mut self, a_coeffs: &[S], b_coeffs: &[S]) -> (r: Result<(), FilterError>)
        ensures
            assignment_outcome(old(self)@, a_coeffs@, b_coeffs@, r, final(self)@),
    {
        proof {
            use_type_invariant(&*self);
        }
        let layout = check_coefficient_lengths(self.order, a_coeffs.len(), b_coeffs.len());
        match layout {
            Err(e) => Err(e),
            Ok(implicit_leading) => {
                let new_a = if implicit_leading {
                    prepend_vec(S::one(), a_coeffs)
                } else {
                    copy_vec(a_coeffs)
                };
                let new_b = copy_vec(b_coeffs);
                self.a_coeffs = new_a;
                self.b_coeffs = new_b;
                Ok(())
            }
        }
    }

    /// Computes the next output `y` from `sample`, the coefficients and the
    /// histories, then shifts `sample` into the input history and `y` into
    /// the output history, dropping the oldest of each.
    ///
    /// The sum is accumulated from index 1 up to `order`, one term
    /// `b_i x[n-i] - a_i y[n-i]` at a time, before `b_0 x[n]` is added and
    /// the total is divided by `a_0`.
    pub fn process(&mut self, sample: S) -> (r: S)
        ensures
            r == recurrence_output(old(self)@, sample),
            final(self)@ == stepped(old(self)@, sample),
    {
        proof {
            use_type_invariant(&*self);
        }
        let order = self.order;
        let mut result = S::zero();
        let mut i: usize = 1;
        while i <= order
            invariant
                1 <= i <= order + 1,
                order < usize::MAX,
                self.a_coeffs@.len() == order + 1,
                self.b_coeffs@.len() == order + 1,
                self.input_history@.len() == order,
                self.output_history@.len() == order,
                self.order == order,
                result == partial_sum(self@, (i - 1) as nat),
            decreases order + 1 - i,
        {
            let forward = self.b_coeffs[i].times(self.input_history[i - 1]);
            let backward = self.a_coeffs[i].times(self.output_history[i - 1]);
            result = result.plus(forward.minus(backward));
            i += 1;
        }
        result = result.plus(self.b_coeffs[0].times(sample)).divided_by(self.a_coeffs[0]);
        let new_inputs = shifted_vec(&self.input_history, sample);
        let new_outputs = shifted_vec(&self.output_history, result);
        self.input_history = new_inputs;
        self.output_history = new_outputs;
        result
    }

    /// `a_0 ... a_order`.
    pub fn a_coeffs(&self) -> (r: &[S])
        ensures
            r@ == self@.feedback,
    {
        self.a_coeffs.as_slice()
    }

    /// `b_0 ... b_order`.
    pub fn b_coeffs(&self) -> (r: &[S])
        ensures
            r@ == self@.feedforward,
    {
        self.b_coeffs.as_slice()
    }

    /// `x[n-1] ... x[n-order]`, most recent first.
    pub fn input_history(&self) -> (r: &[S])
        ensures
            r@ == self@.inputs,
    {
        self.input_history.as_slice()
    }

    /// `y[n-1] ... y[n-order]`, most recent first.
    pub fn output_history(&self) -> (r: &[S])
        ensures
            r@ == self@.outputs,
    {
        self.output_history.as_slice()
    }
}

/// Anything that turns one input sample into one output sample; filters and
/// equalizers alike, so that callers can drive either.
pub trait ProcessingBlock<S> {
    fn process(&mut self, sample: S) -> S;
}

impl<S: Sample> ProcessingBlock<S> for IIRFilter<S> {
    fn process(&mut self, sample: S) -> S {
        IIRFilter::process(self, sample)
    }
}

} // verus!
