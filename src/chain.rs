//! The stateful part of a filtered signal.
use vstd::prelude::*;

verus! {

/// An optional filter together with one sample of history: the raw input
/// and the filtered output of the last filtered sample.
pub struct FilterChain<F, V> {
    pub filter: Option<F>,
    pub previous_input: V,
    pub previous_output: V,
}

impl<F: Copy, V: Copy> FilterChain<F, V> {
    /// A chain with no filter and both memory cells at `zero`.
    pub open spec fn empty(zero: V) -> Self {
        FilterChain { filter: None, previous_input: zero, previous_output: zero }
    }

    /// The chain with `filter` attached in place of any earlier one.
    pub open spec fn with_filter(self, filter: F) -> Self {
        FilterChain { filter: Some(filter), ..self }
    }

    /// The chain after a step that read `input` and returned `output`:
    /// unchanged without a filter, else both memory cells advance.
    pub open spec fn next(self, input: V, output: V) -> Self {
        match self.filter {
            None => self,
            Some(_) => FilterChain {
                filter: self.filter,
                previous_input: input,
                previous_output: output,
            },
        }
    }

    /// Whether `output` is what a step of this chain returns for `input`:
    /// the input itself without a filter, else what `apply` gives for the
    /// filter, the input and the memory cells as they were before the step.
    pub open spec fn produces<A: Fn(F, V, V, V) -> V>(self, apply: A, input: V, output: V) -> bool {
        match self.filter {
            None => output == input,
            Some(f) => apply.ensures((f, input, self.previous_output, self.previous_input), output),
        }
    }

    /// The chain after the first `i` of a run of steps that read `inputs`
    /// and returned `outputs`: as it was without a filter or before any
    /// step, else holding the last of those inputs and outputs.
    pub open spec fn memory_at(self, inputs: Seq<V>, outputs: Seq<V>, i: int) -> Self {
        if i == 0 || self.filter is None {
            self
        } else {
            FilterChain {
                filter: self.filter,
                previous_input: inputs[i - 1],
                previous_output: outputs[i - 1],
            }
        }
    }

    /// A chain with no filter and both memory cells at `zero`.
    pub fn new(zero: V) -> (r: Self)
        ensures
            r == Self::empty(zero),
    {
        FilterChain { filter: None, previous_input: zero, previous_output: zero }
    }

    /// Attaches `filter`, replacing any earlier one; the memory cells are kept.
    pub fn add_filter(&mut self, filter: F)
        ensures
            *final(self) == old(self).with_filter(filter),
    {
        self.filter = Some(filter);
    }

    /// One step on the raw sample `input`. Without a filter the input is
    /// returned and the memory is left alone. With one, `apply` receives the
    /// filter, the input and the memory as it was (previous output, then
    /// previous input); its result is returned and becomes the previous
    /// output, and `input` the previous input.
    pub fn sample<A: Fn(F, V, V, V) -> V>(&mut self, input: V, apply: &A) -> (r: V)
        requires
            forall|f: F, x: V, po: V, pi: V| apply.requires((f, x, po, pi)),
        ensures
            old(self).produces(*apply, input, r),
            *final(self) == old(self).next(input, r),
    {
        match self.filter {
            Some(filter) => {
                let output = apply(filter, input, self.previous_output, self.previous_input);
                self.previous_output = output;
                self.previous_input = input;
                output
            },
            None => input,
        }
    }

    /// Steps through `inputs` in order and returns the outputs: the `i`th
    /// step sees the memory that the steps before it left.
    pub fn run<A: Fn(F, V, V, V) -> V>(&mut self, inputs: &Vec<V>, apply: &A) -> (r: Vec<V>)
        requires
            forall|f: F, x: V, po: V, pi: V| apply.requires((f, x, po, pi)),
        ensures
            r.len() == inputs.len(),
            forall|i: int|
                0 <= i < inputs.len() ==> #[trigger] old(self).memory_at(inputs@, r@, i).produces(
                    *apply,
                    inputs@[i],
                    r@[i],
                ),
            *final(self) == old(self).memory_at(inputs@, r@, inputs.len() as int),
    {
        let ghost start = *self;
        let mut outputs: Vec<V> = Vec::new();
        let mut i: usize = 0;
        while i < inputs.len()
            invariant
                i <= inputs.len(),
                outputs.len() == i,
                forall|f: F, x: V, po: V, pi: V| apply.requires((f, x, po, pi)),
                forall|j: int|
                    0 <= j < i ==> #[trigger] start.memory_at(inputs@, outputs@, j).produces(
                        *apply,
                        inputs@[j],
                        outputs@[j],
                    ),
                *self == start.memory_at(inputs@, outputs@, i as int),
            decreases inputs.len() - i,
        {
            let ghost before = outputs@;
            let output = self.sample(inputs[i], apply);
            outputs.push(output);
            proof {
                assert forall|j: int| 0 <= j < i + 1 implies #[trigger] start.memory_at(
                    inputs@,
                    outputs@,
                    j,
                ).produces(*apply, inputs@[j], outputs@[j]) by {
                    if j < i {
                        assert(start.memory_at(inputs@, outputs@, j) == start.memory_at(
                            inputs@,
                            before,
                            j,
                        ));
                    }
                }
            }
            i = i + 1;
        }
        outputs
    }

    /// Stepping once more from the memory after the first `i` steps of a
    /// run gives the memory after `i + 1` steps: a run is the steps of
    /// `sample` one after another.
    pub proof fn lemma_run_is_stepwise(self, inputs: Seq<V>, outputs: Seq<V>, i: int)
        requires
            0 <= i < inputs.len(),
            inputs.len() == outputs.len(),
        ensures
            self.memory_at(inputs, outputs, i).next(inputs[i], outputs[i]) == self.memory_at(
                inputs,
                outputs,
                i + 1,
            ),
    {
    }

    /// Without a filter, a run of steps returns its inputs unchanged and
    /// leaves the memory as it was.
    pub proof fn lemma_unfiltered_passes_through<A: Fn(F, V, V, V) -> V>(
        self,
        apply: A,
        inputs: Seq<V>,
        outputs: Seq<V>,
    )
        requires
            self.filter is None,
            inputs.len() == outputs.len(),
            forall|i: int|
                0 <= i < inputs.len() ==> #[trigger] self.memory_at(inputs, outputs, i).produces(
                    apply,
                    inputs[i],
                    outputs[i],
                ),
        ensures
            outputs == inputs,
            self.memory_at(inputs, outputs, inputs.len() as int) == self,
    {
        assert forall|i: int| 0 <= i < inputs.len() implies outputs[i] == inputs[i] by {
            assert(self.memory_at(inputs, outputs, i).produces(apply, inputs[i], outputs[i]));
        }
        assert(outputs =~= inputs);
    }

    /// A filter attached after any number of unfiltered steps is used on the
    /// very next step, and that step sees the memory cells as they stood
    /// before the unfiltered steps.
    pub proof fn lemma_attach_carries_over<A: Fn(F, V, V, V) -> V>(
        self,
        inputs: Seq<V>,
        outputs: Seq<V>,
        filter: F,
        apply: A,
        input: V,
        output: V,
    )
        requires
            self.filter is None,
        ensures
            ({
                let attached = self.memory_at(inputs, outputs, inputs.len() as int).with_filter(
                    filter,
                );
                &&& attached.produces(apply, input, output) <==> apply.ensures(
                    (filter, input, self.previous_output, self.previous_input),
                    output,
                )
                &&& attached.next(input, output) == (FilterChain {
                    filter: Some(filter),
                    previous_input: input,
                    previous_output: output,
                })
            }),
    {
    }

    /// On a new chain, a filter attached after any number of unfiltered
    /// steps sees `zero` in both memory cells on its first step.
    pub proof fn lemma_fresh_attach_starts_at_zero<A: Fn(F, V, V, V) -> V>(
        zero: V,
        inputs: Seq<V>,
        outputs: Seq<V>,
        filter: F,
        apply: A,
        input: V,
        output: V,
    )
        ensures
            Self::empty(zero).memory_at(inputs, outputs, inputs.len() as int).with_filter(
                filter,
            ).produces(apply, input, output) <==> apply.ensures((filter, input, zero, zero), output),
    {
        Self::empty(zero).lemma_attach_carries_over(inputs, outputs, filter, apply, input, output);
    }
}

} // verus!
