//! Sample sources and the stateful signals built on them.
use vstd::prelude::*;

use crate::chain::FilterChain;
use crate::dsp::Filter;

verus! {

/// A periodic source: frequency in hertz, amplitude in signal units.
#[derive(Clone, Copy, Debug, PartialEq)]
pub enum Waveform<V> {
    Sine { frequency: V, amplitude: V },
    Square { frequency: V, amplitude: V },
    Triangle { frequency: V, amplitude: V },
    Dc(V),
}

/// An aperiodic source. `Random` draws uniformly from `[min, max)` and
/// needs `min <= max`.
#[derive(Clone, Copy, Debug, PartialEq)]
pub enum Response<V> {
    Ramp { slope: V },
    Random { min: V, max: V },
    UnitStep,
}

/// A recorded run of samples.
pub struct DataSignal<V> {
    samples: Vec<V>,
}

impl<V> DataSignal<V> {
    /// The recorded samples, in order.
    pub closed spec fn contents(self) -> Seq<V> {
        self.samples@
    }

    pub fn new(samples: Vec<V>) -> (r: Self)
        ensures
            r.contents() == samples@,
    {
        DataSignal { samples }
    }

    pub fn samples(&self) -> (r: &[V])
        ensures
            r@ == self.contents(),
    {
        self.samples.as_slice()
    }

    pub fn len(&self) -> (r: usize)
        ensures
            r == self.contents().len(),
    {
        self.samples.len()
    }
}

/// A waveform run through an optional filter with one sample of memory.
pub struct PeriodicSignal<V> {
    waveform: Waveform<V>,
    chain: FilterChain<Filter<V>, V>,
}

impl<V: Copy> PeriodicSignal<V> {
    /// The waveform sampled.
    pub closed spec fn source(self) -> Waveform<V> {
        self.waveform
    }

    /// The attached filter, if any, and the memory cells.
    pub closed spec fn memory(self) -> FilterChain<Filter<V>, V> {
        self.chain
    }

    /// A signal over `waveform` with no filter and both memory cells at `zero`.
    pub fn new(waveform: Waveform<V>, zero: V) -> (r: Self)
        ensures
            r.source() == waveform,
            r.memory() == FilterChain::<Filter<V>, V>::empty(zero),
    {
        PeriodicSignal { waveform, chain: FilterChain::new(zero) }
    }

    pub fn waveform(&self) -> (r: &Waveform<V>)
        ensures
            *r == self.source(),
    {
        &self.waveform
    }

    /// Attaches `filter` in place of any earlier one; the memory is kept.
    pub fn add_filter(&mut self, filter: Filter<V>)
        ensures
            final(self).source() == old(self).source(),
            final(self).memory() == old(self).memory().with_filter(filter),
    {
        self.chain.add_filter(filter);
    }

    /// One step on `input`, the waveform's value at the time sampled:
    /// `apply` computes the filter's output (see `FilterChain::sample`).
    pub fn filter_sample<A: Fn(Filter<V>, V, V, V) -> V>(&mut self, input: V, apply: &A) -> (r: V)
        requires
            forall|f: Filter<V>, x: V, po: V, pi: V| apply.requires((f, x, po, pi)),
        ensures
            final(self).source() == old(self).source(),
            old(self).memory().produces(*apply, input, r),
            final(self).memory() == old(self).memory().next(input, r),
    {
        self.chain.sample(input, apply)
    }

    /// Steps through `inputs`, the waveform's values at successive times.
    pub fn filter_run<A: Fn(Filter<V>, V, V, V) -> V>(&mut self, inputs: &Vec<V>, apply: &A) -> (r: Vec<V>)
        requires
            forall|f: Filter<V>, x: V, po: V, pi: V| apply.requires((f, x, po, pi)),
        ensures
            final(self).source() == old(self).source(),
            r.len() == inputs.len(),
            forall|i: int|
                0 <= i < inputs.len() ==> #[trigger] old(self).memory().memory_at(inputs@, r@, i).produces(
                    *apply,
                    inputs@[i],
                    r@[i],
                ),
            final(self).memory() == old(self).memory().memory_at(inputs@, r@, inputs.len() as int),
    {
        self.chain.run(inputs, apply)
    }

    /// The waveform's frequency; `zero` for a constant.
    pub fn frequency(&self, zero: V) -> (r: V)
        ensures
            r == match self.source() {
                Waveform::Sine { frequency, .. } => frequency,
                Waveform::Square { frequency, .. } => frequency,
                Waveform::Triangle { frequency, .. } => frequency,
                Waveform::Dc(_) => zero,
            },
    {
        match self.waveform {
            Waveform::Sine { frequency, .. } => frequency,
            Waveform::Square { frequency, .. } => frequency,
            Waveform::Triangle { frequency, .. } => frequency,
            Waveform::Dc(_) => zero,
        }
    }

    /// The waveform's amplitude; a constant's value.
    pub fn amplitude(&self) -> (r: V)
        ensures
            r == match self.source() {
                Waveform::Sine { amplitude, .. } => amplitude,
                Waveform::Square { amplitude, .. } => amplitude,
                Waveform::Triangle { amplitude, .. } => amplitude,
                Waveform::Dc(amplitude) => amplitude,
            },
    {
        match self.waveform {
            Waveform::Sine { amplitude, .. } => amplitude,
            Waveform::Square { amplitude, .. } => amplitude,
            Waveform::Triangle { amplitude, .. } => amplitude,
            Waveform::Dc(amplitude) => amplitude,
        }
    }
}

/// A response run through an optional filter with one sample of memory.
pub struct ContinuousSignal<V> {
    response: Response<V>,
    chain: FilterChain<Filter<V>, V>,
}

impl<V: Copy> ContinuousSignal<V> {
    /// The response sampled.
    pub closed spec fn source(self) -> Response<V> {
        self.response
    }

    /// The attached filter, if any, and the memory cells.
    pub closed spec fn memory(self) -> FilterChain<Filter<V>, V> {
        self.chain
    }

    /// A signal over `response` with no filter and both memory cells at `zero`.
    pub fn new(response: Response<V>, zero: V) -> (r: Self)
        ensures
            r.source() == response,
            r.memory() == FilterChain::<Filter<V>, V>::empty(zero),
    {
        ContinuousSignal { response, chain: FilterChain::new(zero) }
    }

    pub fn response(&self) -> (r: &Response<V>)
        ensures
            *r == self.source(),
    {
        &self.response
    }

    /// Attaches `filter` in place of any earlier one; the memory is kept.
    pub fn add_filter(&mut self, filter: Filter<V>)
        ensures
            final(self).source() == old(self).source(),
            final(self).memory() == old(self).memory().with_filter(filter),
    {
        self.chain.add_filter(filter);
    }

    /// One step on `input`, the response's value at the time sampled:
    /// `apply` computes the filter's output (see `FilterChain::sample`).
    pub fn filter_sample<A: Fn(Filter<V>, V, V, V) -> V>(&mut self, input: V, apply: &A) -> (r: V)
        requires
            forall|f: Filter<V>, x: V, po: V, pi: V| apply.requires((f, x, po, pi)),
        ensures
            final(self).source() == old(self).source(),
            old(self).memory().produces(*apply, input, r),
            final(self).memory() == old(self).memory().next(input, r),
    {
        self.chain.sample(input, apply)
    }

    /// Steps through `inputs`, the response's values at successive times.
    pub fn filter_run<A: Fn(Filter<V>, V, V, V) -> V>(&mut self, inputs: &Vec<V>, apply: &A) -> (r: Vec<V>)
        requires
            forall|f: Filter<V>, x: V, po: V, pi: V| apply.requires((f, x, po, pi)),
        ensures
            final(self).source() == old(self).source(),
            r.len() == inputs.len(),
            forall|i: int|
                0 <= i < inputs.len() ==> #[trigger] old(self).memory().memory_at(inputs@, r@, i).produces(
                    *apply,
                    inputs@[i],
                    r@[i],
                ),
            final(self).memory() == old(self).memory().memory_at(inputs@, r@, inputs.len() as int),
    {
        self.chain.run(inputs, apply)
    }
}

} // verus!
