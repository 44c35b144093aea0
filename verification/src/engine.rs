//! The synthesis engine: a component list, the global sampling settings,
//! and the memoized derived result.
//!
//! The engine owns every parameter that the derived plot data depends on.
//! Each mutation either rejects an invalid value, leaving the state and
//! the cache untouched, or applies the change and invalidates the cache
//! synchronously, so that a valid cache always matches the current
//! parameters.  The engine never evaluates the signal itself: the caller
//! hands `get_plot_data` the recomputation (synthesis plus transform) and
//! the engine guarantees it runs at most once per invalidation.
//!
//! The payload type `P` is the caller's derived-result type; the engine is
//! oblivious to its contents.

use vstd::prelude::*;

use crate::cache::Cache;
use crate::component::Component;
use crate::component::ComponentWrapper;
use crate::component::Field;
use crate::component::WaveKind;
use crate::component::default_component;
use crate::component::enabled_pred;
use crate::component::enabled_seq;
use crate::component::is_positive_bits;
use crate::component::kind_label;
use crate::component::kind_name;
use crate::component::positive_bits;
use crate::component::with_enabled;
use crate::component::with_param;

verus! {

/// Why the engine rejected a mutation.
#[derive(Clone, Copy, PartialEq, Eq, Structural, Debug)]
pub enum Error {
    /// A sample rate or frequency not strictly positive, a sample count of
    /// zero, or a component index past the end of the list.
    InvalidParameter,
}

/// IEEE 754 bits of 3000.0, the default sample rate in hertz.
pub const DEFAULT_SAMPLE_RATE_BITS: u64 = 0x40A7700000000000;

/// The default number of samples per synthesis.
pub const DEFAULT_SAMPLE_COUNT: u16 = 1000;

/// The synthesis engine.  `P` is the derived plot payload produced by the
/// caller's recomputation and memoized here.
pub struct Engine<P> {
    sample_rate_bits: u64,
    n_samples: u16,
    components: Vec<ComponentWrapper>,
    cache: Cache<P>,
}

impl<P> Engine<P> {
    /// The sampling rate in hertz, as IEEE 754 bits.
    pub closed spec fn spec_sample_rate_bits(self) -> u64 {
        self.sample_rate_bits
    }

    /// The number of samples per synthesis.
    pub closed spec fn spec_sample_count(self) -> u16 {
        self.n_samples
    }

    /// The component list, in display order.
    pub closed spec fn spec_components(self) -> Seq<ComponentWrapper> {
        self.components@
    }

    /// The memoized derived result, if the cache is valid.
    pub closed spec fn spec_cached(self) -> Option<P> {
        self.cache.spec_data()
    }

    /// Whether the memoized derived result is present.
    pub open spec fn spec_is_valid(self) -> bool {
        self.spec_cached() is Some
    }

    /// The engine's invariant: the sampling rate and every component
    /// frequency are strictly positive, and at least one sample is asked
    /// for.  No invalid value can ever reach synthesis.
    pub open spec fn wf(self) -> bool {
        &&& is_positive_bits(self.spec_sample_rate_bits())
        &&& self.spec_sample_count() >= 1
        &&& forall|i: int|
            0 <= i < self.spec_components().len() ==> is_positive_bits(
                #[trigger] self.spec_components()[i].inner.frequency_bits,
            )
    }

    /// Whether the global sampling settings agree between two states.
    pub open spec fn same_settings(self, other: Self) -> bool {
        &&& other.spec_sample_rate_bits() == self.spec_sample_rate_bits()
        &&& other.spec_sample_count() == self.spec_sample_count()
    }

    /// An engine with the default settings, no components, and an empty
    /// cache.
    pub fn new() -> (r: Self)
        ensures
            r.wf(),
            r.spec_sample_rate_bits() == DEFAULT_SAMPLE_RATE_BITS,
            r.spec_sample_count() == DEFAULT_SAMPLE_COUNT,
            r.spec_components().len() == 0,
            !r.spec_is_valid(),
    {
        Engine {
            sample_rate_bits: DEFAULT_SAMPLE_RATE_BITS,
            n_samples: DEFAULT_SAMPLE_COUNT,
            components: Vec::new(),
            cache: Cache::default(),
        }
    }

    /// Appends a component of the given shape with the default parameters,
    /// named after its shape and enabled, and invalidates the cache.
    pub fn add_component(&mut self, kind: WaveKind)
        requires
            old(self).wf(),
        ensures
            final(self).wf(),
            old(self).same_settings(*final(self)),
            !final(self).spec_is_valid(),
            final(self).spec_components().len() == old(self).spec_components().len() + 1,
            final(self).spec_components().drop_last() == old(self).spec_components(),
            final(self).spec_components().last().inner == default_component(kind),
            final(self).spec_components().last().enabled,
            final(self).spec_components().last().name@ == kind_label(kind),
    {
        let name = kind_name(kind);
        let inner = Component::with_defaults(kind);
        self.components.push(ComponentWrapper { inner, name, enabled: true });
        self.cache.invalidate();
        proof {
            assert(self.components@.drop_last() =~= old(self).components@);
        }
    }

    /// Removes the component at `i` and invalidates the cache; rejects an
    /// index past the end of the list, changing nothing.
    pub fn remove_component(&mut self, i: usize) -> (r: Result<(), Error>)
        requires
            old(self).wf(),
        ensures
            final(self).wf(),
            i < old(self).spec_components().len() ==> {
                &&& r is Ok
                &&& old(self).same_settings(*final(self))
                &&& final(self).spec_components() == old(self).spec_components().remove(i as int)
                &&& !final(self).spec_is_valid()
            },
            i >= old(self).spec_components().len() ==> {
                &&& r == Err::<(), Error>(Error::InvalidParameter)
                &&& *final(self) == *old(self)
            },
    {
        if i >= self.components.len() {
            return Err(Error::InvalidParameter);
        }
        self.components.remove(i);
        self.cache.invalidate();
        Ok(())
    }

    /// Sets whether the component at `i` contributes to synthesis, and
    /// invalidates the cache; rejects an index past the end of the list,
    /// changing nothing.
    pub fn set_enabled(&mut self, i: usize, enabled: bool) -> (r: Result<(), Error>)
        requires
            old(self).wf(),
        ensures
            final(self).wf(),
            i < old(self).spec_components().len() ==> {
                &&& r is Ok
                &&& old(self).same_settings(*final(self))
                &&& final(self).spec_components() == old(self).spec_components().update(
                    i as int,
                    with_enabled(old(self).spec_components()[i as int], enabled),
                )
                &&& !final(self).spec_is_valid()
            },
            i >= old(self).spec_components().len() ==> {
                &&& r == Err::<(), Error>(Error::InvalidParameter)
                &&& *final(self) == *old(self)
            },
    {
        if i >= self.components.len() {
            return Err(Error::InvalidParameter);
        }
        self.components[i].enabled = enabled;
        self.cache.invalidate();
        Ok(())
    }

    /// Sets one parameter of the component at `i` and invalidates the
    /// cache.  Rejects, changing nothing, an index past the end of the
    /// list or a frequency that is not strictly positive.
    pub fn set_parameter(&mut self, i: usize, field: Field, bits: u64) -> (r: Result<(), Error>)
        requires
            old(self).wf(),
        ensures
            final(self).wf(),
            (i < old(self).spec_components().len() && (field is Frequency ==> is_positive_bits(
                bits,
            ))) ==> {
                &&& r is Ok
                &&& old(self).same_settings(*final(self))
                &&& final(self).spec_components() == old(self).spec_components().update(
                    i as int,
                    with_param(old(self).spec_components()[i as int], field, bits),
                )
                &&& !final(self).spec_is_valid()
            },
            (i >= old(self).spec_components().len() || (field is Frequency && !is_positive_bits(
                bits,
            ))) ==> {
                &&& r == Err::<(), Error>(Error::InvalidParameter)
                &&& *final(self) == *old(self)
            },
    {
        if i >= self.components.len() {
            return Err(Error::InvalidParameter);
        }
        match field {
            Field::Frequency => {
                if !positive_bits(bits) {
                    return Err(Error::InvalidParameter);
                }
                self.components[i].inner.frequency_bits = bits;
            },
            Field::Amplitude => {
                self.components[i].inner.amplitude_bits = bits;
            },
            Field::Phase => {
                self.components[i].inner.phase_bits = bits;
            },
        }
        self.cache.invalidate();
        Ok(())
    }

    /// Sets the sampling rate, given as IEEE 754 bits, and invalidates the
    /// cache; rejects a rate that is not strictly positive, changing
    /// nothing.
    pub fn set_sample_rate(&mut self, bits: u64) -> (r: Result<(), Error>)
        requires
            old(self).wf(),
        ensures
            final(self).wf(),
            is_positive_bits(bits) ==> {
                &&& r is Ok
                &&& final(self).spec_sample_rate_bits() == bits
                &&& final(self).spec_sample_count() == old(self).spec_sample_count()
                &&& final(self).spec_components() == old(self).spec_components()
                &&& !final(self).spec_is_valid()
            },
            !is_positive_bits(bits) ==> {
                &&& r == Err::<(), Error>(Error::InvalidParameter)
                &&& *final(self) == *old(self)
            },
    {
        if !positive_bits(bits) {
            return Err(Error::InvalidParameter);
        }
        self.sample_rate_bits = bits;
        self.cache.invalidate();
        Ok(())
    }

    /// Sets the number of samples per synthesis and invalidates the cache;
    /// rejects zero, changing nothing.
    pub fn set_sample_count(&mut self, n: u16) -> (r: Result<(), Error>)
        requires
            old(self).wf(),
        ensures
            final(self).wf(),
            n >= 1 ==> {
                &&& r is Ok
                &&& final(self).spec_sample_count() == n
                &&& final(self).spec_sample_rate_bits() == old(self).spec_sample_rate_bits()
                &&& final(self).spec_components() == old(self).spec_components()
                &&& !final(self).spec_is_valid()
            },
            n == 0 ==> {
                &&& r == Err::<(), Error>(Error::InvalidParameter)
                &&& *final(self) == *old(self)
            },
    {
        if n == 0 {
            return Err(Error::InvalidParameter);
        }
        self.n_samples = n;
        self.cache.invalidate();
        Ok(())
    }

    /// Drops every disabled entry from the component list, invalidating
    /// the cache if anything is dropped.  A list with no disabled entry is
    /// left untouched, cache included.
    pub fn purge_disabled(&mut self)
        requires
            old(self).wf(),
        ensures
            final(self).wf(),
            old(self).same_settings(*final(self)),
            final(self).spec_components() == old(self).spec_components().filter(enabled_pred()),
            final(self).spec_components() == old(self).spec_components()
                ==> *final(self) == *old(self),
            final(self).spec_components() != old(self).spec_components()
                ==> !final(self).spec_is_valid(),
    {
        let ghost orig = self.components@;
        let ghost pred = enabled_pred();
        proof {
            assert(orig.subrange(0, orig.len() as int) =~= orig);
        }
        let mut i: usize = 0;
        let mut removed = false;
        while i < self.components.len()
            invariant
                i <= self.components@.len(),
                orig == old(self).components@,
                self.sample_rate_bits == old(self).sample_rate_bits,
                self.n_samples == old(self).n_samples,
                forall|j: int| 0 <= j < i ==> self.components@[j].enabled,
                forall|j: int|
                    0 <= j < self.components@.len() ==> is_positive_bits(
                        #[trigger] self.components@[j].inner.frequency_bits,
                    ),
                orig.filter(pred) == self.components@.subrange(0, i as int)
                    + self.components@.subrange(
                    i as int,
                    self.components@.len() as int,
                ).filter(pred),
                pred == enabled_pred(),
                removed ==> !self.cache.spec_is_valid() && self.components@.len() < orig.len(),
                !removed ==> self.components == old(self).components
                    && self.cache == old(self).cache,
            decreases self.components@.len() - i,
        {
            let ghost pre = self.components@;
            let ghost n = pre.len() as int;
            if self.components[i].enabled {
                proof {
                    assert(pre.subrange(i as int, n) =~= seq![pre[i as int]] + pre.subrange(
                        i + 1,
                        n,
                    ));
                    pre.subrange(i + 1, n).lemma_filter_prepend(pre[i as int], pred);
                    assert(pre.subrange(0, i as int) + seq![pre[i as int]] =~= pre.subrange(
                        0,
                        i + 1,
                    ));
                    assert(pre.subrange(0, i as int) + (seq![pre[i as int]] + pre.subrange(
                        i + 1,
                        n,
                    ).filter(pred)) =~= pre.subrange(0, i + 1) + pre.subrange(i + 1, n).filter(
                        pred,
                    ));
                }
                i += 1;
            } else {
                self.components.remove(i);
                self.cache.invalidate();
                removed = true;
                proof {
                    let post = self.components@;
                    assert(pre.subrange(i as int, n) =~= seq![pre[i as int]] + pre.subrange(
                        i + 1,
                        n,
                    ));
                    pre.subrange(i + 1, n).lemma_filter_prepend(pre[i as int], pred);
                    assert(post.subrange(0, i as int) =~= pre.subrange(0, i as int));
                    assert(post.subrange(i as int, post.len() as int) =~= pre.subrange(i + 1, n));
                }
            }
        }
        proof {
            let fin = self.components@;
            assert(fin.subrange(0, fin.len() as int) =~= fin);
            assert(fin.subrange(fin.len() as int, fin.len() as int) =~= Seq::<
                ComponentWrapper,
            >::empty());
            reveal(Seq::filter);
            assert(orig.filter(enabled_pred()) == fin);
        }
    }

    /// What one read of the plot data does to the engine: no parameter
    /// moves, the cache ends valid, a cache that was valid keeps its
    /// value, and the returned value is the cached one.
    pub open spec fn plot_transition(pre: Self, post: Self, r: P) -> bool {
        &&& pre.same_settings(post)
        &&& post.spec_components() == pre.spec_components()
        &&& post.spec_is_valid()
        &&& pre.spec_is_valid() ==> post.spec_cached() == pre.spec_cached()
        &&& post.spec_cached() == Some(r)
    }

    /// Returns the memoized plot data, running `recompute` to produce and
    /// store it only if the cache is invalid.  The parameters are never
    /// touched, so repeated calls without an intervening mutation return
    /// the same value and only the first can compute.
    pub fn get_plot_data<F: FnOnce() -> P>(&mut self, recompute: F) -> (r: &P)
        requires
            !old(self).spec_is_valid() ==> call_requires(recompute, ()),
        ensures
            Self::plot_transition(*old(self), *final(self), *r),
            old(self).wf() ==> final(self).wf(),
            !old(self).spec_is_valid() ==> call_ensures(recompute, (), *r),
    {
        self.cache.get_or_init(recompute)
    }

    /// Reading the plot data is idempotent within one validity window:
    /// two consecutive reads with no mutation between them return the
    /// same value, and the second read finds the cache valid, so it can
    /// never recompute.
    pub proof fn lemma_read_idempotent(e0: Self, e1: Self, e2: Self, r1: P, r2: P)
        requires
            Self::plot_transition(e0, e1, r1),
            Self::plot_transition(e1, e2, r2),
        ensures
            r2 == r1,
            e2.spec_cached() == e1.spec_cached(),
            e1.spec_is_valid(),
    {
    }

    /// Whether the memoized derived result is present.
    pub fn is_valid(&self) -> (r: bool)
        ensures
            r == self.spec_is_valid(),
    {
        self.cache.is_valid()
    }

    /// The generators an evaluator must sum: the components of the
    /// enabled entries, in list order.  Disabled entries are excluded
    /// here, before summation, not zero-weighted.
    pub fn enabled_components(&self) -> (r: Vec<Component>)
        ensures
            r@ == enabled_seq(self.spec_components()),
    {
        let mut r: Vec<Component> = Vec::new();
        let mut i: usize = 0;
        proof {
            assert(self.components@.subrange(0, 0) =~= Seq::<ComponentWrapper>::empty());
        }
        while i < self.components.len()
            invariant
                i <= self.components@.len(),
                r@ == enabled_seq(self.components@.subrange(0, i as int)),
            decreases self.components@.len() - i,
        {
            proof {
                assert(self.components@.subrange(0, i + 1).drop_last() =~= self.components@.subrange(
                    0,
                    i as int,
                ));
                assert(self.components@.subrange(0, i + 1).last() == self.components@[i as int]);
            }
            if self.components[i].enabled {
                r.push(self.components[i].inner);
            }
            i += 1;
        }
        proof {
            assert(self.components@.subrange(0, self.components@.len() as int)
                =~= self.components@);
        }
        r
    }

    /// The component list, in display order, for the caller's markers
    /// and editors.
    pub fn components(&self) -> (r: &Vec<ComponentWrapper>)
        ensures
            r@ == self.spec_components(),
    {
        &self.components
    }

    /// The sampling rate in hertz, as IEEE 754 bits.
    pub fn sample_rate_bits(&self) -> (r: u64)
        ensures
            r == self.spec_sample_rate_bits(),
    {
        self.sample_rate_bits
    }

    /// The number of samples per synthesis.
    pub fn sample_count(&self) -> (r: u16)
        ensures
            r == self.spec_sample_count(),
    {
        self.n_samples
    }
}

impl<P> Default for Engine<P> {
    /// The same engine `new` builds: default settings, no components,
    /// an empty cache.
    fn default() -> (r: Self)
        ensures
            r.wf(),
            r.spec_sample_rate_bits() == DEFAULT_SAMPLE_RATE_BITS,
            r.spec_sample_count() == DEFAULT_SAMPLE_COUNT,
            r.spec_components().len() == 0,
            !r.spec_is_valid(),
    {
        Self::new()
    }
}

} // verus!
