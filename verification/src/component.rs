//! Periodic components and component lists.
//!
//! A component is one parametric periodic generator: a shape (sine, square
//! or sawtooth) together with a frequency in hertz, an amplitude and a
//! fractional phase offset.  The three parameters are `f64` values; the
//! engine never evaluates them numerically, so it carries them as their
//! IEEE 754 bit patterns, on which validity (strict positivity of the
//! frequency) is an exact integer-range test.
//!
//! A component list is an ordered sequence of entries, each pairing a
//! component with a display name and an enabled flag.  Synthesis sums the
//! enabled components only; `enabled_seq` is the sequence of contributions
//! that an evaluator must sum, in list order.

use vstd::prelude::*;

verus! {

broadcast use vstd::string::group_string_axioms;

/// The shape of one periodic component over a single period.
#[derive(Clone, Copy, PartialEq, Eq, Structural, Debug)]
pub enum WaveKind {
    /// `amplitude * sin(2*pi * (frequency*t + phase))`.
    Sine,
    /// `amplitude * sign(sin(2*pi * (frequency*t + phase)))`.
    Square,
    /// `amplitude * (2 * frac(frequency*t + phase) - 1)`.
    Sawtooth,
}

/// One parametric periodic generator.  The `f64` parameters are carried as
/// IEEE 754 bit patterns (`f64::to_bits`); evaluation is the caller's.
#[derive(Clone, Copy, PartialEq, Eq, Structural, Debug)]
pub struct Component {
    /// The waveform shape.
    pub kind: WaveKind,
    /// Bits of the frequency in hertz; always a positive value.
    pub frequency_bits: u64,
    /// Bits of the amplitude.
    pub amplitude_bits: u64,
    /// Bits of the fractional phase offset into one period.
    pub phase_bits: u64,
}

/// One entry of the component list: a component, its display name, and
/// whether it currently contributes to synthesis.
#[derive(Debug)]
pub struct ComponentWrapper {
    /// The generator itself.
    pub inner: Component,
    /// Display name; used only for labelling, never for identity.
    pub name: String,
    /// Disabled entries are excluded from synthesis entirely.
    pub enabled: bool,
}

/// IEEE 754 bits of 100.0, the default component frequency in hertz.
pub const DEFAULT_FREQUENCY_BITS: u64 = 0x4059000000000000;

/// IEEE 754 bits of 1.0, the default component amplitude.
pub const DEFAULT_AMPLITUDE_BITS: u64 = 0x3FF0000000000000;

/// IEEE 754 bits of 0.0, the default component phase.
pub const DEFAULT_PHASE_BITS: u64 = 0;

/// Whether `bits` is the bit pattern of an `f64` strictly greater than
/// zero.  In IEEE 754, the doubles with `0.0 < x` (positive infinity
/// included) are exactly those whose pattern lies between 1 and the
/// pattern of positive infinity, `0x7FF0_0000_0000_0000`; zero is pattern
/// 0, negative values have the sign bit set, and NaN patterns lie above
/// the infinities.
pub open spec fn is_positive_bits(bits: u64) -> bool {
    1 <= bits <= 0x7FF0000000000000u64
}

/// Exact test for `is_positive_bits`.
pub fn positive_bits(bits: u64) -> (r: bool)
    ensures
        r == is_positive_bits(bits),
{
    1 <= bits && bits <= 0x7FF0000000000000u64
}

/// The label of a shape, as a character sequence.
pub open spec fn kind_label(kind: WaveKind) -> Seq<char> {
    match kind {
        WaveKind::Sine => "Sine"@,
        WaveKind::Square => "Square"@,
        WaveKind::Sawtooth => "Sawtooth"@,
    }
}

/// The display name of a shape.
pub fn kind_name(kind: WaveKind) -> (r: String)
    ensures
        r@ == kind_label(kind),
{
    match kind {
        WaveKind::Sine => "Sine".to_string(),
        WaveKind::Square => "Square".to_string(),
        WaveKind::Sawtooth => "Sawtooth".to_string(),
    }
}

impl Component {
    /// A component of the given shape with the default parameters.
    pub fn with_defaults(kind: WaveKind) -> (r: Self)
        ensures
            r == default_component(kind),
    {
        Component {
            kind,
            frequency_bits: DEFAULT_FREQUENCY_BITS,
            amplitude_bits: DEFAULT_AMPLITUDE_BITS,
            phase_bits: DEFAULT_PHASE_BITS,
        }
    }

    /// The nominal frequency bits, for display markers on the spectrum.
    pub fn frequency(&self) -> (r: u64)
        ensures
            r == self.frequency_bits,
    {
        self.frequency_bits
    }
}

/// An editable parameter of a component.
#[derive(Clone, Copy, PartialEq, Eq, Structural, Debug)]
pub enum Field {
    /// The frequency in hertz; must stay strictly positive.
    Frequency,
    /// The amplitude.
    Amplitude,
    /// The fractional phase offset.
    Phase,
}

/// `c` with the chosen parameter replaced by `bits`.
pub open spec fn with_field(c: Component, field: Field, bits: u64) -> Component {
    match field {
        Field::Frequency => Component { kind: c.kind, frequency_bits: bits, amplitude_bits: c.amplitude_bits, phase_bits: c.phase_bits },
        Field::Amplitude => Component { kind: c.kind, frequency_bits: c.frequency_bits, amplitude_bits: bits, phase_bits: c.phase_bits },
        Field::Phase => Component { kind: c.kind, frequency_bits: c.frequency_bits, amplitude_bits: c.amplitude_bits, phase_bits: bits },
    }
}

/// The component of the given shape with the default parameters.
pub open spec fn default_component(kind: WaveKind) -> Component {
    Component {
        kind,
        frequency_bits: DEFAULT_FREQUENCY_BITS,
        amplitude_bits: DEFAULT_AMPLITUDE_BITS,
        phase_bits: DEFAULT_PHASE_BITS,
    }
}

/// `w` with its enabled flag replaced.
pub open spec fn with_enabled(w: ComponentWrapper, enabled: bool) -> ComponentWrapper {
    ComponentWrapper { inner: w.inner, name: w.name, enabled }
}

/// `w` with the chosen parameter of its component replaced by `bits`.
pub open spec fn with_param(w: ComponentWrapper, field: Field, bits: u64) -> ComponentWrapper {
    ComponentWrapper { inner: with_field(w.inner, field, bits), name: w.name, enabled: w.enabled }
}

/// The predicate that keeps the enabled entries of a component list.
pub open spec fn enabled_pred() -> spec_fn(ComponentWrapper) -> bool {
    |w: ComponentWrapper| w.enabled
}

/// The sequence of generators that contribute to synthesis: the `inner`
/// components of the enabled entries, in list order.
pub open spec fn enabled_seq(s: Seq<ComponentWrapper>) -> Seq<Component>
    decreases s.len(),
{
    if s.len() == 0 {
        Seq::empty()
    } else if s.last().enabled {
        enabled_seq(s.drop_last()).push(s.last().inner)
    } else {
        enabled_seq(s.drop_last())
    }
}

/// Disabling an entry is the same as synthesizing with it entirely
/// absent: replacing the entry at `i` by any disabled one leaves exactly
/// the contributions of the list without that entry, in the same order.
/// The two evaluations therefore consume identical contribution
/// sequences and produce identical traces.
pub proof fn lemma_disable_is_absence(s: Seq<ComponentWrapper>, i: int, d: ComponentWrapper)
    requires
        0 <= i < s.len(),
        !d.enabled,
    ensures
        enabled_seq(s.update(i, d)) == enabled_seq(s.remove(i)),
    decreases s.len(),
{
    let su = s.update(i, d);
    let sr = s.remove(i);
    if i == s.len() - 1 {
        assert(su.drop_last() =~= s.drop_last());
        assert(sr =~= s.drop_last());
        assert(su.last() == d);
    } else {
        lemma_disable_is_absence(s.drop_last(), i, d);
        assert(su.drop_last() =~= s.drop_last().update(i, d));
        assert(sr.drop_last() =~= s.drop_last().remove(i));
        assert(su.last() == s.last());
        assert(sr.last() == s.last());
    }
}

/// Removing the entry at `i` removes exactly that entry's contribution
/// from the multiset of enabled contributions — nothing, if the entry is
/// disabled.
pub proof fn lemma_enabled_seq_remove(s: Seq<ComponentWrapper>, i: int)
    requires
        0 <= i < s.len(),
    ensures
        enabled_seq(s).to_multiset() == if s[i].enabled {
            enabled_seq(s.remove(i)).to_multiset().insert(s[i].inner)
        } else {
            enabled_seq(s.remove(i)).to_multiset()
        },
    decreases s.len(),
{
    broadcast use vstd::seq_lib::group_to_multiset_ensures;

    let sr = s.remove(i);
    if i == s.len() - 1 {
        assert(sr =~= s.drop_last());
    } else {
        lemma_enabled_seq_remove(s.drop_last(), i);
        assert(sr.drop_last() =~= s.drop_last().remove(i));
        assert(sr.last() == s.last());
        let base = enabled_seq(s.drop_last().remove(i)).to_multiset();
        if s[i].enabled && s.last().enabled {
            assert(base.insert(s[i].inner).insert(s.last().inner) =~= base.insert(
                s.last().inner,
            ).insert(s[i].inner));
        }
    }
}

/// Dropping every disabled entry — what the end-of-frame sweep does —
/// leaves the sequence of enabled contributions exactly as it was, so
/// the purge can never change the synthesized trace.
pub proof fn lemma_purge_preserves_contributions(s: Seq<ComponentWrapper>)
    ensures
        enabled_seq(s.filter(enabled_pred())) == enabled_seq(s),
    decreases s.len(),
{
    reveal(Seq::filter);
    if s.len() > 0 {
        lemma_purge_preserves_contributions(s.drop_last());
        if s.last().enabled {
            let f = s.drop_last().filter(enabled_pred()).push(s.last());
            assert(f.drop_last() =~= s.drop_last().filter(enabled_pred()));
            assert(f.last() == s.last());
        }
    }
}

/// Summation over the enabled components is commutative: permuting the
/// component list permutes the enabled contributions and nothing else, so
/// the multiset of values being summed — and with it the exact real sum
/// at every sample instant — is unchanged.  Only the floating-point
/// rounding of an evaluator that adds in sequence order can differ.
pub proof fn lemma_order_independent(s1: Seq<ComponentWrapper>, s2: Seq<ComponentWrapper>)
    requires
        s1.to_multiset() == s2.to_multiset(),
    ensures
        enabled_seq(s1).to_multiset() == enabled_seq(s2).to_multiset(),
    decreases s1.len(),
{
    broadcast use vstd::seq_lib::group_to_multiset_ensures;

    if s1.len() == 0 {
        assert(s2.to_multiset().len() == 0);
    } else {
        let last = s1.last();
        let i1 = s1.len() - 1;
        assert(s1[i1] == last);
        assert(s1.contains(last));
        assert(s2.to_multiset().count(last) > 0);
        assert(s2.contains(last));
        let j = choose|j: int| 0 <= j < s2.len() && s2[j] == last;
        assert(s1.drop_last() =~= s1.remove(i1));
        assert(s1.remove(i1).to_multiset() == s1.to_multiset().remove(last));
        assert(s2.remove(j).to_multiset() == s2.to_multiset().remove(last));
        lemma_order_independent(s1.drop_last(), s2.remove(j));
        lemma_enabled_seq_remove(s1, i1);
        lemma_enabled_seq_remove(s2, j);
    }
}

} // verus!
