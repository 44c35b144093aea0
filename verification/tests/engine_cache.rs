//! Behavioral tests for the cache and the engine: memoization,
//! invalidation on every mutation, parameter validation, and the
//! component-list equivalences.

use std::cell::Cell;

use waves::cache::Cache;
use waves::component::Component;
use waves::component::Field;
use waves::component::WaveKind;
use waves::component::DEFAULT_AMPLITUDE_BITS;
use waves::component::DEFAULT_FREQUENCY_BITS;
use waves::component::DEFAULT_PHASE_BITS;
use waves::engine::Engine;
use waves::engine::Error;
use waves::engine::DEFAULT_SAMPLE_COUNT;
use waves::engine::DEFAULT_SAMPLE_RATE_BITS;

#[test]
fn default_bit_patterns_match_ieee754() {
    assert_eq!(DEFAULT_FREQUENCY_BITS, 100.0f64.to_bits());
    assert_eq!(DEFAULT_AMPLITUDE_BITS, 1.0f64.to_bits());
    assert_eq!(DEFAULT_PHASE_BITS, 0.0f64.to_bits());
    assert_eq!(DEFAULT_SAMPLE_RATE_BITS, 3000.0f64.to_bits());
}

#[test]
fn positive_bits_agrees_with_f64_comparison() {
    let positives = [f64::MIN_POSITIVE, 1e-300, 0.5, 1.0, 100.0, 3000.0, f64::MAX, f64::INFINITY];
    for v in positives {
        assert!(waves::component::positive_bits(v.to_bits()), "{v} should count as positive");
        assert!(v > 0.0);
    }
    let non_positives = [0.0, -0.0, -1e-300, -1.0, -100.0, f64::NEG_INFINITY, f64::NAN];
    for v in non_positives {
        assert!(!waves::component::positive_bits(v.to_bits()), "{v} should not count as positive");
        assert!(!(v > 0.0));
    }
}

#[test]
fn cache_new_starts_valid() {
    let mut cache: Cache<u32> = Cache::new(5);
    assert!(cache.is_valid());
    let v = *cache.get_or_init(|| panic!("a valid cache must not recompute"));
    assert_eq!(v, 5);
}

#[test]
fn cache_default_starts_invalid() {
    let cache: Cache<u32> = Cache::default();
    assert!(!cache.is_valid());
}

#[test]
fn cache_computes_at_most_once_per_validity_window() {
    let calls = Cell::new(0u32);
    let mut cache: Cache<u32> = Cache::default();
    let a = *cache.get_or_init(|| {
        calls.set(calls.get() + 1);
        7
    });
    let b = *cache.get_or_init(|| {
        calls.set(calls.get() + 1);
        8
    });
    assert_eq!(a, 7);
    assert_eq!(b, 7);
    assert_eq!(calls.get(), 1);
    assert!(cache.is_valid());

    cache.invalidate();
    assert!(!cache.is_valid());
    cache.invalidate();
    assert!(!cache.is_valid());

    let c = *cache.get_or_init(|| {
        calls.set(calls.get() + 1);
        9
    });
    assert_eq!(c, 9);
    assert_eq!(calls.get(), 2);
}

#[test]
fn engine_defaults() {
    let engine: Engine<u32> = Engine::new();
    assert_eq!(engine.sample_rate_bits(), 3000.0f64.to_bits());
    assert_eq!(engine.sample_count(), DEFAULT_SAMPLE_COUNT);
    assert!(engine.components().is_empty());
    assert!(!engine.is_valid());
}

#[test]
fn add_component_uses_defaults_and_shape_name() {
    let mut engine: Engine<u32> = Engine::new();
    engine.add_component(WaveKind::Sine);
    engine.add_component(WaveKind::Square);
    engine.add_component(WaveKind::Sawtooth);
    let components = engine.components();
    assert_eq!(components.len(), 3);
    assert_eq!(components[0].name, "Sine");
    assert_eq!(components[1].name, "Square");
    assert_eq!(components[2].name, "Sawtooth");
    for w in components.iter() {
        assert!(w.enabled);
        assert_eq!(w.inner.frequency_bits, 100.0f64.to_bits());
        assert_eq!(w.inner.amplitude_bits, 1.0f64.to_bits());
        assert_eq!(w.inner.phase_bits, 0.0f64.to_bits());
    }
    assert_eq!(components[0].inner.kind, WaveKind::Sine);
    assert_eq!(components[1].inner.kind, WaveKind::Square);
    assert_eq!(components[2].inner.kind, WaveKind::Sawtooth);
}

fn primed(engine: &mut Engine<u32>) -> u32 {
    *engine.get_plot_data(|| 1)
}

#[test]
fn every_mutation_invalidates_the_cache() {
    let mut engine: Engine<u32> = Engine::new();

    primed(&mut engine);
    assert!(engine.is_valid());
    engine.add_component(WaveKind::Sine);
    assert!(!engine.is_valid());

    primed(&mut engine);
    engine.set_parameter(0, Field::Frequency, 250.0f64.to_bits()).unwrap();
    assert!(!engine.is_valid());

    primed(&mut engine);
    engine.set_parameter(0, Field::Amplitude, 0.5f64.to_bits()).unwrap();
    assert!(!engine.is_valid());

    primed(&mut engine);
    engine.set_parameter(0, Field::Phase, 0.25f64.to_bits()).unwrap();
    assert!(!engine.is_valid());

    primed(&mut engine);
    engine.set_sample_rate(8000.0f64.to_bits()).unwrap();
    assert!(!engine.is_valid());

    primed(&mut engine);
    engine.set_sample_count(256).unwrap();
    assert!(!engine.is_valid());

    primed(&mut engine);
    engine.set_enabled(0, false).unwrap();
    assert!(!engine.is_valid());

    primed(&mut engine);
    engine.purge_disabled();
    assert!(!engine.is_valid());

    primed(&mut engine);
    engine.add_component(WaveKind::Square);
    assert!(!engine.is_valid());

    primed(&mut engine);
    engine.remove_component(0).unwrap();
    assert!(!engine.is_valid());
}

#[test]
fn reads_are_idempotent_and_compute_once() {
    let calls = Cell::new(0u32);
    let mut engine: Engine<u32> = Engine::new();
    engine.add_component(WaveKind::Sine);
    assert!(!engine.is_valid());
    let a = *engine.get_plot_data(|| {
        calls.set(calls.get() + 1);
        42
    });
    assert!(engine.is_valid());
    let b = *engine.get_plot_data(|| {
        calls.set(calls.get() + 1);
        43
    });
    assert_eq!(a, 42);
    assert_eq!(b, 42);
    assert_eq!(calls.get(), 1);
    assert!(engine.is_valid());
}

#[test]
fn purge_without_disabled_entries_keeps_the_cache() {
    let mut engine: Engine<u32> = Engine::new();
    engine.add_component(WaveKind::Sine);
    primed(&mut engine);
    assert!(engine.is_valid());
    engine.purge_disabled();
    assert!(engine.is_valid());
    assert_eq!(engine.components().len(), 1);
}

#[test]
fn purge_drops_disabled_entries_in_order() {
    let mut engine: Engine<u32> = Engine::new();
    engine.add_component(WaveKind::Sine);
    engine.add_component(WaveKind::Square);
    engine.add_component(WaveKind::Sawtooth);
    engine.set_enabled(1, false).unwrap();
    engine.purge_disabled();
    let components = engine.components();
    assert_eq!(components.len(), 2);
    assert_eq!(components[0].inner.kind, WaveKind::Sine);
    assert_eq!(components[1].inner.kind, WaveKind::Sawtooth);
    assert!(!engine.is_valid());
}

#[test]
fn engine_default_equals_new() {
    let engine: Engine<u32> = Engine::default();
    assert_eq!(engine.sample_rate_bits(), 3000.0f64.to_bits());
    assert_eq!(engine.sample_count(), 1000);
    assert!(engine.components().is_empty());
    assert!(!engine.is_valid());
}

#[test]
fn purge_never_changes_the_contributions() {
    let mut engine: Engine<u32> = Engine::new();
    engine.add_component(WaveKind::Sine);
    engine.add_component(WaveKind::Square);
    engine.add_component(WaveKind::Sawtooth);
    engine.set_enabled(0, false).unwrap();
    engine.set_parameter(2, Field::Frequency, 12.5f64.to_bits()).unwrap();
    let before = engine.enabled_components();
    engine.purge_disabled();
    let after = engine.enabled_components();
    assert_eq!(before, after);
}

#[test]
fn rejected_mutations_leave_state_and_cache_intact() {
    let mut engine: Engine<u32> = Engine::new();
    engine.add_component(WaveKind::Sine);
    primed(&mut engine);

    assert_eq!(engine.set_sample_rate(0.0f64.to_bits()), Err(Error::InvalidParameter));
    assert_eq!(engine.set_sample_rate((-10.0f64).to_bits()), Err(Error::InvalidParameter));
    assert_eq!(engine.set_sample_rate(f64::NAN.to_bits()), Err(Error::InvalidParameter));
    assert_eq!(engine.set_sample_count(0), Err(Error::InvalidParameter));
    assert_eq!(
        engine.set_parameter(0, Field::Frequency, 0.0f64.to_bits()),
        Err(Error::InvalidParameter)
    );
    assert_eq!(
        engine.set_parameter(0, Field::Frequency, (-5.0f64).to_bits()),
        Err(Error::InvalidParameter)
    );
    assert_eq!(
        engine.set_parameter(1, Field::Amplitude, 1.0f64.to_bits()),
        Err(Error::InvalidParameter)
    );
    assert_eq!(engine.set_enabled(1, false), Err(Error::InvalidParameter));
    assert_eq!(engine.remove_component(1), Err(Error::InvalidParameter));

    assert!(engine.is_valid());
    assert_eq!(engine.sample_rate_bits(), 3000.0f64.to_bits());
    assert_eq!(engine.sample_count(), 1000);
    assert_eq!(engine.components().len(), 1);
    assert_eq!(engine.components()[0].inner.frequency_bits, 100.0f64.to_bits());
}

#[test]
fn disabling_equals_absence() {
    let mut with_disabled: Engine<u32> = Engine::new();
    with_disabled.add_component(WaveKind::Sine);
    with_disabled.add_component(WaveKind::Square);
    with_disabled.set_parameter(1, Field::Frequency, 440.0f64.to_bits()).unwrap();
    with_disabled.set_enabled(0, false).unwrap();

    let mut without: Engine<u32> = Engine::new();
    without.add_component(WaveKind::Square);
    without.set_parameter(0, Field::Frequency, 440.0f64.to_bits()).unwrap();

    let a: Vec<Component> = with_disabled.enabled_components();
    let b: Vec<Component> = without.enabled_components();
    assert_eq!(a, b);
}

#[test]
fn component_order_does_not_change_the_sum_beyond_rounding() {
    // Two orders of the same three components; the composite sample at
    // each instant is a sum of the same three contributions.
    let mut forward: Engine<u32> = Engine::new();
    forward.add_component(WaveKind::Sine);
    forward.add_component(WaveKind::Square);
    forward.add_component(WaveKind::Sawtooth);
    forward.set_parameter(0, Field::Frequency, 100.0f64.to_bits()).unwrap();
    forward.set_parameter(1, Field::Frequency, 55.5f64.to_bits()).unwrap();
    forward.set_parameter(2, Field::Frequency, 7.25f64.to_bits()).unwrap();
    forward.set_parameter(2, Field::Amplitude, 3.5f64.to_bits()).unwrap();

    let mut backward: Engine<u32> = Engine::new();
    backward.add_component(WaveKind::Sawtooth);
    backward.add_component(WaveKind::Square);
    backward.add_component(WaveKind::Sine);
    backward.set_parameter(2, Field::Frequency, 100.0f64.to_bits()).unwrap();
    backward.set_parameter(1, Field::Frequency, 55.5f64.to_bits()).unwrap();
    backward.set_parameter(0, Field::Frequency, 7.25f64.to_bits()).unwrap();
    backward.set_parameter(0, Field::Amplitude, 3.5f64.to_bits()).unwrap();

    let fc = forward.enabled_components();
    let bc = backward.enabled_components();
    for step in 0..64u32 {
        let t = f64::from(step) / 1000.0;
        let a: f64 = fc.iter().map(|c| sample(c, t)).sum();
        let b: f64 = bc.iter().map(|c| sample(c, t)).sum();
        assert!((a - b).abs() < 1e-9, "order changed the sum at t={t}: {a} vs {b}");
    }
}

/// One component's instantaneous value, per its defining formula.
fn sample(c: &Component, t: f64) -> f64 {
    let frequency = f64::from_bits(c.frequency_bits);
    let amplitude = f64::from_bits(c.amplitude_bits);
    let phase = f64::from_bits(c.phase_bits);
    let cycles = frequency * t + phase;
    match c.kind {
        WaveKind::Sine => amplitude * (std::f64::consts::TAU * cycles).sin(),
        WaveKind::Square => {
            if cycles.fract() < 0.5 {
                amplitude
            } else {
                -amplitude
            }
        }
        WaveKind::Sawtooth => amplitude * (2.0 * cycles.fract() - 1.0),
    }
}
