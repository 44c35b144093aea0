//! The sampling skeleton of composite synthesis.
//!
//! The composite waveform holds exactly `n` samples; sample `i` is taken
//! at time `i / rate`, each computed from its own index rather than by
//! accumulating a step, so no drift can build up across the trace.  The
//! numeric evaluation of one sample — the time quotient and the sum of
//! the enabled components' contributions — is the caller's `eval`; this
//! module guarantees the trace's length and that every sample is `eval`'s
//! result for exactly its own index.

use vstd::prelude::*;

verus! {

/// Synthesizes a trace of exactly `n` samples, sample `i` being the
/// result of `eval(i)`.  An empty component set or a zero `n` are not
/// errors: `eval` decides the former, and `n == 0` yields an empty trace.
pub fn synthesize<S>(n: u16, eval: impl Fn(u16) -> S) -> (out: Vec<S>)
    requires
        forall|i: u16| i < n ==> call_requires(eval, (i,)),
    ensures
        out.len() == n,
        forall|i: int| 0 <= i < n ==> call_ensures(eval, (i as u16,), #[trigger] out[i]),
{
    let mut out: Vec<S> = Vec::new();
    let mut i: u16 = 0;
    while i < n
        invariant
            i <= n,
            out.len() == i,
            forall|j: u16| j < n ==> call_requires(eval, (j,)),
            forall|j: int| 0 <= j < i ==> call_ensures(eval, (j as u16,), #[trigger] out[j]),
        decreases n - i,
    {
        let s = eval(i);
        out.push(s);
        i += 1;
    }
    out
}

} // verus!
