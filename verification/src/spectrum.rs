//! The band-limited shape of the magnitude spectrum.
//!
//! An `n`-point forward transform yields `n` bins; bin `i` has centre
//! frequency `i * rate / n` hertz.  The displayed spectrum is the prefix
//! of bins whose frequency lies strictly below `rate / 2.56`, a deliberate
//! safety margin under the Nyquist frequency `rate / 2` that hides the
//! unreliable bins near the folding point.  With `rate > 0`,
//!
//! ```text
//! i * rate / n < rate / 2.56    <=>    i / n < 25 / 64    <=>    64 * i < 25 * n
//! ```
//!
//! so membership is exact integer arithmetic, and the kept bins are the
//! first `ceil(25 * n / 64)` ones.  The bin values themselves (magnitudes
//! and frequency labels) are the caller's to produce; this module fixes
//! which bins exist.

use vstd::arithmetic::div_mod::lemma_fundamental_div_mod;
use vstd::arithmetic::div_mod::lemma_mod_bound;
use vstd::prelude::*;

verus! {

/// Whether bin `i` of an `n`-point transform lies below the display
/// cutoff, i.e. has centre frequency strictly below `rate / 2.56`.
pub open spec fn bin_kept(i: int, n: int) -> bool {
    0 <= i < n && 64 * i < 25 * n
}

/// How many bins the band-limited spectrum of an `n`-point transform
/// holds: `ceil(25 * n / 64)`.
pub open spec fn spectrum_len_spec(n: int) -> int
    recommends
        0 <= n,
{
    (25 * n + 63) / 64
}

/// The kept bins are exactly the first `spectrum_len_spec(n)` of the `n`:
/// every kept bin index lies below that count, every index below it is
/// kept, and the count never exceeds `n`.  The spectrum is therefore a
/// prefix — it stops at the first bin whose frequency meets or exceeds
/// `rate / 2.56` — and never contains a bin at or above the cutoff.
pub proof fn lemma_band_limit(n: int)
    requires
        0 <= n,
    ensures
        0 <= spectrum_len_spec(n) <= n,
        forall|i: int| bin_kept(i, n) <==> 0 <= i < spectrum_len_spec(n),
        n >= 1 ==> spectrum_len_spec(n) >= 1,
{
    lemma_fundamental_div_mod(25 * n + 63, 64);
    lemma_mod_bound(25 * n + 63, 64);
}

/// The number of spectrum bins kept for an `n`-point transform.
pub fn spectrum_len(n: u16) -> (r: usize)
    ensures
        r == spectrum_len_spec(n as int),
        r <= n,
{
    proof {
        lemma_band_limit(n as int);
    }
    ((25 * (n as u32) + 63) / 64) as usize
}

/// Builds the band-limited spectrum of an `n`-point transform: one bin
/// for each index below the cutoff, in increasing-frequency order
/// starting at the zero-frequency bin, each produced by `make_bin` from
/// its own index.  With `n == 0` the spectrum is empty — a valid result,
/// not an error.
pub fn spectrum_prefix<B>(n: u16, make_bin: impl Fn(u16) -> B) -> (out: Vec<B>)
    requires
        forall|i: u16| i < n ==> call_requires(make_bin, (i,)),
    ensures
        out.len() == spectrum_len_spec(n as int),
        forall|i: int|
            0 <= i < out.len() ==> call_ensures(make_bin, (i as u16,), #[trigger] out[i]),
{
    proof {
        lemma_band_limit(n as int);
    }
    let len = spectrum_len(n);
    let mut out: Vec<B> = Vec::new();
    let mut i: usize = 0;
    while i < len
        invariant
            i <= len,
            len == spectrum_len_spec(n as int),
            len <= n,
            out.len() == i,
            forall|j: u16| j < n ==> call_requires(make_bin, (j,)),
            forall|j: int|
                0 <= j < i ==> call_ensures(make_bin, (j as u16,), #[trigger] out[j]),
        decreases len - i,
    {
        let bin = make_bin(i as u16);
        out.push(bin);
        i += 1;
    }
    out
}

} // verus!
