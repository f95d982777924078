//! Small helpers: a fixed-seed random vector and sortedness checks.

use vstd::prelude::*;

use rand::RngExt;
use rand::SeedableRng;

verus! {

/// The first `n` values of the fixed generator stream that
/// [`new_u32_vec`] draws from.  The seed is a constant, so the stream
/// is a function of the requested length alone: two calls with equal
/// `n` return element-wise identical vectors.
pub uninterp spec fn seeded_u32_stream(n: int) -> Seq<u32>;

/// Relies on `rand_pcg::Pcg64Mcg::from_seed` and
/// `rand::Rng::sample_iter`: `n` values drawn from a generator seeded
/// with zeroes — the fixed stream [`seeded_u32_stream`], `n` values
/// long.
#[verifier::external_body]
pub fn new_u32_vec(n: usize) -> (r: Vec<u32>)
    ensures
        r@.len() == n,
        r@ == seeded_u32_stream(n as int),
{
    let rng = rand_pcg::Pcg64Mcg::from_seed([0;16]);
    rng.sample_iter(rand::distr::StandardUniform).take(n).collect()
}

/// Whether `s` never decreases from one element to the next.
pub open spec fn sorted_ascending(s: Seq<u32>) -> bool {
    forall|i: int| 0 < i < s.len() ==> #[trigger] s[i - 1] <= s[i]
}

/// Whether `s` never increases from one element to the next.
pub open spec fn sorted_descending(s: Seq<u32>) -> bool {
    forall|i: int| 0 < i < s.len() ==> #[trigger] s[i - 1] >= s[i]
}

/// Whether each adjacent pair of `x` is in ascending order.
pub fn is_sorted_ascending(x: &[u32]) -> (r: bool)
    ensures
        r == sorted_ascending(x@),
{
    let mut i: usize = 1;
    while i < x.len()
        invariant
            1 <= i,
            i <= x@.len() || x@.len() == 0,
            forall|j: int| 0 < j < i && j < x@.len() ==> #[trigger] x@[j - 1] <= x@[j],
        decreases x@.len() - i,
    {
        if x[i - 1] > x[i] {
            return false;
        }
        i = i + 1;
    }
    true
}

/// Whether each adjacent pair of `x` is in descending order.
pub fn is_sorted_descending(x: &[u32]) -> (r: bool)
    ensures
        r == sorted_descending(x@),
{
    let mut i: usize = 1;
    while i < x.len()
        invariant
            1 <= i,
            i <= x@.len() || x@.len() == 0,
            forall|j: int| 0 < j < i && j < x@.len() ==> #[trigger] x@[j - 1] >= x@[j],
        decreases x@.len() - i,
    {
        if x[i - 1] < x[i] {
            return false;
        }
        i = i + 1;
    }
    true
}

/// Adds two machine integers; the sum must fit in `i32`.
pub fn add_value(a: i32, b: i32) -> (r: i32)
    requires
        i32::MIN <= a + b <= i32::MAX,
    ensures
        r == a + b,
{
    a + b
}

/// Append `"world!"` to the greeting half it belongs with.
pub fn str_append(s1: &str) -> (r: String)
    requires
        s1@ == "Hello, "@,
    ensures
        r@ == "Hello, world!"@,
{
    let r = s1.to_owned().concat("world!");
    proof {
        reveal_strlit("Hello, ");
        reveal_strlit("world!");
        reveal_strlit("Hello, world!");
        assert(r@ =~= "Hello, world!"@);
    }
    r
}

} // verus!
