//! Gathering the results of a fallible step applied to `0..n`, in order.
use vstd::prelude::*;

use super::error::ElfError;

verus! {

/// The values `f(0), ..., f(n - 1)` when every step succeeds; otherwise the
/// error of the first step that fails.
pub open spec fn collect<A>(n: nat, f: spec_fn(int) -> Result<A, ElfError>) -> Result<
    Seq<A>,
    ElfError,
>
    decreases n,
{
    if n == 0 {
        Ok(Seq::empty())
    } else {
        match collect((n - 1) as nat, f) {
            Err(e) => Err(e),
            Ok(s) => match f(n - 1) {
                Err(e) => Err(e),
                Ok(x) => Ok(s.push(x)),
            },
        }
    }
}

/// Once a prefix fails, every longer prefix fails with the same error.
pub proof fn lemma_collect_err_stable<A>(
    f: spec_fn(int) -> Result<A, ElfError>,
    m: nat,
    n: nat,
)
    requires
        m <= n,
        collect(m, f) is Err,
    ensures
        collect(n, f) == collect(m, f),
    decreases n - m,
{
    if m < n {
        lemma_collect_err_stable(f, m, (n - 1) as nat);
    }
}

/// A successful collection has one value per step, each the value of its step.
pub proof fn lemma_collect_ok<A>(f: spec_fn(int) -> Result<A, ElfError>, n: nat)
    requires
        collect(n, f) is Ok,
    ensures
        collect(n, f)->Ok_0.len() == n,
        forall|i: int| 0 <= i < n ==> f(i) == Ok::<A, ElfError>(#[trigger] collect(n, f)->Ok_0[i]),
    decreases n,
{
    if n > 0 {
        lemma_collect_ok(f, (n - 1) as nat);
    }
}

} // verus!
