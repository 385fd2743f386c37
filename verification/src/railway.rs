//! Adapters for chaining steps that may fail.

use vstd::prelude::*;

verus! {

/// Turns a step that cannot fail into one that always succeeds, so that it
/// can stand in a chain of steps that return a `Result`.
///
/// The returned function accepts every argument that `f` accepts, and on such
/// an argument returns `Ok` of a value that `f` may return for it.
pub fn switch<F, A, B, C>(f: F) -> (g: impl Fn(A) -> Result<B, C>) where F: Fn(A) -> B
    ensures
        forall|x: A| f.requires((x,)) ==> #[trigger] g.requires((x,)),
        forall|x: A, r: Result<B, C>| #[trigger]
            g.ensures((x,), r) ==> r is Ok && f.ensures((x,), r->Ok_0),
{
    move |x: A| -> (r: Result<B, C>)
        requires
            f.requires((x,)),
        ensures
            r is Ok && f.ensures((x,), r->Ok_0),
        { Ok(f(x)) }
}

} // verus!
