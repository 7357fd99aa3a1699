use vstd::prelude::*;

verus! {

/// Runs an operation up to `retries + 1` times, returning the first
/// success or the last failure. Whatever comes back is an outcome of the
/// operation itself.
pub fn retry<F, T, E>(f: F, retries: usize) -> (r: Result<T, E>) where F: Fn() -> Result<T, E>
    requires
        call_requires(f, ()),
    ensures
        call_ensures(f, (), r),
{
    let mut i: usize = 0;
    loop
        invariant
            i <= retries,
            call_requires(f, ()),
        decreases retries - i,
    {
        match f() {
            Ok(v) => {
                return Ok(v);
            },
            Err(e) => {
                if i == retries {
                    return Err(e);
                }
            },
        }
        i = i + 1;
    }
}

} // verus!
