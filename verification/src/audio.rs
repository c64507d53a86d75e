use vstd::prelude::*;

verus! {

/// Replaces the contents of `buffer` with the converted `samples`, in order:
/// one converted value per sample, each a result that `convert` may give
/// for that sample. Whatever `buffer` held before is discarded.
pub fn refill_samples<T, U, F: Fn(&T) -> U>(samples: &[T], buffer: &mut Vec<U>, convert: F)
    requires
        forall|i: int| 0 <= i < samples@.len() ==> call_requires(convert, (&samples@[i],)),
    ensures
        final(buffer)@.len() == samples@.len(),
        forall|i: int|
            0 <= i < samples@.len() ==> call_ensures(
                convert,
                (&samples@[i],),
                #[trigger] final(buffer)@[i],
            ),
{
    buffer.clear();
    let n = samples.len();
    let mut i: usize = 0;
    while i < n
        invariant
            n == samples@.len(),
            i <= n,
            buffer@.len() == i,
            forall|j: int| 0 <= j < samples@.len() ==> call_requires(convert, (&samples@[j],)),
            forall|j: int|
                0 <= j < i ==> call_ensures(convert, (&samples@[j],), #[trigger] buffer@[j]),
        decreases n - i,
    {
        let value = convert(&samples[i]);
        buffer.push(value);
        i = i + 1;
    }
}

} // verus!
