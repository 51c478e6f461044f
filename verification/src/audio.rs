//! The audio pass-through: one channel's worth of samples copied to the
//! output exactly as it came in. The plugin does no audio processing; the
//! host's output buffer for a channel is the copy this function returns.

use vstd::prelude::*;

verus! {

/// Copy one channel of samples unchanged: the result holds exactly the
/// input samples, in the same order.
pub fn copy_samples<T: Copy>(input: &[T]) -> (out: Vec<T>)
    ensures
        out@ == input@,
{
    let mut out: Vec<T> = Vec::new();
    let mut i: usize = 0;
    while i < input.len()
        invariant
            i <= input.len(),
            out@ == input@.take(i as int),
        decreases input.len() - i,
    {
        out.push(input[i]);
        proof {
            assert(input@.take(i as int + 1) =~= input@.take(i as int).push(input@[i as int]));
        }
        i += 1;
    }
    proof {
        assert(input@.take(input@.len() as int) =~= input@);
    }
    out
}

} // verus!
