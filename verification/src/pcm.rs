//! Runs of 16-bit samples, as the MP3 and Vorbis decoders hand them out
//! chunk by chunk, and their place in a container of wider sample codes.

use crate::container::in_range;
use vstd::arithmetic::power2::lemma2_to64;
use vstd::prelude::*;

verus! {

/// The same samples as 32-bit sample codes.
pub open spec fn widened(samples: Seq<i16>) -> Seq<i32> {
    Seq::new(samples.len(), |i: int| samples[i] as i32)
}

/// Every sample code of the run can be represented in 16 bits.
pub open spec fn sixteen_bit(samples: Seq<i32>) -> bool {
    forall|i: int| 0 <= i < samples.len() ==> in_range(#[trigger] samples[i], 16)
}

/// Appends a chunk of 16-bit samples to a run of 32-bit sample codes. A run
/// of 16-bit sample codes stays one.
pub fn append_widened(out: &mut Vec<i32>, chunk: &Vec<i16>)
    ensures
        final(out)@ == old(out)@ + widened(chunk@),
        sixteen_bit(old(out)@) ==> sixteen_bit(final(out)@),
{
    let ghost before = out@;
    let mut i: usize = 0;
    while i < chunk.len()
        invariant
            i <= chunk.len(),
            out@ == before + widened(chunk@.subrange(0, i as int)),
        decreases chunk.len() - i,
    {
        out.push(chunk[i] as i32);
        assert(out@ =~= before + widened(chunk@.subrange(0, i + 1)));
        i = i + 1;
    }
    assert(chunk@.subrange(0, chunk.len() as int) =~= chunk@);
    proof {
        lemma2_to64();
        if sixteen_bit(before) {
            assert forall|j: int| 0 <= j < out@.len() implies in_range(#[trigger] out@[j], 16) by {
                if j >= before.len() {
                    assert(out@[j] == chunk@[j - before.len()] as i32);
                } else {
                    assert(out@[j] == before[j]);
                }
            }
        }
    }
}

} // verus!
