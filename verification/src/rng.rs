//! The one place where the engine draws randomness.

use vstd::prelude::*;
use rand::Rng;

verus! {

/// Relies on rand::thread_rng for the generator and on
/// rand::Rng::gen_range over the non-empty range 0..3: the sampled
/// value lies in that range. Nothing more is assumed of it.
#[verifier::external_body]
pub(crate) fn random_index() -> (r: u8)
    ensures
        r < 3,
{
    rand::thread_rng().gen_range(0..3)
}

} // verus!
