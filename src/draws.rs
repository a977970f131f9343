use vstd::prelude::*;

verus! {

/// Relies on uuid::Uuid::new_v4, read as a number by Uuid::as_u128: a random
/// identifier; nothing is promised of its value.
#[verifier::external_body]
pub(crate) fn new_id() -> (r: u128) {
    uuid::Uuid::new_v4().as_u128()
}

/// Relies on rand::Rng::gen_range over the inclusive range `0..=hi` on rand::thread_rng:
/// a number drawn from that range, which is never empty.
#[verifier::external_body]
pub(crate) fn draw_at_most(hi: u32) -> (r: u32)
    ensures
        r <= hi,
{
    rand::Rng::gen_range(&mut rand::thread_rng(), 0..=hi)
}

/// Relies on rand::random::<bool>: a fair coin; nothing is promised of the outcome.
#[verifier::external_body]
pub(crate) fn coin_flip() -> (r: bool) {
    rand::random::<bool>()
}

} // verus!
