//! The two things the engine leaves to chance: a game's id and its target.
//!
//! Nothing in this file is proved. Each function hands one call to an
//! outside crate and states what that crate promises of the result.

use rand::rngs::ThreadRng;
use rand::Rng;
use uuid::Uuid;
use vstd::prelude::*;

verus! {

/// `rand::rngs::ThreadRng`, a handle to the thread's generator. Nothing is
/// known of what it holds.
#[verifier::external_type_specification]
#[verifier::external_body]
pub struct ExThreadRng(ThreadRng);

/// The bits of a 128-bit id that mark it as a random (version 4) UUID: the
/// version digit is 4 and the variant bits are `10`.
pub open spec fn is_random_uuid(id: u128) -> bool {
    id & 0x0000_0000_0000_f000_c000_0000_0000_0000 == 0x0000_0000_0000_4000_8000_0000_0000_0000
}

/// Calls `rand::thread_rng`, which hands out the calling thread's generator.
/// Nothing is claimed of it. It panics if the system gives no random bytes
/// to seed the generator with; no argument causes that and none avoids it.
#[verifier::external_body]
pub(crate) fn thread_generator() -> ThreadRng {
    rand::thread_rng()
}

/// Calls `rand::Rng::gen_range` on the inclusive range from `low` to `high`.
/// Claimed: the number drawn lies in that range. Which one it is, is up to
/// the generator. The call panics on an empty range, which `requires` leaves
/// out. It also panics if the generator is due for new seed and the system
/// gives no random bytes for it; no argument causes that and none avoids
/// it.
#[verifier::external_body]
pub(crate) fn draw_in_range(generator: &mut ThreadRng, low: u8, high: u8) -> (drawn: u8)
    requires
        low <= high,
    ensures
        low <= drawn <= high,
{
    generator.gen_range(low..=high)
}

/// Calls `uuid::Uuid::new_v4` and reads the id as a number with
/// `Uuid::as_u128`. Claimed: the id carries the version and variant bits of
/// a random UUID, which `new_v4` sets on every id it makes; the other bits
/// are random. The call panics if the system gives no random bytes; no
/// argument causes that and none avoids it.
#[verifier::external_body]
pub(crate) fn fresh_uuid() -> (id: u128)
    ensures
        is_random_uuid(id),
{
    Uuid::new_v4().as_u128()
}

} // verus!
