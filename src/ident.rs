//! 128-bit identifiers of orders, trades and clients.
use vstd::prelude::*;

verus! {

/// The version and variant bits of an identifier.
pub const V4_MASK: u128 = 0xF000_C000_0000_0000_0000;

/// What the version and variant bits hold in a random (version 4, RFC 4122)
/// identifier.
pub const V4_BITS: u128 = 0x4000_8000_0000_0000_0000;

/// Whether `id` has the version and variant bits of a random identifier.
pub open spec fn is_random_id(id: u128) -> bool {
    id & V4_MASK == V4_BITS
}

/// Relies on uuid's `Uuid::new_v4`, which draws 122 random bits and sets the
/// version nibble to 4 and the variant bits to `10`, and on `Uuid::as_u128`,
/// which reads the 16 bytes as one big-endian number.
#[verifier::external_body]
fn new_v4() -> (r: u128)
    ensures
        is_random_id(r),
{
    uuid::Uuid::new_v4().as_u128()
}

/// A random identifier never is the nil identifier.
pub proof fn lemma_random_id_not_nil(id: u128)
    requires
        is_random_id(id),
    ensures
        id != 0,
{
    assert(id & 0xF000_C000_0000_0000_0000u128 == 0x4000_8000_0000_0000_0000u128 ==> id != 0)
        by (bit_vector);
}

/// A fresh random identifier, never nil.
pub fn fresh_id() -> (r: u128)
    ensures
        is_random_id(r),
        r != 0,
{
    let id = new_v4();
    proof {
        lemma_random_id_not_nil(id);
    }
    id
}

} // verus!
