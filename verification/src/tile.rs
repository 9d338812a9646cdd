//! An album tile's placeholder colour while its cover loads: a stable hash
//! of the album's name picks the hue, saturation and brightness.

use vstd::prelude::*;
use vstd::string::StringSliceAdditionalSpecFns;

verus! {

/// The placeholder hash of `bytes`: times 31 plus each byte in turn,
/// wrapping at 64 bits.
pub open spec fn seed_hash_of(bytes: Seq<u8>) -> u64
    decreases bytes.len(),
{
    if bytes.len() == 0 {
        0
    } else {
        seed_hash_of(bytes.drop_last()).wrapping_mul(31).wrapping_add(bytes.last() as u64)
    }
}

/// The placeholder hash of `seed`'s UTF-8 bytes.
pub fn seed_hash(seed: &str) -> (h: u64)
    ensures
        h == seed_hash_of(seed.spec_bytes()),
{
    let bytes = seed.as_bytes();
    let mut value: u64 = 0;
    let mut i: usize = 0;
    while i < bytes.len()
        invariant
            i <= bytes@.len(),
            bytes@ == seed.spec_bytes(),
            value == seed_hash_of(bytes@.take(i as int)),
        decreases bytes@.len() - i,
    {
        proof {
            assert(bytes@.take(i + 1).drop_last() =~= bytes@.take(i as int));
        }
        value = value.wrapping_mul(31).wrapping_add(bytes[i] as u64);
        i = i + 1;
    }
    proof {
        assert(bytes@.take(bytes@.len() as int) =~= bytes@);
    }
    value
}

/// The placeholder colour of a seed, before it becomes RGB: the hue in
/// degrees (below 360), and the saturation and brightness above their base
/// of 35%, in percent (below 40 and 30).
#[derive(Debug, Clone, Copy, PartialEq, Eq, Structural)]
pub struct PlaceholderHsv {
    pub hue_degrees: u32,
    pub saturation_extra: u32,
    pub brightness_extra: u32,
}

/// The placeholder colour parts for `seed`.
pub fn placeholder_parts(seed: &str) -> (p: PlaceholderHsv)
    ensures
        p.hue_degrees == seed_hash_of(seed.spec_bytes()) % 360,
        p.saturation_extra == (seed_hash_of(seed.spec_bytes()) / 360) % 40,
        p.brightness_extra == (seed_hash_of(seed.spec_bytes()) / 14_400) % 30,
        p.hue_degrees < 360,
        p.saturation_extra < 40,
        p.brightness_extra < 30,
{
    let value = seed_hash(seed);
    PlaceholderHsv {
        hue_degrees: (value % 360) as u32,
        saturation_extra: ((value / 360) % 40) as u32,
        brightness_extra: ((value / 14_400) % 30) as u32,
    }
}

} // verus!
