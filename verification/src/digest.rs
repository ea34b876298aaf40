//! The toolchain digest behind a registered plugin's hash.
//!
//! The hash the registry stores for a plugin must change whenever the
//! plugin's toolchain changes, so the host's cache can drop stale build
//! outputs.  It is defined as the 64-bit FNV-1a digest of the plugin
//! executable's content, which the embedding program reads and hands in as
//! bytes.

use vstd::prelude::*;

verus! {

/// FNV-1a over `data[i..]` continuing from the accumulator `acc`.
pub open spec fn spec_fnv1a_from(data: Seq<u8>, i: int, acc: u64) -> u64
    recommends
        0 <= i <= data.len(),
    decreases data.len() - i,
    when 0 <= i <= data.len()
{
    if i >= data.len() {
        acc
    } else {
        spec_fnv1a_from(data, i + 1, (acc ^ (data[i] as u64)).wrapping_mul(0x100000001b3u64))
    }
}

/// The 64-bit FNV-1a digest of `data`.
pub open spec fn spec_toolchain_digest(data: Seq<u8>) -> u64 {
    spec_fnv1a_from(data, 0, 0xcbf29ce484222325u64)
}

/// Digest the content of a plugin executable, as the registry's toolchain
/// hash expects it.
pub fn toolchain_digest(data: &Vec<u8>) -> (h: u64)
    ensures
        h == spec_toolchain_digest(data@),
{
    let mut acc: u64 = 0xcbf29ce484222325;
    let mut i: usize = 0;
    while i < data.len()
        invariant
            i <= data@.len(),
            spec_fnv1a_from(data@, i as int, acc) == spec_toolchain_digest(data@),
        decreases data@.len() - i,
    {
        acc = (acc ^ (data[i] as u64)).wrapping_mul(0x100000001b3);
        i = i + 1;
    }
    acc
}

} // verus!
