//! Encoding of kernel device numbers into the form that user space sees.

use vstd::prelude::*;

verus! {

/// Number of bits that the kernel's device number keeps for the minor number.
pub const MINORBITS: u32 = 20;

/// Mask of the minor number inside the kernel's device number.
pub const MINORMASK: u32 = 0xf_ffff;

/// Major number of a kernel device number.
pub open spec fn spec_major(dev: u32) -> int {
    dev as int / 0x10_0000
}

/// Minor number of a kernel device number.
pub open spec fn spec_minor(dev: u32) -> int {
    dev as int % 0x10_0000
}

/// The encoded device identifier: the low eight bits of the minor number,
/// then the twelve bits of the major number, then the remaining twelve bits
/// of the minor number.
pub open spec fn spec_encode(dev: u32) -> int {
    spec_minor(dev) % 0x100 + spec_major(dev) * 0x100 + (spec_minor(dev) / 0x100) * 0x10_0000
}

/// Returns the major number of the kernel device number `dev`.
pub fn major(dev: u32) -> (m: u32)
    ensures
        m == spec_major(dev),
        m < 0x1000,
{
    assert(dev >> 20 == dev / 0x10_0000 && dev >> 20 < 0x1000) by (bit_vector);
    dev >> MINORBITS
}

/// Returns the minor number of the kernel device number `dev`.
pub fn minor(dev: u32) -> (m: u32)
    ensures
        m == spec_minor(dev),
        m < 0x10_0000,
{
    assert(dev & 0xf_ffff == dev % 0x10_0000 && dev & 0xf_ffff < 0x10_0000) by (bit_vector);
    dev & MINORMASK
}

/// Encodes the kernel device number `dev` for user space.
pub fn encode(dev: u32) -> (encoded: u32)
    ensures
        encoded == spec_encode(dev),
{
    let major: u32 = major(dev);
    let minor: u32 = minor(dev);
    assert((minor & 0xff) | (major << 8) | ((minor & !0xffu32) << 12) == minor % 0x100 + major
        * 0x100 + (minor / 0x100) * 0x10_0000) by (bit_vector)
        requires
            major < 0x1000,
            minor < 0x10_0000,
    ;
    (minor & 0xff) | (major << 8) | ((minor & !0xff) << 12)
}

/// The encoding loses nothing: the kernel device number can be read back from
/// the encoded identifier.
pub proof fn lemma_encode_is_injective(a: u32, b: u32)
    requires
        spec_encode(a) == spec_encode(b),
    ensures
        a == b,
{
}

} // verus!
