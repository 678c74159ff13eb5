//! Driver and library version numbers.
use vstd::prelude::*;

verus! {

/// Represents a D3XX driver or library version number.
#[derive(Debug, Clone, Copy, Default, PartialEq, Eq, Structural, PartialOrd, Ord)]
pub struct Version {
    pub major: u8,
    pub minor: u8,
    pub svn: u8,
    pub build: u8,
}

/// The 32-bit number that packs four version bytes, most significant first.
pub open spec fn packed_version(major: u8, minor: u8, svn: u8, build: u8) -> u32 {
    (major as u32) << 24u32 | (minor as u32) << 16u32 | (svn as u32) << 8u32 | build as u32
}

impl Version {
    /// The version that a packed 32-bit version number stands for.
    pub open spec fn spec_new(version: u32) -> Version {
        Version {
            major: ((version >> 24u32) & 0xffu32) as u8,
            minor: ((version >> 16u32) & 0xffu32) as u8,
            svn: ((version >> 8u32) & 0xffu32) as u8,
            build: (version & 0xffu32) as u8,
        }
    }

    /// Create a new version from a raw version number: bits 31..24 give the
    /// major number, then minor, subversion and build, one byte each.
    pub fn new(version: u32) -> (r: Version)
        ensures
            r == Version::spec_new(version),
    {
        Version {
            major: ((version >> 24) & 0xff) as u8,
            minor: ((version >> 16) & 0xff) as u8,
            svn: ((version >> 8) & 0xff) as u8,
            build: (version & 0xff) as u8,
        }
    }

    /// Major version number.
    pub fn major(&self) -> (r: u8)
        ensures
            r == self.major,
    {
        self.major
    }

    /// Minor version number.
    pub fn minor(&self) -> (r: u8)
        ensures
            r == self.minor,
    {
        self.minor
    }

    /// Subversion number.
    pub fn svn(&self) -> (r: u8)
        ensures
            r == self.svn,
    {
        self.svn
    }

    /// Build number.
    pub fn build(&self) -> (r: u8)
        ensures
            r == self.build,
    {
        self.build
    }
}

/// Decoding a packed version number gives back the four bytes that were packed.
pub proof fn lemma_version_round_trip(major: u8, minor: u8, svn: u8, build: u8)
    ensures
        Version::spec_new(packed_version(major, minor, svn, build)) == (Version {
            major,
            minor,
            svn,
            build,
        }),
{
    let (a, b, c, d) = (major as u32, minor as u32, svn as u32, build as u32);
    assert(a < 256 && b < 256 && c < 256 && d < 256);
    let v = a << 24u32 | b << 16u32 | c << 8u32 | d;
    assert((v >> 24u32) & 0xffu32 == a) by (bit_vector)
        requires
            a < 256 && b < 256 && c < 256 && d < 256,
            v == a << 24u32 | b << 16u32 | c << 8u32 | d,
    ;
    assert((v >> 16u32) & 0xffu32 == b) by (bit_vector)
        requires
            a < 256 && b < 256 && c < 256 && d < 256,
            v == a << 24u32 | b << 16u32 | c << 8u32 | d,
    ;
    assert((v >> 8u32) & 0xffu32 == c) by (bit_vector)
        requires
            a < 256 && b < 256 && c < 256 && d < 256,
            v == a << 24u32 | b << 16u32 | c << 8u32 | d,
    ;
    assert(v & 0xffu32 == d) by (bit_vector)
        requires
            a < 256 && b < 256 && c < 256 && d < 256,
            v == a << 24u32 | b << 16u32 | c << 8u32 | d,
    ;
}

} // verus!
