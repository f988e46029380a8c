use vstd::prelude::*;

verus! {

/// A semantic version packed into 16 bits: major in bits 15 to 10, minor in
/// bits 9 to 4, patch in bits 3 to 0.
#[derive(Debug, Clone, Copy, PartialEq, Eq, Structural)]
pub struct Version(pub u16);

impl Version {
    /// The packed value of a version; each part is masked to its width.
    pub open spec fn spec_pack(major: u8, minor: u8, patch: u8) -> u16 {
        ((major & 0x3f) as u16) << 10u16 | ((minor & 0x3f) as u16) << 4u16 | (patch & 0xf) as u16
    }

    pub open spec fn spec_major(self) -> u8 {
        ((self.0 >> 10u16) & 0x3f) as u8
    }

    pub open spec fn spec_minor(self) -> u8 {
        ((self.0 >> 4u16) & 0x3f) as u8
    }

    pub open spec fn spec_patch(self) -> u8 {
        (self.0 & 0xf) as u8
    }

    /// Packs a version. Parts too wide for their field are silently truncated
    /// to their low bits.
    pub fn new(major: u8, minor: u8, patch: u8) -> (r: Version)
        ensures
            r.0 == Version::spec_pack(major, minor, patch),
            r.spec_major() == major & 0x3f,
            r.spec_minor() == minor & 0x3f,
            r.spec_patch() == patch & 0xf,
    {
        proof {
            lemma_version_parts(major, minor, patch);
        }
        Version(((major & 0x3f) as u16) << 10u16 | ((minor & 0x3f) as u16) << 4u16 | (patch
            & 0xf) as u16)
    }

    pub fn major(&self) -> (r: u8)
        ensures
            r == self.spec_major(),
    {
        ((self.0 >> 10u16) & 0x3f) as u8
    }

    pub fn minor(&self) -> (r: u8)
        ensures
            r == self.spec_minor(),
    {
        ((self.0 >> 4u16) & 0x3f) as u8
    }

    pub fn patch(&self) -> (r: u8)
        ensures
            r == self.spec_patch(),
    {
        (self.0 & 0xf) as u8
    }
}

/// Packing a version and reading its parts back gives each part masked to
/// its width: six bits for major and minor, four for patch.
pub proof fn lemma_version_parts(major: u8, minor: u8, patch: u8)
    ensures
        Version(Version::spec_pack(major, minor, patch)).spec_major() == major & 0x3f,
        Version(Version::spec_pack(major, minor, patch)).spec_minor() == minor & 0x3f,
        Version(Version::spec_pack(major, minor, patch)).spec_patch() == patch & 0xf,
{
    let v = Version::spec_pack(major, minor, patch);
    assert(v == ((major & 0x3f) as u16) << 10u16 | ((minor & 0x3f) as u16) << 4u16 | (patch
        & 0xf) as u16 ==> {
        &&& ((v >> 10u16) & 0x3f) as u8 == major & 0x3f
        &&& ((v >> 4u16) & 0x3f) as u8 == minor & 0x3f
        &&& (v & 0xf) as u8 == patch & 0xf
    }) by (bit_vector);
}

} // verus!
