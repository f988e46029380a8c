use crate::error::Error;
use crate::version::Version;
use crate::wire::{le_u16, push_bytes, push_u16, read_u16_at, u16_le_bytes};
use vstd::prelude::*;
use vstd::slice::{slice_subrange, slice_to_vec};
use vstd::utf8::{decode_utf8, encode_utf8, valid_utf8};

verus! {

/// What a device tells about itself when asked to identify.
#[derive(Debug, Clone, PartialEq, Eq)]
pub struct Identity {
    pub name: String,
    pub version: Version,
    pub num_cmds: usize,
}

/// An identity as values: the name's characters, the packed version and the
/// command count.
pub struct IdentityView {
    pub name: Seq<char>,
    pub version: u16,
    pub num_cmds: usize,
}

impl View for Identity {
    type V = IdentityView;

    open spec fn view(&self) -> IdentityView {
        IdentityView { name: self.name@, version: self.version.0, num_cmds: self.num_cmds }
    }
}

impl IdentityView {
    /// The identities that the wire form can carry: a name of at most 255
    /// UTF-8 bytes and a command count that fits in a byte.
    pub open spec fn wf(self) -> bool {
        encode_utf8(self.name).len() <= 255 && self.num_cmds <= 255
    }
}

/// The wire form of an identity: the packed version (little-endian), the
/// command count and the name's byte length, each truncated to a byte, then
/// the name's UTF-8 bytes.
pub open spec fn spec_identity_bytes(i: IdentityView) -> Seq<u8> {
    u16_le_bytes(i.version) + seq![
        (i.num_cmds % 256) as u8,
        (encode_utf8(i.name).len() % 256) as u8,
    ] + encode_utf8(i.name)
}

/// Reads an identity from the front of `d`: the identity and the number of
/// bytes it took, or why that failed.
pub open spec fn spec_parse_identity(d: Seq<u8>) -> Result<(IdentityView, nat), Error> {
    if d.len() < 4 {
        Err(Error::IdentityDeserialize)
    } else if d.len() < 4 + d[3] {
        Err(Error::IdentityDeserialize)
    } else if !valid_utf8(d.subrange(4, 4 + d[3])) {
        Err(Error::IdentityInvalidName)
    } else {
        Ok(
            (
                IdentityView {
                    name: decode_utf8(d.subrange(4, 4 + d[3])),
                    version: le_u16(d[0], d[1]),
                    num_cmds: d[2] as usize,
                },
                (4 + d[3]) as nat,
            ),
        )
    }
}

/// Relies on std's `String::from_utf8`: it succeeds exactly on valid UTF-8,
/// and the string then holds those bytes.
#[verifier::external_body]
fn string_from_utf8(bytes: Vec<u8>) -> (r: Option<String>)
    ensures
        r is Some <==> valid_utf8(bytes@),
        r matches Some(s) ==> encode_utf8(s@) == bytes@,
{
    String::from_utf8(bytes).ok()
}

impl Identity {
    /// Appends the wire form of the identity.
    pub fn serialize(&self, out: &mut Vec<u8>)
        ensures
            final(out)@ == old(out)@ + spec_identity_bytes(self@),
    {
        let name = self.name.as_str().as_bytes();
        push_u16(out, self.version.0);
        out.push((self.num_cmds % 256) as u8);
        out.push((name.len() % 256) as u8);
        push_bytes(out, name);
        assert(final(out)@ =~= old(out)@ + spec_identity_bytes(self@));
    }

    /// Reads an identity from the front of `data`, with the number of bytes
    /// it took. The name's length comes from its length byte alone.
    pub fn deserialize(data: &[u8]) -> (r: Result<(Identity, usize), Error>)
        ensures
            match (r, spec_parse_identity(data@)) {
                (Ok((i, n)), Ok((v, m))) => i@ == v && n == m,
                (Err(e), Err(f)) => e == f,
                _ => false,
            },
    {
        if data.len() < 4 {
            return Err(Error::IdentityDeserialize);
        }
        let version = read_u16_at(data, 0);
        let num_cmds = data[2] as usize;
        let name_len = data[3] as usize;
        if data.len() - 4 < name_len {
            return Err(Error::IdentityDeserialize);
        }
        let name_bytes = slice_to_vec(slice_subrange(data, 4, 4 + name_len));
        match string_from_utf8(name_bytes) {
            None => Err(Error::IdentityInvalidName),
            Some(name) => {
                proof {
                    vstd::utf8::encode_utf8_decode_utf8(name@);
                }
                Ok((Identity { name, version: Version(version), num_cmds }, 4 + name_len))
            },
        }
    }
}

/// Reading back the wire form of an identity that the wire form can carry
/// gives that identity, and takes exactly the bytes written.
pub proof fn lemma_identity_round_trip(i: IdentityView)
    requires
        i.wf(),
    ensures
        spec_parse_identity(spec_identity_bytes(i)) == Ok::<(IdentityView, nat), Error>(
            (i, spec_identity_bytes(i).len()),
        ),
{
    let d = spec_identity_bytes(i);
    let b = encode_utf8(i.name);
    assert(d.subrange(4, 4 + d[3]) =~= b);
    vstd::utf8::encode_utf8_valid_utf8(i.name);
    vstd::utf8::encode_utf8_decode_utf8(i.name);
    crate::wire::lemma_u16_le_round_trip(i.version);
}

} // verus!
