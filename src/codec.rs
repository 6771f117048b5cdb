//! Versioned framing. Frames that travel over the broker embed their
//! protocol version: two bytes, little-endian, then the frame's body. Frames
//! on a runner's WebSocket carry the body alone, in the version negotiated
//! when the connection opened.

use vstd::prelude::*;
use crate::protocol::PROTOCOL_VERSION;

verus! {

#[derive(Debug, PartialEq, Eq, Structural)]
pub enum CodecError {
    /// Fewer than two bytes: no version to read.
    MissingVersion,
    /// The version is not one this side speaks.
    UnsupportedVersion { version: u16 },
}

/// The two bytes of a version, low byte first.
pub open spec fn version_bytes(version: u16) -> Seq<u8> {
    seq![(version % 256) as u8, (version / 256) as u8]
}

/// The version that two bytes hold, low byte first.
pub open spec fn version_of(lo: u8, hi: u8) -> u16 {
    (lo as int + 256 * hi as int) as u16
}

/// Prefixes a frame's body with its protocol version.
pub fn serialize_with_embedded_version(version: u16, body: &[u8]) -> (r: Vec<u8>)
    ensures
        r@ == version_bytes(version) + body@,
{
    let mut out: Vec<u8> = Vec::new();
    out.push((version % 256) as u8);
    out.push((version / 256) as u8);
    let mut i: usize = 0;
    while i < body.len()
        invariant
            0 <= i <= body@.len(),
            out@ == version_bytes(version) + body@.take(i as int),
        decreases body@.len() - i,
    {
        proof {
            assert(body@.take(i as int + 1) =~= body@.take(i as int).push(body@[i as int]));
        }
        out.push(body[i]);
        i = i + 1;
        proof {
            assert(out@ =~= version_bytes(version) + body@.take(i as int));
        }
    }
    proof {
        assert(body@.take(body@.len() as int) =~= body@);
    }
    out
}

/// Splits a frame into its embedded version and its body.
pub fn deserialize_with_embedded_version(bytes: &[u8]) -> (r: Result<(u16, Vec<u8>), CodecError>)
    ensures
        bytes@.len() < 2 ==> r == Err::<(u16, Vec<u8>), CodecError>(CodecError::MissingVersion),
        bytes@.len() >= 2 ==> (r matches Ok((v, body)) && v == version_of(bytes@[0], bytes@[1])
            && body@ == bytes@.skip(2)),
{
    if bytes.len() < 2 {
        return Err(CodecError::MissingVersion);
    }
    let version: u16 = (bytes[0] as u16) + 256 * (bytes[1] as u16);
    let mut body: Vec<u8> = Vec::new();
    let mut i: usize = 2;
    while i < bytes.len()
        invariant
            2 <= i <= bytes@.len(),
            body@ == bytes@.subrange(2, i as int),
        decreases bytes@.len() - i,
    {
        body.push(bytes[i]);
        i = i + 1;
        proof {
            assert(body@ =~= bytes@.subrange(2, i as int));
        }
    }
    proof {
        assert(bytes@.subrange(2, bytes@.len() as int) =~= bytes@.skip(2));
    }
    Ok((version, body))
}

/// Whether this side speaks protocol version `version`: every version from
/// the first up to the current one.
pub open spec fn is_supported_version(version: u16) -> bool {
    1 <= version && version <= PROTOCOL_VERSION
}

/// A frame on a runner's WebSocket, whose version was negotiated when the
/// connection opened: the frame is its body alone, and is accepted where the
/// negotiated version is one this side speaks.
pub fn deserialize_version(bytes: &[u8], version: u16) -> (r: Result<Vec<u8>, CodecError>)
    ensures
        is_supported_version(version) ==> (r matches Ok(body) && body@ == bytes@),
        !is_supported_version(version) ==> r == Err::<Vec<u8>, CodecError>(
            CodecError::UnsupportedVersion { version },
        ),
{
    if version < 1 || version > PROTOCOL_VERSION {
        return Err(CodecError::UnsupportedVersion { version });
    }
    let mut body: Vec<u8> = Vec::new();
    let mut i: usize = 0;
    while i < bytes.len()
        invariant
            0 <= i <= bytes@.len(),
            body@ == bytes@.take(i as int),
        decreases bytes@.len() - i,
    {
        body.push(bytes[i]);
        i = i + 1;
        proof {
            assert(body@ =~= bytes@.take(i as int));
        }
    }
    proof {
        assert(bytes@.take(bytes@.len() as int) =~= bytes@);
    }
    Ok(body)
}

/// A frame read back is the version and the body it was written with.
pub proof fn lemma_embedded_version_round_trip(version: u16, body: Seq<u8>)
    ensures
        (version_bytes(version) + body).len() >= 2,
        version_of((version_bytes(version) + body)[0], (version_bytes(version) + body)[1]) == version,
        (version_bytes(version) + body).skip(2) == body,
{
    let s = version_bytes(version) + body;
    assert(s[0] == (version % 256) as u8);
    assert(s[1] == (version / 256) as u8);
    assert(s.skip(2) =~= body);
}

} // verus!
